//! Labelling a frame from how its measurements compare with the
//! classifier's thresholds.

use vstd::prelude::*;

verus! {

/// The kinds of sound that the classifier tells apart.
#[derive(Clone, Copy, Debug, PartialEq, Eq, Structural)]
pub enum SoundLabel {
    Silence,
    Sine,
    Noise,
    SpeechLike,
    Unknown,
}

/// The text of a label, as it appears in events, summaries and alerts.
pub open spec fn label_text(label: SoundLabel) -> Seq<char> {
    match label {
        SoundLabel::Silence => "silence"@,
        SoundLabel::Sine => "sine"@,
        SoundLabel::Noise => "noise"@,
        SoundLabel::SpeechLike => "speech-like"@,
        SoundLabel::Unknown => "unknown"@,
    }
}

/// The classifier's confidence in a label, in thousandths.
pub open spec fn label_confidence_permille(label: SoundLabel) -> u16 {
    match label {
        SoundLabel::Silence => 950,
        SoundLabel::Sine => 850,
        SoundLabel::Noise => 800,
        SoundLabel::SpeechLike => 700,
        SoundLabel::Unknown => 500,
    }
}

impl SoundLabel {
    /// The text of this label.
    pub fn text(&self) -> (s: String)
        ensures
            s@ == label_text(*self),
    {
        match self {
            SoundLabel::Silence => String::from_str("silence"),
            SoundLabel::Sine => String::from_str("sine"),
            SoundLabel::Noise => String::from_str("noise"),
            SoundLabel::SpeechLike => String::from_str("speech-like"),
            SoundLabel::Unknown => String::from_str("unknown"),
        }
    }

    /// The classifier's confidence in this label, in thousandths
    /// (silence 0.95, sine 0.85, noise 0.80, speech-like 0.70, unknown 0.50).
    pub fn confidence_permille(&self) -> (c: u16)
        ensures
            c == label_confidence_permille(*self),
    {
        match self {
            SoundLabel::Silence => 950,
            SoundLabel::Sine => 850,
            SoundLabel::Noise => 800,
            SoundLabel::SpeechLike => 700,
            SoundLabel::Unknown => 500,
        }
    }
}

/// How a frame's measurements compare with the classifier's thresholds.
#[derive(Clone, Copy, Debug, PartialEq, Eq, Structural)]
pub struct FrameTraits {
    /// The level is below -50 dB relative to full scale.
    pub quiet: bool,
    /// The zero-crossing rate is below 0.15, the frequency above 20 Hz and
    /// the RMS above 0.01: a clean periodic signal.
    pub tonal: bool,
    /// The spectral flatness or the zero-crossing rate is above 0.3.
    pub broadband: bool,
    /// The RMS is above 0.005 and the frequency strictly between 50 and
    /// 600 Hz.
    pub speech_band: bool,
}

/// The label of a frame: the first rule that applies, in the order silence,
/// sine, noise, speech-like; unknown when none does.
pub open spec fn classification(traits: FrameTraits) -> SoundLabel {
    if traits.quiet {
        SoundLabel::Silence
    } else if traits.tonal {
        SoundLabel::Sine
    } else if traits.broadband {
        SoundLabel::Noise
    } else if traits.speech_band {
        SoundLabel::SpeechLike
    } else {
        SoundLabel::Unknown
    }
}

/// Labels a frame from how its measurements compare with the thresholds.
pub fn classify(traits: &FrameTraits) -> (label: SoundLabel)
    ensures
        label == classification(*traits),
        (label == SoundLabel::Silence) == traits.quiet,
        (label == SoundLabel::Sine) == (!traits.quiet && traits.tonal),
        (label == SoundLabel::Noise) == (!traits.quiet && !traits.tonal && traits.broadband),
        (label == SoundLabel::SpeechLike) == (!traits.quiet && !traits.tonal && !traits.broadband
            && traits.speech_band),
        (label == SoundLabel::Unknown) == (!traits.quiet && !traits.tonal && !traits.broadband
            && !traits.speech_band),
{
    if traits.quiet {
        SoundLabel::Silence
    } else if traits.tonal {
        SoundLabel::Sine
    } else if traits.broadband {
        SoundLabel::Noise
    } else if traits.speech_band {
        SoundLabel::SpeechLike
    } else {
        SoundLabel::Unknown
    }
}

/// Different labels have different texts, so a label can be told from
/// its text alone.
pub proof fn lemma_label_text_injective(a: SoundLabel, b: SoundLabel)
    ensures
        label_text(a) == label_text(b) <==> a == b,
{
    reveal_strlit("silence");
    reveal_strlit("sine");
    reveal_strlit("noise");
    reveal_strlit("speech-like");
    reveal_strlit("unknown");
    if a != b {
        assert(label_text(a)[0] != label_text(b)[0] || label_text(a).len() != label_text(b).len()
            || label_text(a)[1] != label_text(b)[1]);
    }
}

/// Each label is given exactly when its rule applies and no earlier rule
/// in the order silence, sine, noise, speech-like does: a quiet frame is
/// silence whatever else holds, a tonal frame that is not quiet is a sine
/// whether or not it is also broadband or in the speech band, and so on.
pub proof fn lemma_classification_rules(traits: FrameTraits)
    ensures
        (classification(traits) == SoundLabel::Silence) == traits.quiet,
        (classification(traits) == SoundLabel::Sine) == (!traits.quiet && traits.tonal),
        (classification(traits) == SoundLabel::Noise) == (!traits.quiet && !traits.tonal
            && traits.broadband),
        (classification(traits) == SoundLabel::SpeechLike) == (!traits.quiet && !traits.tonal
            && !traits.broadband && traits.speech_band),
        (classification(traits) == SoundLabel::Unknown) == (!traits.quiet && !traits.tonal
            && !traits.broadband && !traits.speech_band),
{
}

/// The texts of the labels: "silence", "sine", "noise", "speech-like",
/// "unknown".
pub proof fn lemma_label_texts()
    ensures
        label_text(SoundLabel::Silence) == "silence"@,
        label_text(SoundLabel::Sine) == "sine"@,
        label_text(SoundLabel::Noise) == "noise"@,
        label_text(SoundLabel::SpeechLike) == "speech-like"@,
        label_text(SoundLabel::Unknown) == "unknown"@,
{
}

/// The classifier's confidences: 0.95 for silence, 0.85 for a sine, 0.80
/// for noise, 0.70 for speech-like, 0.50 for unknown; each rule earlier in
/// the order is more confident than the ones after it.
pub proof fn lemma_label_confidences()
    ensures
        label_confidence_permille(SoundLabel::Silence) == 950,
        label_confidence_permille(SoundLabel::Sine) == 850,
        label_confidence_permille(SoundLabel::Noise) == 800,
        label_confidence_permille(SoundLabel::SpeechLike) == 700,
        label_confidence_permille(SoundLabel::Unknown) == 500,
        label_confidence_permille(SoundLabel::Silence) > label_confidence_permille(SoundLabel::Sine)
            > label_confidence_permille(SoundLabel::Noise) > label_confidence_permille(
            SoundLabel::SpeechLike,
        ) > label_confidence_permille(SoundLabel::Unknown),
{
}

} // verus!
