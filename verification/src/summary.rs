//! Text descriptions of a scene and of an ambient spectrum.

use vstd::prelude::*;

verus! {

/// The band that a scene's overall level (dB relative to full scale) falls in.
#[derive(Clone, Copy, Debug, PartialEq, Eq, Structural)]
pub enum SceneLevel {
    /// Below -50 dB.
    Quiet,
    /// From -50 dB to below -30 dB.
    Low,
    /// From -30 dB to below -10 dB.
    Moderate,
    /// -10 dB and above.
    High,
}

/// The word for a level band in a summary.
pub open spec fn level_word(level: SceneLevel) -> Seq<char> {
    match level {
        SceneLevel::Quiet => "quiet"@,
        SceneLevel::Low => "low"@,
        SceneLevel::Moderate => "moderate"@,
        SceneLevel::High => "high"@,
    }
}

/// The summary of a scene. A quiet scene is "Quiet environment". Otherwise
/// the parts "voice detected" (when voice is active), "dominant sound:
/// <label>" (when an event was detected) and "sound level: <band> (<level>
/// dB)" are joined by ", ".
pub open spec fn summary_text(
    level: SceneLevel,
    voice_active: bool,
    dominant: Option<Seq<char>>,
    level_db: Seq<char>,
) -> Seq<char> {
    if level == SceneLevel::Quiet {
        "Quiet environment"@
    } else {
        let voice = if voice_active {
            "voice detected, "@
        } else {
            Seq::<char>::empty()
        };
        let sound = match dominant {
            Some(label) => "dominant sound: "@ + label + ", "@,
            None => Seq::<char>::empty(),
        };
        voice + sound + "sound level: "@ + level_word(level) + " ("@ + level_db + " dB)"@
    }
}

/// Builds the summary of a scene from its level band, whether voice is
/// active, the label of the first detected event, and the level in dB as
/// displayed (one decimal).
pub fn build_summary(level: SceneLevel, voice_active: bool, dominant: Option<&str>, level_db: &str) -> (summary: String)
    ensures
        summary@ == summary_text(
            level,
            voice_active,
            match dominant {
                Some(label) => Some(label@),
                None => None,
            },
            level_db@,
        ),
{
    if level == SceneLevel::Quiet {
        return String::from_str("Quiet environment");
    }
    let mut summary = String::new();
    if voice_active {
        summary.append("voice detected, ");
    }
    match dominant {
        Some(label) => {
            summary.append("dominant sound: ");
            summary.append(label);
            summary.append(", ");
        },
        None => {},
    }
    summary.append("sound level: ");
    let word = match level {
        SceneLevel::Quiet => "quiet",
        SceneLevel::Low => "low",
        SceneLevel::Moderate => "moderate",
        SceneLevel::High => "high",
    };
    summary.append(word);
    summary.append(" (");
    summary.append(level_db);
    summary.append(" dB)");
    let ghost dom = match dominant {
        Some(label) => Some(label@),
        None => None,
    };
    assert(summary@ =~= summary_text(level, voice_active, dom, level_db@));
    summary
}

/// Every summary is longer than five characters; a quiet scene's summary
/// says "Quiet".
pub proof fn lemma_summary_is_descriptive(
    level: SceneLevel,
    voice_active: bool,
    dominant: Option<Seq<char>>,
    level_db: Seq<char>,
)
    ensures
        summary_text(level, voice_active, dominant, level_db).len() > 5,
        level == SceneLevel::Quiet ==> summary_text(level, voice_active, dominant, level_db)
            .subrange(0, 5) == "Quiet"@,
{
    reveal_strlit("Quiet environment");
    reveal_strlit("Quiet");
    reveal_strlit("sound level: ");
    reveal_strlit(" (");
    reveal_strlit(" dB)");
    if level == SceneLevel::Quiet {
        assert("Quiet environment"@.subrange(0, 5) =~= "Quiet"@);
    } else {
        let voice = if voice_active {
            "voice detected, "@
        } else {
            Seq::<char>::empty()
        };
        let sound = match dominant {
            Some(label) => "dominant sound: "@ + label + ", "@,
            None => Seq::<char>::empty(),
        };
        assert(summary_text(level, voice_active, dominant, level_db).len() == voice.len()
            + sound.len() + 13 + level_word(level).len() + 2 + level_db.len() + 4);
    }
}

/// A quiet scene is summarised as "Quiet environment", whatever voice,
/// events and level text come with it.
pub proof fn lemma_quiet_summary(voice_active: bool, dominant: Option<Seq<char>>, level_db: Seq<char>)
    ensures
        summary_text(SceneLevel::Quiet, voice_active, dominant, level_db) == "Quiet environment"@,
{
}

/// In a scene that is not quiet, active voice puts "voice detected, " in
/// front of the summary that the scene would have without it.
pub proof fn lemma_voice_leads_summary(
    level: SceneLevel,
    dominant: Option<Seq<char>>,
    level_db: Seq<char>,
)
    requires
        level != SceneLevel::Quiet,
    ensures
        summary_text(level, true, dominant, level_db) == "voice detected, "@ + summary_text(
            level,
            false,
            dominant,
            level_db,
        ),
{
    let sound = match dominant {
        Some(label) => "dominant sound: "@ + label + ", "@,
        None => Seq::<char>::empty(),
    };
    let rest = "sound level: "@ + level_word(level) + " ("@ + level_db + " dB)"@;
    assert(summary_text(level, true, dominant, level_db) =~= "voice detected, "@ + (sound + rest));
    assert(summary_text(level, false, dominant, level_db) =~= sound + rest);
}

/// In a scene that is not quiet, whatever its level band, the first event's
/// label appears as "dominant sound: <label>, " right before the sound
/// level part.
pub proof fn lemma_dominant_sound_precedes_level(
    level: SceneLevel,
    label: Seq<char>,
    level_db: Seq<char>,
)
    requires
        level != SceneLevel::Quiet,
    ensures
        summary_text(level, false, Some(label), level_db) == "dominant sound: "@ + label + ", "@
            + summary_text(level, false, None, level_db),
{
    let rest = "sound level: "@ + level_word(level) + " ("@ + level_db + " dB)"@;
    assert(summary_text(level, false, Some(label), level_db) =~= "dominant sound: "@ + label
        + ", "@ + rest);
    assert(summary_text(level, false, None, level_db) =~= rest);
}

/// The sound level part names the band of a scene that is not quiet: "low"
/// from -50 to below -30 dB, "moderate" from -30 to below -10 dB, "high"
/// above, followed by the level in dB.
pub proof fn lemma_level_part(level_db: Seq<char>)
    ensures
        summary_text(SceneLevel::Low, false, None, level_db) == "sound level: "@ + "low"@ + " ("@
            + level_db + " dB)"@,
        summary_text(SceneLevel::Moderate, false, None, level_db) == "sound level: "@
            + "moderate"@ + " ("@ + level_db + " dB)"@,
        summary_text(SceneLevel::High, false, None, level_db) == "sound level: "@ + "high"@
            + " ("@ + level_db + " dB)"@,
{
    assert(summary_text(SceneLevel::Low, false, None, level_db) =~= "sound level: "@ + "low"@
        + " ("@ + level_db + " dB)"@);
    assert(summary_text(SceneLevel::Moderate, false, None, level_db) =~= "sound level: "@
        + "moderate"@ + " ("@ + level_db + " dB)"@);
    assert(summary_text(SceneLevel::High, false, None, level_db) =~= "sound level: "@ + "high"@
        + " ("@ + level_db + " dB)"@);
}

/// The character of an ambient spectrum.
#[derive(Clone, Copy, Debug, PartialEq, Eq, Structural)]
pub enum SpectrumShape {
    /// The average level is below -50 dB.
    VeryQuiet,
    /// Otherwise, the spectral flatness is above 0.7.
    Noisy,
    /// Otherwise, the estimated frequency is above 0 Hz.
    Tonal,
    /// None of the above.
    Flat,
}

/// The description of an ambient spectrum, given its flatness (two
/// decimals) and its centre frequency (whole Hz) as displayed.
pub open spec fn spectrum_text(shape: SpectrumShape, flatness: Seq<char>, center: Seq<char>) -> Seq<
    char,
> {
    match shape {
        SpectrumShape::VeryQuiet => "very quiet, minimal spectral content"@,
        SpectrumShape::Noisy => "noisy, broadband (flatness: "@ + flatness + "), ~"@ + center
            + " Hz center"@,
        SpectrumShape::Tonal => "tonal, center ~"@ + center + " Hz, flatness "@ + flatness,
        SpectrumShape::Flat => "flat, no dominant frequency"@,
    }
}

/// Describes an ambient spectrum.
pub fn describe_spectrum(shape: SpectrumShape, flatness: &str, center: &str) -> (description:
    String)
    ensures
        description@ == spectrum_text(shape, flatness@, center@),
{
    match shape {
        SpectrumShape::VeryQuiet => String::from_str("very quiet, minimal spectral content"),
        SpectrumShape::Noisy => {
            let mut d = String::from_str("noisy, broadband (flatness: ");
            d.append(flatness);
            d.append("), ~");
            d.append(center);
            d.append(" Hz center");
            d
        },
        SpectrumShape::Tonal => {
            let mut d = String::from_str("tonal, center ~");
            d.append(center);
            d.append(" Hz, flatness ");
            d.append(flatness);
            d
        },
        SpectrumShape::Flat => String::from_str("flat, no dominant frequency"),
    }
}

/// No spectrum description is empty.
pub proof fn lemma_spectrum_text_nonempty(shape: SpectrumShape, flatness: Seq<char>, center: Seq<char>)
    ensures
        spectrum_text(shape, flatness, center).len() > 0,
{
    reveal_strlit("very quiet, minimal spectral content");
    reveal_strlit("noisy, broadband (flatness: ");
    reveal_strlit("tonal, center ~");
    reveal_strlit("flat, no dominant frequency");
}

/// Each spectrum description holds the flatness and centre frequency
/// texts in full: a tonal spectrum reads "tonal, center ~<centre> Hz,
/// flatness <flatness>", a noisy one "noisy, broadband (flatness:
/// <flatness>), ~<centre> Hz center"; the other two are fixed sentences.
pub proof fn lemma_spectrum_texts(flatness: Seq<char>, center: Seq<char>)
    ensures
        spectrum_text(SpectrumShape::Tonal, flatness, center) == "tonal, center ~"@ + center
            + " Hz, flatness "@ + flatness,
        spectrum_text(SpectrumShape::Tonal, flatness, center).subrange(15, 15 + center.len() as int)
            == center,
        spectrum_text(SpectrumShape::Noisy, flatness, center) == "noisy, broadband (flatness: "@
            + flatness + "), ~"@ + center + " Hz center"@,
        spectrum_text(SpectrumShape::Noisy, flatness, center).subrange(28, 28 + flatness.len() as int)
            == flatness,
        spectrum_text(SpectrumShape::VeryQuiet, flatness, center)
            == "very quiet, minimal spectral content"@,
        spectrum_text(SpectrumShape::Flat, flatness, center) == "flat, no dominant frequency"@,
{
    reveal_strlit("tonal, center ~");
    reveal_strlit("noisy, broadband (flatness: ");
    let t = spectrum_text(SpectrumShape::Tonal, flatness, center);
    assert(t.subrange(15, 15 + center.len() as int) =~= center);
    let n = spectrum_text(SpectrumShape::Noisy, flatness, center);
    assert(n.subrange(28, 28 + flatness.len() as int) =~= flatness);
}

} // verus!
