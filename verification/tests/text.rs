use plato_sonar_text::{
    assess_alerts, build_summary, classify, describe_spectrum, render_alert, severity_name,
    AlertNotice, EventAssessment, FrameTraits, SceneLevel, SoundLabel, SpectrumShape,
};

fn event(label: &str, confidence: f64, sudden_rise: Option<&str>) -> EventAssessment {
    EventAssessment {
        label: label.to_string(),
        above_loud_confidence: confidence > 0.8,
        above_unusual_confidence: confidence > 0.4,
        sudden_rise: sudden_rise.map(|s| s.to_string()),
    }
}

fn traits(quiet: bool, tonal: bool, broadband: bool, speech_band: bool) -> FrameTraits {
    FrameTraits { quiet, tonal, broadband, speech_band }
}

#[test]
fn test_check_alerts_flags_loud() {
    let events = vec![event("noise", 0.9, None)];
    let alerts = assess_alerts(&events);
    assert!(!alerts.is_empty());
    assert!(alerts.iter().any(|a| a.severity >= 1));
}

#[test]
fn test_check_alerts_quiet_event() {
    let events = vec![event("silence", 0.95, None)];
    let alerts = assess_alerts(&events);
    assert!(alerts.is_empty());
}

#[test]
fn test_alert_generation_for_loud_noise() {
    let events = vec![event("noise", 0.9, None)];
    let alerts = assess_alerts(&events);
    assert!(!alerts.is_empty());
    assert!(alerts[0].severity >= 1);
}

#[test]
fn loud_noise_warning_text() {
    let alerts = assess_alerts(&[event("noise", 0.9, None)]);
    assert_eq!(alerts.len(), 1);
    assert_eq!(alerts[0].event, 0);
    assert_eq!(alerts[0].severity, 1);
    assert_eq!(alerts[0].description, "Loud noise detected: noise");
    assert_eq!(alerts[0].sound_type, "noise");
}

#[test]
fn classified_noise_confidence_is_not_loud() {
    // The classifier gives noise a confidence of exactly 0.80, which is not above 0.8.
    let confidence = SoundLabel::Noise.confidence_permille() as f64 / 1000.0;
    assert_eq!(confidence, 0.8);
    assert!(assess_alerts(&[event("noise", confidence, None)]).is_empty());
}

#[test]
fn unknown_sound_raises_info() {
    let alerts = assess_alerts(&[event("unknown", 0.5, None)]);
    assert_eq!(alerts.len(), 1);
    assert_eq!(alerts[0].severity, 0);
    assert_eq!(alerts[0].description, "Unusual sound pattern detected");
    assert_eq!(alerts[0].sound_type, "unknown");
    assert!(assess_alerts(&[event("unknown", 0.4, None)]).is_empty());
}

#[test]
fn sudden_rise_raises_critical_after_warning() {
    let alerts = assess_alerts(&[event("noise", 0.95, Some("23.5"))]);
    assert_eq!(alerts.len(), 2);
    assert_eq!(alerts[0].severity, 1);
    assert_eq!(alerts[1].severity, 2);
    assert_eq!(alerts[1].description, "Sudden loud event: noise (23.5 dB above baseline)");
    assert_eq!(alerts[1].sound_type, "noise");
}

#[test]
fn alerts_follow_event_order() {
    let events = vec![
        event("sine", 0.85, Some("30")),
        event("silence", 0.95, None),
        event("unknown", 0.5, Some("21")),
    ];
    let alerts: Vec<AlertNotice> = assess_alerts(&events);
    let summary: Vec<(usize, u8)> = alerts.iter().map(|a| (a.event, a.severity)).collect();
    assert_eq!(summary, vec![(0, 2), (2, 0), (2, 2)]);
    assert_eq!(alerts[0].description, "Sudden loud event: sine (30 dB above baseline)");
    assert_eq!(alerts[2].sound_type, "unknown");
}

#[test]
fn no_events_no_alerts() {
    assert!(assess_alerts(&[]).is_empty());
}

#[test]
fn severity_names() {
    assert_eq!(severity_name(0), "INFO");
    assert_eq!(severity_name(1), "WARNING");
    assert_eq!(severity_name(2), "CRITICAL");
    assert_eq!(severity_name(7), "CRITICAL");
}

#[test]
fn alert_line_format() {
    let line = render_alert(1, "Loud noise detected: noise", "noise", "-45");
    assert_eq!(line, "[WARNING] Loud noise detected: noise (type: noise, dir: -45\u{b0})");
    let line = render_alert(0, "Unusual sound pattern detected", "unknown", "0");
    assert_eq!(line, "[INFO] Unusual sound pattern detected (type: unknown, dir: 0\u{b0})");
}

#[test]
fn classification_priority() {
    assert_eq!(classify(&traits(true, true, true, true)), SoundLabel::Silence);
    assert_eq!(classify(&traits(false, true, true, true)), SoundLabel::Sine);
    assert_eq!(classify(&traits(false, false, true, true)), SoundLabel::Noise);
    assert_eq!(classify(&traits(false, false, false, true)), SoundLabel::SpeechLike);
    assert_eq!(classify(&traits(false, false, false, false)), SoundLabel::Unknown);
}

#[test]
fn label_texts_and_confidences() {
    let all = [
        (SoundLabel::Silence, "silence", 950),
        (SoundLabel::Sine, "sine", 850),
        (SoundLabel::Noise, "noise", 800),
        (SoundLabel::SpeechLike, "speech-like", 700),
        (SoundLabel::Unknown, "unknown", 500),
    ];
    for (label, text, permille) in all {
        assert_eq!(label.text(), text);
        assert_eq!(label.confidence_permille(), permille);
    }
    assert_eq!(SoundLabel::Silence.confidence_permille() as f64 / 1000.0, 0.95);
}

#[test]
fn quiet_summary() {
    let s = build_summary(SceneLevel::Quiet, true, Some("noise"), "-60.0");
    assert_eq!(s, "Quiet environment");
    assert!(s.to_lowercase().contains("quiet"));
}

#[test]
fn full_summary() {
    let s = build_summary(SceneLevel::Moderate, true, Some("sine"), "-15.3");
    assert_eq!(s, "voice detected, dominant sound: sine, sound level: moderate (-15.3 dB)");
    let s = build_summary(SceneLevel::Low, false, None, "-40.0");
    assert_eq!(s, "sound level: low (-40.0 dB)");
    let s = build_summary(SceneLevel::High, false, Some("noise"), "-3.1");
    assert_eq!(s, "dominant sound: noise, sound level: high (-3.1 dB)");
    assert!(s.len() > 5);
}

#[test]
fn spectrum_descriptions() {
    assert_eq!(
        describe_spectrum(SpectrumShape::VeryQuiet, "0.10", "0"),
        "very quiet, minimal spectral content"
    );
    assert_eq!(
        describe_spectrum(SpectrumShape::Noisy, "0.85", "11025"),
        "noisy, broadband (flatness: 0.85), ~11025 Hz center"
    );
    assert_eq!(
        describe_spectrum(SpectrumShape::Tonal, "0.12", "440"),
        "tonal, center ~440 Hz, flatness 0.12"
    );
    assert_eq!(describe_spectrum(SpectrumShape::Flat, "0.50", "0"), "flat, no dominant frequency");
}
