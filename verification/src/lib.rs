//! plato-sonar-text: the text layer of acoustic scene analysis.
//!
//! The library turns the outcome of signal measurements on audio frames
//! into text for agents: sound labels, scene summaries, spectrum
//! descriptions and severity-ranked alerts. It also holds the integer and
//! sequence work that the measurements rest on: splitting interleaved
//! stereo frames into channels, counting sign changes, and accumulating
//! frames for an ambient baseline.

use vstd::prelude::*;

pub mod channels;
pub mod crossings;
pub mod classify;
pub mod alerts;
pub mod baseline;
pub mod summary;

verus! {

/// Estimates the direction of sound sources from inter-channel differences.
///
/// The estimate itself is a floating-point computation on the left and
/// right channels that [`channels::left_channel`] and
/// [`channels::right_channel`] take apart.
pub struct DirectionEstimator;

} // verus!

pub use alerts::{assess_alerts, render_alert, severity_name, AlertNotice, EventAssessment};
pub use baseline::BaselineFrames;
pub use channels::{left_channel, right_channel};
pub use classify::{classify, FrameTraits, SoundLabel};
pub use crossings::count_sign_changes;
pub use summary::{build_summary, describe_spectrum, SceneLevel, SpectrumShape};
