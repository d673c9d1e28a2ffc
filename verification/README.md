# plato_sonar_text

Acoustic scene analysis with text output for agents.

- `src/` is the verified library (Verus): splitting interleaved stereo
  frames into channels (`channels`), counting sign changes between
  neighbouring samples (`crossings`), collecting frames for the ambient
  baseline (`baseline`), the classification rules (`classify`), the alert
  rules and alert lines (`alerts`), and scene and spectrum descriptions
  (`summary`). Each public function states its result exactly; the proof
  functions state the properties that hold across calls.
- `app/` holds the floating-point measurements (RMS, decibels, spectral
  flatness, frequency estimates, stereo balance), the clock, and the
  `SonarText` processor that runs them and hands their outcome to the
  library.
- `tests/` exercises the library on concrete values.
