use sidecar_supervisor::diagnostics::{Incident, Level};
use sidecar_supervisor::host::Features;

#[test]
fn a_failed_launch_is_an_error() {
    assert_eq!(Incident::SpawnFailed.level(), Level::Error);
}

#[test]
fn every_other_incident_is_a_warning() {
    assert_eq!(Incident::ArtifactNotFound.level(), Level::Warn);
    assert_eq!(Incident::BundledRuntimeMissing.level(), Level::Warn);
    assert_eq!(Incident::DiagnosticSinkUnavailable.level(), Level::Warn);
    assert_eq!(Incident::TerminationFailed.level(), Level::Warn);
}

#[test]
fn the_full_design_switches_everything_on() {
    let features = Features::all();
    assert!(features.bundled_runtime);
    assert!(features.redirect_output);
    assert!(features.terminate_on_window_destroyed);
    assert!(features.terminate_on_app_exit);
}
