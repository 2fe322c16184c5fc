use sidecar_supervisor::artifact::{
    development_artifact, locate, packaged_artifact, project_root, select, DEVELOPMENT_ARTIFACT,
    PACKAGED_ARTIFACT,
};
use sidecar_supervisor::host::{probe, BuildProfile, HostEnvironment, Platform, Probe};

fn seen(path: &str, present: bool) -> Probe {
    Probe { path: path.to_string(), present }
}

fn host_without_files() -> HostEnvironment {
    HostEnvironment {
        profile: BuildProfile::Release,
        platform: Platform::Other,
        build_dir: "/no-such-sidecar-tree/frontend/src-tauri".to_string(),
        resource_dir: Some("/no-such-sidecar-tree/resources".to_string()),
        log_dir: None,
    }
}

#[test]
fn fixed_names_of_the_artifact() {
    assert_eq!(DEVELOPMENT_ARTIFACT, "backend/build/libs/backend-0.1.0.jar");
    assert_eq!(PACKAGED_ARTIFACT, "backend.jar");
}

#[test]
fn project_root_lies_two_levels_up() {
    assert_eq!(project_root("/proj/frontend/src-tauri"), Some("/proj".to_string()));
    assert_eq!(project_root("/proj/frontend"), Some("/".to_string()));
}

#[test]
fn project_root_needs_two_levels() {
    assert_eq!(project_root("/proj"), None);
    assert_eq!(project_root("/"), None);
    assert_eq!(project_root(""), None);
    assert_eq!(project_root("src-tauri"), None);
}

#[test]
fn development_artifact_lies_below_the_project_root() {
    assert_eq!(
        development_artifact("/proj/frontend/src-tauri"),
        Some("/proj/backend/build/libs/backend-0.1.0.jar".to_string())
    );
    assert_eq!(development_artifact("/"), None);
}

#[test]
fn packaged_artifact_lies_in_the_resource_directory() {
    assert_eq!(packaged_artifact("/opt/app/resources"), "/opt/app/resources/backend.jar");
    assert_eq!(packaged_artifact("/opt/app/resources/"), "/opt/app/resources/backend.jar");
}

#[test]
fn development_artifact_that_exists_is_located() {
    let development = development_artifact("/proj/frontend/src-tauri").map(|path| Probe {
        path,
        present: true,
    });
    let chosen = select(development, Some(seen("/opt/app/resources/backend.jar", false)));
    assert_eq!(chosen, Some("/proj/backend/build/libs/backend-0.1.0.jar".to_string()));
}

#[test]
fn packaged_artifact_is_located_without_a_development_one() {
    let packaged = Probe { path: packaged_artifact("/opt/app/resources"), present: true };
    let chosen = select(
        Some(seen("/proj/backend/build/libs/backend-0.1.0.jar", false)),
        Some(packaged),
    );
    assert_eq!(chosen, Some("/opt/app/resources/backend.jar".to_string()));
}

#[test]
fn packaged_artifact_is_located_without_a_project_root() {
    let chosen = select(None, Some(seen("/opt/app/resources/backend.jar", true)));
    assert_eq!(chosen, Some("/opt/app/resources/backend.jar".to_string()));
}

#[test]
fn development_artifact_takes_precedence() {
    let chosen = select(Some(seen("/dev/backend.jar", true)), Some(seen("/pkg/backend.jar", true)));
    assert_eq!(chosen, Some("/dev/backend.jar".to_string()));
}

#[test]
fn nothing_is_located_when_nothing_is_present() {
    assert_eq!(select(None, None), None);
    assert_eq!(select(Some(seen("/dev/backend.jar", false)), None), None);
    assert_eq!(select(None, Some(seen("/pkg/backend.jar", false))), None);
    assert_eq!(
        select(Some(seen("/dev/backend.jar", false)), Some(seen("/pkg/backend.jar", false))),
        None
    );
}

#[test]
fn probe_reports_what_is_on_disk() {
    let root = probe("/".to_string());
    assert_eq!(root.path, "/");
    assert!(root.present);
    let missing = probe("/no-such-sidecar-tree/backend.jar".to_string());
    assert_eq!(missing.path, "/no-such-sidecar-tree/backend.jar");
    assert!(!missing.present);
}

#[test]
fn locate_finds_nothing_on_a_host_without_files() {
    assert_eq!(locate(&host_without_files()), None);
}

#[test]
fn locate_finds_nothing_without_any_place_to_look() {
    let env = HostEnvironment {
        profile: BuildProfile::Debug,
        platform: Platform::Other,
        build_dir: "/".to_string(),
        resource_dir: None,
        log_dir: None,
    };
    assert_eq!(locate(&env), None);
}
