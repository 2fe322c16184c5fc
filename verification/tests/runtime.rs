use sidecar_supervisor::host::{BuildProfile, Features, HostEnvironment, Platform, Probe};
use sidecar_supervisor::runtime::{
    bundled_runtime, decide, locate, looks_for_bundled, RuntimeChoice, SYSTEM_RUNTIME,
};

fn bundled(present: bool) -> Option<Probe> {
    Some(Probe { path: "/opt/app/resources/jre/bin/java".to_string(), present })
}

fn without_bundled_runtime() -> Features {
    Features { bundled_runtime: false, ..Features::all() }
}

#[test]
fn system_runtime_is_the_bare_command() {
    assert_eq!(SYSTEM_RUNTIME, "java");
    assert_eq!(RuntimeChoice::System.command(), "java");
}

#[test]
fn bundled_runtime_path_depends_on_the_platform() {
    assert_eq!(
        bundled_runtime("/opt/app/resources", Platform::Other),
        "/opt/app/resources/jre/bin/java"
    );
    assert_eq!(
        bundled_runtime("/opt/app/resources", Platform::Windows),
        "/opt/app/resources/jre/bin/java.exe"
    );
}

#[test]
fn only_packaged_builds_look_for_a_bundled_runtime() {
    assert!(looks_for_bundled(BuildProfile::Release, &Features::all()));
    assert!(!looks_for_bundled(BuildProfile::Debug, &Features::all()));
    assert!(!looks_for_bundled(BuildProfile::Release, &without_bundled_runtime()));
    assert!(!looks_for_bundled(BuildProfile::Debug, &without_bundled_runtime()));
}

#[test]
fn packaged_build_uses_the_bundled_runtime() {
    let chosen = decide(BuildProfile::Release, &Features::all(), bundled(true));
    assert!(matches!(&chosen, RuntimeChoice::Bundled(path) if path == "/opt/app/resources/jre/bin/java"));
    assert_eq!(chosen.command(), "/opt/app/resources/jre/bin/java");
    assert!(!chosen.fell_back());
}

#[test]
fn packaged_build_falls_back_to_the_system_runtime() {
    let chosen = decide(BuildProfile::Release, &Features::all(), bundled(false));
    assert!(matches!(&chosen, RuntimeChoice::Fallback(path) if path == "/opt/app/resources/jre/bin/java"));
    assert_eq!(chosen.command(), "java");
    assert!(chosen.fell_back());
}

#[test]
fn packaged_build_without_resources_uses_the_system_runtime() {
    let chosen = decide(BuildProfile::Release, &Features::all(), None);
    assert!(matches!(chosen, RuntimeChoice::System));
    assert_eq!(chosen.command(), "java");
    assert!(!chosen.fell_back());
}

#[test]
fn development_build_ignores_a_bundled_runtime() {
    let chosen = decide(BuildProfile::Debug, &Features::all(), bundled(true));
    assert!(matches!(chosen, RuntimeChoice::System));
    assert_eq!(chosen.command(), "java");
}

#[test]
fn switched_off_feature_ignores_a_bundled_runtime() {
    let chosen = decide(BuildProfile::Release, &without_bundled_runtime(), bundled(true));
    assert!(matches!(chosen, RuntimeChoice::System));
}

#[test]
fn locate_falls_back_on_a_host_without_bundled_runtime() {
    let env = HostEnvironment {
        profile: BuildProfile::Release,
        platform: Platform::Other,
        build_dir: "/no-such-sidecar-tree/frontend/src-tauri".to_string(),
        resource_dir: Some("/no-such-sidecar-tree/resources".to_string()),
        log_dir: None,
    };
    let chosen = locate(&env, &Features::all());
    assert!(matches!(
        &chosen,
        RuntimeChoice::Fallback(path) if path == "/no-such-sidecar-tree/resources/jre/bin/java"
    ));
    assert_eq!(chosen.command(), "java");
}

#[test]
fn locate_does_not_look_in_a_development_build() {
    let env = HostEnvironment {
        profile: BuildProfile::Debug,
        platform: Platform::Windows,
        build_dir: "/proj/frontend/src-tauri".to_string(),
        resource_dir: Some("/".to_string()),
        log_dir: None,
    };
    assert!(matches!(locate(&env, &Features::all()), RuntimeChoice::System));
}

#[test]
fn locate_names_the_system_runtime_without_resources() {
    let env = HostEnvironment {
        profile: BuildProfile::Release,
        platform: Platform::Other,
        build_dir: "/proj/frontend/src-tauri".to_string(),
        resource_dir: None,
        log_dir: None,
    };
    assert!(matches!(locate(&env, &Features::all()), RuntimeChoice::System));
}
