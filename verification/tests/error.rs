use vimix_launcher::error::{FailureKind, StartupError};

#[test]
fn each_failure_has_its_diagnostic() {
    assert_eq!(StartupError::NoFreePort.message(), "No free port available");
    assert_eq!(
        StartupError::ResourceRootUnresolved.message(),
        "Failed to resolve resource directory"
    );
    assert_eq!(StartupError::SidecarNotFound.message(), "Failed to locate sidecar binary");
    assert_eq!(StartupError::SpawnFailed.message(), "Failed to spawn sidecar");
}

#[test]
fn failures_are_distinct() {
    let all = [
        StartupError::NoFreePort,
        StartupError::ResourceRootUnresolved,
        StartupError::SidecarNotFound,
        StartupError::SpawnFailed,
    ];
    for (i, a) in all.iter().enumerate() {
        for (j, b) in all.iter().enumerate() {
            assert_eq!(a == b, i == j);
            assert_eq!(a.message() == b.message(), i == j);
        }
    }
}

#[test]
fn each_failure_has_its_kind() {
    assert_eq!(StartupError::NoFreePort.kind(), FailureKind::EnvironmentExhaustion);
    assert_eq!(StartupError::ResourceRootUnresolved.kind(), FailureKind::PackagingDefect);
    assert_eq!(StartupError::SidecarNotFound.kind(), FailureKind::PackagingDefect);
    assert_eq!(StartupError::SpawnFailed.kind(), FailureKind::SpawnFailure);
}
