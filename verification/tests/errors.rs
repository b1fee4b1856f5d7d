use odoopod_core::error::OdooPodError;

#[test]
fn error_messages_name_their_kind() {
    let s = |t: &str| t.to_string();
    assert_eq!(OdooPodError::UVNotInstalled(s("x")).message(), "UV is not installed: x");
    assert_eq!(OdooPodError::SetupFailed(s("x")).message(), "Failed to setup environment: x");
    assert_eq!(OdooPodError::CreateVenvError(s("x")).message(), "Failed to create virtual environment: x");
    assert_eq!(OdooPodError::InstallRequirementsError(s("x")).message(), "Failed to install requirements: x");
    assert_eq!(OdooPodError::InstallPackageError(s("x")).message(), "Failed to install package: x");
    assert_eq!(OdooPodError::StartInstanceError(s("x")).message(), "Failed to start instance: x");
    assert_eq!(OdooPodError::StopInstanceError(s("x")).message(), "Failed to stop instance: x");
    assert_eq!(OdooPodError::CreatePostgresServerError(s("x")).message(), "Failed to create PostgreSQL server: x");
    assert_eq!(OdooPodError::StopPostgresServerError(s("x")).message(), "Failed to stop PostgreSQL server: x");
    assert_eq!(OdooPodError::EnsurePostgresDatabaseError(s("x")).message(), "Failed to ensure PostgreSQL database: x");
    assert_eq!(OdooPodError::InstanceStatusError.message(), "Instance is not in a valid state for this operation");
    assert_eq!(OdooPodError::CheckDatabaseError(s("x")).message(), "Failed to check PostgreSQL database existence: x");
    assert_eq!(OdooPodError::NoAvailablePort(s("x")).message(), "No available port for PostgreSQL: x");
}

#[test]
fn error_clone_keeps_kind_and_text() {
    let e = OdooPodError::StopInstanceError("kill failed".to_string());
    assert_eq!(e.clone(), e);
}
