//! The library's error type and the text that describes each error.

use vstd::prelude::*;

verus! {

/// Why an operation on an instance or one of its components failed.
#[derive(Debug, PartialEq, Eq)]
pub enum OdooPodError {
    UVNotInstalled(String),
    SetupFailed(String),
    CreateVenvError(String),
    InstallRequirementsError(String),
    InstallPackageError(String),
    StartInstanceError(String),
    StopInstanceError(String),
    CreatePostgresServerError(String),
    StopPostgresServerError(String),
    EnsurePostgresDatabaseError(String),
    InstanceStatusError,
    CheckDatabaseError(String),
    NoAvailablePort(String),
}

/// An error as plain values: its kind and the text it carries.
pub enum ErrorView {
    UVNotInstalled(Seq<char>),
    SetupFailed(Seq<char>),
    CreateVenvError(Seq<char>),
    InstallRequirementsError(Seq<char>),
    InstallPackageError(Seq<char>),
    StartInstanceError(Seq<char>),
    StopInstanceError(Seq<char>),
    CreatePostgresServerError(Seq<char>),
    StopPostgresServerError(Seq<char>),
    EnsurePostgresDatabaseError(Seq<char>),
    InstanceStatusError,
    CheckDatabaseError(Seq<char>),
    NoAvailablePort(Seq<char>),
}

impl View for OdooPodError {
    type V = ErrorView;

    open spec fn view(&self) -> ErrorView {
        match *self {
            OdooPodError::UVNotInstalled(d) => ErrorView::UVNotInstalled(d@),
            OdooPodError::SetupFailed(d) => ErrorView::SetupFailed(d@),
            OdooPodError::CreateVenvError(d) => ErrorView::CreateVenvError(d@),
            OdooPodError::InstallRequirementsError(d) => ErrorView::InstallRequirementsError(d@),
            OdooPodError::InstallPackageError(d) => ErrorView::InstallPackageError(d@),
            OdooPodError::StartInstanceError(d) => ErrorView::StartInstanceError(d@),
            OdooPodError::StopInstanceError(d) => ErrorView::StopInstanceError(d@),
            OdooPodError::CreatePostgresServerError(d) => ErrorView::CreatePostgresServerError(d@),
            OdooPodError::StopPostgresServerError(d) => ErrorView::StopPostgresServerError(d@),
            OdooPodError::EnsurePostgresDatabaseError(d) => ErrorView::EnsurePostgresDatabaseError(d@),
            OdooPodError::InstanceStatusError => ErrorView::InstanceStatusError,
            OdooPodError::CheckDatabaseError(d) => ErrorView::CheckDatabaseError(d@),
            OdooPodError::NoAvailablePort(d) => ErrorView::NoAvailablePort(d@),
        }
    }
}

/// The human-readable description of an error.
pub open spec fn error_message(e: OdooPodError) -> Seq<char> {
    match e {
        OdooPodError::UVNotInstalled(d) => "UV is not installed: "@ + d@,
        OdooPodError::SetupFailed(d) => "Failed to setup environment: "@ + d@,
        OdooPodError::CreateVenvError(d) => "Failed to create virtual environment: "@ + d@,
        OdooPodError::InstallRequirementsError(d) => "Failed to install requirements: "@ + d@,
        OdooPodError::InstallPackageError(d) => "Failed to install package: "@ + d@,
        OdooPodError::StartInstanceError(d) => "Failed to start instance: "@ + d@,
        OdooPodError::StopInstanceError(d) => "Failed to stop instance: "@ + d@,
        OdooPodError::CreatePostgresServerError(d) => "Failed to create PostgreSQL server: "@ + d@,
        OdooPodError::StopPostgresServerError(d) => "Failed to stop PostgreSQL server: "@ + d@,
        OdooPodError::EnsurePostgresDatabaseError(d) => "Failed to ensure PostgreSQL database: "@ + d@,
        OdooPodError::InstanceStatusError => "Instance is not in a valid state for this operation"@,
        OdooPodError::CheckDatabaseError(d) => "Failed to check PostgreSQL database existence: "@ + d@,
        OdooPodError::NoAvailablePort(d) => "No available port for PostgreSQL: "@ + d@,
    }
}

impl Clone for OdooPodError {
    fn clone(&self) -> (r: Self)
        ensures
            r == *self,
    {
        match self {
            OdooPodError::UVNotInstalled(d) => OdooPodError::UVNotInstalled(d.clone()),
            OdooPodError::SetupFailed(d) => OdooPodError::SetupFailed(d.clone()),
            OdooPodError::CreateVenvError(d) => OdooPodError::CreateVenvError(d.clone()),
            OdooPodError::InstallRequirementsError(d) => OdooPodError::InstallRequirementsError(d.clone()),
            OdooPodError::InstallPackageError(d) => OdooPodError::InstallPackageError(d.clone()),
            OdooPodError::StartInstanceError(d) => OdooPodError::StartInstanceError(d.clone()),
            OdooPodError::StopInstanceError(d) => OdooPodError::StopInstanceError(d.clone()),
            OdooPodError::CreatePostgresServerError(d) => OdooPodError::CreatePostgresServerError(d.clone()),
            OdooPodError::StopPostgresServerError(d) => OdooPodError::StopPostgresServerError(d.clone()),
            OdooPodError::EnsurePostgresDatabaseError(d) => OdooPodError::EnsurePostgresDatabaseError(d.clone()),
            OdooPodError::InstanceStatusError => OdooPodError::InstanceStatusError,
            OdooPodError::CheckDatabaseError(d) => OdooPodError::CheckDatabaseError(d.clone()),
            OdooPodError::NoAvailablePort(d) => OdooPodError::NoAvailablePort(d.clone()),
        }
    }
}

impl OdooPodError {
    /// The description of this error, as it is shown to users.
    pub fn message(&self) -> (r: String)
        ensures
            r@ == error_message(*self),
    {
        match self {
            OdooPodError::UVNotInstalled(d) => String::from_str("UV is not installed: ").concat(d.as_str()),
            OdooPodError::SetupFailed(d) => String::from_str("Failed to setup environment: ").concat(d.as_str()),
            OdooPodError::CreateVenvError(d) => String::from_str("Failed to create virtual environment: ").concat(d.as_str()),
            OdooPodError::InstallRequirementsError(d) => String::from_str("Failed to install requirements: ").concat(d.as_str()),
            OdooPodError::InstallPackageError(d) => String::from_str("Failed to install package: ").concat(d.as_str()),
            OdooPodError::StartInstanceError(d) => String::from_str("Failed to start instance: ").concat(d.as_str()),
            OdooPodError::StopInstanceError(d) => String::from_str("Failed to stop instance: ").concat(d.as_str()),
            OdooPodError::CreatePostgresServerError(d) => String::from_str("Failed to create PostgreSQL server: ").concat(d.as_str()),
            OdooPodError::StopPostgresServerError(d) => String::from_str("Failed to stop PostgreSQL server: ").concat(d.as_str()),
            OdooPodError::EnsurePostgresDatabaseError(d) => String::from_str("Failed to ensure PostgreSQL database: ").concat(d.as_str()),
            OdooPodError::InstanceStatusError => String::from_str("Instance is not in a valid state for this operation"),
            OdooPodError::CheckDatabaseError(d) => String::from_str("Failed to check PostgreSQL database existence: ").concat(d.as_str()),
            OdooPodError::NoAvailablePort(d) => String::from_str("No available port for PostgreSQL: ").concat(d.as_str()),
        }
    }
}

} // verus!
