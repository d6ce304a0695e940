//! A small persistence utility for application configuration: it resolves a
//! per-application storage location under the user's home directory, keeps a
//! registry of every settings path touched by a successful save or load, and
//! pairs a value with its storage location through a settings container.
//!
//! The store keeps settings at `<home>/<app_name>/<file_name>`; the default
//! file name is the application name with a `.ser` extension.

pub mod paths;
pub mod registry;
pub mod settings_container;
pub mod store;

use vstd::prelude::*;

verus! {

/// The kinds of failure a save operation can report.
#[derive(Debug, Clone, PartialEq, Eq)]
pub enum SaveSettingsError {
    /// The user's home directory could not be determined.
    FailedToGetUserHome,
    /// Creating the directory or file, or writing to it, failed.
    IOError(String),
    /// Turning the settings value into its stored text failed.
    SerializationError(String),
}

/// The kinds of failure a load operation can report.
#[derive(Debug, Clone, PartialEq, Eq)]
pub enum LoadSettingsError {
    /// The user's home directory could not be determined.
    FailedToGetUserHome,
    /// Opening or reading the file failed, including when it does not exist.
    IOError(String),
    /// Parsing the stored text back into a settings value failed.
    DeserializationError(String),
}

/// The kinds of failure a delete operation can report.
#[derive(Debug, Clone, PartialEq, Eq)]
pub enum DeleteSettingsError {
    /// The user's home directory could not be determined.
    FailedToGetUserHome,
    /// Removing the file or directory failed.
    IOError(String),
}

/// Returns the current user's home directory, or `None` when the operating
/// system does not report one.
///
/// Relies on `home::home_dir`: it reads the `HOME` environment variable (or
/// the platform's equivalent) and falls back to the system's user database.
/// The result depends on the process environment, so nothing is promised of
/// it — on some platforms it may even be an empty path.
#[verifier::external_body]
pub fn get_user_home() -> (r: Option<String>)
{
    home::home_dir().map(|p| p.to_string_lossy().into_owned())
}

} // verus!
