//! The settings store: each operation resolves the user's home directory,
//! computes the storage location `<home>/<app_name>/<file_name>`, and — once
//! the host reports how the filesystem work went — maps the outcome to a
//! typed error or records the touched path in the registry.
//!
//! The filesystem itself and the serialization of the caller's value are the
//! host's part; the store owns every decision around them: which location is
//! addressed, which error each failed step surfaces as, and how the registry
//! changes on success.

use crate::get_user_home;
use crate::paths::default_file_name;
use crate::paths::directory_for;
use crate::paths::default_name;
use crate::paths::joined_path;
use crate::paths::located_at;
use crate::paths::located_for;
use crate::paths::settings_location;
use crate::paths::SettingsLocation;
use crate::registry::insert_unique;
use crate::registry::without_directory;
use crate::registry::without_file;
use crate::registry::PathRegistry;
use crate::DeleteSettingsError;
use crate::LoadSettingsError;
use crate::SaveSettingsError;
use vstd::prelude::*;

verus! {

/// How the filesystem part of a save went, reported by the host in the order
/// the steps run: the directory is created first, then the file, then the
/// value is serialized, then the text is written.
pub enum SaveOutcome {
    /// Creating the application directory (with its missing ancestors) failed.
    DirectoryFailed(String),
    /// Creating or truncating the settings file failed.
    FileCreateFailed(String),
    /// Serializing the value failed; the file was already created empty.
    SerializeFailed(String),
    /// Writing the serialized text to the file failed.
    WriteFailed(String),
    /// The serialized text was written in full.
    Written,
}

/// How the filesystem part of a load went, reported by the host in the order
/// the steps run: the file is opened, read as text, and the text parsed.
pub enum LoadOutcome {
    /// Opening the file failed, including when it does not exist.
    OpenFailed(String),
    /// Reading the file's contents failed.
    ReadFailed(String),
    /// Parsing the text back into the caller's value failed.
    DeserializeFailed(String),
    /// The value was read and parsed in full.
    Loaded,
}

/// Begins a save of `file_name` for the application `app_name`: resolves the
/// user's home directory and computes the storage location, which the host
/// then creates and writes; it fails exactly when no home directory is known.
pub fn save_settings_with_filename(app_name: &str, file_name: &str) -> (r: Result<
    SettingsLocation,
    SaveSettingsError,
>)
    ensures
        r matches Err(e) ==> e == SaveSettingsError::FailedToGetUserHome,
        r matches Ok(loc) ==> located_for(app_name@, file_name@, loc),
{
    match get_user_home() {
        None => Err(SaveSettingsError::FailedToGetUserHome),
        Some(home) => {
            let loc = settings_location(home.as_str(), app_name, file_name);
            proof {
                assert(located_for(app_name@, file_name@, loc)) by {
                    assert(located_at(home@, app_name@, file_name@, loc));
                }
            }
            Ok(loc)
        },
    }
}

/// Begins a save under the default file name: saving for the application
/// `app_name` without naming a file addresses `<app_name>.ser`, exactly as
/// the filename variant does when given that name.
pub fn save_settings(app_name: &str) -> (r: Result<SettingsLocation, SaveSettingsError>)
    ensures
        r matches Err(e) ==> e == SaveSettingsError::FailedToGetUserHome,
        r matches Ok(loc) ==> located_for(app_name@, default_name(app_name@), loc),
{
    let file_name = default_file_name(app_name);
    save_settings_with_filename(app_name, file_name.as_str())
}

/// Finishes a save: a failed step surfaces as the matching error and leaves
/// the registry alone; a completed write appends the file's path to the
/// registry whether or not it is already recorded.
pub fn record_save_outcome(
    registry: &mut PathRegistry,
    loc: SettingsLocation,
    outcome: SaveOutcome,
) -> (r: Result<(), SaveSettingsError>)
    ensures
        outcome matches SaveOutcome::Written ==> r == Ok::<(), SaveSettingsError>(())
            && final(registry)@ == old(registry)@.push(loc.file@),
        outcome matches SaveOutcome::DirectoryFailed(m) ==> r == Err::<(), SaveSettingsError>(
            SaveSettingsError::IOError(m),
        ) && final(registry)@ == old(registry)@,
        outcome matches SaveOutcome::FileCreateFailed(m) ==> r == Err::<(), SaveSettingsError>(
            SaveSettingsError::IOError(m),
        ) && final(registry)@ == old(registry)@,
        outcome matches SaveOutcome::SerializeFailed(m) ==> r == Err::<(), SaveSettingsError>(
            SaveSettingsError::SerializationError(m),
        ) && final(registry)@ == old(registry)@,
        outcome matches SaveOutcome::WriteFailed(m) ==> r == Err::<(), SaveSettingsError>(
            SaveSettingsError::IOError(m),
        ) && final(registry)@ == old(registry)@,
{
    match outcome {
        SaveOutcome::Written => {
            registry.record_save(loc.file);
            Ok(())
        },
        SaveOutcome::DirectoryFailed(m) => Err(SaveSettingsError::IOError(m)),
        SaveOutcome::FileCreateFailed(m) => Err(SaveSettingsError::IOError(m)),
        SaveOutcome::SerializeFailed(m) => Err(SaveSettingsError::SerializationError(m)),
        SaveOutcome::WriteFailed(m) => Err(SaveSettingsError::IOError(m)),
    }
}

/// Begins a load of `file_name` for the application `app_name`: resolves the
/// user's home directory and computes the location the host then reads; it
/// fails exactly when no home directory is known.
pub fn load_settings_with_filename(app_name: &str, file_name: &str) -> (r: Result<
    SettingsLocation,
    LoadSettingsError,
>)
    ensures
        r matches Err(e) ==> e == LoadSettingsError::FailedToGetUserHome,
        r matches Ok(loc) ==> located_for(app_name@, file_name@, loc),
{
    match get_user_home() {
        None => Err(LoadSettingsError::FailedToGetUserHome),
        Some(home) => {
            let loc = settings_location(home.as_str(), app_name, file_name);
            proof {
                assert(located_for(app_name@, file_name@, loc)) by {
                    assert(located_at(home@, app_name@, file_name@, loc));
                }
            }
            Ok(loc)
        },
    }
}

/// Begins a load under the default file name: loading for the application
/// `app_name` without naming a file addresses `<app_name>.ser`, exactly as
/// the filename variant does when given that name.
pub fn load_settings(app_name: &str) -> (r: Result<SettingsLocation, LoadSettingsError>)
    ensures
        r matches Err(e) ==> e == LoadSettingsError::FailedToGetUserHome,
        r matches Ok(loc) ==> located_for(app_name@, default_name(app_name@), loc),
{
    let file_name = default_file_name(app_name);
    load_settings_with_filename(app_name, file_name.as_str())
}

/// Finishes a load: a failed step surfaces as the matching error and leaves
/// the registry alone; a parsed value appends the file's path to the
/// registry only when it is not recorded yet.
pub fn record_load_outcome(
    registry: &mut PathRegistry,
    loc: SettingsLocation,
    outcome: LoadOutcome,
) -> (r: Result<(), LoadSettingsError>)
    ensures
        outcome matches LoadOutcome::Loaded ==> r == Ok::<(), LoadSettingsError>(())
            && final(registry)@ == insert_unique(old(registry)@, loc.file@),
        outcome matches LoadOutcome::OpenFailed(m) ==> r == Err::<(), LoadSettingsError>(
            LoadSettingsError::IOError(m),
        ) && final(registry)@ == old(registry)@,
        outcome matches LoadOutcome::ReadFailed(m) ==> r == Err::<(), LoadSettingsError>(
            LoadSettingsError::IOError(m),
        ) && final(registry)@ == old(registry)@,
        outcome matches LoadOutcome::DeserializeFailed(m) ==> r == Err::<(), LoadSettingsError>(
            LoadSettingsError::DeserializationError(m),
        ) && final(registry)@ == old(registry)@,
{
    match outcome {
        LoadOutcome::Loaded => {
            registry.record_load(loc.file);
            Ok(())
        },
        LoadOutcome::OpenFailed(m) => Err(LoadSettingsError::IOError(m)),
        LoadOutcome::ReadFailed(m) => Err(LoadSettingsError::IOError(m)),
        LoadOutcome::DeserializeFailed(m) => Err(LoadSettingsError::DeserializationError(m)),
    }
}

/// Begins the deletion of an application's whole settings directory:
/// resolves the user's home directory and returns the directory the host
/// then removes recursively; it fails exactly when no home directory is
/// known.
pub fn delete_settings(app_name: &str) -> (r: Result<String, DeleteSettingsError>)
    ensures
        r matches Err(e) ==> e == DeleteSettingsError::FailedToGetUserHome,
        r matches Ok(directory) ==> directory_for(app_name@, directory@),
{
    match get_user_home() {
        None => Err(DeleteSettingsError::FailedToGetUserHome),
        Some(home) => {
            let directory = joined_path(home.as_str(), app_name);
            proof {
                assert(directory_for(app_name@, directory@)) by {
                    assert(directory@ == crate::paths::join_path(home@, app_name@));
                }
            }
            Ok(directory)
        },
    }
}

/// Finishes the deletion of a settings directory: a failure surfaces as an
/// I/O error and leaves the registry alone; on success every registry entry
/// whose parent directory is the removed directory is dropped.
pub fn record_settings_removal(
    registry: &mut PathRegistry,
    directory: &String,
    removed: Result<(), String>,
) -> (r: Result<(), DeleteSettingsError>)
    ensures
        removed matches Ok(_) ==> r == Ok::<(), DeleteSettingsError>(())
            && final(registry)@ == without_directory(old(registry)@, directory@),
        removed matches Err(m) ==> r == Err::<(), DeleteSettingsError>(
            DeleteSettingsError::IOError(m),
        ) && final(registry)@ == old(registry)@,
{
    match removed {
        Ok(_) => {
            registry.remove_directory(directory);
            Ok(())
        },
        Err(m) => Err(DeleteSettingsError::IOError(m)),
    }
}

/// Begins the deletion of one settings file: resolves the user's home
/// directory and returns the location whose file the host then removes; it
/// fails exactly when no home directory is known.
pub fn delete_setting_file(app_name: &str, file_name: &str) -> (r: Result<
    SettingsLocation,
    DeleteSettingsError,
>)
    ensures
        r matches Err(e) ==> e == DeleteSettingsError::FailedToGetUserHome,
        r matches Ok(loc) ==> located_for(app_name@, file_name@, loc),
{
    match get_user_home() {
        None => Err(DeleteSettingsError::FailedToGetUserHome),
        Some(home) => {
            let loc = settings_location(home.as_str(), app_name, file_name);
            proof {
                assert(located_for(app_name@, file_name@, loc)) by {
                    assert(located_at(home@, app_name@, file_name@, loc));
                }
            }
            Ok(loc)
        },
    }
}

/// Finishes the deletion of one settings file: a failure surfaces as an I/O
/// error and leaves the registry alone; on success every registry entry
/// equal to the removed file's path is dropped.
pub fn record_file_removal(
    registry: &mut PathRegistry,
    file: &String,
    removed: Result<(), String>,
) -> (r: Result<(), DeleteSettingsError>)
    ensures
        removed matches Ok(_) ==> r == Ok::<(), DeleteSettingsError>(())
            && final(registry)@ == without_file(old(registry)@, file@),
        removed matches Err(m) ==> r == Err::<(), DeleteSettingsError>(
            DeleteSettingsError::IOError(m),
        ) && final(registry)@ == old(registry)@,
{
    match removed {
        Ok(_) => {
            registry.remove_file(file);
            Ok(())
        },
        Err(m) => Err(DeleteSettingsError::IOError(m)),
    }
}

} // verus!
