use cr_program_settings::paths::settings_location;
use cr_program_settings::registry::PathRegistry;
use cr_program_settings::store::record_load_outcome;
use cr_program_settings::store::record_save_outcome;
use cr_program_settings::store::record_settings_removal;
use cr_program_settings::store::record_file_removal;
use cr_program_settings::store::LoadOutcome;
use cr_program_settings::store::SaveOutcome;
use cr_program_settings::DeleteSettingsError;
use cr_program_settings::LoadSettingsError;
use cr_program_settings::SaveSettingsError;

#[test]
fn failed_save_steps_map_to_typed_errors() {
    let mut reg = PathRegistry::new();
    let loc = settings_location("/home/u", "app", "app.ser");
    let r = record_save_outcome(&mut reg, loc, SaveOutcome::DirectoryFailed("mkdir".to_string()));
    assert_eq!(r, Err(SaveSettingsError::IOError("mkdir".to_string())));

    let loc = settings_location("/home/u", "app", "app.ser");
    let r = record_save_outcome(&mut reg, loc, SaveOutcome::FileCreateFailed("create".to_string()));
    assert_eq!(r, Err(SaveSettingsError::IOError("create".to_string())));

    let loc = settings_location("/home/u", "app", "app.ser");
    let r = record_save_outcome(&mut reg, loc, SaveOutcome::SerializeFailed("ser".to_string()));
    assert_eq!(r, Err(SaveSettingsError::SerializationError("ser".to_string())));

    let loc = settings_location("/home/u", "app", "app.ser");
    let r = record_save_outcome(&mut reg, loc, SaveOutcome::WriteFailed("write".to_string()));
    assert_eq!(r, Err(SaveSettingsError::IOError("write".to_string())));

    assert_eq!(reg.len(), 0, "a failed save must not touch the registry");
}

#[test]
fn written_save_records_the_file_path() {
    let mut reg = PathRegistry::new();
    let loc = settings_location("/home/u", "app", "app.ser");
    let file = loc.file.clone();
    let r = record_save_outcome(&mut reg, loc, SaveOutcome::Written);
    assert_eq!(r, Ok(()));
    assert_eq!(reg.len(), 1);
    assert!(reg.contains(&file));
}

#[test]
fn failed_load_steps_map_to_typed_errors() {
    let mut reg = PathRegistry::new();
    let loc = settings_location("/home/u", "app", "app.ser");
    let r = record_load_outcome(&mut reg, loc, LoadOutcome::OpenFailed("open".to_string()));
    assert_eq!(r, Err(LoadSettingsError::IOError("open".to_string())));

    let loc = settings_location("/home/u", "app", "app.ser");
    let r = record_load_outcome(&mut reg, loc, LoadOutcome::ReadFailed("read".to_string()));
    assert_eq!(r, Err(LoadSettingsError::IOError("read".to_string())));

    let loc = settings_location("/home/u", "app", "app.ser");
    let r = record_load_outcome(&mut reg, loc, LoadOutcome::DeserializeFailed("de".to_string()));
    assert_eq!(r, Err(LoadSettingsError::DeserializationError("de".to_string())));

    assert_eq!(reg.len(), 0, "a failed load must not touch the registry");
}

#[test]
fn loaded_load_records_the_file_path_once() {
    let mut reg = PathRegistry::new();
    let loc = settings_location("/home/u", "app", "app.ser");
    let file = loc.file.clone();
    let r = record_load_outcome(&mut reg, loc, LoadOutcome::Loaded);
    assert_eq!(r, Ok(()));
    let loc = settings_location("/home/u", "app", "app.ser");
    let r = record_load_outcome(&mut reg, loc, LoadOutcome::Loaded);
    assert_eq!(r, Ok(()));
    assert_eq!(reg.len(), 1);
    assert!(reg.contains(&file));
}

#[test]
fn failed_removals_map_to_io_errors_and_keep_entries() {
    let mut reg = PathRegistry::new();
    reg.record_save("/home/u/app/app.ser".to_string());

    let r = record_settings_removal(&mut reg, &"/home/u/app".to_string(), Err("rmdir".to_string()));
    assert_eq!(r, Err(DeleteSettingsError::IOError("rmdir".to_string())));
    assert_eq!(reg.len(), 1);

    let r = record_file_removal(
        &mut reg,
        &"/home/u/app/app.ser".to_string(),
        Err("rm".to_string()),
    );
    assert_eq!(r, Err(DeleteSettingsError::IOError("rm".to_string())));
    assert_eq!(reg.len(), 1);
}

#[test]
fn successful_removals_drop_the_entries() {
    let mut reg = PathRegistry::new();
    reg.record_save("/home/u/app/app.ser".to_string());
    reg.record_save("/home/u/app/two.ser".to_string());
    reg.record_save("/home/u/other/other.ser".to_string());

    let r = record_settings_removal(&mut reg, &"/home/u/app".to_string(), Ok(()));
    assert_eq!(r, Ok(()));
    assert_eq!(reg.len(), 1);

    let r = record_file_removal(&mut reg, &"/home/u/other/other.ser".to_string(), Ok(()));
    assert_eq!(r, Ok(()));
    assert_eq!(reg.len(), 0);
}
