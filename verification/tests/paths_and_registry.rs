use cr_program_settings::paths::default_file_name;
use cr_program_settings::paths::joined_path;
use cr_program_settings::paths::parent_directory;
use cr_program_settings::paths::settings_location;
use cr_program_settings::registry::PathRegistry;

#[test]
fn default_name_appends_ser() {
    assert_eq!(default_file_name("foo"), "foo.ser");
    assert_eq!(default_file_name("my_cool_rust_project"), "my_cool_rust_project.ser");
}

#[test]
fn joined_path_inserts_separator() {
    assert_eq!(joined_path("/home/user", "app"), "/home/user/app");
    assert_eq!(joined_path("", "app"), "/app");
}

#[test]
fn location_is_home_app_file() {
    let loc = settings_location("/home/user", "my_app", "my_app.ser");
    assert_eq!(loc.directory, "/home/user/my_app");
    assert_eq!(loc.file, "/home/user/my_app/my_app.ser");
}

#[test]
fn parent_directory_takes_everything_before_last_separator() {
    assert_eq!(parent_directory("/home/user/app/file.ser"), Some("/home/user/app".to_string()));
    assert_eq!(parent_directory("a/b"), Some("a".to_string()));
    assert_eq!(parent_directory("no_separator"), None);
    assert_eq!(parent_directory(""), None);
}

#[test]
fn registry_starts_empty() {
    let reg = PathRegistry::new();
    assert_eq!(reg.len(), 0);
    assert!(!reg.contains(&"/home/u/a/b.ser".to_string()));
}

#[test]
fn saving_twice_records_two_entries() {
    let mut reg = PathRegistry::new();
    let path = "/home/u/app/app.ser".to_string();
    reg.record_save(path.clone());
    reg.record_save(path.clone());
    assert_eq!(reg.len(), 2);
    assert_eq!(*reg.path_at(0), path);
    assert_eq!(*reg.path_at(1), path);
}

#[test]
fn loading_twice_records_one_entry() {
    let mut reg = PathRegistry::new();
    let path = "/home/u/app/app.ser".to_string();
    reg.record_load(path.clone());
    reg.record_load(path.clone());
    assert_eq!(reg.len(), 1);
    assert!(reg.contains(&path));
}

#[test]
fn removing_a_file_drops_every_matching_entry() {
    let mut reg = PathRegistry::new();
    let path = "/home/u/app/app.ser".to_string();
    let other = "/home/u/app/other.ser".to_string();
    reg.record_save(path.clone());
    reg.record_save(other.clone());
    reg.record_save(path.clone());
    reg.remove_file(&path);
    assert_eq!(reg.len(), 1);
    assert!(reg.contains(&other));
    assert!(!reg.contains(&path));
}

#[test]
fn removing_a_directory_drops_exactly_its_entries() {
    let mut reg = PathRegistry::new();
    let in_dir_one = "/home/u/app/app.ser".to_string();
    let in_dir_two = "/home/u/app/extra.ser".to_string();
    let elsewhere = "/home/u/other_app/other_app.ser".to_string();
    reg.record_save(in_dir_one.clone());
    reg.record_save(in_dir_two.clone());
    reg.record_save(elsewhere.clone());
    reg.remove_directory(&"/home/u/app".to_string());
    assert_eq!(reg.len(), 1);
    assert!(reg.contains(&elsewhere));
    assert!(!reg.contains(&in_dir_one));
    assert!(!reg.contains(&in_dir_two));
}
