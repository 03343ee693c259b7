use deskpet::{
    CurrentSettingsFile, LoadSettingsResult, Settings, SettingsFile, V1SettingsFile, V2SettingsFile,
    V2SettingsFileFursona,
};

fn names_of(file: &V2SettingsFile) -> Vec<&str> {
    file.fursona.iter().map(|f| f.name.as_str()).collect()
}

fn settings_names(settings: &Settings) -> Vec<&str> {
    settings.fursona.iter().map(|f| f.name.as_str()).collect()
}

fn v2(names: &[&str]) -> V2SettingsFile {
    V2SettingsFile {
        fursona: names.iter().map(|n| V2SettingsFileFursona { name: n.to_string() }).collect(),
    }
}

#[test]
fn new_file_has_jack() {
    assert_eq!(names_of(&V2SettingsFile::new()), vec!["Jack"]);
}

#[test]
fn migrate_keeps_the_name() {
    let old = V1SettingsFile { name: "Nal".to_string(), species: "fox".to_string() };
    assert_eq!(names_of(&old.migrate()), vec!["Nal"]);
    let old = V1SettingsFile { name: String::new(), species: String::new() };
    assert_eq!(names_of(&old.migrate()), vec![""]);
}

#[test]
fn settings_hold_the_characters_of_the_file_in_order() {
    let file = v2(&["Jack", "Nal", "Jack"]);
    assert_eq!(settings_names(&Settings::from_settings_file(&file)), vec!["Jack", "Nal", "Jack"]);
    assert!(Settings::from_settings_file(&v2(&[])).fursona.is_empty());
}

#[test]
fn loaded_first_version_is_migrated() {
    let old = V1SettingsFile { name: "Nal".to_string(), species: "fox".to_string() };
    match CurrentSettingsFile::from_loaded(Ok(SettingsFile::V1(old))) {
        LoadSettingsResult::Success { file, did_migrate } => {
            assert!(did_migrate);
            assert_eq!(names_of(&file), vec!["Nal"]);
        }
        LoadSettingsResult::Error(e) => panic!("{e}"),
    }
}

#[test]
fn loaded_current_version_is_taken_as_it_is() {
    match CurrentSettingsFile::from_loaded(Ok(SettingsFile::V2(v2(&["A", "B"])))) {
        LoadSettingsResult::Success { file, did_migrate } => {
            assert!(!did_migrate);
            assert_eq!(names_of(&file), vec!["A", "B"]);
        }
        LoadSettingsResult::Error(e) => panic!("{e}"),
    }
}

#[test]
fn load_error_is_handed_on() {
    match CurrentSettingsFile::from_loaded(Err("no such file".to_string())) {
        LoadSettingsResult::Error(e) => assert_eq!(e, "no such file"),
        LoadSettingsResult::Success { .. } => panic!("an error was expected"),
    }
}

#[test]
fn loaded_settings_are_used_and_not_written_back() {
    let loaded = LoadSettingsResult::Success { file: v2(&["A", "B"]), did_migrate: false };
    let (settings, to_save) = Settings::from_load(Some(loaded));
    assert_eq!(settings_names(&settings), vec!["A", "B"]);
    assert!(to_save.is_none());
}

#[test]
fn migrated_settings_are_written_back() {
    let loaded = LoadSettingsResult::Success { file: v2(&["Nal"]), did_migrate: true };
    let (settings, to_save) = Settings::from_load(Some(loaded));
    assert_eq!(settings_names(&settings), vec!["Nal"]);
    assert_eq!(names_of(&to_save.unwrap()), vec!["Nal"]);
}

#[test]
fn failed_load_gives_new_settings_to_write() {
    let (settings, to_save) = Settings::from_load(Some(LoadSettingsResult::Error("bad".to_string())));
    assert_eq!(settings_names(&settings), vec!["Jack"]);
    assert_eq!(names_of(&to_save.unwrap()), vec!["Jack"]);
}

#[test]
fn missing_file_gives_new_settings_to_write() {
    let (settings, to_save) = Settings::from_load(None);
    assert_eq!(settings_names(&settings), vec!["Jack"]);
    assert_eq!(names_of(&to_save.unwrap()), vec!["Jack"]);
}
