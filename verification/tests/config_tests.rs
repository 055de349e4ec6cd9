use composer_core::config::{config_file_contents, env_file_contents, ConfigData};
use composer_core::paths::{resource_rel_path, EnvPaths};
use composer_core::tune::build_tune_command;

#[test]
fn lookup_finds_api_key() {
    let config = ConfigData::new(Some("sk-123".to_string()));
    assert_eq!(config.lookup("api_key"), Ok(Some("sk-123".to_string())));
}

#[test]
fn lookup_on_empty_config() {
    let config = ConfigData::default();
    assert_eq!(config.lookup("api_key"), Ok(None));
}

#[test]
fn lookup_rejects_unknown_key() {
    let config = ConfigData::new(Some("sk-123".to_string()));
    assert_eq!(
        config.lookup("system_prompt"),
        Err("Unknown key: system_prompt".to_string())
    );
}

#[test]
fn env_file_is_exact() {
    assert_eq!(
        env_file_contents("KEY"),
        "CUSTOM_LOGGER_PLAY_ERROR_SOUND=\"False\"\nGEMINI_API_KEYS=\"KEY\"\nOUTPUT_WAV=\"output.wav\""
    );
}

#[test]
fn config_file_round_trips_through_json() {
    let contents = config_file_contents("the key", "compose \"nicely\"");
    let value: serde_json::Value = serde_json::from_str(&contents).expect("valid JSON");
    assert_eq!(value["api_key"], "the key");
    assert_eq!(value["system_prompt"], "compose \"nicely\"");
}

#[test]
fn tune_command_round_trips_through_json() {
    let command = build_tune_command("a happy tune");
    assert_ne!(command, "a happy tune");
    let value: serde_json::Value = serde_json::from_str(&command).expect("valid JSON");
    assert_eq!(value["text"], "a happy tune");
    assert_eq!(value["soundfont"], "");
}

#[test]
fn tune_command_escapes_text() {
    let command = build_tune_command("quote \" and backslash \\");
    let value: serde_json::Value = serde_json::from_str(&command).expect("valid JSON");
    assert_eq!(value["text"], "quote \" and backslash \\");
}

#[test]
fn unix_paths_layout() {
    let paths = EnvPaths::new("/tmp", false);
    assert_eq!(paths.temp_dir, "/tmp/musiccomposer");
    assert_eq!(paths.python, "/tmp/musiccomposer/venv/bin/python");
    assert_eq!(paths.config, "/tmp/musiccomposer/config.json");
    assert_eq!(paths.main_py, "/tmp/musiccomposer/main.py");
    assert_eq!(paths.env, "/tmp/musiccomposer/.env");
    assert_eq!(paths.output_file, "/tmp/musiccomposer/output.wav");
}

#[test]
fn windows_paths_use_scripts_dir() {
    let paths = EnvPaths::new("C:/Temp", true);
    assert_eq!(paths.python, "C:/Temp/musiccomposer/venv/Scripts/python.exe");
}

#[test]
fn resource_paths() {
    assert_eq!(resource_rel_path("python"), Some("bin/dependency/venv"));
    assert_eq!(resource_rel_path("config"), Some("bin/dependency/config.json"));
    assert_eq!(resource_rel_path("main_py"), Some("bin/dependency/main.py"));
    assert_eq!(resource_rel_path("env"), Some("bin/dependency/.env"));
    assert_eq!(resource_rel_path("fluidsynth"), Some("bin/dependency/fluidsynth.exe"));
    assert_eq!(resource_rel_path("soundfont"), None);
}
