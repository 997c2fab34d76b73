use solinteg_read::cli::{config_path_from_args, has_flag, short_help, ConfigPathError};
use std::path::PathBuf;

#[test]
fn config_path_from_args_uses_explicit_c_value() {
    let args = vec![
        "solinteg-read".to_string(),
        "-c".to_string(),
        "/tmp/custom.toml".to_string(),
    ];

    let path = config_path_from_args(&args, Some("/home/test")).unwrap();

    assert_eq!(PathBuf::from(path), PathBuf::from("/tmp/custom.toml"));
}

#[test]
fn config_path_from_args_defaults_to_home_config_file() {
    let args = vec!["solinteg-read".to_string()];

    let path = config_path_from_args(&args, Some("/home/test")).unwrap();

    assert_eq!(PathBuf::from(path), PathBuf::from("/home/test/.config/solimon"));
}

#[test]
fn config_path_from_args_errors_without_home_or_c_flag() {
    let args = vec!["solinteg-read".to_string()];

    let err = config_path_from_args(&args, None).unwrap_err();

    assert!(err
        .message()
        .contains("failed to determine home directory"));
}

#[test]
fn has_flag_detects_present_flag() {
    let args = vec!["solinteg-read".to_string(), "-j".to_string()];

    assert!(has_flag(&args, "-j"));
}

#[test]
fn has_flag_rejects_missing_flag() {
    let args = vec!["solinteg-read".to_string(), "-c".to_string()];

    assert!(!has_flag(&args, "-j"));
}

#[test]
fn has_flag_detects_help_flag() {
    let args = vec!["solinteg-read".to_string(), "-h".to_string()];

    assert!(has_flag(&args, "-h"));
}

#[test]
fn short_help_describes_supported_flags() {
    let help = short_help();

    assert!(help.contains("Usage: solinteg-read"));
    assert!(help.contains("-c <config>"));
    assert!(help.contains("-j"));
    assert!(help.contains("-1"));
    assert!(help.contains("-h"));
}

#[test]
fn explicit_config_path_ignores_missing_home() {
    let args = vec![
        "solinteg-read".to_string(),
        "-j".to_string(),
        "-c".to_string(),
        "relative.toml".to_string(),
    ];
    assert_eq!(config_path_from_args(&args, None).unwrap(), "relative.toml");
}

#[test]
fn config_flag_without_value_is_an_error() {
    let args = vec!["solinteg-read".to_string(), "-c".to_string()];
    let err = config_path_from_args(&args, Some("/home/test")).unwrap_err();
    assert_eq!(err, ConfigPathError::MissingConfigValue);
    assert_eq!(
        err.message(),
        "a value is required for '-c <config>' but none was supplied"
    );
}

#[test]
fn home_with_trailing_slash_gets_no_second_slash() {
    let args = vec!["solinteg-read".to_string()];
    assert_eq!(
        config_path_from_args(&args, Some("/home/test/")).unwrap(),
        "/home/test/.config/solimon"
    );
    assert_eq!(
        config_path_from_args(&args, Some("")).unwrap(),
        ".config/solimon"
    );
}

#[test]
fn program_name_is_not_a_flag() {
    let args = vec!["-j".to_string()];
    assert!(!has_flag(&args, "-j"));
    let empty: Vec<String> = Vec::new();
    assert!(!has_flag(&empty, "-j"));
    assert_eq!(
        config_path_from_args(&empty, None).unwrap_err(),
        ConfigPathError::NoHomeDirectory
    );
}

#[test]
fn first_config_flag_wins() {
    let args = vec![
        "solinteg-read".to_string(),
        "-c".to_string(),
        "a.toml".to_string(),
        "-c".to_string(),
        "b.toml".to_string(),
    ];
    assert_eq!(config_path_from_args(&args, None).unwrap(), "a.toml");
}
