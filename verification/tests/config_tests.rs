use photosort::config::{get_config, Config};
use photosort::pserror::PsErrorKind;

#[test]
fn test_parse_fail() {
    let options = vec!["--mode something"];
    assert!(get_config(Option::from(&options)).is_err(), "Broken config");
}

#[test]
fn test_parse_full_config() -> Result<(), photosort::pserror::PsError> {
    let options = vec![
        "CommandName",
        "-sSOURCE",
        "--dst=DEST",
        "--mode=move",
        "--log=some.file.log",
        "-t",
    ];
    let config = get_config(Option::from(&options))?;

    let expected_config = Config {
        source: "SOURCE".to_string(),
        destination: "DEST".to_string(),
        logfile: Option::from("some.file.log".to_string()),
        dry_run: true,
        copy: false,
    };

    assert_eq!(config, expected_config);

    Ok(())
}

#[test]
fn test_parse_long_forms_with_separate_values() {
    let options = vec!["prog", "--src", "A", "--dst", "B", "--mode", "copy"];
    let config = get_config(Some(&options)).unwrap();
    assert_eq!(config.source, "A");
    assert_eq!(config.destination, "B");
    assert!(config.copy);
    assert!(!config.dry_run);
    assert_eq!(config.logfile, None);
}

#[test]
fn test_parse_short_attached_values() {
    let options = vec!["prog", "-sIN", "-dOUT", "-mmove", "-lout.log", "-v"];
    let config = get_config(Some(&options)).unwrap();
    assert_eq!(config.source, "IN");
    assert_eq!(config.destination, "OUT");
    assert!(!config.copy);
    assert_eq!(config.logfile, Some("out.log".to_string()));
}

#[test]
fn test_parse_missing_required_dst() {
    let options = vec!["prog", "--src=A"];
    assert!(get_config(Some(&options)).is_err());
}

#[test]
fn test_parse_missing_required_src() {
    let options = vec!["prog", "--dst=B"];
    assert!(get_config(Some(&options)).is_err());
}

#[test]
fn test_parse_rejects_bad_mode_value() {
    let options = vec!["prog", "--src=A", "--dst=B", "--mode=shuffle"];
    assert!(get_config(Some(&options)).is_err());
}

#[test]
fn test_parse_rejects_empty_value() {
    let options = vec!["prog", "--src=", "--dst=B"];
    assert!(get_config(Some(&options)).is_err());
}

#[test]
fn test_parse_rejects_unknown_flag() {
    let options = vec!["prog", "--src=A", "--dst=B", "--frobnicate"];
    assert!(get_config(Some(&options)).is_err());
}

#[test]
fn test_parse_rejects_duplicate_option() {
    let options = vec!["prog", "--src=A", "--src=C", "--dst=B"];
    assert!(get_config(Some(&options)).is_err());
}

#[test]
fn test_parse_value_flag_at_end_without_value() {
    let options = vec!["prog", "--src=A", "--dst"];
    assert!(get_config(Some(&options)).is_err());
}

#[test]
fn test_parse_no_tokens_at_all() {
    assert!(get_config(None).is_err());
    let err = get_config(None).unwrap_err();
    assert_eq!(err.kind, PsErrorKind::Unknown);
}

#[test]
fn test_configurator_get_config_is_empty() {
    let options: Vec<String> = vec![String::from("--mode move1")];
    let config = photosort::configurator::get_config(Some(&options));
    assert_eq!(config.source, "");
    assert_eq!(config.destination, "");
    assert_eq!(config.logfile, None);
    assert!(!config.dry_run);
    assert!(!config.copy);
}
