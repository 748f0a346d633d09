use swiftbuild::errors::BuildError;
use swiftbuild::swiftly::{
    assemble_discovery, candidate_toolchains, config_file_path, discovery_absent,
    filter_validated, get_swiftly_path, locate_manager_home, manager_home_required,
    read_manager_config_from, SwiftlyConfig,
};

#[test]
fn absent_manager_is_a_success() {
    let r = discovery_absent();
    assert!(!r.swiftly_installed);
    assert_eq!(r.swiftly_version, None);
    assert!(r.toolchains.is_empty());
}

#[test]
fn absent_environment_locates_nothing() {
    assert_eq!(get_swiftly_path(&None, &None), None);
    assert_eq!(get_swiftly_path(&Some(String::new()), &None), None);
}

#[test]
fn explicit_override_wins() {
    let over = Some("/custom/swiftly".to_string());
    let home = Some("/home/u".to_string());
    assert_eq!(locate_manager_home(&over, &home, true), Some("/custom/swiftly".to_string()));
    assert_eq!(locate_manager_home(&over, &None, false), Some("/custom/swiftly".to_string()));
    assert_eq!(get_swiftly_path(&over, &home), Some("/custom/swiftly".to_string()));
}

#[test]
fn default_path_needs_presence_on_disk() {
    let home = Some("/home/u".to_string());
    assert_eq!(
        locate_manager_home(&None, &home, true),
        Some("/home/u/.local/share/swiftly".to_string())
    );
    assert_eq!(locate_manager_home(&None, &home, false), None);
    assert_eq!(locate_manager_home(&Some(String::new()), &home, false), None);
    assert_eq!(locate_manager_home(&None, &Some(String::new()), true), None);
}

#[test]
fn missing_home_is_manager_not_found() {
    assert!(matches!(manager_home_required(&None), Err(BuildError::ManagerNotFound)));
    assert_eq!(manager_home_required(&Some("/sw".to_string())).unwrap(), "/sw");
}

#[test]
fn config_path_is_under_home() {
    assert_eq!(config_file_path("/sw"), "/sw/config.json");
}

#[test]
fn config_decodes_fields() {
    let content = "{\"installedToolchains\":[\"5.9\",\"5.10\"],\"version\":\"1.1.0\"}";
    let c = read_manager_config_from(content).unwrap();
    assert_eq!(c.installed_toolchains, vec!["5.9".to_string(), "5.10".to_string()]);
    assert_eq!(c.version, "1.1.0");
}

#[test]
fn trailing_artifact_is_harmless() {
    let clean = "{\"installedToolchains\":[\"5.9\",\"5.10\"],\"version\":\"1.1.0\"}";
    let stray = format!("{}%", clean);
    let a = read_manager_config_from(clean).unwrap();
    let b = read_manager_config_from(&stray).unwrap();
    assert_eq!(a, b);
}

#[test]
fn bad_config_is_parse_error() {
    assert!(matches!(read_manager_config_from("not json"), Err(BuildError::ConfigParseError)));
    assert!(matches!(read_manager_config_from("{}"), Err(BuildError::ConfigParseError)));
    assert!(matches!(
        read_manager_config_from("{\"installedToolchains\":[1],\"version\":\"1\"}"),
        Err(BuildError::ConfigParseError)
    ));
    assert!(matches!(
        read_manager_config_from("{\"installedToolchains\":[\"5.9\"]}"),
        Err(BuildError::ConfigParseError)
    ));
}

#[test]
fn candidates_follow_config_order() {
    let versions = vec!["5.10".to_string(), "5.9".to_string(), "6.0".to_string()];
    let cs = candidate_toolchains("/sw", &versions);
    assert_eq!(cs.len(), 3);
    assert_eq!(cs[0].version, "5.10");
    assert_eq!(cs[0].path, "/sw/toolchains/5.10");
    assert!(cs[0].is_swiftly);
    assert_eq!(cs[1].path, "/sw/toolchains/5.9");
    assert_eq!(cs[2].path, "/sw/toolchains/6.0");
}

#[test]
fn filter_keeps_only_validated_in_order() {
    let versions = vec!["a".to_string(), "b".to_string(), "c".to_string()];
    let cs = candidate_toolchains("/sw", &versions);
    let kept = filter_validated(&cs, &vec![true, false, true]);
    assert_eq!(kept.len(), 2);
    assert_eq!(kept[0].version, "a");
    assert_eq!(kept[1].version, "c");
}

#[test]
fn partial_validation_keeps_one() {
    let config = SwiftlyConfig {
        installed_toolchains: vec!["5.9".to_string(), "5.10".to_string()],
        version: "1.0.0".to_string(),
    };
    let r = assemble_discovery("/sw", &config, &vec![true, false]);
    assert!(r.swiftly_installed);
    assert_eq!(r.swiftly_version, Some("1.0.0".to_string()));
    assert_eq!(r.toolchains.len(), 1);
    assert_eq!(r.toolchains[0].version, "5.9");
    assert_eq!(r.toolchains[0].path, "/sw/toolchains/5.9");
    assert!(r.toolchains[0].is_swiftly);
}

#[test]
fn discovery_is_idempotent() {
    let config = SwiftlyConfig {
        installed_toolchains: vec!["5.9".to_string(), "5.10".to_string(), "6.0".to_string()],
        version: "1.0.0".to_string(),
    };
    let valid = vec![true, false, true];
    let first = assemble_discovery("/sw", &config, &valid);
    let second = assemble_discovery("/sw", &config, &valid);
    assert_eq!(first, second);
}
