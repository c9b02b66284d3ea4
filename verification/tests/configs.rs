use cargo_magisk::config::AssetEntry;
use cargo_magisk::config::Config;
use cargo_magisk::config::ManifestFields;
use cargo_magisk::errors::ConfigError;
use cargo_magisk::errors::PathFault;
use cargo_magisk::errors::Role;

const PROJECT: &str = "/workspace";
const TARGET: &str = "/workspace/target/arch/build_type";

fn fields(assets: Vec<(&str, &str)>) -> ManifestFields {
    ManifestFields {
        id: "module-101".to_string(),
        name: "A Module".to_string(),
        version: "1.0.0".to_string(),
        author: "someone".to_string(),
        assets: assets
            .into_iter()
            .map(|(source, dest)| AssetEntry {
                source: source.to_string(),
                dest: dest.to_string(),
            })
            .collect(),
    }
}

#[test]
fn end_to_end_resolution() {
    let config = Config::build(
        fields(vec![("target/cargo-magisk", "system/bin/cargo-magisk")]),
        PROJECT,
        TARGET,
    )
    .unwrap();
    assert_eq!(config.assets.len(), 1);
    assert_eq!(
        config.assets[0].source,
        "/workspace/target/arch/build_type/cargo-magisk"
    );
    assert_eq!(
        config.assets[0].dest,
        "/workspace/target/arch/build_type/magisk/system/bin/cargo-magisk"
    );
    assert_eq!(config.module_prop.id, "module-101");
    assert_eq!(config.module_prop.version_code.code_string(), "010000900");
}

#[test]
fn assets_resolve_in_manifest_order() {
    let config = Config::build(
        fields(vec![
            ("assets/customize.sh", "customize.sh"),
            ("target/cargo-magisk", "system/bin/cargo-magisk"),
        ]),
        PROJECT,
        TARGET,
    )
    .unwrap();
    assert_eq!(config.assets.len(), 2);
    assert_eq!(config.assets[0].source, "/workspace/assets/customize.sh");
    assert_eq!(
        config.assets[0].dest,
        "/workspace/target/arch/build_type/magisk/customize.sh"
    );
    assert_eq!(
        config.assets[1].source,
        "/workspace/target/arch/build_type/cargo-magisk"
    );
}

#[test]
fn first_bad_asset_is_reported_with_its_position() {
    let err = Config::build(
        fields(vec![
            ("assets/customize.sh", "customize.sh"),
            ("../escape", "x"),
            ("", ""),
        ]),
        PROJECT,
        TARGET,
    )
    .unwrap_err();
    assert_eq!(err, ConfigError::AssetPath(1, Role::Source, PathFault::Parent));
}

#[test]
fn dest_fault_is_reported_after_source() {
    let err = Config::build(
        fields(vec![("assets/customize.sh", "/abs")]),
        PROJECT,
        TARGET,
    )
    .unwrap_err();
    assert_eq!(err, ConfigError::AssetPath(0, Role::Dest, PathFault::Absolute));
}

#[test]
fn field_errors_come_before_asset_errors() {
    let mut bad = fields(vec![("../escape", "x")]);
    bad.version = "1.0".to_string();
    let err = Config::build(bad, PROJECT, TARGET).unwrap_err();
    assert!(matches!(err, ConfigError::VersionFormat(_)));
}

#[test]
fn empty_asset_list_builds() {
    let config = Config::build(fields(vec![]), PROJECT, TARGET).unwrap();
    assert!(config.assets.is_empty());
}
