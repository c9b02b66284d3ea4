use cargo_magisk::config::AssetEntry;
use cargo_magisk::config::Config;
use cargo_magisk::config::ManifestFields;
use cargo_magisk::deploy::deploy_plan;
use cargo_magisk::deploy::module_prop_path;
use cargo_magisk::deploy::DeployStep;
use cargo_magisk::paths::staging_dir;

const PROJECT: &str = "/workspace";
const TARGET: &str = "/workspace/target/arch/build_type";
const STAGING: &str = "/workspace/target/arch/build_type/magisk";

fn sample_config() -> Config {
    Config::build(
        ManifestFields {
            id: "module-101".to_string(),
            name: "A Module".to_string(),
            version: "1.0.0".to_string(),
            author: "someone".to_string(),
            assets: vec![
                AssetEntry {
                    source: "target/cargo-magisk".to_string(),
                    dest: "system/bin/cargo-magisk".to_string(),
                },
                AssetEntry {
                    source: "assets/customize.sh".to_string(),
                    dest: "customize.sh".to_string(),
                },
            ],
        },
        PROJECT,
        TARGET,
    )
    .unwrap()
}

#[test]
fn staging_locations() {
    assert_eq!(staging_dir(TARGET), STAGING);
    assert_eq!(
        module_prop_path(TARGET),
        "/workspace/target/arch/build_type/magisk/module.prop"
    );
}

#[test]
fn plan_cleans_copies_then_writes() {
    let config = sample_config();
    let plan = deploy_plan(&config, TARGET);
    assert_eq!(plan.len(), 4);
    assert_eq!(
        plan[0],
        DeployStep::RemoveDir {
            path: STAGING.to_string(),
        }
    );
    assert_eq!(
        plan[1],
        DeployStep::CopyAsset {
            source: "/workspace/target/arch/build_type/cargo-magisk".to_string(),
            dest: "/workspace/target/arch/build_type/magisk/system/bin/cargo-magisk".to_string(),
        }
    );
    assert_eq!(
        plan[2],
        DeployStep::CopyAsset {
            source: "/workspace/assets/customize.sh".to_string(),
            dest: "/workspace/target/arch/build_type/magisk/customize.sh".to_string(),
        }
    );
    assert_eq!(
        plan[3],
        DeployStep::WriteFile {
            path: "/workspace/target/arch/build_type/magisk/module.prop".to_string(),
            content: config.module_prop.render(),
        }
    );
}

#[test]
fn plan_is_deterministic() {
    let config = sample_config();
    let first = deploy_plan(&config, TARGET);
    let second = deploy_plan(&config, TARGET);
    assert_eq!(first, second);
}

#[test]
fn plan_writes_only_under_the_cleaned_directory() {
    let config = sample_config();
    let plan = deploy_plan(&config, TARGET);
    for step in plan.iter().skip(1) {
        let written = match step {
            DeployStep::RemoveDir { path } => path,
            DeployStep::CopyAsset { dest, .. } => dest,
            DeployStep::WriteFile { path, .. } => path,
        };
        assert!(
            written.starts_with(STAGING),
            "step writes outside the staging directory: {}",
            written
        );
    }
}
