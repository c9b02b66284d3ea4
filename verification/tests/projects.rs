use cargo_magisk::errors::ConfigError;
use cargo_magisk::paths::parent_dir;
use cargo_magisk::project::DefaultProject;
use cargo_magisk::project::ManifestProvider;
use cargo_magisk::project::ProjectProvider;
use cargo_magisk::project::Target;

#[derive(Debug)]
struct MockManifest;

impl ManifestProvider for MockManifest {
    fn find_manifest_path(&self) -> Result<String, ConfigError> {
        Ok("/workspace/Cargo.toml".to_string())
    }
}

#[test]
fn target_enum_from() {
    let cases = [
        ("aarch64-linux-android", Target::Arm64V8a),
        ("armv7-linux-androideabi", Target::ArmeabiV7a),
        ("x86_64-linux-android", Target::X86_64),
        ("i686-linux-android", Target::X86),
    ];
    for (triple, expected) in cases {
        assert_eq!(Target::try_from(triple).unwrap(), expected);
    }
    assert_eq!(
        Target::try_from("riscv64-linux-android").unwrap_err(),
        ConfigError::InvalidTarget
    );
}

#[test]
fn target_enum_to_string() {
    let cases = [
        (Target::Arm64V8a, "aarch64-linux-android"),
        (Target::ArmeabiV7a, "armv7-linux-androideabi"),
        (Target::X86_64, "x86_64-linux-android"),
        (Target::X86, "i686-linux-android"),
    ];
    for (target, expected) in cases {
        assert_eq!(target.to_str(), expected);
    }
}

#[test]
fn default_project_get_project_path() {
    let project = DefaultProject::new(Target::Arm64V8a, true, MockManifest);
    assert_eq!(project.get_project_path().unwrap(), "/workspace");
}

#[test]
fn default_project_get_target_path() {
    let cases = [
        (Target::Arm64V8a, true, "/workspace/target/aarch64-linux-android/release"),
        (Target::Arm64V8a, false, "/workspace/target/aarch64-linux-android/debug"),
        (Target::ArmeabiV7a, true, "/workspace/target/armv7-linux-androideabi/release"),
        (Target::ArmeabiV7a, false, "/workspace/target/armv7-linux-androideabi/debug"),
        (Target::X86_64, true, "/workspace/target/x86_64-linux-android/release"),
        (Target::X86_64, false, "/workspace/target/x86_64-linux-android/debug"),
        (Target::X86, true, "/workspace/target/i686-linux-android/release"),
        (Target::X86, false, "/workspace/target/i686-linux-android/debug"),
    ];
    for (target, release, expected) in cases {
        let project = DefaultProject::new(target, release, MockManifest);
        assert_eq!(project.get_target_path().unwrap(), expected, "{:?}", target);
    }
}

#[test]
fn parent_of_paths() {
    assert_eq!(parent_dir("/workspace/Cargo.toml").unwrap(), "/workspace");
    assert_eq!(parent_dir("/Cargo.toml").unwrap(), "/");
    assert_eq!(parent_dir("Cargo.toml").unwrap(), "");
    assert!(parent_dir("/").is_none());
    assert!(parent_dir("").is_none());
}
