use cargo_magisk::config::ModuleProp;
use cargo_magisk::errors::ConfigError;
use cargo_magisk::errors::FieldName;

fn new_prop(id: &str, name: &str, version: &str, author: &str) -> Result<ModuleProp, ConfigError> {
    ModuleProp::new(
        id.to_string(),
        name.to_string(),
        version.to_string(),
        author.to_string(),
    )
}

#[test]
fn module_prop_validate() {
    for id in ["a_module", "a.module", "module-101"] {
        let result = new_prop(id, "valid name", "1.0.0", "valid author");
        assert!(result.is_ok(), "expected id '{}' to validate", id);
    }
}

#[test]
fn module_prop_validate_err() {
    for id in ["", "1_module", "a module", "-a-module", "x"] {
        let result = new_prop(id, "valid name", "1.0.0", "valid author");
        assert!(result.is_err(), "expected id '{}' to fail", id);
    }
}

#[test]
fn validation_reports_first_failing_field() {
    assert_eq!(
        new_prop("", "", "", "").unwrap_err(),
        ConfigError::FieldEmpty(FieldName::Id)
    );
    assert_eq!(
        new_prop("-a-module", "", "", "").unwrap_err(),
        ConfigError::IdFormat
    );
    assert_eq!(
        new_prop("a_module", "", "", "").unwrap_err(),
        ConfigError::FieldEmpty(FieldName::Name)
    );
    assert_eq!(
        new_prop("a_module", "n", "", "").unwrap_err(),
        ConfigError::FieldEmpty(FieldName::Version)
    );
    assert_eq!(
        new_prop("a_module", "n", "1.0.0", "").unwrap_err(),
        ConfigError::FieldEmpty(FieldName::Author)
    );
}

#[test]
fn bad_version_reported_by_encoder() {
    let result = new_prop("a_module", "n", "not-a-version", "a");
    assert!(matches!(
        result.unwrap_err(),
        ConfigError::VersionFormat(_)
    ));
}

#[test]
fn module_prop_keeps_fields() {
    let mp = new_prop("module-101", "A Module", "1.2.3-rc.4", "someone").unwrap();
    assert_eq!(mp.id, "module-101");
    assert_eq!(mp.name, "A Module");
    assert_eq!(mp.version, "1.2.3-rc.4");
    assert_eq!(mp.author, "someone");
    assert_eq!(mp.version_code.code_string(), "010203304");
}

#[test]
fn render_writes_descriptor_lines() {
    let mp = new_prop("module-101", "A Module", "1.0.0", "someone").unwrap();
    assert_eq!(
        mp.render(),
        "id=module-101\nname=A Module\nauthor=someone\nversion=1.0.0\nversionCode=010000900\n"
    );
}
