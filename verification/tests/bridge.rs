use rusty_quack::bridge::{interpreter_version, VersionReport, VERSION_ATTRIBUTE, VERSION_MODULE};
use rusty_quack::vtab::HelloVTab;

#[test]
fn report_text_of_a_version_is_the_version() {
    let report = VersionReport::Version("3.11.7 (main)".to_string());
    assert!(!report.is_degraded());
    assert_eq!(report.into_text(), "3.11.7 (main)");
}

#[test]
fn report_text_of_a_failure_is_the_fallback() {
    let report = VersionReport::Degraded("AttributeError: version".to_string());
    assert!(report.is_degraded());
    assert_eq!(report.into_text(), "Error getting Version: AttributeError: version");
}

#[test]
fn interpreter_gives_its_version() {
    match interpreter_version() {
        VersionReport::Version(text) => {
            assert!(!text.is_empty());
            assert!(text.starts_with('3'));
        }
        VersionReport::Degraded(detail) => panic!("lookup failed: {}", detail),
    }
}

#[test]
fn interpreter_gives_the_same_version_twice() {
    assert_eq!(interpreter_version(), interpreter_version());
}

#[test]
fn func_yields_one_row_then_none() {
    let binding = HelloVTab::bind(vec!["world".to_string()]).unwrap();
    let mut cursor = HelloVTab::init();
    let first = HelloVTab::func(&binding.data, &mut cursor).unwrap();
    assert_eq!(first.len(), 1);
    assert!(first[0].starts_with("Hello world! Interpreter Version: "));
    assert!(first[0].len() > "Hello world! Interpreter Version: ".len());
    assert!(cursor.is_exhausted());
    for _ in 0..3 {
        let later = HelloVTab::func(&binding.data, &mut cursor).unwrap();
        assert!(later.is_empty());
    }
}

#[test]
fn func_row_holds_the_report_of_the_bridge() {
    let binding = HelloVTab::bind(vec!["world".to_string()]).unwrap();
    let mut cursor = HelloVTab::init();
    let rows = HelloVTab::func(&binding.data, &mut cursor).unwrap();
    let expected = format!("Hello world! Interpreter Version: {}", interpreter_version().into_text());
    assert_eq!(rows, vec![expected]);
}

#[test]
fn func_on_released_bind_data_fails() {
    let mut binding = HelloVTab::bind(vec!["world".to_string()]).unwrap();
    binding.data.free();
    let mut cursor = HelloVTab::init();
    assert!(HelloVTab::func(&binding.data, &mut cursor).is_err());
}

#[test]
fn func_runs_again_for_each_execution() {
    let binding = HelloVTab::bind(vec!["again".to_string()]).unwrap();
    for _ in 0..2 {
        let mut cursor = HelloVTab::init();
        assert_eq!(HelloVTab::func(&binding.data, &mut cursor).unwrap().len(), 1);
        assert_eq!(HelloVTab::func(&binding.data, &mut cursor).unwrap().len(), 0);
    }
}

#[test]
fn lookup_target_is_the_version_of_sys() {
    assert_eq!(VERSION_MODULE, "sys");
    assert_eq!(VERSION_ATTRIBUTE, "version");
}

#[test]
fn from_lookup_keeps_a_version() {
    let report = VersionReport::from_lookup(Ok("3.11.7".to_string()));
    assert_eq!(report, VersionReport::Version("3.11.7".to_string()));
}

#[test]
fn from_lookup_downgrades_a_failure() {
    let report = VersionReport::from_lookup(Err(Some("ImportError: sys".to_string())));
    assert_eq!(report, VersionReport::Degraded("ImportError: sys".to_string()));
    assert_eq!(report.into_text(), "Error getting Version: ImportError: sys");
}

#[test]
fn from_lookup_downgrades_a_failure_without_description() {
    let report = VersionReport::from_lookup(Err(None));
    assert_eq!(report, VersionReport::Degraded(String::new()));
    assert_eq!(report.into_text(), "Error getting Version: ");
}
