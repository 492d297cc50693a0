use fugue_idapro::IDA;

#[test]
fn default_backend_has_no_tool() {
    let ida = IDA::default();
    assert!(!ida.is_available());
    assert_eq!(ida.tool_path(), None);
    assert_eq!(ida.output_path(), None);
    assert!(!ida.overwrite());
    assert!(!ida.compat_layer());
}

#[test]
fn located_backend_is_available() {
    let ida = IDA::located("/opt/ida/idat64".to_string(), false);
    assert!(ida.is_available());
    assert_eq!(ida.tool_path(), Some("/opt/ida/idat64"));
    assert_eq!(ida.output_path(), None);
    assert!(!ida.overwrite());
    assert!(!ida.compat_layer());
}

#[test]
fn located_backend_remembers_compat_layer() {
    let ida = IDA::located("/opt/ida/idat64.exe".to_string(), true);
    assert!(ida.is_available());
    assert!(ida.compat_layer());
}

#[test]
fn name_is_fixed() {
    assert_eq!(IDA::default().name(), "fugue-idapro");
    assert_eq!(IDA::located("/x/ida64".to_string(), true).name(), "fugue-idapro");
}

#[test]
fn export_path_sets_path_and_flag() {
    let ida = IDA::located("/opt/ida/idat64".to_string(), true).export_path("/tmp/x.fdb", true);
    assert_eq!(ida.output_path(), Some("/tmp/x.fdb"));
    assert!(ida.overwrite());
    assert_eq!(ida.tool_path(), Some("/opt/ida/idat64"));
    assert!(ida.compat_layer());
}

#[test]
fn export_path_twice_keeps_only_the_last() {
    let twice = IDA::located("/opt/ida/idat64".to_string(), false)
        .export_path("/tmp/first.fdb", true)
        .export_path("/tmp/second.fdb", false);
    let once = IDA::located("/opt/ida/idat64".to_string(), false)
        .export_path("/tmp/second.fdb", false);
    assert_eq!(twice.output_path(), Some("/tmp/second.fdb"));
    assert!(!twice.overwrite());
    assert_eq!(twice, once);
}

#[test]
fn export_path_works_without_a_tool() {
    let ida = IDA::default().export_path("out.fdb", false);
    assert!(!ida.is_available());
    assert_eq!(ida.output_path(), Some("out.fdb"));
}

#[test]
fn clone_is_equal() {
    let ida = IDA::located("/opt/ida/idat64".to_string(), false).export_path("/tmp/x.fdb", true);
    assert_eq!(ida.clone(), ida);
    assert_ne!(ida, IDA::default());
}
