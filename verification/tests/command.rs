use fugue_idapro::command::{has_saved_database_extension, select_mode};
use fugue_idapro::{Error, Mode, IDA};

fn strings(args: &[&str]) -> Vec<String> {
    args.iter().map(|a| a.to_string()).collect()
}

#[test]
fn saved_database_extensions() {
    assert!(has_saved_database_extension(Some("i64")));
    assert!(has_saved_database_extension(Some("idb")));
    assert!(!has_saved_database_extension(Some("I64")));
    assert!(!has_saved_database_extension(Some("exe")));
    assert!(!has_saved_database_extension(Some("")));
    assert!(!has_saved_database_extension(None));
}

#[test]
fn newer_extension_on_disk_is_loaded_in_place() {
    assert_eq!(select_mode(true, Some("i64")), Mode { load_existing: true, force_32bit: false });
}

#[test]
fn older_extension_on_disk_forces_32bit() {
    assert_eq!(select_mode(true, Some("idb")), Mode { load_existing: true, force_32bit: true });
}

#[test]
fn other_extension_is_imported_afresh() {
    let fresh = Mode { load_existing: false, force_32bit: false };
    assert_eq!(select_mode(true, Some("exe")), fresh);
    assert_eq!(select_mode(true, Some("fdb")), fresh);
    assert_eq!(select_mode(true, None), fresh);
    assert_eq!(select_mode(false, Some("so")), fresh);
}

#[test]
fn saved_database_that_is_not_on_disk_is_imported_afresh() {
    let fresh = Mode { load_existing: false, force_32bit: false };
    assert_eq!(select_mode(false, Some("i64")), fresh);
    assert_eq!(select_mode(false, Some("idb")), fresh);
}

#[test]
fn command_without_tool_is_not_available() {
    let mode = Mode { load_existing: false, force_32bit: false };
    let r = IDA::default().export_path("/tmp/x.fdb", true).command("/in/ls", mode, "/scratch");
    assert!(matches!(r, Err(Error::NotAvailable)));
}

#[test]
fn fresh_import_to_scratch() {
    let ida = IDA::located("/opt/ida/idat64".to_string(), false);
    let mode = select_mode(true, None);
    let invocation = ida.command("/bin/ls", mode, "/scratch").unwrap();
    assert_eq!(invocation.program, "/opt/ida/idat64");
    assert_eq!(
        invocation.args,
        strings(&[
            "-A",
            "-o/scratch/fugue-import-tmp.ida",
            "-OFugueOutput:/scratch/fugue-temp-export.fdb",
            "-OFugueForceOverwrite:false",
            "/bin/ls",
        ])
    );
    assert_eq!(invocation.output, "/scratch/fugue-temp-export.fdb");
}

#[test]
fn fresh_import_to_explicit_output() {
    let ida = IDA::located("/opt/ida/idat64".to_string(), false).export_path("/tmp/x.fdb", true);
    let mode = select_mode(false, Some("i64"));
    let invocation = ida.command("/in/a.i64", mode, "/scratch").unwrap();
    assert_eq!(invocation.program, "/opt/ida/idat64");
    assert_eq!(
        invocation.args,
        strings(&[
            "-A",
            "-o/scratch/fugue-import-tmp.ida",
            "-OFugueOutput:/tmp/x.fdb",
            "-OFugueForceOverwrite:true",
            "/in/a.i64",
        ])
    );
    assert_eq!(invocation.output, "/tmp/x.fdb");
}

#[test]
fn existing_database_is_opened_in_place() {
    let ida = IDA::located("/opt/ida/idat64".to_string(), false).export_path("/tmp/x.fdb", false);
    let mode = select_mode(true, Some("i64"));
    let invocation = ida.command("/in/a.i64", mode, "/unused").unwrap();
    assert_eq!(invocation.program, "/opt/ida/idat64");
    assert_eq!(
        invocation.args,
        strings(&["-A", "-OFugueOutput:/tmp/x.fdb", "-OFugueForceOverwrite:false", "/in/a.i64"])
    );
    assert_eq!(invocation.output, "/tmp/x.fdb");
}

#[test]
fn existing_database_without_output_uses_scratch() {
    let ida = IDA::located("/opt/ida/ida64".to_string(), false);
    let mode = select_mode(true, Some("i64"));
    let invocation = ida.command("/in/a.i64", mode, "/scratch").unwrap();
    assert_eq!(invocation.program, "/opt/ida/ida64");
    assert_eq!(
        invocation.args,
        strings(&[
            "-A",
            "-OFugueOutput:/scratch/fugue-temp-export.fdb",
            "-OFugueForceOverwrite:false",
            "/in/a.i64",
        ])
    );
    assert_eq!(invocation.output, "/scratch/fugue-temp-export.fdb");
}

#[test]
fn older_database_runs_the_32bit_sibling() {
    let ida = IDA::located("/opt/ida/idat64".to_string(), false).export_path("/tmp/x.fdb", true);
    let mode = select_mode(true, Some("idb"));
    let invocation = ida.command("/in/a.idb", mode, "/unused").unwrap();
    assert_eq!(invocation.program, "/opt/ida/idat");
    assert_eq!(
        invocation.args,
        strings(&["-A", "-OFugueOutput:/tmp/x.fdb", "-OFugueForceOverwrite:true", "/in/a.idb"])
    );
}

#[test]
fn compat_layer_starts_the_launcher() {
    let ida = IDA::located("/opt/ida/idat64.exe".to_string(), true).export_path("/tmp/x.fdb", true);
    let mode = select_mode(true, Some("i64"));
    let invocation = ida.command("/in/a.i64", mode, "/unused").unwrap();
    assert_eq!(invocation.program, "wine");
    assert_eq!(
        invocation.args,
        strings(&[
            "/opt/ida/idat64.exe",
            "-A",
            "-OFugueOutput:/tmp/x.fdb",
            "-OFugueForceOverwrite:true",
            "/in/a.i64",
        ])
    );
}

#[test]
fn compat_layer_with_older_database_runs_the_32bit_windows_sibling() {
    let ida = IDA::located("/opt/ida/ida64.exe".to_string(), true);
    let mode = select_mode(true, Some("idb"));
    let invocation = ida.command("/in/a.idb", mode, "/scratch").unwrap();
    assert_eq!(invocation.program, "wine");
    assert_eq!(
        invocation.args,
        strings(&[
            "/opt/ida/idat.exe",
            "-A",
            "-OFugueOutput:/scratch/fugue-temp-export.fdb",
            "-OFugueForceOverwrite:false",
            "/in/a.idb",
        ])
    );
}

#[test]
fn compat_layer_fresh_import() {
    let ida = IDA::located("/opt/ida/idat64.exe".to_string(), true);
    let mode = select_mode(true, Some("exe"));
    let invocation = ida.command("/in/a.exe", mode, "/scratch/").unwrap();
    assert_eq!(invocation.program, "wine");
    assert_eq!(
        invocation.args,
        strings(&[
            "/opt/ida/idat64.exe",
            "-A",
            "-o/scratch/fugue-import-tmp.ida",
            "-OFugueOutput:/scratch/fugue-temp-export.fdb",
            "-OFugueForceOverwrite:false",
            "/in/a.exe",
        ])
    );
}

#[test]
fn needs_scratch_unless_output_is_named_and_database_is_loaded() {
    let loaded = Mode { load_existing: true, force_32bit: false };
    let fresh = Mode { load_existing: false, force_32bit: false };
    let unnamed = IDA::located("/opt/ida/idat64".to_string(), false);
    let named = IDA::located("/opt/ida/idat64".to_string(), false).export_path("/tmp/x.fdb", true);
    assert!(unnamed.needs_scratch(loaded));
    assert!(unnamed.needs_scratch(fresh));
    assert!(named.needs_scratch(fresh));
    assert!(!named.needs_scratch(loaded));
}
