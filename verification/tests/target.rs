use fugue_idapro::target::{local_file, preference_by_extension};
use fugue_idapro::{Error, IDA};
use url::Url;

fn url(text: &str) -> Url {
    Url::parse(text).unwrap()
}

#[test]
fn no_opinion_on_http() {
    assert_eq!(IDA::default().is_preferred_for(&url("http://example.com/a.i64")), None);
    assert_eq!(IDA::default().is_preferred_for(&url("https://example.com/a.idb")), None);
    assert_eq!(IDA::default().is_preferred_for(&url("ftp://example.com/ls")), None);
}

#[test]
fn preferred_for_saved_databases() {
    let ida = IDA::located("/opt/ida/idat64".to_string(), false);
    assert_eq!(ida.is_preferred_for(&url("file:///samples/a.i64")), Some(true));
    assert_eq!(ida.is_preferred_for(&url("file:///samples/a.idb")), Some(true));
    assert_eq!(ida.is_preferred_for(&url("file://localhost/samples/a.idb")), Some(true));
}

#[test]
fn not_preferred_for_other_files() {
    let ida = IDA::default();
    assert_eq!(ida.is_preferred_for(&url("file:///bin/ls")), Some(false));
    assert_eq!(ida.is_preferred_for(&url("file:///samples/a.exe")), Some(false));
    assert_eq!(ida.is_preferred_for(&url("file:///samples/a.i64.bak")), Some(false));
    assert_eq!(ida.is_preferred_for(&url("file:///samples/a.I64")), Some(false));
    assert_eq!(ida.is_preferred_for(&url("file:///samples/.idb")), Some(false));
    assert_eq!(ida.is_preferred_for(&url("file:///samples/i64")), Some(false));
}

#[test]
fn preference_does_not_depend_on_the_tool() {
    let target = url("file:///samples/a.i64");
    assert_eq!(
        IDA::default().is_preferred_for(&target),
        IDA::located("/opt/ida/idat64.exe".to_string(), true).is_preferred_for(&target)
    );
}

#[test]
fn no_opinion_on_file_on_another_host() {
    assert_eq!(IDA::default().is_preferred_for(&url("file://example.com/samples/a.i64")), None);
}

#[test]
fn scheme_is_compared_in_lower_case() {
    assert_eq!(IDA::default().is_preferred_for(&url("FILE:///samples/a.i64")), Some(true));
}

#[test]
fn preference_by_extension_cases() {
    assert_eq!(preference_by_extension(false, Some("i64")), None);
    assert_eq!(preference_by_extension(false, None), None);
    assert_eq!(preference_by_extension(true, Some("i64")), Some(true));
    assert_eq!(preference_by_extension(true, Some("idb")), Some(true));
    assert_eq!(preference_by_extension(true, Some("elf")), Some(false));
    assert_eq!(preference_by_extension(true, None), Some(false));
}

#[test]
fn local_file_of_file_url() {
    assert_eq!(local_file(&url("file:///samples/a%20b.i64")).unwrap(), "/samples/a b.i64");
    assert_eq!(local_file(&url("file:///bin/ls")).unwrap(), "/bin/ls");
}

#[test]
fn local_file_refuses_other_schemes() {
    match local_file(&url("http://example.com/a")) {
        Err(Error::UnsupportedScheme(scheme)) => assert_eq!(scheme, "http"),
        other => panic!("unexpected: {:?}", other),
    }
    match local_file(&url("HTTPS://example.com/a")) {
        Err(Error::UnsupportedScheme(scheme)) => assert_eq!(scheme, "https"),
        other => panic!("unexpected: {:?}", other),
    }
}

#[test]
fn local_file_refuses_file_on_another_host() {
    match local_file(&url("file://example.com/a")) {
        Err(Error::UnsupportedScheme(scheme)) => assert_eq!(scheme, "file"),
        other => panic!("unexpected: {:?}", other),
    }
}
