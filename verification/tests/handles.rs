use dart::handle::Any;
use dart::handle::DartHandle;
use dart::handle::DartString;
use dart::handle::DartType;
use dart::handle::Empty;
use dart::handle::Error;
use dart::handle::Library;
use dart::handle::SendPort;

fn string_handle(raw: u64, bytes: &[u8]) -> Any {
    Any::new(raw, false, false, true, Some(bytes.to_vec()), Some(bytes.to_vec()))
}

fn error_handle(raw: u64) -> Any {
    Any::new(raw, true, false, false, None, None)
}

fn plain_handle(raw: u64, shown: Option<Vec<u8>>) -> Any {
    Any::new(raw, false, false, false, None, shown)
}

#[test]
fn downcast_string_succeeds_on_string() {
    let h = string_handle(7, b"hello");
    let s: Result<DartString, Error> = h.as_object();
    let s = s.unwrap();
    assert_eq!(s.as_raw(), 7);
    assert_eq!(s.as_str().unwrap(), b"hello".to_vec());
}

#[test]
fn downcast_succeeds_iff_predicate_holds() {
    let s = string_handle(1, b"x");
    let e = error_handle(2);
    let l = Any::new(3, false, true, false, None, None);
    assert!(DartString::is_type(&s));
    assert!(s.as_object::<DartString>().is_ok());
    assert!(!DartString::is_type(&l));
    assert!(l.as_object::<DartString>().is_err());
    assert!(Library::is_type(&l));
    assert!(l.as_object::<Library>().is_ok());
    assert!(!Library::is_type(&s));
    assert!(Empty::is_type(&s));
    assert!(s.as_object::<Empty>().is_ok());
    assert!(!Empty::is_type(&e));
    assert!(e.as_object::<Empty>().is_err());
    assert!(SendPort::is_type(&s));
    assert!(!SendPort::is_type(&e));
}

#[test]
fn downcast_of_error_propagates_it_unchanged() {
    let e = error_handle(99);
    let r: Result<DartString, Error> = e.as_object();
    let err = r.err().unwrap();
    assert_eq!(err.as_raw(), 99);
    assert!(err.as_any().is_error());
}

#[test]
fn downcast_failure_names_wanted_type_and_rendering() {
    let h = plain_handle(5, Some(b"42".to_vec()));
    let r: Result<DartString, Error> = h.as_object();
    let err = r.err().unwrap();
    let any = err.as_any();
    assert!(any.is_error());
    let message = any.shown_bytes().clone().unwrap();
    assert_eq!(message, b"Cast failure, wanted String got 42".to_vec());
}

#[test]
fn downcast_failure_without_rendering_uses_fixed_placeholder() {
    let h = plain_handle(5, None);
    let r: Result<Library, Error> = h.as_object();
    let err = r.err().unwrap();
    let message = err.as_any().shown_bytes().clone().unwrap();
    assert_eq!(
        message,
        b"Cast failure, wanted Library got Failed to convert to string".to_vec()
    );
}

#[test]
fn typenames_are_the_diagnostic_constants() {
    assert_eq!(DartString::typename(), "String");
    assert_eq!(Library::typename(), "Library");
    assert_eq!(Empty::typename(), "None");
    assert_eq!(SendPort::typename(), "SendPort");
}

#[test]
fn utf8_bytes_round_trip_through_a_string_handle() {
    let bytes: Vec<u8> = "héllo wörld".as_bytes().to_vec();
    let s = DartString::from_utf8(&bytes).unwrap();
    assert_eq!(s.as_str().unwrap(), bytes);
    let empty = DartString::from_utf8(b"").unwrap();
    assert_eq!(empty.as_str().unwrap(), Vec::<u8>::new());
}

#[test]
fn string_handles_from_host_strings() {
    let owned = String::from("abc");
    let s = DartString::from_string(&owned).unwrap();
    assert_eq!(s.as_str().unwrap(), b"abc".to_vec());
    let s = DartString::from_str("xyz").unwrap();
    assert_eq!(s.as_str().unwrap(), b"xyz".to_vec());
}

#[test]
fn string_without_extractable_content_reports_an_error() {
    // A handle the VM says is a string, whose content extraction failed.
    let h = Any::new(4, false, false, true, None, None);
    let r: Result<DartString, Error> = h.as_object();
    let s = r.unwrap();
    let err = s.as_str().err().unwrap();
    assert!(err.as_any().is_error());
}

#[test]
fn unwrap_collapses_both_branches() {
    let s = string_handle(11, b"v");
    let ok: Result<DartString, Error> = s.as_object();
    let collapsed = dart::unwrap(ok);
    assert_eq!(collapsed.as_raw(), 11);
    assert!(!collapsed.is_error());

    let e = error_handle(12);
    let err: Result<DartString, Error> = e.as_object();
    let collapsed = dart::unwrap(err);
    assert_eq!(collapsed.as_raw(), 12);
    assert!(collapsed.is_error());
}

#[test]
fn simplify_result_keeps_the_branch() {
    let s = string_handle(21, b"v");
    let ok: Result<DartString, Error> = s.as_object();
    let simplified = dart::simplify_result(ok);
    assert_eq!(simplified.ok().unwrap().as_raw(), 21);

    let e = error_handle(22);
    let err: Result<DartString, Error> = e.as_object();
    let simplified = dart::simplify_result(err);
    assert_eq!(simplified.err().unwrap().as_raw(), 22);
}
