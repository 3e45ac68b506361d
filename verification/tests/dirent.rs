use dirstream::dirent::{
    dirfd_outcome, fdopen_outcome, open_outcome, read_outcome, Dirent, OpenEvent, ReadEvent,
};
use dirstream::error::OsError;

const ENOENT: i32 = 2;

#[test]
fn record_name_stops_at_first_nul() {
    let raw = vec![b'f', b'o', b'o', 0, b'x', b'y'];
    let entry = Dirent::from_record(&raw, 41);
    assert_eq!(entry.name().as_slice(), b"foo");
    assert_eq!(entry.ino(), 41);
}

#[test]
fn record_without_nul_keeps_everything() {
    let raw = vec![b'a', b'b'];
    let entry = Dirent::from_record(&raw, 1);
    assert_eq!(entry.name().as_slice(), b"ab");
}

#[test]
fn record_with_leading_nul_has_empty_name() {
    let raw = vec![0, b'a'];
    let entry = Dirent::from_record(&raw, 1);
    assert_eq!(entry.name().as_slice(), b"");
}

#[test]
fn empty_record_has_empty_name() {
    let raw: Vec<u8> = vec![];
    let entry = Dirent::from_record(&raw, 1);
    assert_eq!(entry.name().as_slice(), b"");
}

#[test]
fn cloned_entry_equals_original() {
    let entry = Dirent::from_record(b".\0", 7);
    let copy = entry.clone();
    assert_eq!(copy.name().as_slice(), entry.name().as_slice());
    assert_eq!(copy.ino(), entry.ino());
}

#[test]
fn read_record_yields_entry() {
    let ev = ReadEvent::Record { raw_name: vec![b'.', 0], ino: 9 };
    let entry = read_outcome(ev).unwrap().unwrap();
    assert_eq!(entry.name().as_slice(), b".");
    assert_eq!(entry.ino(), 9);
}

#[test]
fn read_null_without_code_is_end_of_stream() {
    let r = read_outcome(ReadEvent::Null { code: 0 });
    assert!(matches!(r, Ok(None)));
}

#[test]
fn read_null_with_code_is_read_failure() {
    let r = read_outcome(ReadEvent::Null { code: 5 });
    assert_eq!(r.unwrap_err(), OsError::ReadFailure(5));
}

#[test]
fn open_handle_owns_it() {
    let dir = open_outcome(OpenEvent::Handle { handle: 0x1000 }).unwrap();
    assert_eq!(dir.raw_handle(), 0x1000);
    assert_eq!(dir.origin_descriptor(), None);
}

#[test]
fn open_nonexistent_is_open_failure_with_code() {
    let r = open_outcome(OpenEvent::Null { code: ENOENT });
    let err = r.unwrap_err();
    assert_eq!(err, OsError::OpenFailure(ENOENT));
    assert_eq!(err.code(), ENOENT);
}

#[test]
fn fdopen_remembers_its_descriptor() {
    let dir = fdopen_outcome(OpenEvent::Handle { handle: 0x2000 }, 7).unwrap();
    assert_eq!(dir.origin_descriptor(), Some(7));
    assert_eq!(dirfd_outcome(7, 0).unwrap(), 7);
}

#[test]
fn fdopen_failure_is_open_failure() {
    let r = fdopen_outcome(OpenEvent::Null { code: 9 }, 3);
    assert_eq!(r.unwrap_err(), OsError::OpenFailure(9));
}

#[test]
fn close_hands_the_handle_back_once() {
    let dir = open_outcome(OpenEvent::Handle { handle: 0x3000 }).unwrap();
    let handle = dir.into_raw();
    assert_eq!(handle, 0x3000);
}

#[test]
fn dirfd_failure_carries_code() {
    let r = dirfd_outcome(-1, 13);
    let err = r.unwrap_err();
    assert_eq!(err, OsError::DescriptorFailure(13));
    assert_eq!(err.code(), 13);
}

#[test]
fn error_code_reaches_through_every_variant() {
    assert_eq!(OsError::OpenFailure(2).code(), 2);
    assert_eq!(OsError::ReadFailure(5).code(), 5);
    assert_eq!(OsError::DescriptorFailure(9).code(), 9);
}
