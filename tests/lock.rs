use libgit::lock::{is_free, LockRecord};
use libgit::error::FError;
use libgit::system::{acquire_step, settle_step, swap_step};

#[test]
fn free_record_has_the_bincode_layout() {
    let bytes = LockRecord::unlocked().encode();
    assert_eq!(bytes, vec![0u8, 0u8]);
    let expected = bincode::serialize(&(false, None::<String>)).unwrap();
    assert_eq!(bytes, expected);
}

#[test]
fn held_record_has_the_bincode_layout() {
    let stamp = "2022-03-04T05:06:07.123Z";
    let bytes = LockRecord::locked(stamp.as_bytes().to_vec()).encode();
    let expected = bincode::serialize(&(true, Some(stamp.to_string()))).unwrap();
    assert_eq!(bytes, expected);
    assert_eq!(bytes[0], 1);
    assert_eq!(bytes[1], 1);
    assert_eq!(bytes[2], stamp.len() as u8);
    assert_eq!(bytes.len(), 10 + stamp.len());
}

#[test]
fn records_decode_back() {
    let held = LockRecord::locked(b"t".to_vec());
    let back = LockRecord::decode(&held.encode()).unwrap();
    assert!(back.is_locked);
    assert_eq!(back.locked_at, Some(b"t".to_vec()));
    let free = LockRecord::decode(&LockRecord::unlocked().encode()).unwrap();
    assert!(!free.is_locked);
    assert_eq!(free.locked_at, None);
}

#[test]
fn malformed_records_do_not_decode() {
    assert!(LockRecord::decode(&[]).is_none());
    assert!(LockRecord::decode(&[0]).is_none());
    assert!(LockRecord::decode(&[2, 0]).is_none());
    assert!(LockRecord::decode(&[0, 2]).is_none());
    assert!(LockRecord::decode(&[0, 0, 0]).is_none());
    assert!(LockRecord::decode(&[1, 1, 2, 0, 0, 0, 0, 0, 0, 0, b'x']).is_none());
    assert!(LockRecord::decode(&[1, 1, 1, 0, 0, 0, 0, 0, 0, 0, b'x']).is_some());
}

#[test]
fn only_a_readable_unlocked_record_is_free() {
    assert!(is_free(&Some(vec![0, 0])));
    assert!(!is_free(&Some(LockRecord::locked(b"now".to_vec()).encode())));
    assert!(!is_free(&None));
    assert!(!is_free(&Some(vec![7])));
}

#[test]
fn timestamp_must_be_utf8() {
    assert!(LockRecord::decode(&[1, 1, 1, 0, 0, 0, 0, 0, 0, 0, 0xff]).is_none());
}

#[test]
fn lock_steps_decide_each_outcome() {
    assert_eq!(acquire_step(Some(vec![0, 0]), "r").unwrap(), vec![0, 0]);
    let held = LockRecord::locked(b"t".to_vec()).encode();
    assert!(matches!(acquire_step(Some(held), "r"), Err(FError::RepoLocked(n)) if n == "r"));
    assert!(matches!(acquire_step(None, "r"), Err(FError::NotRegistered(n)) if n == "r"));
    assert!(matches!(acquire_step(Some(vec![9]), "r"), Err(FError::NotRegistered(_))));
    assert!(swap_step(Ok(true), "r").is_ok());
    assert!(matches!(swap_step(Ok(false), "r"), Err(FError::RepoLocked(_))));
    assert_eq!(settle_step(Ok(7u8), Ok(true), "r").unwrap(), 7);
    assert!(matches!(settle_step(Err::<u8, FError>(FError::RemoteNameExists), Ok(true), "r"), Err(FError::RemoteNameExists)));
    assert!(matches!(settle_step(Ok(7u8), Ok(false), "r"), Err(FError::LockLost(n)) if n == "r"));
}
