use std::path::PathBuf;
use std::time::{SystemTime, UNIX_EPOCH};

use git2::{Repository, Signature};
use libgit::error::FError;
use libgit::system::System;
use libgit::system::{find_value, open_registered, rehydrate};

const UPSTREAM: &str = "https://example.com/org/repo.git";

/// A fresh base directory holding a bare local mirror and a seeded checkout
/// at the mirror path of the upstream.
fn seeded_base(name: &str) -> (PathBuf, String) {
    let nanos = SystemTime::now().duration_since(UNIX_EPOCH).unwrap().as_nanos();
    let base = PathBuf::from(format!("/tmp/libgit_tests/{}_{}", name, nanos));
    let local = base.join("local");
    Repository::init_bare(&local).unwrap();
    let mirror = base.join("example.com").join("org").join("repo.git");
    let git = Repository::init(&mirror).unwrap();
    let mut root = git.treebuilder(None).unwrap();
    root.insert("README.md", git.blob(b"# readme\n").unwrap(), 0o100644).unwrap();
    let tree = git.find_tree(root.write().unwrap()).unwrap();
    let sig = Signature::now("Tester", "tester@foo.com").unwrap();
    git.commit(Some("HEAD"), &sig, &sig, "initial", &tree, &[]).unwrap();
    (base, local.to_str().unwrap().to_owned())
}

#[test]
fn system_registers_and_finds_mirrors() {
    let (base, local) = seeded_base("SYSTEM_FIND");
    let sys = System::new(base.to_str().unwrap()).unwrap();
    assert!(base.join("interface_repo_data").exists());
    let repo = sys.init_repo(local.clone(), UPSTREAM.into()).unwrap();

    let by_local = sys.with_local(&local).unwrap().unwrap();
    assert_eq!(by_local.path, repo.path);
    assert_eq!(by_local.upstream.text, repo.upstream.text);
    assert_eq!(by_local.local, repo.local);

    let by_upstream = sys.with_upstream(UPSTREAM).unwrap().unwrap();
    assert_eq!(by_upstream.path, repo.path);
    assert_eq!(by_upstream.local, repo.local);

    assert!(sys.with_upstream("SYSTEM_FIND").unwrap().is_none());
    assert!(sys.with_local(UPSTREAM).unwrap().is_none());
}

#[test]
fn lock_admits_one_holder_at_a_time() {
    let (base, local) = seeded_base("SYSTEM_LOCK");
    let sys = System::new(base.to_str().unwrap()).unwrap();
    let repo = sys.init_repo(local.clone(), UPSTREAM.into()).unwrap();

    let inner = sys.with_lock(&repo.local, || Ok(sys.with_lock(&repo.local, || Ok(1u32))));
    match inner {
        Ok(Err(FError::RepoLocked(name))) => assert_eq!(name, local),
        other => panic!("unexpected {:?}", other),
    }
    assert_eq!(sys.with_lock(&repo.local, || Ok(3u32)).unwrap(), 3);
    sys.add_remote(&repo, "extra", "https://a.org/x").unwrap();
    assert!(matches!(
        sys.add_remote(&repo, "extra", "https://a.org/y"),
        Err(FError::RemoteNameExists)
    ));
    assert_eq!(sys.with_lock(&repo.local, || Ok(4u32)).unwrap(), 4);
}

#[test]
fn process_patch_under_lock_reports_engine_errors_and_releases() {
    let (base, local) = seeded_base("SYSTEM_PROCESS");
    let sys = System::new(base.to_str().unwrap()).unwrap();
    let repo = sys.init_repo(local, UPSTREAM.into()).unwrap();
    let r = sys.process_patch(&repo, "garbage".into(), "TMP".into(), |_p: String| Ok(None), |_p: String| Ok(()));
    assert!(matches!(r, Err(FError::GitError(_))));
    assert_eq!(sys.with_lock(&repo.local, || Ok(5u32)).unwrap(), 5);
}

#[test]
fn store_under_a_file_is_an_io_error() {
    assert!(matches!(System::new("/dev/null/base"), Err(FError::IOError(_))));
}

#[test]
fn rehydrate_without_stored_upstream_is_none() {
    assert!(matches!(rehydrate("/tmp", "local", None), Ok(None)));
    assert!(matches!(rehydrate("/tmp", "local", Some("not a url".into())), Err(FError::NotAUrl(_))));
}

#[test]
fn lock_of_unregistered_name_is_refused() {
    let nanos = SystemTime::now().duration_since(UNIX_EPOCH).unwrap().as_nanos();
    let base = format!("/tmp/libgit_tests/SYSTEM_UNKNOWN_{}", nanos);
    let sys = System::new(&base).unwrap();
    let r = sys.with_lock("nobody", || Ok(()));
    assert!(matches!(r, Err(FError::NotRegistered(_))));
}

#[test]
fn open_registered_without_match_is_none() {
    let entries = vec![(b"a".to_vec(), b"https://x.org/a".to_vec())];
    assert!(matches!(open_registered("/tmp", "https://x.org/b", &entries), Ok(None)));
    assert!(matches!(open_registered("/tmp", "https://x.org/b", &vec![]), Ok(None)));
    let bad_name = vec![(vec![0xff], b"https://x.org/b".to_vec())];
    assert!(matches!(open_registered("/tmp", "https://x.org/b", &bad_name), Ok(None)));
}

#[test]
fn find_value_takes_the_first_match() {
    let entries = vec![
        (b"a".to_vec(), b"u".to_vec()),
        (b"b".to_vec(), b"v".to_vec()),
        (b"c".to_vec(), b"v".to_vec()),
    ];
    assert_eq!(find_value(&entries, b"v"), Some(1));
    assert_eq!(find_value(&entries, b"w"), None);
}
