use std::cell::RefCell;
use std::path::{Path, PathBuf};
use std::time::{SystemTime, UNIX_EPOCH};

use git2::build::CheckoutBuilder;
use git2::{Oid, Repository, Signature};
use libgit::error::{FError, FResult};
use libgit::identity::{InterfaceAdmin, Patch};
use libgit::repo::Repo;
use libgit::{IGNORE_FILE, LOCAL_REMOTE, UPSTREAM_REMOTE};

const AUTHOR: &str = "Tester";
const AUTHOR_EMAIL: &str = "tester@foo.com";
const UPSTREAM: &str = "https://example.com/org/repo.git";

/// A fresh directory name under /tmp for one test run.
fn base_dir(name: &str) -> PathBuf {
    let nanos = SystemTime::now().duration_since(UNIX_EPOCH).unwrap().as_nanos();
    PathBuf::from(format!("/tmp/libgit_tests/{}_{}", name, nanos))
}

/// A tree with `src/lib.rs`, `README.md` and the given top-level files.
fn build_tree(git: &Repository, lib: &str, readme: &str, extra: &[(&str, &str)]) -> Oid {
    let mut src = git.treebuilder(None).unwrap();
    src.insert("lib.rs", git.blob(lib.as_bytes()).unwrap(), 0o100644).unwrap();
    let src_id = src.write().unwrap();
    let mut root = git.treebuilder(None).unwrap();
    root.insert("src", src_id, 0o040000).unwrap();
    root.insert("README.md", git.blob(readme.as_bytes()).unwrap(), 0o100644).unwrap();
    for (name, text) in extra {
        root.insert(name, git.blob(text.as_bytes()).unwrap(), 0o100644).unwrap();
    }
    root.write().unwrap()
}

/// A mirror directory holding a repository with one commit, opened as a Repo.
fn seeded_repo(name: &str) -> (PathBuf, Repo) {
    let base = base_dir(name);
    let local = base.join("local");
    Repository::init_bare(&local).unwrap();
    let mirror = base.join("example.com").join("org").join("repo.git");
    let git = Repository::init(&mirror).unwrap();
    let tree = git.find_tree(build_tree(&git, "fn main() {}\n", "# readme\n", &[])).unwrap();
    let sig = Signature::now("Seeder", "seeder@example.org").unwrap();
    git.commit(Some("HEAD"), &sig, &sig, "initial", &tree, &[]).unwrap();
    git.checkout_head(Some(CheckoutBuilder::new().force())).unwrap();
    let repo = Repo::new(
        base.to_str().unwrap(),
        local.to_str().unwrap().to_owned(),
        UPSTREAM.to_owned(),
    )
    .unwrap();
    (base, repo)
}

/// A mailbox patch that changes `src/lib.rs` and `README.md` and adds `foo`,
/// `bar` and an ignore file that lists them.
fn make_changes(repo: &Repo) -> String {
    let git = &repo.repo;
    let head = git.head().unwrap().peel_to_commit().unwrap();
    let changed = build_tree(
        git,
        "fn main() {}\nchange lib.rs",
        "# readme\nchange readme",
        &[("foo", "foo"), ("bar", "bar"), (IGNORE_FILE, "foo\nbar\n")],
    );
    let changed = git.find_tree(changed).unwrap();
    let sig = Signature::now("Seeder", "seeder@example.org").unwrap();
    let commit = git.commit(None, &sig, &sig, "changes", &changed, &[&head]).unwrap();
    let commit = git.find_commit(commit).unwrap();
    let mut diff = git.diff_tree_to_tree(Some(&head.tree().unwrap()), Some(&changed), None).unwrap();
    #[allow(deprecated)]
    let patch = diff.format_email(1, 1, &commit, None).unwrap();
    patch.as_str().unwrap().to_owned()
}

/// Extracts the outbound patch, reading the ignore file as a blob and
/// recording the paths to remove; they are then removed by a checkout that
/// drops untracked files.
fn extract(repo: &Repo, patch: &str, branch: &str) -> String {
    let removed = RefCell::new(Vec::new());
    let read = |p: String| -> FResult<Option<String>> {
        let path = Path::new(&p);
        if !path.exists() {
            return Ok(None);
        }
        let id = repo.repo.blob_path(path).map_err(FError::GitError)?;
        let blob = repo.repo.find_blob(id).map_err(FError::GitError)?;
        Ok(Some(String::from_utf8(blob.content().to_vec()).unwrap()))
    };
    let remove = |p: String| -> FResult<()> {
        removed.borrow_mut().push(p);
        Ok(())
    };
    let out = repo.process_patch(patch.to_owned(), branch.to_owned(), read, remove).unwrap();
    let removed = removed.into_inner();
    assert!(removed.iter().all(|p| p.starts_with(&repo.path)));
    assert!(removed.contains(&format!("{}/foo", repo.path)) || !patch.contains("foo"));
    repo.repo
        .checkout_head(Some(CheckoutBuilder::new().force().remove_untracked(true)))
        .unwrap();
    out
}

#[test]
fn open_or_clone_twice_opens_the_same_place() {
    let (base, first) = seeded_repo("OPEN_TWICE");
    let second = Repo::new(base.to_str().unwrap(), first.local.clone(), UPSTREAM.to_owned())
        .unwrap();
    assert_eq!(first.path, second.path);
    assert_eq!(first.get_upstream(), second.get_upstream());
    assert_eq!(first.path, base.join("example.com/org/repo.git").to_str().unwrap());
    let remote = second.repo.find_remote(UPSTREAM_REMOTE).unwrap();
    assert_eq!(remote.url(), Some(UPSTREAM));
    let remote = second.repo.find_remote(LOCAL_REMOTE).unwrap();
    assert_eq!(remote.url(), Some(first.local.as_str()));
}

#[test]
fn add_remote_is_idempotent_and_refuses_other_url() {
    let (_base, repo) = seeded_repo("ADD_REMOTE");
    repo.add_remote("extra", "https://a.org/x").unwrap();
    repo.add_remote("extra", "https://a.org/x").unwrap();
    assert!(matches!(repo.add_remote("extra", "https://a.org/y"), Err(FError::RemoteNameExists)));
    assert_eq!(repo.repo.find_remote("extra").unwrap().url(), Some("https://a.org/x"));
}

#[test]
fn new_refuses_not_a_url() {
    let base = base_dir("NOT_A_URL");
    let r = Repo::new(base.to_str().unwrap(), "local".into(), "not a url".into());
    assert!(matches!(r, Err(FError::NotAUrl(_))));
    assert!(!base.exists());
}

#[test]
fn apply_patch_refuses_bad_email_before_touching_the_repository() {
    let (_base, repo) = seeded_repo("BAD_EMAIL");
    let before = repo.repo.head().unwrap().target().unwrap();
    let patch = Patch {
        message: "m".into(),
        author_email: "bad-email".into(),
        author_name: AUTHOR.into(),
        patch: "not a diff".into(),
    };
    let admin = InterfaceAdmin::new(AUTHOR_EMAIL.into(), AUTHOR.into()).unwrap();
    match repo.apply_patch(patch, &admin, "BAD_EMAIL".into()) {
        Err(FError::NotAnEmail(e)) => assert_eq!(e, "bad-email"),
        other => panic!("unexpected {:?}", other),
    }
    assert!(repo.repo.find_branch("BAD_EMAIL", git2::BranchType::Local).is_err());
    assert_eq!(repo.repo.head().unwrap().target().unwrap(), before);
}

#[test]
fn malformed_diff_is_an_engine_error() {
    let (_base, repo) = seeded_repo("BAD_DIFF");
    let patch = Patch::new("m".into(), AUTHOR.into(), AUTHOR_EMAIL.into(), "garbage".into()).unwrap();
    let admin = InterfaceAdmin::new(AUTHOR_EMAIL.into(), AUTHOR.into()).unwrap();
    assert!(matches!(repo.apply_patch(patch, &admin, "BAD_DIFF".into()), Err(FError::GitError(_))));
}

#[test]
fn process_patch_drops_ignored_paths_and_restores_the_repository() {
    const NAME: &str = "PROCESS";
    let (_base, repo) = seeded_repo(NAME);
    let patch = make_changes(&repo);
    let head_before = repo.repo.head().unwrap();
    let head_name = head_before.name().unwrap().to_owned();
    let head_id = head_before.target().unwrap();

    let processed = extract(&repo, &patch, NAME);
    assert!(!processed.contains(IGNORE_FILE));
    assert!(!processed.contains("foo"));
    assert!(!processed.contains("bar"));
    assert!(processed.contains("lib.rs"));
    assert!(processed.contains("README.md"));

    let head_after = repo.repo.head().unwrap();
    assert_eq!(head_after.name().unwrap(), head_name);
    assert_eq!(head_after.target().unwrap(), head_id);
    assert!(repo.repo.find_branch(NAME, git2::BranchType::Local).is_err());
    let mut index = repo.repo.index().unwrap();
    let tree = head_after.peel_to_tree().unwrap();
    assert_eq!(index.write_tree().unwrap(), tree.id());
    assert!(repo.repo.statuses(None).unwrap().is_empty());
    assert!(!Path::new(&repo.path).join("foo").exists());
}

#[test]
fn apply_then_process_reproduces_the_patch() {
    const NAME: &str = "ROUND";
    let (_base, repo) = seeded_repo(NAME);
    let patch = make_changes(&repo);
    let processed = extract(&repo, &patch, NAME);
    let head_id = repo.repo.head().unwrap().target().unwrap();

    let patch = Patch::new(NAME.into(), AUTHOR.into(), AUTHOR_EMAIL.into(), processed.clone())
        .unwrap();
    let admin = InterfaceAdmin::new(AUTHOR_EMAIL.into(), AUTHOR.into()).unwrap();
    repo.apply_patch(patch, &admin, NAME.into()).unwrap();
    assert_eq!(repo.repo.head().unwrap().target().unwrap(), head_id);

    let branch = repo.repo.find_reference(&format!("refs/heads/{}", NAME)).unwrap();
    let commit = branch.peel_to_commit().unwrap();
    assert_eq!(commit.author().email(), Some(AUTHOR_EMAIL));
    assert_eq!(commit.message(), Some(NAME));
    let tree = commit.tree().unwrap();
    let entry = tree.get_path(Path::new("src/lib.rs")).unwrap();
    let blob = entry.to_object(&repo.repo).unwrap().peel_to_blob().unwrap();
    assert!(String::from_utf8(blob.content().to_vec()).unwrap().contains("change lib.rs"));
    assert!(tree.get_path(Path::new("foo")).is_err());

    let again = extract(&repo, &processed, "ROUND_AGAIN");
    let body = |p: &str| {
        p.lines().skip_while(|l| !l.starts_with("diff --git")).map(|l| l.to_owned()).collect::<Vec<_>>()
    };
    assert_eq!(body(&again), body(&processed));
}

#[test]
fn head_with_multi_line_summary_is_an_engine_error() {
    const NAME: &str = "MULTILINE";
    let (_base, repo) = seeded_repo(NAME);
    {
        let git = &repo.repo;
        let head = git.head().unwrap().peel_to_commit().unwrap();
        let sig = Signature::now("Seeder", "seeder@example.org").unwrap();
        git.commit(Some("HEAD"), &sig, &sig, "fix a\nand b\n", &head.tree().unwrap(), &[&head])
            .unwrap();
    }
    let patch = make_changes(&repo);
    let r = repo.process_patch(patch, NAME.into(), |_p: String| Ok(None), |_p: String| Ok(()));
    assert!(matches!(r, Err(FError::GitError(_))));
}

#[test]
fn remote_without_url_is_a_conflict_not_a_panic() {
    let (_base, repo) = seeded_repo("PUSHURL_ONLY");
    repo.repo.config().unwrap().set_str("remote.odd.pushurl", "https://a.org/p").unwrap();
    assert!(matches!(repo.add_remote("odd", "https://a.org/x"), Err(FError::RemoteNameExists)));
}
