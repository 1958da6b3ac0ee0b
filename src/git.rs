//! The git engine: declarations of git2's types and one wrapper per git2 call
//! the library makes. The engine reads and writes the repository on disk, so
//! these wrappers promise nothing of what comes back but its type.
use vstd::prelude::*;

verus! {

#[verifier::external_type_specification]
#[verifier::external_body]
pub struct ExRepository(git2::Repository);

#[verifier::external_type_specification]
#[verifier::external_body]
pub struct ExRemote<'r>(git2::Remote<'r>);

#[verifier::external_type_specification]
#[verifier::external_body]
pub struct ExReference<'r>(git2::Reference<'r>);

#[verifier::external_type_specification]
#[verifier::external_body]
pub struct ExCommit<'r>(git2::Commit<'r>);

#[verifier::external_type_specification]
#[verifier::external_body]
pub struct ExBranch<'r>(git2::Branch<'r>);

#[verifier::external_type_specification]
#[verifier::external_body]
pub struct ExIndex(git2::Index);

#[verifier::external_type_specification]
#[verifier::external_body]
pub struct ExTree<'r>(git2::Tree<'r>);

#[verifier::external_type_specification]
#[verifier::external_body]
pub struct ExDiff<'r>(git2::Diff<'r>);

#[verifier::external_type_specification]
#[verifier::external_body]
pub struct ExSignature<'a>(git2::Signature<'a>);

#[verifier::external_type_specification]
#[verifier::external_body]
pub struct ExOid(git2::Oid);

/// Relies on `git2::Error::from_str`: an engine error with a message of ours.
#[verifier::external_body]
pub(crate) fn engine_error(msg: &str) -> git2::Error {
    git2::Error::from_str(msg)
}

/// Relies on `git2::Repository::open`: the repository at `path`.
#[verifier::external_body]
pub(crate) fn open_repository(path: &str) -> Result<git2::Repository, git2::Error> {
    git2::Repository::open(path)
}

/// Relies on `git2::Repository::clone`: clones `url` into `path`, creating the
/// directory tree where it is absent.
#[verifier::external_body]
pub(crate) fn clone_repository(url: &str, path: &str) -> Result<git2::Repository, git2::Error> {
    git2::Repository::clone(url, path)
}

/// Relies on `git2::Repository::find_remote`: the remote called `name`.
#[verifier::external_body]
pub(crate) fn find_remote<'r>(repo: &'r git2::Repository, name: &str) -> Result<
    git2::Remote<'r>,
    git2::Error,
> {
    repo.find_remote(name)
}

/// Relies on `git2::Repository::remote`: creates the remote `name` at `url`.
#[verifier::external_body]
pub(crate) fn create_remote<'r>(repo: &'r git2::Repository, name: &str, url: &str) -> Result<
    git2::Remote<'r>,
    git2::Error,
> {
    repo.remote(name, url)
}

/// Relies on `git2::Repository::config` and `Config::get_entry`: the value of
/// the configuration entry `key`, `None` where it has none in UTF-8.
#[verifier::external_body]
pub(crate) fn config_value(repo: &git2::Repository, key: &str) -> Result<Option<String>, git2::Error> {
    repo.config()?.get_entry(key).map(|e| e.value().map(|v| v.to_owned()))
}

/// Relies on `git2::Remote::connect`: connects for fetching.
#[verifier::external_body]
pub(crate) fn connect_fetch(remote: &mut git2::Remote) -> Result<(), git2::Error> {
    remote.connect(git2::Direction::Fetch)
}

/// Relies on `git2::Remote::connect_auth`: checks that the remote accepts a
/// push connection, with keys from the SSH agent for the user the URL names.
/// The connection is closed again at once (dropping what `connect_auth`
/// returns disconnects); `push` opens its own.
#[verifier::external_body]
pub(crate) fn connect_push(remote: &mut git2::Remote) -> Result<(), git2::Error> {
    let mut callbacks = git2::RemoteCallbacks::new();
    callbacks.credentials(
        |_, user, _| git2::Cred::ssh_key_from_agent(user.unwrap_or_default()),
    );
    remote.connect_auth(git2::Direction::Push, Some(callbacks), None).map(|_| ())
}

/// Relies on `git2::Remote::disconnect`.
#[verifier::external_body]
pub(crate) fn disconnect(remote: &mut git2::Remote) -> Result<(), git2::Error> {
    remote.disconnect()
}

/// Relies on `git2::Remote::default_branch`: the branch the connected remote
/// advertises as its default, `None` where its name is not UTF-8.
#[verifier::external_body]
pub(crate) fn remote_default_branch(remote: &git2::Remote) -> Result<Option<String>, git2::Error> {
    remote.default_branch().map(|b| b.as_str().map(|s| s.to_owned()))
}

/// Relies on `git2::Remote::fetch`: fetches `refspec`.
#[verifier::external_body]
pub(crate) fn fetch(remote: &mut git2::Remote, refspec: &str) -> Result<(), git2::Error> {
    remote.fetch(&[refspec], None, None)
}

/// Relies on `git2::Remote::push`: pushes `refspec`, with keys from the SSH
/// agent for the user the URL names; a reference the remote rejects becomes
/// an error carrying the remote's message.
#[verifier::external_body]
pub(crate) fn push(remote: &mut git2::Remote, refspec: &str) -> Result<(), git2::Error> {
    let mut callbacks = git2::RemoteCallbacks::new();
    callbacks.credentials(
        |_, user, _| git2::Cred::ssh_key_from_agent(user.unwrap_or_default()),
    );
    callbacks.push_update_reference(|_, status| match status {
        Some(msg) => Err(git2::Error::from_str(msg)),
        None => Ok(()),
    });
    let mut options = git2::PushOptions::new();
    options.remote_callbacks(callbacks);
    remote.push(&[refspec], Some(&mut options))
}

/// Whether `git2::Diff::from_buffer` accepts a text as a diff.
pub uninterp spec fn diff_parses(text: Seq<char>) -> bool;

/// Relies on `git2::Diff::from_buffer`: parses diff text; whether it succeeds
/// depends on the text alone, as no repository is involved.
#[verifier::external_body]
pub(crate) fn parse_diff(text: &str) -> (r: Result<git2::Diff<'static>, git2::Error>)
    ensures
        r is Ok <==> diff_parses(text@),
{
    git2::Diff::from_buffer(text.as_bytes())
}

/// Relies on `git2::Repository::head`: the reference HEAD points at.
#[verifier::external_body]
pub(crate) fn head<'r>(repo: &'r git2::Repository) -> Result<git2::Reference<'r>, git2::Error> {
    repo.head()
}

/// Relies on `git2::Reference::name`: the reference's full name, `None` where
/// it is not UTF-8.
#[verifier::external_body]
pub(crate) fn reference_name(r: &git2::Reference) -> Option<String> {
    r.name().map(|n| n.to_owned())
}

/// Relies on `git2::Reference::peel_to_commit`.
#[verifier::external_body]
pub(crate) fn peel_to_commit<'r>(r: &git2::Reference<'r>) -> Result<git2::Commit<'r>, git2::Error> {
    r.peel_to_commit()
}

/// Relies on `git2::Commit::id`.
#[verifier::external_body]
pub(crate) fn commit_id(c: &git2::Commit) -> git2::Oid {
    c.id()
}

/// Relies on `git2::Commit::tree`.
#[verifier::external_body]
pub(crate) fn commit_tree<'r>(c: &git2::Commit<'r>) -> Result<git2::Tree<'r>, git2::Error> {
    c.tree()
}

/// Relies on `git2::Repository::find_commit`.
#[verifier::external_body]
pub(crate) fn find_commit<'r>(repo: &'r git2::Repository, id: git2::Oid) -> Result<
    git2::Commit<'r>,
    git2::Error,
> {
    repo.find_commit(id)
}

/// Relies on `git2::Repository::branch`: creates branch `name` at `target`,
/// refusing to overwrite one that exists.
#[verifier::external_body]
pub(crate) fn create_branch<'r>(
    repo: &'r git2::Repository,
    name: &str,
    target: &git2::Commit,
) -> Result<git2::Branch<'r>, git2::Error> {
    repo.branch(name, target, false)
}

/// Relies on `git2::Branch::get` and `git2::Reference::name`: the branch's
/// full reference name, `None` where it is not UTF-8.
#[verifier::external_body]
pub(crate) fn branch_reference_name(b: &git2::Branch) -> Option<String> {
    b.get().name().map(|n| n.to_owned())
}

/// Relies on `git2::Repository::find_branch`: the local branch `name`.
#[verifier::external_body]
pub(crate) fn find_local_branch<'r>(repo: &'r git2::Repository, name: &str) -> Result<
    git2::Branch<'r>,
    git2::Error,
> {
    repo.find_branch(name, git2::BranchType::Local)
}

/// Relies on `git2::Branch::delete`.
#[verifier::external_body]
pub(crate) fn delete_branch(b: &mut git2::Branch) -> Result<(), git2::Error> {
    b.delete()
}

/// Relies on `git2::Repository::set_head`.
#[verifier::external_body]
pub(crate) fn set_head(repo: &git2::Repository, refname: &str) -> Result<(), git2::Error> {
    repo.set_head(refname)
}

/// Relies on `git2::Repository::apply`: applies the diff to index and working tree.
#[verifier::external_body]
pub(crate) fn apply_to_index_and_workdir(repo: &git2::Repository, diff: &git2::Diff) -> Result<
    (),
    git2::Error,
> {
    repo.apply(diff, git2::ApplyLocation::Both, None)
}

/// Relies on `git2::Repository::apply`: applies the diff to the working tree.
#[verifier::external_body]
pub(crate) fn apply_to_workdir(repo: &git2::Repository, diff: &git2::Diff) -> Result<
    (),
    git2::Error,
> {
    repo.apply(diff, git2::ApplyLocation::WorkDir, None)
}

/// Relies on `git2::Repository::index`.
#[verifier::external_body]
pub(crate) fn index(repo: &git2::Repository) -> Result<git2::Index, git2::Error> {
    repo.index()
}

/// Relies on `git2::Index::add_all`: stages every path not ignored.
#[verifier::external_body]
pub(crate) fn stage_all(index: &mut git2::Index) -> Result<(), git2::Error> {
    index.add_all(["*"].iter(), git2::IndexAddOption::DEFAULT, None)
}

/// Relies on `git2::Index::remove_all`: unstages every path.
#[verifier::external_body]
pub(crate) fn unstage_all(index: &mut git2::Index) -> Result<(), git2::Error> {
    index.remove_all(["*"].iter(), None)
}

/// Relies on `git2::Index::write`.
#[verifier::external_body]
pub(crate) fn write_index(index: &mut git2::Index) -> Result<(), git2::Error> {
    index.write()
}

/// Relies on `git2::Index::write_tree`.
#[verifier::external_body]
pub(crate) fn write_tree(index: &mut git2::Index) -> Result<git2::Oid, git2::Error> {
    index.write_tree()
}

/// Relies on `git2::Repository::find_tree`.
#[verifier::external_body]
pub(crate) fn find_tree<'r>(repo: &'r git2::Repository, id: git2::Oid) -> Result<
    git2::Tree<'r>,
    git2::Error,
> {
    repo.find_tree(id)
}

/// Relies on `git2::Signature::now`.
#[verifier::external_body]
pub(crate) fn signature_now(name: &str, email: &str) -> Result<
    git2::Signature<'static>,
    git2::Error,
> {
    git2::Signature::now(name, email)
}

/// Relies on `git2::Repository::commit`: commits `tree` on top of `parent`
/// and moves HEAD's branch to it.
#[verifier::external_body]
pub(crate) fn commit_on_head(
    repo: &git2::Repository,
    author: &git2::Signature,
    committer: &git2::Signature,
    message: &str,
    tree: &git2::Tree,
    parent: &git2::Commit,
) -> Result<git2::Oid, git2::Error> {
    repo.commit(Some("HEAD"), author, committer, message, tree, &[parent])
}

/// Relies on `git2::Repository::checkout_tree`, forced: the working tree and
/// index take the tree of `commit`.
#[verifier::external_body]
pub(crate) fn force_checkout(repo: &git2::Repository, commit: &git2::Commit) -> Result<
    (),
    git2::Error,
> {
    repo.checkout_tree(commit.as_object(), Some(git2::build::CheckoutBuilder::new().force()))
}

/// Relies on `git2::Repository::add_ignore_rule`.
#[verifier::external_body]
pub(crate) fn add_ignore_rule(repo: &git2::Repository, rule: &str) -> Result<(), git2::Error> {
    repo.add_ignore_rule(rule)
}

/// Relies on `git2::Repository::clear_ignore_rules`.
#[verifier::external_body]
pub(crate) fn clear_ignore_rules(repo: &git2::Repository) -> Result<(), git2::Error> {
    repo.clear_ignore_rules()
}

/// Relies on `git2::Repository::diff_tree_to_index`.
#[verifier::external_body]
pub(crate) fn diff_tree_to_index<'r>(
    repo: &'r git2::Repository,
    tree: &git2::Tree,
    index: &git2::Index,
) -> Result<git2::Diff<'r>, git2::Error> {
    repo.diff_tree_to_index(Some(tree), Some(index), None)
}

/// Relies on `git2::Diff::format_email`: the diff as one mailbox-style patch
/// about `commit`, `None` where the text is not UTF-8. `format_email` asserts
/// that the commit message starts with its summary, which fails for a first
/// paragraph of several lines; such a commit gives an error instead.
#[verifier::external_body]
pub(crate) fn format_email<'r>(diff: &mut git2::Diff<'r>, commit: &git2::Commit<'r>) -> Result<
    Option<String>,
    git2::Error,
> {
    match commit.summary_bytes() {
        Some(summary) if commit.message_bytes().starts_with(summary) => {},
        _ => return Err(git2::Error::from_str("the commit's summary does not begin its message")),
    }
    #[allow(deprecated)]
    diff.format_email(1, 1, commit, None).map(|b| b.as_str().map(|s| s.to_owned()))
}

/// Relies on `git2::Diff::deltas`, `DiffDelta::old_file`, `DiffDelta::new_file`
/// and `DiffFile::path`: for each file the diff touches, its old-side and
/// new-side path, `None` where that side has none, `Some(None)` where the path
/// is not UTF-8.
#[verifier::external_body]
pub(crate) fn delta_sides(diff: &git2::Diff) -> Vec<(Option<Option<String>>, Option<Option<String>>)> {
    diff.deltas().map(
        |d|
            (
                d.old_file().path().map(|p| p.to_str().map(|p| p.to_owned())),
                d.new_file().path().map(|p| p.to_str().map(|p| p.to_owned())),
            ),
    ).collect()
}

/// Relies on `git2::Repository::reset`: a hard reset to `commit`, forced.
#[verifier::external_body]
pub(crate) fn hard_reset(repo: &git2::Repository, commit: &git2::Commit) -> Result<
    (),
    git2::Error,
> {
    repo.reset(
        commit.as_object(),
        git2::ResetType::Hard,
        Some(git2::build::CheckoutBuilder::new().force()),
    )
}

} // verus!
