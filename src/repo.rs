//! A mirror repository: opening or cloning it, its remotes, synchronisation
//! with them, and the patch transactions.
use vstd::prelude::*;

use crate::error::{FError, FResult};
use crate::git::{
    apply_to_index_and_workdir, apply_to_workdir, branch_reference_name, clone_repository,
    commit_id, commit_on_head, commit_tree, connect_fetch, connect_push, create_branch,
    create_remote, delete_branch, delta_sides, diff_tree_to_index, config_value,
    disconnect, engine_error, fetch, find_commit, find_local_branch, find_remote, find_tree,
    diff_parses, force_checkout, format_email, hard_reset, head, index, open_repository, parse_diff,
    peel_to_commit, push, reference_name, remote_default_branch, set_head,
    signature_now, stage_all, unstage_all, write_index, write_tree, add_ignore_rule,
    clear_ignore_rules,
};
use crate::identity::{is_email, is_not_an_email, validate_email, InterfaceAdmin, Patch};
use crate::ignore::{ignore_rules, views};
use crate::refs::{get_ref, ref_of};
use crate::text::concat_str;
use crate::upstream::{
    join, join_path, mirror_path, opt_view, parsed_url, upstream_mirror_path, UpstreamUrl,
};
use crate::{LOCAL_REMOTE, UPSTREAM_REMOTE};

verus! {

/// Carries an engine result over as the library's.
fn engine<T>(r: Result<T, git2::Error>) -> (out: FResult<T>)
    ensures
        r is Ok <==> out is Ok,
        out is Ok ==> out->Ok_0 == r->Ok_0,
        out is Err ==> out->Err_0 == FError::GitError(r->Err_0),
{
    match r {
        Ok(v) => Ok(v),
        Err(e) => Err(FError::from(e)),
    }
}

/// A name the engine handed back, or an engine error where it was not UTF-8.
fn utf8_name(n: Option<String>, what: &str) -> (r: FResult<String>)
    ensures
        n is Some ==> r is Ok && r->Ok_0 == n->Some_0,
        n is None ==> r is Err && r->Err_0 is GitError,
{
    match n {
        Some(s) => Ok(s),
        None => Err(FError::GitError(engine_error(what))),
    }
}

/// What attaching a remote does, given the URL of the remote of that name.
#[derive(Debug, Clone, Copy, PartialEq, Eq, Structural)]
pub enum RemoteStep {
    /// No remote of that name exists: create it.
    Create,
    /// It exists with the same URL: nothing to do.
    Keep,
    /// It exists with another URL, or one that is not UTF-8.
    Conflict,
}

/// The step for attaching `url` where `existing` is `None` for no remote of
/// that name, and otherwise the remote's URL (`None` where it is not UTF-8).
pub open spec fn remote_step_of(existing: Option<Option<Seq<char>>>, url: Seq<char>) -> RemoteStep {
    match existing {
        None => RemoteStep::Create,
        Some(Some(u)) => if u == url {
            RemoteStep::Keep
        } else {
            RemoteStep::Conflict
        },
        Some(None) => RemoteStep::Conflict,
    }
}

/// The view of a remote lookup.
pub open spec fn lookup_view(existing: Option<Option<String>>) -> Option<Option<Seq<char>>> {
    match existing {
        Some(o) => Some(opt_view(o)),
        None => None,
    }
}

/// The step for attaching `url` where a lookup of the name gave `existing`.
pub fn remote_step(existing: &Option<Option<String>>, url: &str) -> (r: RemoteStep)
    ensures
        r == remote_step_of(lookup_view(*existing), url@),
{
    match existing {
        None => RemoteStep::Create,
        Some(None) => RemoteStep::Conflict,
        Some(Some(u)) => {
            let wanted = url.to_owned();
            if *u == wanted {
                RemoteStep::Keep
            } else {
                RemoteStep::Conflict
            }
        },
    }
}

/// What attaching `url` does where a lookup of the name gave `existing`:
/// `Ok(true)` to create the remote, `Ok(false)` where it is there already,
/// and `RemoteNameExists` where another URL holds the name.
pub fn remote_decision(existing: &Option<Option<String>>, url: &str) -> (r: FResult<bool>)
    ensures
        remote_step_of(lookup_view(*existing), url@) == RemoteStep::Create ==> r matches Ok(true),
        remote_step_of(lookup_view(*existing), url@) == RemoteStep::Keep ==> r matches Ok(false),
        remote_step_of(lookup_view(*existing), url@) == RemoteStep::Conflict ==> r is Err
            && r->Err_0 is RemoteNameExists,
        forall|m: Map<Seq<char>, Seq<char>>, name: Seq<char>|
            lookup_in(m, name) == lookup_view(*existing) ==> {
                &&& (r is Err <==> #[trigger] ensure_remote(m, name, url@) is None)
                &&& (r matches Ok(true) ==> ensure_remote(m, name, url@) == Some(m.insert(name, url@)))
                &&& (r matches Ok(false) ==> ensure_remote(m, name, url@) == Some(m))
            },
{
    match remote_step(existing, url) {
        RemoteStep::Create => Ok(true),
        RemoteStep::Keep => Ok(false),
        RemoteStep::Conflict => Err(FError::RemoteNameExists),
    }
}

/// The configuration key that holds the URL of remote `name`.
pub open spec fn remote_url_key(name: Seq<char>) -> Seq<char> {
    seq!['r', 'e', 'm', 'o', 't', 'e', '.'] + name + seq!['.', 'u', 'r', 'l']
}

/// The configuration key that holds the URL of remote `name`.
pub fn url_key(name: &str) -> (r: String)
    ensures
        r@ == remote_url_key(name@),
{
    let prefix = "remote.";
    let suffix = ".url";
    proof {
        reveal_strlit("remote.");
        reveal_strlit(".url");
    }
    let a = concat_str(prefix, name);
    let r = concat_str(a.as_str(), suffix);
    assert(r@ =~= remote_url_key(name@));
    r
}

/// What a lookup of `name` among the remotes `remotes` gives, in the form
/// `remote_decision` takes.
pub open spec fn lookup_in(remotes: Map<Seq<char>, Seq<char>>, name: Seq<char>) -> Option<
    Option<Seq<char>>,
> {
    if remotes.contains_key(name) {
        Some(Some(remotes[name]))
    } else {
        None
    }
}

/// The remotes of a repository, name to URL, after attaching `url` as `name`;
/// `None` where that fails with `RemoteNameExists`.
pub open spec fn ensure_remote(remotes: Map<Seq<char>, Seq<char>>, name: Seq<char>, url: Seq<char>) -> Option<
    Map<Seq<char>, Seq<char>>,
> {
    match remote_step_of(lookup_in(remotes, name), url) {
        RemoteStep::Create => Some(remotes.insert(name, url)),
        RemoteStep::Keep => Some(remotes),
        RemoteStep::Conflict => None,
    }
}

/// Attaching a remote is idempotent: once `name` is attached to `url`,
/// attaching it to `url` again changes nothing, and attaching it to another
/// URL fails.
pub proof fn lemma_ensure_remote_idempotent(
    remotes: Map<Seq<char>, Seq<char>>,
    name: Seq<char>,
    url: Seq<char>,
    other: Seq<char>,
)
    requires
        ensure_remote(remotes, name, url) is Some,
        other != url,
    ensures
        ({
            let after = ensure_remote(remotes, name, url)->Some_0;
            &&& after.contains_key(name) && after[name] == url
            &&& ensure_remote(after, name, url) == Some(after)
            &&& ensure_remote(after, name, other) is None
        }),
{
}

/// A mirror repository: its upstream, the address of its local mirror, the
/// directory it lives in, and the engine's handle on it.
pub struct Repo {
    /// The upstream URL.
    pub upstream: UpstreamUrl,
    /// The address of the local mirror.
    pub local: String,
    /// The directory of the repository.
    pub path: String,
    /// The engine's handle on the repository.
    pub repo: git2::Repository,
}

/// An extraction between its steps: the inbound diff, where HEAD was, and the
/// temporary branch.
struct Extraction {
    diff: git2::Diff<'static>,
    head_name: String,
    head_commit: git2::Oid,
    branch_name: String,
}

impl Repo {
    /// `self` is the mirror of the upstream string `upstream` under `base`,
    /// with local mirror `local`.
    pub open spec fn opened(&self, base: Seq<char>, local: Seq<char>, upstream: Seq<char>) -> bool {
        &&& upstream_mirror_path(base, upstream) == Some(self.path@)
        &&& parsed_url(upstream) == Some(self.upstream@)
        &&& self.local@ == local
    }

    /// Opens the mirror of `upstream` under `base`, cloning it where no
    /// repository is there yet (the clone creates the directory tree), and
    /// attaches the upstream and local remotes.
    /// Fails with `NotAUrl` where `upstream` is not a URL, with
    /// `NoDirInvalidUpstreamUrl` where its host is no domain, and otherwise
    /// only with what the engine or the remote bookkeeping reports.
    pub fn new(base: &str, local: String, upstream: String) -> (r: FResult<Repo>)
        ensures
            parsed_url(upstream@) is None ==> r is Err && r->Err_0 is NotAUrl,
            parsed_url(upstream@) is Some && upstream_mirror_path(base@, upstream@) is None ==> r is Err
                && (match r->Err_0 {
                FError::NoDirInvalidUpstreamUrl(t) => t@ == parsed_url(upstream@)->Some_0.0,
                _ => false,
            }),
            upstream_mirror_path(base@, upstream@) is Some ==> r is Ok || r->Err_0 is GitError
                || r->Err_0 is RemoteNameExists,
            r is Ok ==> r->Ok_0.opened(base@, local@, upstream@),
    {
        let url = match UpstreamUrl::parse(upstream.as_str()) {
            Ok(u) => u,
            Err(e) => return Err(e),
        };
        let path = match mirror_path(base, &url) {
            Ok(p) => p,
            Err(e) => return Err(e),
        };
        let repo = match open_repository(path.as_str()) {
            Ok(r) => r,
            Err(_) => match engine(clone_repository(url.text.as_str(), path.as_str())) {
                Ok(r) => r,
                Err(e) => return Err(e),
            },
        };
        let obj = Repo { upstream: url, local, path, repo };
        match obj.add_remote(UPSTREAM_REMOTE, obj.upstream.text.as_str()) {
            Ok(()) => {},
            Err(e) => return Err(e),
        }
        match obj.add_remote(LOCAL_REMOTE, obj.local.as_str()) {
            Ok(()) => {},
            Err(e) => return Err(e),
        }
        Ok(obj)
    }

    /// The upstream URL.
    pub fn get_upstream(&self) -> (r: String)
        ensures
            r@ == self.upstream.text@,
    {
        self.upstream.text.clone()
    }

    /// Attaches the remote `name` at `url`: creates it where no remote of that
    /// name exists, does nothing where one exists at `url`, and fails with
    /// `RemoteNameExists` where one exists at another URL.
    pub fn add_remote(&self, name: &str, url: &str) -> (r: FResult<()>)
        ensures
            r is Err ==> r->Err_0 is GitError || r->Err_0 is RemoteNameExists,
    {
        let existing = match find_remote(&self.repo, name) {
            Ok(_) => {
                let key = url_key(name);
                match config_value(&self.repo, key.as_str()) {
                    Ok(u) => Some(u),
                    Err(_) => Some(None),
                }
            },
            Err(_) => None,
        };
        match remote_decision(&existing, url) {
            Ok(false) => Ok(()),
            Ok(true) => {
                let mut remote = match engine(create_remote(&self.repo, name, url)) {
                    Ok(r) => r,
                    Err(e) => return Err(e),
                };
                engine(disconnect(&mut remote))
            },
            Err(e) => Err(e),
        }
    }

    /// The upstream remote, connected for fetching.
    fn connect_upstream(&self) -> (r: FResult<git2::Remote<'_>>)
        ensures
            r is Err ==> r->Err_0 is GitError,
    {
        let mut remote = match engine(find_remote(&self.repo, UPSTREAM_REMOTE)) {
            Ok(r) => r,
            Err(e) => return Err(e),
        };
        match engine(connect_fetch(&mut remote)) {
            Ok(()) => Ok(remote),
            Err(e) => Err(e),
        }
    }

    /// The local remote, connected for pushing.
    fn connect_local(&self) -> (r: FResult<git2::Remote<'_>>)
        ensures
            r is Err ==> r->Err_0 is GitError,
    {
        let mut remote = match engine(find_remote(&self.repo, LOCAL_REMOTE)) {
            Ok(r) => r,
            Err(e) => return Err(e),
        };
        match engine(connect_push(&mut remote)) {
            Ok(()) => Ok(remote),
            Err(e) => Err(e),
        }
    }

    /// The name of the branch the upstream advertises as its default.
    fn advertised_branch(remote: &git2::Remote) -> (r: FResult<String>)
        ensures
            r is Err ==> r->Err_0 is GitError,
    {
        match engine(remote_default_branch(remote)) {
            Ok(n) => utf8_name(n, "the default branch name is not UTF-8"),
            Err(e) => Err(e),
        }
    }

    /// Fetches the upstream's default branch.
    pub fn fetch_upstream(&self) -> (r: FResult<()>)
        ensures
            r is Err ==> r->Err_0 is GitError,
    {
        let mut remote = match self.connect_upstream() {
            Ok(r) => r,
            Err(e) => return Err(e),
        };
        let branch = match Self::advertised_branch(&remote) {
            Ok(b) => b,
            Err(e) => return Err(e),
        };
        match engine(fetch(&mut remote, branch.as_str())) {
            Ok(()) => {},
            Err(e) => return Err(e),
        }
        engine(disconnect(&mut remote))
    }

    /// The name of the upstream's default branch.
    pub fn default_branch(&self) -> (r: FResult<String>)
        ensures
            r is Err ==> r->Err_0 is GitError,
    {
        let mut remote = match self.connect_upstream() {
            Ok(r) => r,
            Err(e) => return Err(e),
        };
        let branch = match Self::advertised_branch(&remote) {
            Ok(b) => b,
            Err(e) => return Err(e),
        };
        match engine(disconnect(&mut remote)) {
            Ok(()) => Ok(branch),
            Err(e) => Err(e),
        }
    }

    /// Force-pushes the branch `branch` to the local mirror.
    pub fn push_local(&self, branch: &str) -> (r: FResult<()>)
        ensures
            r is Err ==> r->Err_0 is GitError,
    {
        let mut upstream = match self.connect_upstream() {
            Ok(r) => r,
            Err(e) => return Err(e),
        };
        let mut local = match self.connect_local() {
            Ok(r) => r,
            Err(e) => return Err(e),
        };
        let spec = force_refspec(branch);
        match engine(push(&mut local, spec.as_str())) {
            Ok(()) => {},
            Err(e) => return Err(e),
        }
        match engine(disconnect(&mut upstream)) {
            Ok(()) => {},
            Err(e) => return Err(e),
        }
        engine(disconnect(&mut local))
    }

    /// Applies `patch` as a new commit on a new branch `branch_name`, authored
    /// by the patch's author and committed by `admin`, and leaves HEAD, the
    /// working tree and the current branch as they were. Fails with
    /// `NotAnEmail` before any engine call where either address is not one.
    pub fn apply_patch(&self, patch: Patch, admin: &InterfaceAdmin, branch_name: String) -> (r:
        FResult<()>)
        ensures
            !is_email(patch.author_email@) ==> r is Err && is_not_an_email(
                r->Err_0,
                patch.author_email@,
            ),
            is_email(patch.author_email@) && !is_email(admin.email@) ==> r is Err
                && is_not_an_email(r->Err_0, admin.email@),
            is_email(patch.author_email@) && is_email(admin.email@) ==> r is Ok || r->Err_0 is GitError,
            is_email(patch.author_email@) && is_email(admin.email@) && !diff_parses(patch.patch@) ==> r is Err
                && r->Err_0 is GitError,
    {
        if !validate_email(patch.author_email.as_str()) {
            return Err(FError::NotAnEmail(patch.author_email));
        }
        if !validate_email(admin.email.as_str()) {
            return Err(FError::NotAnEmail(admin.email.clone()));
        }
        let diff = match engine(parse_diff(patch.patch.as_str())) {
            Ok(d) => d,
            Err(e) => return Err(e),
        };
        let head_ref = match engine(head(&self.repo)) {
            Ok(h) => h,
            Err(e) => return Err(e),
        };
        let head_name = match utf8_name(reference_name(&head_ref), "HEAD's name is not UTF-8") {
            Ok(n) => n,
            Err(e) => return Err(e),
        };
        let head_commit = match engine(peel_to_commit(&head_ref)) {
            Ok(c) => c,
            Err(e) => return Err(e),
        };
        let tmp = match engine(create_branch(&self.repo, branch_name.as_str(), &head_commit)) {
            Ok(b) => b,
            Err(e) => return Err(e),
        };
        let tmp_name = match utf8_name(branch_reference_name(&tmp), "the branch name is not UTF-8") {
            Ok(n) => n,
            Err(e) => return Err(e),
        };
        match engine(set_head(&self.repo, tmp_name.as_str())) {
            Ok(()) => {},
            Err(e) => return Err(e),
        }
        match engine(apply_to_index_and_workdir(&self.repo, &diff)) {
            Ok(()) => {},
            Err(e) => return Err(e),
        }
        let mut idx = match engine(index(&self.repo)) {
            Ok(i) => i,
            Err(e) => return Err(e),
        };
        let tree_id = match engine(write_tree(&mut idx)) {
            Ok(t) => t,
            Err(e) => return Err(e),
        };
        let tree = match engine(find_tree(&self.repo, tree_id)) {
            Ok(t) => t,
            Err(e) => return Err(e),
        };
        let author = match engine(
            signature_now(patch.author_name.as_str(), patch.author_email.as_str()),
        ) {
            Ok(s) => s,
            Err(e) => return Err(e),
        };
        let committer = match engine(signature_now(admin.name.as_str(), admin.email.as_str())) {
            Ok(s) => s,
            Err(e) => return Err(e),
        };
        match engine(
            commit_on_head(
                &self.repo,
                &author,
                &committer,
                patch.message.as_str(),
                &tree,
                &head_commit,
            ),
        ) {
            Ok(_) => {},
            Err(e) => return Err(e),
        }
        match engine(force_checkout(&self.repo, &head_commit)) {
            Ok(()) => {},
            Err(e) => return Err(e),
        }
        engine(set_head(&self.repo, head_name.as_str()))
    }

    /// First step of extracting an outbound patch from the inbound `patch`:
    /// puts HEAD on a new branch `branch_name` at the current commit and
    /// applies the diff to the working tree only.
    fn begin_extract(&self, patch: &str, branch_name: String) -> (r: FResult<Extraction>)
        ensures
            r is Err ==> r->Err_0 is GitError,
            !diff_parses(patch@) ==> r is Err,
    {
        let diff = match engine(parse_diff(patch)) {
            Ok(d) => d,
            Err(e) => return Err(e),
        };
        let head_ref = match engine(head(&self.repo)) {
            Ok(h) => h,
            Err(e) => return Err(e),
        };
        let head_name = match utf8_name(reference_name(&head_ref), "HEAD's name is not UTF-8") {
            Ok(n) => n,
            Err(e) => return Err(e),
        };
        let head_commit = match engine(peel_to_commit(&head_ref)) {
            Ok(c) => c,
            Err(e) => return Err(e),
        };
        let tmp = match engine(create_branch(&self.repo, branch_name.as_str(), &head_commit)) {
            Ok(b) => b,
            Err(e) => return Err(e),
        };
        let tmp_name = match utf8_name(branch_reference_name(&tmp), "the branch name is not UTF-8") {
            Ok(n) => n,
            Err(e) => return Err(e),
        };
        match engine(set_head(&self.repo, tmp_name.as_str())) {
            Ok(()) => {},
            Err(e) => return Err(e),
        }
        match engine(apply_to_workdir(&self.repo, &diff)) {
            Ok(()) => {},
            Err(e) => return Err(e),
        }
        Ok(Extraction { diff, head_name, head_commit: commit_id(&head_commit), branch_name })
    }

    /// Second step: with the ignore file holding `ignore_file` (`None` where
    /// there is none), stages every path that no rule ignores, formats the
    /// staged change against the original commit as a mailbox-style patch, then
    /// unstages, clears the rules, restores the original tree and HEAD and
    /// deletes the temporary branch. Returns the outbound patch.
    fn finish_extract(&self, ext: &Extraction, ignore_file: &Option<String>) -> (r: FResult<
        String,
    >)
        ensures
            r is Err ==> r->Err_0 is GitError,
    {
        let rules = ignore_rules(ignore_file);
        let mut k: usize = 0;
        while k < rules.len()
            decreases rules@.len() - k,
        {
            match engine(add_ignore_rule(&self.repo, rules[k].as_str())) {
                Ok(()) => {},
                Err(e) => return Err(e),
            }
            k = k + 1;
        }
        let mut idx = match engine(index(&self.repo)) {
            Ok(i) => i,
            Err(e) => return Err(e),
        };
        match engine(stage_all(&mut idx)) {
            Ok(()) => {},
            Err(e) => return Err(e),
        }
        match engine(write_index(&mut idx)) {
            Ok(()) => {},
            Err(e) => return Err(e),
        }
        let base = match engine(find_commit(&self.repo, ext.head_commit)) {
            Ok(c) => c,
            Err(e) => return Err(e),
        };
        let base_tree = match engine(commit_tree(&base)) {
            Ok(t) => t,
            Err(e) => return Err(e),
        };
        let mut outbound = match engine(diff_tree_to_index(&self.repo, &base_tree, &idx)) {
            Ok(d) => d,
            Err(e) => return Err(e),
        };
        let text = match engine(format_email(&mut outbound, &base)) {
            Ok(t) => match utf8_name(t, "the outbound patch is not UTF-8") {
                Ok(s) => s,
                Err(e) => return Err(e),
            },
            Err(e) => return Err(e),
        };
        match engine(unstage_all(&mut idx)) {
            Ok(()) => {},
            Err(e) => return Err(e),
        }
        match engine(clear_ignore_rules(&self.repo)) {
            Ok(()) => {},
            Err(e) => return Err(e),
        }
        match engine(force_checkout(&self.repo, &base)) {
            Ok(()) => {},
            Err(e) => return Err(e),
        }
        match engine(set_head(&self.repo, ext.head_name.as_str())) {
            Ok(()) => {},
            Err(e) => return Err(e),
        }
        let mut tmp = match engine(find_local_branch(&self.repo, ext.branch_name.as_str())) {
            Ok(b) => b,
            Err(e) => return Err(e),
        };
        match engine(delete_branch(&mut tmp)) {
            Ok(()) => Ok(text),
            Err(e) => Err(e),
        }
    }

    /// Third step: the paths under the mirror that the inbound diff names, on
    /// either side; they are to be removed where they still exist.
    fn leftover_paths(&self, ext: &Extraction) -> (r: FResult<Vec<String>>)
        ensures
            r is Err ==> r->Err_0 is GitError,
    {
        let sides = delta_sides(&ext.diff);
        leftover_of(self.path.as_str(), &sides)
    }

    /// Turns the inbound diff `patch` into the outbound patch: everything it
    /// changes outside the ignored paths, as one mailbox-style patch, with the
    /// repository left as it was found and the temporary branch `branch_name`
    /// gone. `read_file` reads a file, `None` where it does not exist;
    /// `remove_path` removes a file or directory where it exists; it is handed
    /// each path the inbound diff names, under the mirror. Fails with what the
    /// engine or one of the two reports.
    pub fn process_patch<R, D>(
        &self,
        patch: String,
        branch_name: String,
        read_file: R,
        remove_path: D,
    ) -> (r: FResult<String>) where
        R: FnOnce(String) -> FResult<Option<String>>,
        D: Fn(String) -> FResult<()>,

        requires
            forall|p: String| #[trigger] read_file.requires((p,)),
            forall|p: String| #[trigger] remove_path.requires((p,)),
        ensures
            r is Err ==> r->Err_0 is GitError || (exists|p: String|
                #[trigger] read_file.ensures((p,), Err(r->Err_0))) || (exists|p: String|
                #[trigger] remove_path.ensures((p,), Err(r->Err_0))),
            !diff_parses(patch@) ==> r is Err && r->Err_0 is GitError,
    {
        let text = patch.as_str();
        assert(text@ == patch@);
        let ext = match self.begin_extract(text, branch_name) {
            Ok(x) => x,
            Err(e) => return Err(e),
        };
        assert(diff_parses(patch@));
        let ignore_path = join(self.path.as_str(), crate::IGNORE_FILE);
        let ghost asked = ignore_path;
        let ignore = match read_file(ignore_path) {
            Ok(t) => t,
            Err(e) => {
                assert(read_file.ensures((asked,), Err(e)));
                return Err(e);
            },
        };
        let outbound = match self.finish_extract(&ext, &ignore) {
            Ok(t) => t,
            Err(e) => return Err(e),
        };
        let left = match self.leftover_paths(&ext) {
            Ok(l) => l,
            Err(e) => return Err(e),
        };
        let mut k: usize = 0;
        while k < left.len()
            invariant
                forall|p: String| #[trigger] remove_path.requires((p,)),
                diff_parses(patch@),
            decreases left@.len() - k,
        {
            let p = left[k].clone();
            let ghost asked = p;
            match remove_path(p) {
                Ok(()) => {},
                Err(e) => {
                    assert(remove_path.ensures((asked,), Err(e)));
                    return Err(e);
                },
            }
            k = k + 1;
        }
        match self.settle_extract(&ext) {
            Ok(()) => Ok(outbound),
            Err(e) => Err(e),
        }
    }

    /// Last step: a hard reset to the commit HEAD was at before the extraction.
    fn settle_extract(&self, ext: &Extraction) -> (r: FResult<()>)
        ensures
            r is Err ==> r->Err_0 is GitError,
    {
        let base = match engine(find_commit(&self.repo, ext.head_commit)) {
            Ok(c) => c,
            Err(e) => return Err(e),
        };
        engine(hard_reset(&self.repo, &base))
    }
}

/// Opening the same mirror twice places both handles in the same directory,
/// on the same upstream and local mirror.
pub proof fn lemma_open_same_place(
    base: Seq<char>,
    local: Seq<char>,
    upstream: Seq<char>,
    first: Repo,
    second: Repo,
)
    requires
        first.opened(base, local, upstream),
        second.opened(base, local, upstream),
    ensures
        first.path@ == second.path@,
        first.upstream@ == second.upstream@,
        first.local@ == second.local@,
{
}

/// The view of the two sides of each file a diff touches.
pub open spec fn sides_view(v: Seq<(Option<Option<String>>, Option<Option<String>>)>) -> Seq<
    (Option<Option<Seq<char>>>, Option<Option<Seq<char>>>),
> {
    v.map_values(|s: (Option<Option<String>>, Option<Option<String>>)| (lookup_view(s.0), lookup_view(s.1)))
}

/// The path under `root` of one side of a delta: none where the side has no
/// path.
pub open spec fn side_paths(root: Seq<char>, side: Option<Option<Seq<char>>>) -> Seq<Seq<char>> {
    match side {
        Some(Some(p)) => seq![join_path(root, p)],
        _ => seq![],
    }
}

/// A side whose path is not UTF-8.
pub open spec fn unreadable(side: Option<Option<Seq<char>>>) -> bool {
    side == Some(None::<Seq<char>>)
}

/// The paths under `root` that the deltas `sides` name: for each delta in
/// order, its old-side path, then its new-side path.
pub open spec fn leftover_spec(
    root: Seq<char>,
    sides: Seq<(Option<Option<Seq<char>>>, Option<Option<Seq<char>>>)>,
) -> Seq<Seq<char>>
    decreases sides.len(),
{
    if sides.len() == 0 {
        seq![]
    } else {
        leftover_spec(root, sides.drop_last()) + side_paths(root, sides.last().0) + side_paths(
            root,
            sides.last().1,
        )
    }
}

/// Adds the path under `root` of one side of a delta; false, and nothing
/// added, where the path is not UTF-8.
fn push_side(root: &str, side: &Option<Option<String>>, out: &mut Vec<String>) -> (r: bool)
    ensures
        r == !unreadable(lookup_view(*side)),
        r ==> views(final(out)@) == views(old(out)@) + side_paths(root@, lookup_view(*side)),
        !r ==> final(out)@ == old(out)@,
{
    match side {
        None => {
            assert(views(out@) =~= views(out@) + side_paths(root@, lookup_view(*side)));
            true
        },
        Some(None) => false,
        Some(Some(p)) => {
            let ghost before = out@;
            out.push(join(root, p.as_str()));
            assert(views(out@) =~= views(before) + side_paths(root@, lookup_view(*side)));
            true
        },
    }
}

/// The paths under `root` that the deltas `sides` name, old side then new
/// side of each; an engine error where one of them is not UTF-8.
#[verifier::spinoff_prover]
pub fn leftover_of(root: &str, sides: &Vec<(Option<Option<String>>, Option<Option<String>>)>) -> (r:
    FResult<Vec<String>>)
    ensures
        r is Ok <==> forall|i: int|
            0 <= i < sides@.len() ==> !unreadable(#[trigger] sides_view(sides@)[i].0) && !unreadable(
                sides_view(sides@)[i].1,
            ),
        r is Ok ==> views(r->Ok_0@) == leftover_spec(root@, sides_view(sides@)),
        r is Err ==> r->Err_0 is GitError,
{
    let mut out: Vec<String> = Vec::new();
    let mut i: usize = 0;
    assert(views(out@) =~= seq![]);
    assert(sides_view(sides@).subrange(0, 0) =~= seq![]);
    while i < sides.len()
        invariant
            i <= sides@.len(),
            views(out@) == leftover_spec(root@, sides_view(sides@).subrange(0, i as int)),
            forall|j: int|
                0 <= j < i ==> !unreadable(#[trigger] sides_view(sides@)[j].0) && !unreadable(
                    sides_view(sides@)[j].1,
                ),
        decreases sides@.len() - i,
    {
        let ghost sv = sides_view(sides@);
        assert(sv.subrange(0, i + 1).drop_last() =~= sv.subrange(0, i as int));
        assert(sv.subrange(0, i + 1).last() == sv[i as int]);
        assert(sv[i as int] == (lookup_view(sides@[i as int].0), lookup_view(sides@[i as int].1)));
        let ok0 = push_side(root, &sides[i].0, &mut out);
        if !ok0 {
            assert(unreadable(sv[i as int].0));
            assert(!(!unreadable(sides_view(sides@)[i as int].0) && !unreadable(
                sides_view(sides@)[i as int].1,
            )));
            return Err(FError::GitError(engine_error("a path of the diff is not UTF-8")));
        }
        let ok1 = push_side(root, &sides[i].1, &mut out);
        if !ok1 {
            assert(unreadable(sv[i as int].1));
            assert(!(!unreadable(sides_view(sides@)[i as int].0) && !unreadable(
                sides_view(sides@)[i as int].1,
            )));
            return Err(FError::GitError(engine_error("a path of the diff is not UTF-8")));
        }
        i = i + 1;
    }
    assert(sides_view(sides@).subrange(0, i as int) =~= sides_view(sides@));
    Ok(out)
}

/// The refspec that force-pushes `r` onto the reference of the same name.
pub open spec fn force_refspec_of(r: Seq<char>) -> Seq<char> {
    seq!['+'] + r + seq![':'] + r
}

/// The refspec that force-pushes branch `branch` to the same reference.
pub fn force_refspec(branch: &str) -> (r: String)
    ensures
        r@ == force_refspec_of(ref_of(branch@)),
{
    let full = get_ref(branch);
    let plus = "+";
    let colon = ":";
    proof {
        reveal_strlit("+");
        reveal_strlit(":");
    }
    let a = concat_str(plus, full.as_str());
    let b = concat_str(a.as_str(), colon);
    let r = concat_str(b.as_str(), full.as_str());
    assert(r@ =~= force_refspec_of(ref_of(branch@)));
    r
}

} // verus!
