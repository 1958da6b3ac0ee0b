//! The durable state of the service: which upstream each local mirror
//! follows, and the lock that admits one mutating operation per repository at
//! a time. Both live in a sled store under the base directory.
use vstd::prelude::*;
use vstd::string::*;
use vstd::utf8::{decode_utf8, valid_utf8};

use crate::error::{FError, FResult};
use crate::git::diff_parses;
use crate::identity::{is_email, is_not_an_email, InterfaceAdmin, Patch};
use crate::lock::{acquire, decode_lock, encode_lock, is_free, lock_free, LockRecord};
use crate::repo::Repo;
use crate::upstream::{join, join_path, parsed_url, upstream_mirror_path};

verus! {

#[verifier::external_type_specification]
#[verifier::external_body]
pub struct ExDb(sled::Db);

#[verifier::external_type_specification]
#[verifier::external_body]
pub struct ExTree(sled::Tree);

/// Relies on `sled::open`: the store at `path`, created where absent. A
/// filesystem failure (`sled::Error::Io`) is reported as such.
#[verifier::external_body]
fn open_store(path: &str) -> (r: FResult<sled::Db>)
    ensures
        r is Err ==> r->Err_0 is IOError || r->Err_0 is StoreError,
{
    sled::open(path).map_err(|e| match e {
        sled::Error::Io(e) => FError::IOError(e),
        e => FError::StoreError(e),
    })
}

/// Relies on `sled::Db::open_tree`: the table `name`.
#[verifier::external_body]
fn open_table(db: &sled::Db, name: &str) -> Result<sled::Tree, sled::Error> {
    db.open_tree(name)
}

/// Relies on `sled::Tree::get`: the value stored under `key`.
#[verifier::external_body]
fn table_get(t: &sled::Tree, key: &[u8]) -> Result<Option<Vec<u8>>, sled::Error> {
    t.get(key).map(|v| v.map(|v| v.to_vec()))
}

/// Relies on `sled::Tree::insert`: stores `value` under `key`.
#[verifier::external_body]
fn table_insert(t: &sled::Tree, key: &[u8], value: Vec<u8>) -> Result<(), sled::Error> {
    t.insert(key, value).map(|_| ())
}

/// Relies on `sled::Tree::compare_and_swap`: stores `new` under `key` where
/// `old` is stored there; whether it did.
#[verifier::external_body]
fn table_swap(t: &sled::Tree, key: &[u8], old: &[u8], new: &[u8]) -> Result<bool, sled::Error> {
    t.compare_and_swap(key, Some(old), Some(new)).map(|r| r.is_ok())
}

/// Relies on `sled::Tree::iter`: every entry of the table, in key order, or
/// the first failure to read one.
#[verifier::external_body]
fn table_entries(t: &sled::Tree) -> Result<Vec<(Vec<u8>, Vec<u8>)>, sled::Error> {
    t.iter().map(|e| e.map(|(k, v)| (k.to_vec(), v.to_vec()))).collect()
}

/// Relies on chrono's `Utc::now`, written by `DateTime::to_rfc3339_opts` with
/// `Z` and as many fractional digits as needed: the current time.
#[verifier::external_body]
fn now_stamp() -> Vec<u8> {
    chrono::Utc::now().to_rfc3339_opts(chrono::SecondsFormat::AutoSi, true).into_bytes()
}

/// Relies on `std::str::from_utf8`: the text that `b` encodes, where `b` is
/// UTF-8.
#[verifier::external_body]
fn text_of(b: &[u8]) -> (r: Option<String>)
    ensures
        r is Some <==> valid_utf8(b@),
        r is Some ==> r->Some_0@ == decode_utf8(b@),
{
    std::str::from_utf8(b).ok().map(|t| t.to_owned())
}

/// `i` is the index of the first entry whose value is `value`.
pub open spec fn first_with_value(entries: Seq<(Vec<u8>, Vec<u8>)>, value: Seq<u8>, i: int) -> bool {
    &&& 0 <= i < entries.len()
    &&& entries[i].1@ == value
    &&& forall|j: int| 0 <= j < i ==> (#[trigger] entries[j]).1@ != value
}

/// The index of the first entry of `entries` whose value is `value`.
pub fn find_value(entries: &Vec<(Vec<u8>, Vec<u8>)>, value: &[u8]) -> (r: Option<usize>)
    ensures
        match r {
            Some(i) => first_with_value(entries@, value@, i as int),
            None => forall|j: int| 0 <= j < entries@.len() ==> (#[trigger] entries@[j]).1@ != value@,
        },
{
    let mut i: usize = 0;
    while i < entries.len()
        invariant
            i <= entries@.len(),
            forall|j: int| 0 <= j < i ==> (#[trigger] entries@[j]).1@ != value@,
        decreases entries@.len() - i,
    {
        if bytes_equal(entries[i].1.as_slice(), value) {
            return Some(i);
        }
        i = i + 1;
    }
    None
}

/// The mirror of `upstream` among the registrations `entries` (local name to
/// upstream URL): the first entry whose value is `upstream`'s bytes, opened
/// under its local name; `None` where no entry has that value or its name is
/// not UTF-8.
pub fn open_registered(base: &str, upstream: &str, entries: &Vec<(Vec<u8>, Vec<u8>)>) -> (r: FResult<
    Option<Repo>,
>)
    ensures
        (forall|j: int| 0 <= j < entries@.len() ==> (#[trigger] entries@[j]).1@ != upstream.spec_bytes())
            ==> r matches Ok(None),
        forall|i: int|
            #![trigger first_with_value(entries@, upstream.spec_bytes(), i)]
            first_with_value(entries@, upstream.spec_bytes(), i) && !valid_utf8(entries@[i].0@) ==> r matches Ok(
                None,
            ),
        forall|i: int|
            #![trigger first_with_value(entries@, upstream.spec_bytes(), i)]
            first_with_value(entries@, upstream.spec_bytes(), i) && valid_utf8(entries@[i].0@) && r is Ok
                ==> r->Ok_0 is Some && r->Ok_0->Some_0.opened(
                base@,
                decode_utf8(entries@[i].0@),
                upstream@,
            ),
        r is Ok && r->Ok_0 is Some ==> r->Ok_0->Some_0.opened(base@, r->Ok_0->Some_0.local@, upstream@),
{
    match find_value(entries, upstream.as_bytes()) {
        None => Ok(None),
        Some(i) => {
            proof {
                assert forall|k: int| #[trigger]
                    first_with_value(entries@, upstream.spec_bytes(), k) implies k == i by {
                    if k < i {
                        assert(entries@[k].1@ != upstream.spec_bytes());
                    } else if k > i {
                        assert(entries@[i as int].1@ != upstream.spec_bytes());
                    }
                }
            }
            match text_of(entries[i].0.as_slice()) {
                None => Ok(None),
                Some(local) => {
                    let ghost name = local@;
                    match Repo::new(base, local, upstream.to_owned()) {
                        Ok(repo) => {
                            assert(repo.opened(base@, name, upstream@));
                            Ok(Some(repo))
                        },
                        Err(e) => Err(e),
                    }
                },
            }
        },
    }
}

/// Whether `a` and `b` hold the same bytes.
pub fn bytes_equal(a: &[u8], b: &[u8]) -> (r: bool)
    ensures
        r == (a@ == b@),
{
    if a.len() != b.len() {
        return false;
    }
    let mut i: usize = 0;
    while i < a.len()
        invariant
            a@.len() == b@.len(),
            i <= a@.len(),
            forall|j: int| 0 <= j < i ==> a@[j] == b@[j],
        decreases a@.len() - i,
    {
        if a[i] != b[i] {
            return false;
        }
        i = i + 1;
    }
    assert(a@ =~= b@);
    true
}

/// The failures that come from the lock and its store rather than from the
/// operation it guards.
pub open spec fn is_lock_failure(e: FError) -> bool {
    e is RepoLocked || e is NotRegistered || e is LockLost || e is StoreError
}

/// The view of an optional byte string.
pub open spec fn bytes_view(o: Option<Vec<u8>>) -> Option<Seq<u8>> {
    match o {
        Some(b) => Some(b@),
        None => None,
    }
}

/// `e` is the failure for the lock record `seen` of `local`, which is not
/// free: `RepoLocked` where it decodes as held, `NotRegistered` where it is
/// missing or unreadable.
pub open spec fn refusal(seen: Option<Seq<u8>>, local: Seq<char>, e: FError) -> bool {
    match seen {
        Some(b) if decode_lock(b) is Some => match e {
            FError::RepoLocked(n) => n@ == local,
            _ => false,
        },
        _ => match e {
            FError::NotRegistered(n) => n@ == local,
            _ => false,
        },
    }
}

/// Decides on the lock record `seen` read for `local`: hands back its bytes,
/// to be swapped out, where it is free, and the refusal otherwise.
pub fn acquire_step(seen: Option<Vec<u8>>, local: &str) -> (r: FResult<Vec<u8>>)
    ensures
        r is Ok <==> lock_free(bytes_view(seen)),
        r is Ok ==> bytes_view(seen) == Some(r->Ok_0@),
        r is Err ==> refusal(bytes_view(seen), local@, r->Err_0),
        r is Err ==> r->Err_0 is RepoLocked || r->Err_0 is NotRegistered,
        r is Err ==> forall|cell: Option<Seq<u8>>, at: Seq<u8>|
            !(#[trigger] acquire(cell, bytes_view(seen), at)).1,
        r is Ok ==> forall|at: Seq<u8>|
            #[trigger] acquire(bytes_view(seen), bytes_view(seen), at) == (
                Some(encode_lock((true, Some(at)))),
                true,
            ),
{
    if is_free(&seen) {
        match seen {
            Some(b) => Ok(b),
            None => Err(FError::NotRegistered(local.to_owned())),
        }
    } else {
        match &seen {
            Some(b) => match LockRecord::decode(b.as_slice()) {
                Some(_) => Err(FError::RepoLocked(local.to_owned())),
                None => Err(FError::NotRegistered(local.to_owned())),
            },
            None => Err(FError::NotRegistered(local.to_owned())),
        }
    }
}

/// Decides on the outcome of the swap that takes the lock of `local`: held
/// where it swapped; `RepoLocked` where the record changed since it was read.
pub fn swap_step(swapped: Result<bool, sled::Error>, local: &str) -> (r: FResult<()>)
    ensures
        r is Ok <==> swapped == Ok::<bool, sled::Error>(true),
        swapped == Ok::<bool, sled::Error>(false) ==> (match r {
            Err(FError::RepoLocked(n)) => n@ == local@,
            _ => false,
        }),
        swapped is Err ==> r == Err::<(), FError>(FError::StoreError(swapped->Err_0)),
        r is Err ==> is_lock_failure(r->Err_0),
{
    match swapped {
        Ok(true) => Ok(()),
        Ok(false) => Err(FError::RepoLocked(local.to_owned())),
        Err(e) => Err(FError::StoreError(e)),
    }
}

/// Decides on the outcome of the swap that releases the lock of `local`
/// after the operation returned `resp`: `resp` where the free record went
/// back; `LockLost` where the held record had changed.
pub fn settle_step<T>(resp: FResult<T>, released: Result<bool, sled::Error>, local: &str) -> (r:
    FResult<T>)
    ensures
        released == Ok::<bool, sled::Error>(true) ==> r == resp,
        released == Ok::<bool, sled::Error>(false) ==> (match r {
            Err(FError::LockLost(n)) => n@ == local@,
            _ => false,
        }),
        released is Err ==> r == Err::<T, FError>(FError::StoreError(released->Err_0)),
        released != Ok::<bool, sled::Error>(true) ==> r is Err && is_lock_failure(r->Err_0),
{
    match released {
        Ok(true) => resp,
        Ok(false) => Err(FError::LockLost(local.to_owned())),
        Err(e) => Err(FError::StoreError(e)),
    }
}

/// The handle of the mirror `local` whose stored upstream is `stored`, `None`
/// where nothing is stored.
pub fn rehydrate(base: &str, local: &str, stored: Option<String>) -> (r: FResult<Option<Repo>>)
    ensures
        stored is None ==> r matches Ok(None),
        stored is Some && r is Ok ==> r->Ok_0 is Some && r->Ok_0->Some_0.opened(
            base@,
            local@,
            stored->Some_0@,
        ),
        stored is Some && parsed_url(stored->Some_0@) is None ==> r is Err && r->Err_0 is NotAUrl,
{
    match stored {
        None => Ok(None),
        Some(upstream) => match Repo::new(base, local.to_owned(), upstream) {
            Ok(repo) => Ok(Some(repo)),
            Err(e) => Err(e),
        },
    }
}

/// The store of the service.
pub struct System {
    /// The store itself.
    pub db: sled::Db,
    /// Local name to upstream URL.
    pub remotes: sled::Tree,
    /// Local name to lock record.
    pub lock: sled::Tree,
    /// The directory under which mirrors and the store live.
    pub base: String,
}

/// The directory of the store under `base`.
pub open spec fn store_path_of(base: Seq<char>) -> Seq<char> {
    join_path(
        base,
        seq![
            'i', 'n', 't', 'e', 'r', 'f', 'a', 'c', 'e', '_', 'r', 'e', 'p', 'o', '_', 'd', 'a', 't', 'a'
        ],
    )
}

/// The directory of the store under `base`.
pub fn store_path(base: &str) -> (r: String)
    ensures
        r@ == store_path_of(base@),
{
    let name = "interface_repo_data";
    proof {
        reveal_strlit("interface_repo_data");
    }
    assert(name@ =~= seq![
        'i', 'n', 't', 'e', 'r', 'f', 'a', 'c', 'e', '_', 'r', 'e', 'p', 'o', '_', 'd', 'a', 't', 'a'
    ]);
    join(base, name)
}

impl System {
    /// Opens the store under `base`, creating it where absent.
    pub fn new(base: &str) -> (r: FResult<Self>)
        ensures
            r is Ok ==> r->Ok_0.base@ == base@,
            r is Err ==> r->Err_0 is IOError || r->Err_0 is StoreError,
    {
        let path = store_path(base);
        let db = match open_store(path.as_str()) {
            Ok(d) => d,
            Err(e) => return Err(e),
        };
        let remotes = match open_table(&db, "remotes") {
            Ok(t) => t,
            Err(e) => return Err(FError::StoreError(e)),
        };
        let lock = match open_table(&db, "lock") {
            Ok(t) => t,
            Err(e) => return Err(FError::StoreError(e)),
        };
        Ok(System { db, remotes, lock, base: base.to_owned() })
    }

    /// Registers the mirror `local` of `upstream` with a free lock, then opens
    /// or clones it.
    pub fn init_repo(&self, local: String, upstream: String) -> (r: FResult<Repo>)
        ensures
            r is Ok ==> r->Ok_0.opened(self.base@, local@, upstream@),
            r is Err && parsed_url(upstream@) is None ==> r->Err_0 is NotAUrl || r->Err_0 is StoreError,
            r is Err && upstream_mirror_path(self.base@, upstream@) is Some ==> r->Err_0 is GitError
                || r->Err_0 is RemoteNameExists || r->Err_0 is StoreError,
    {
        let free = LockRecord::unlocked().encode();
        match table_insert(&self.lock, local.as_str().as_bytes(), free) {
            Ok(()) => {},
            Err(e) => return Err(FError::StoreError(e)),
        }
        let upstream_bytes = upstream.as_str().as_bytes_vec();
        match table_insert(&self.remotes, local.as_str().as_bytes(), upstream_bytes) {
            Ok(()) => {},
            Err(e) => return Err(FError::StoreError(e)),
        }
        Repo::new(self.base.as_str(), local, upstream)
    }

    /// The mirror registered under the local name `local`; `None` where none
    /// is registered or its upstream is not UTF-8; `StoreError` where the store
    /// cannot be read.
    pub fn with_local(&self, local: &str) -> (r: FResult<Option<Repo>>)
        ensures
            r is Ok && r->Ok_0 is Some ==> exists|u: Seq<char>|
                #[trigger] r->Ok_0->Some_0.opened(self.base@, local@, u),
    {
        let found = match table_get(&self.remotes, local.as_bytes()) {
            Ok(Some(v)) => text_of(v.as_slice()),
            Ok(None) => None,
            Err(e) => return Err(FError::StoreError(e)),
        };
        let ghost stored = found;
        let r = rehydrate(self.base.as_str(), local, found);
        if let Ok(Some(repo)) = &r {
            assert(repo.opened(self.base@, local@, stored->Some_0@));
        }
        r
    }

    /// The mirror registered for the upstream `upstream`, found by a scan of
    /// the registrations, as `open_registered` says; `StoreError` where the
    /// store cannot be read.
    pub fn with_upstream(&self, upstream: &str) -> (r: FResult<Option<Repo>>)
        ensures
            r is Ok && r->Ok_0 is Some ==> r->Ok_0->Some_0.opened(
                self.base@,
                r->Ok_0->Some_0.local@,
                upstream@,
            ),
    {
        match table_entries(&self.remotes) {
            Ok(entries) => {
                open_registered(self.base.as_str(), upstream, &entries)
            },
            Err(e) => Err(FError::StoreError(e)),
        }
    }

    /// Runs `f` holding the lock of the repository `local`: reads its lock
    /// record and, where it is free, swaps in a held record; runs `f`; swaps
    /// the free record back. Fails at once, without running `f`, where the
    /// record is held, missing or unreadable, or changed between the read and
    /// the swap. Returns what `f` returned, unless the release fails.
    pub fn with_lock<T, F: FnOnce() -> FResult<T>>(&self, local: &str, f: F) -> (r: FResult<T>)
        requires
            f.requires(()),
        ensures
            f.ensures((), r) || (r is Err && is_lock_failure(r->Err_0)),
    {
        let key = local.as_bytes();
        let seen = match table_get(&self.lock, key) {
            Ok(v) => v,
            Err(e) => return Err(FError::StoreError(e)),
        };
        let free = match acquire_step(seen, local) {
            Ok(b) => b,
            Err(e) => return Err(e),
        };
        let held = LockRecord::locked(now_stamp()).encode();
        match swap_step(table_swap(&self.lock, key, free.as_slice(), held.as_slice()), local) {
            Ok(()) => {},
            Err(e) => return Err(e),
        }
        let resp = f();
        settle_step(resp, table_swap(&self.lock, key, held.as_slice(), free.as_slice()), local)
    }

    /// Fetches the upstream's default branch, holding the repository's lock.
    pub fn fetch_upstream(&self, repo: &Repo) -> (r: FResult<()>)
        ensures
            r is Err ==> r->Err_0 is GitError || is_lock_failure(r->Err_0),
    {
        let op = || -> (r: FResult<()>)
            ensures
                r is Err ==> r->Err_0 is GitError,
            { repo.fetch_upstream() };
        self.with_lock(repo.local.as_str(), op)
    }

    /// Applies `patch` on a new branch `branch_name`, holding the repository's
    /// lock.
    pub fn apply_patch(
        &self,
        repo: &Repo,
        patch: Patch,
        admin: &InterfaceAdmin,
        branch_name: String,
    ) -> (r: FResult<()>)
        ensures
            !is_email(patch.author_email@) ==> r is Err && (is_lock_failure(r->Err_0)
                || is_not_an_email(r->Err_0, patch.author_email@)),
            is_email(patch.author_email@) && !is_email(admin.email@) ==> r is Err && (
            is_lock_failure(r->Err_0) || is_not_an_email(r->Err_0, admin.email@)),
            is_email(patch.author_email@) && is_email(admin.email@) ==> r is Ok || r->Err_0 is GitError
                || is_lock_failure(r->Err_0),
            is_email(patch.author_email@) && is_email(admin.email@) && !diff_parses(patch.patch@) ==> r is Err
                && (r->Err_0 is GitError || is_lock_failure(r->Err_0)),
    {
        let ghost author = patch.author_email@;
        let ghost text = patch.patch@;
        let op = move || -> (r: FResult<()>)
            ensures
                !is_email(author) ==> r is Err && is_not_an_email(r->Err_0, author),
                is_email(author) && !is_email(admin.email@) ==> r is Err && is_not_an_email(
                    r->Err_0,
                    admin.email@,
                ),
                is_email(author) && is_email(admin.email@) ==> r is Ok || r->Err_0 is GitError,
                is_email(author) && is_email(admin.email@) && !diff_parses(text) ==> r is Err
                    && r->Err_0 is GitError,
            { repo.apply_patch(patch, admin, branch_name) };
        self.with_lock(repo.local.as_str(), op)
    }

    /// Extracts the outbound patch from `patch`, as `Repo::process_patch` does,
    /// holding the repository's lock.
    pub fn process_patch<R, D>(
        &self,
        repo: &Repo,
        patch: String,
        branch_name: String,
        read_file: R,
        remove_path: D,
    ) -> (r: FResult<String>) where
        R: FnOnce(String) -> FResult<Option<String>>,
        D: Fn(String) -> FResult<()>,

        requires
            forall|p: String| #[trigger] read_file.requires((p,)),
            forall|p: String| #[trigger] remove_path.requires((p,)),
        ensures
            r is Err ==> r->Err_0 is GitError || is_lock_failure(r->Err_0) || (exists|p: String|
                #[trigger] read_file.ensures((p,), Err(r->Err_0))) || (exists|p: String|
                #[trigger] remove_path.ensures((p,), Err(r->Err_0))),
            !diff_parses(patch@) ==> r is Err && (r->Err_0 is GitError || is_lock_failure(r->Err_0)),
    {
        let ghost text = patch@;
        let op = move || -> (r: FResult<String>)
            requires
                forall|p: String| #[trigger] read_file.requires((p,)),
                forall|p: String| #[trigger] remove_path.requires((p,)),
            ensures
                r is Err ==> r->Err_0 is GitError || (exists|p: String|
                    #[trigger] read_file.ensures((p,), Err(r->Err_0))) || (exists|p: String|
                    #[trigger] remove_path.ensures((p,), Err(r->Err_0))),
                !diff_parses(text) ==> r is Err && r->Err_0 is GitError,
            { repo.process_patch(patch, branch_name, read_file, remove_path) };
        self.with_lock(repo.local.as_str(), op)
    }

    /// Force-pushes `branch` to the local mirror, holding the repository's lock.
    pub fn push_local(&self, repo: &Repo, branch: &str) -> (r: FResult<()>)
        ensures
            r is Err ==> r->Err_0 is GitError || is_lock_failure(r->Err_0),
    {
        let op = || -> (r: FResult<()>)
            ensures
                r is Err ==> r->Err_0 is GitError,
            { repo.push_local(branch) };
        self.with_lock(repo.local.as_str(), op)
    }

    /// Attaches the remote `name` at `url`, holding the repository's lock.
    pub fn add_remote(&self, repo: &Repo, name: &str, url: &str) -> (r: FResult<()>)
        ensures
            r is Err ==> r->Err_0 is GitError || r->Err_0 is RemoteNameExists || is_lock_failure(
                r->Err_0,
            ),
    {
        let op = || -> (r: FResult<()>)
            ensures
                r is Err ==> r->Err_0 is GitError || r->Err_0 is RemoteNameExists,
            { repo.add_remote(name, url) };
        self.with_lock(repo.local.as_str(), op)
    }
}

} // verus!
