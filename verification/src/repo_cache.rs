//! The local repository cache: one clone per upstream repository under a
//! cache root, synced on demand to a requested ref. The git work itself is
//! done by libgit2 through trusted wrappers; the path and URL construction,
//! the ref selection, and the sync bookkeeping are verified.

use vstd::prelude::*;
use vstd::string::*;

verus! {

#[verifier::external_type_specification]
#[verifier::external_body]
pub struct ExGitRepository(git2::Repository);

#[verifier::external_type_specification]
#[verifier::external_body]
pub struct ExGitError(git2::Error);

/// Relies on git2::Repository::open: opens an existing repository at the
/// path, failing if none is there.
#[verifier::external_body]
pub(crate) fn repo_open(path: &String) -> Result<git2::Repository, git2::Error> {
    git2::Repository::open(path.as_str())
}

/// Relies on git2::build::RepoBuilder::clone: clones the repository at `url`
/// into `path`.
#[verifier::external_body]
pub(crate) fn repo_clone(url: &String, path: &String) -> Result<git2::Repository, git2::Error> {
    git2::build::RepoBuilder::new().clone(url.as_str(), std::path::Path::new(path.as_str()))
}

/// Relies on git2::Remote::default_branch (after Remote::connect on the
/// `origin` remote found by git2::Repository::find_remote): the branch the
/// remote points its HEAD at; `None` when that name is not valid UTF-8.
#[verifier::external_body]
pub(crate) fn remote_default_branch(repo: &git2::Repository) -> Result<Option<String>, git2::Error> {
    let mut remote = repo.find_remote("origin")?;
    remote.connect(git2::Direction::Fetch)?;
    let buf = remote.default_branch()?;
    match buf.as_str() {
        Ok(s) => Ok(Some(s.to_owned())),
        Err(_) => Ok(None),
    }
}

/// Relies on git2::Remote::fetch (on the `origin` remote found by
/// git2::Repository::find_remote): fetches exactly the given refspecs.
#[verifier::external_body]
pub(crate) fn remote_fetch(repo: &git2::Repository, refspecs: &Vec<String>) -> Result<
    (),
    git2::Error,
> {
    let mut remote = repo.find_remote("origin")?;
    remote.fetch(refspecs.as_slice(), None, None)
}

/// Relies on git2::Repository::set_head: points HEAD at FETCH_HEAD, the ref
/// just fetched.
#[verifier::external_body]
pub(crate) fn repo_set_head_fetch_head(repo: &git2::Repository) -> Result<(), git2::Error> {
    repo.set_head("FETCH_HEAD")
}

/// Relies on git2::Repository::checkout_head with the force option: makes
/// the working tree match HEAD exactly, discarding local modifications.
#[verifier::external_body]
pub(crate) fn repo_checkout_head_force(repo: &git2::Repository) -> Result<(), git2::Error> {
    repo.checkout_head(Some(git2::build::CheckoutBuilder::default().force()))
}

/// Relies on git2::Error::message: the error's text.
#[verifier::external_body]
pub(crate) fn git_error_message(e: &git2::Error) -> String {
    e.message().to_owned()
}

/// Relies on git2::Repository::head and git2::Reference::peel_to_tree: the
/// id of the tree the working copy's HEAD points at, written in hex.
#[verifier::external_body]
pub(crate) fn repo_head_tree_id(repo: &git2::Repository) -> Result<String, git2::Error> {
    let tree = repo.head()?.peel_to_tree()?;
    Ok(tree.id().to_string())
}

/// The cache slot for a repository: directly under the cache root, named
/// after the repository.
pub open spec fn cache_path_seq(root: Seq<char>, name: Seq<char>) -> Seq<char> {
    root + "/"@ + name
}

pub fn cache_path(root: &str, name: &str) -> (r: String)
    ensures
        r@ == cache_path_seq(root@, name@),
{
    let mut s = root.to_owned();
    s.append("/");
    s.append(name);
    s
}

/// The canonical clone URL of a repository of the organization.
pub open spec fn repo_url_seq(org: Seq<char>, name: Seq<char>) -> Seq<char> {
    "https://github.com/"@ + org + "/"@ + name + ".git"@
}

pub fn repo_url(org: &str, name: &str) -> (r: String)
    ensures
        r@ == repo_url_seq(org@, name@),
{
    let mut s = String::from_str("https://github.com/");
    s.append(org);
    s.append("/");
    s.append(name);
    s.append(".git");
    s
}

/// A repository freshly synced to a ref: the open handle, the ref that was
/// fetched and checked out, the tree the working copy now holds, and whether
/// this request had to clone first.
pub struct SyncedRepo {
    pub repo: git2::Repository,
    /// The cache slot the clone lives in; its working tree is here.
    pub path: String,
    pub synced_ref: String,
    pub tree_id: String,
    pub cloned: bool,
}

/// Sync the cache slot of `name` to `to_ref`, or to the remote's default
/// branch when no ref is requested: open the existing clone or make a full
/// clone, fetch exactly the one ref, and force the working tree onto it.
/// On success the ref recorded in the result is the requested one, when one
/// was requested.
pub fn sync_repo(cache_root: &str, org: &str, name: &str, to_ref: Option<&String>) -> (r: Result<
    SyncedRepo,
    String,
>)
    ensures
        r matches Ok(s) ==> s.path@ == cache_path_seq(cache_root@, name@),
        r matches Ok(s) ==> (to_ref matches Some(t) ==> s.synced_ref@ == t@),
{
    let path = cache_path(cache_root, name);
    let (repo, cloned) = match repo_open(&path) {
        Ok(repo) => (repo, false),
        Err(_) => {
            let url = repo_url(org, name);
            match repo_clone(&url, &path) {
                Ok(repo) => (repo, true),
                Err(e) => {
                    let mut msg = String::from_str("failed to clone ");
                    msg.append(url.as_str());
                    msg.append(": ");
                    let detail = git_error_message(&e);
                    msg.append(detail.as_str());
                    return Err(msg);
                },
            }
        },
    };
    let synced_ref = match to_ref {
        Some(t) => t.clone(),
        None => match remote_default_branch(&repo) {
            Ok(Some(b)) => b,
            Ok(None) => {
                return Err(String::from_str("default branch is not valid UTF-8"));
            },
            Err(e) => {
                return Err(git_error_message(&e));
            },
        },
    };
    let mut refspecs: Vec<String> = Vec::new();
    refspecs.push(synced_ref.clone());
    if let Err(e) = remote_fetch(&repo, &refspecs) {
        return Err(git_error_message(&e));
    }
    if let Err(e) = repo_set_head_fetch_head(&repo) {
        return Err(git_error_message(&e));
    }
    if let Err(e) = repo_checkout_head_force(&repo) {
        return Err(git_error_message(&e));
    }
    let tree_id = match repo_head_tree_id(&repo) {
        Ok(t) => t,
        Err(e) => {
            return Err(git_error_message(&e));
        },
    };
    Ok(SyncedRepo { repo, path, synced_ref, tree_id, cloned })
}

/// The first entry named `name`, front to back. The model below inserts at
/// the front, so the first match is always the newest record.
pub open spec fn find_entry(s: Seq<(String, String)>, name: Seq<char>) -> Option<Seq<char>>
    decreases s.len(),
{
    if s.len() == 0 {
        None
    } else if s[0].0@ == name {
        Some(s[0].1@)
    } else {
        find_entry(s.drop_first(), name)
    }
}

/// Bookkeeping for the cache: which repositories have been synced, and the
/// tree each working copy was last put on. One slot per repository name.
pub struct CacheModel {
    entries: Vec<(String, String)>,
}

impl CacheModel {
    /// The cache as a map from repository name to the tree last synced.
    pub closed spec fn as_map(&self) -> Map<Seq<char>, Seq<char>> {
        Map::new(
            |n: Seq<char>| find_entry(self.entries@, n) is Some,
            |n: Seq<char>| find_entry(self.entries@, n)->Some_0,
        )
    }

    pub fn new() -> (m: CacheModel)
        ensures
            m.as_map() == Map::<Seq<char>, Seq<char>>::empty(),
    {
        let m = CacheModel { entries: Vec::new() };
        proof {
            assert(m.as_map() =~= Map::<Seq<char>, Seq<char>>::empty());
        }
        m
    }

    /// Is a clone of `name` recorded?
    pub fn knows(&self, name: &String) -> (r: bool)
        ensures
            r == self.as_map().dom().contains(name@),
    {
        let n = self.entries.len();
        let mut i: usize = 0;
        proof {
            assert(self.entries@.skip(0) =~= self.entries@);
        }
        while i < n
            invariant
                n == self.entries@.len(),
                0 <= i <= n,
                find_entry(self.entries@, name@) == find_entry(
                    self.entries@.skip(i as int),
                    name@,
                ),
            decreases n - i,
        {
            let hit = self.entries[i].0.eq(name);
            proof {
                assert(self.entries@.skip(i as int)[0] == self.entries@[i as int]);
                assert(self.entries@.skip(i as int).drop_first() =~= self.entries@.skip(
                    i as int + 1,
                ));
            }
            if hit {
                return true;
            }
            i += 1;
        }
        proof {
            assert(self.entries@.skip(n as int) =~= Seq::<(String, String)>::empty());
        }
        false
    }

    /// Record that `name` was just synced onto `tree`. The result says
    /// whether this sync was the one that made the clone: true exactly when
    /// no clone of `name` was recorded before.
    pub fn record_sync(&mut self, name: &String, tree: &String) -> (cloned: bool)
        ensures
            cloned == !old(self).as_map().dom().contains(name@),
            final(self).as_map() == old(self).as_map().insert(name@, tree@),
    {
        let had = self.knows(name);
        self.entries.insert(0, (name.clone(), tree.clone()));
        proof {
            assert(self.entries@.drop_first() =~= old(self).entries@);
            assert(self.as_map() =~= old(self).as_map().insert(name@, tree@));
        }
        !had
    }
}

/// One sync of `name` onto the tree the fetch produced, as it acts on the
/// bookkeeping: the new state, and whether a full clone was needed.
pub open spec fn spec_sync(cache: Map<Seq<char>, Seq<char>>, name: Seq<char>, tree: Seq<char>) -> (
    Map<Seq<char>, Seq<char>>,
    bool,
) {
    (cache.insert(name, tree), !cache.dom().contains(name))
}

/// Syncing the same repository to the same ref twice in a row — the upstream
/// unchanged, so the fetch hands back the same tree — leaves the working
/// copy on the same tree both times, and the second sync reuses the existing
/// clone instead of making a full clone.
pub proof fn lemma_sync_idempotent(
    cache: Map<Seq<char>, Seq<char>>,
    name: Seq<char>,
    tree: Seq<char>,
)
    ensures
        ({
            let once = spec_sync(cache, name, tree);
            let twice = spec_sync(once.0, name, tree);
            &&& once.0[name] == tree
            &&& twice.0[name] == tree
            &&& twice.1 == false
            &&& once.0 == twice.0
        }),
{
    let once = spec_sync(cache, name, tree);
    let twice = spec_sync(once.0, name, tree);
    assert(once.0 =~= twice.0);
}

/// Sync and record in one step, so the bookkeeping follows the cache: after
/// a successful sync the model maps the repository to the tree the working
/// copy now holds; a failed sync leaves the model unchanged.
pub fn sync_repo_tracked(
    model: &mut CacheModel,
    cache_root: &str,
    org: &str,
    name: &String,
    to_ref: Option<&String>,
) -> (r: Result<SyncedRepo, String>)
    ensures
        r matches Ok(s) ==> (to_ref matches Some(t) ==> s.synced_ref@ == t@),
        r matches Ok(s) ==> final(model).as_map() == spec_sync(
            old(model).as_map(),
            name@,
            s.tree_id@,
        ).0,
        r is Err ==> final(model).as_map() == old(model).as_map(),
{
    match sync_repo(cache_root, org, name.as_str(), to_ref) {
        Ok(s) => {
            let _ = model.record_sync(name, &s.tree_id);
            Ok(s)
        },
        Err(e) => Err(e),
    }
}

} // verus!
