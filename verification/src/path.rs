//! Paths as text, and the layout of the shared cache.
//!
//! A path is a string whose components are separated by `/`. Joining follows
//! the rule of `std::path` on Unix, so that a cache directory handed over by
//! the platform composes with the fixed names below exactly as a `PathBuf`
//! would.
//!
//! Below the platform's cache directory the layout is
//!
//! ```text
//! <namespace>/                       the cache root
//! <namespace>/<namespace>.lock       the rendezvous file that is locked
//! <namespace>/flatbuffers/           the fetched source tree
//! <namespace>/flatbuffers/build/flatc
//! ```

use vstd::prelude::*;
use vstd::string::*;

verus! {

/// Name of the directory, below the platform's cache directory, that holds
/// everything this library keeps on disk.
pub const NAMESPACE: &'static str = "flatc-gen";

/// Name of the fetched source tree below the cache root.
pub const SOURCE_DIR: &'static str = "flatbuffers";

/// Path of the built executable, relative to the source tree.
pub const BINARY: &'static str = "build/flatc";

/// What follows the namespace in the name of the lock file.
pub const LOCK_SUFFIX: &'static str = ".lock";

/// `base` extended by `name`.
///
/// An absolute `name` replaces `base`. Otherwise `name` is appended, after a
/// separator unless `base` is empty or already ends in one.
pub open spec fn join_spec(base: Seq<char>, name: Seq<char>) -> Seq<char> {
    if name.len() > 0 && name[0] == '/' {
        name
    } else if base.len() == 0 || base.last() == '/' {
        base + name
    } else {
        base + seq!['/'] + name
    }
}

/// The cache root: the namespace directory below the platform's cache
/// directory.
pub open spec fn cache_root_spec(base: Seq<char>, namespace: Seq<char>) -> Seq<char> {
    join_spec(base, namespace)
}

/// The lock file: `<namespace>.lock` directly below the cache root.
pub open spec fn lock_file_spec(root: Seq<char>, namespace: Seq<char>) -> Seq<char> {
    join_spec(root, namespace + LOCK_SUFFIX@)
}

/// The source tree of the tool below the cache root.
pub open spec fn source_tree_spec(root: Seq<char>) -> Seq<char> {
    join_spec(root, SOURCE_DIR@)
}

/// The executable that a build leaves in the source tree.
pub open spec fn tool_binary_spec(root: Seq<char>) -> Seq<char> {
    join_spec(source_tree_spec(root), BINARY@)
}

/// The length of a path that was extended by a relative name.
pub proof fn lemma_join_relative(base: Seq<char>, name: Seq<char>)
    requires
        name.len() > 0,
        name[0] != '/',
    ensures
        join_spec(base, name).len() == base.len() + name.len() + (if base.len() == 0
            || base.last() == '/' {
            0nat
        } else {
            1nat
        }),
        join_spec(base, name).len() > base.len(),
{
}

/// The cache root, the lock file and the source tree are three different
/// paths, and the executable is none of them.
pub proof fn lemma_layout_distinct(root: Seq<char>)
    ensures
        source_tree_spec(root) != root,
        lock_file_spec(root, NAMESPACE@) != root,
        lock_file_spec(root, NAMESPACE@) != source_tree_spec(root),
        tool_binary_spec(root) != root,
        tool_binary_spec(root) != source_tree_spec(root),
        tool_binary_spec(root) != lock_file_spec(root, NAMESPACE@),
{
    reveal_strlit("flatc-gen");
    reveal_strlit("flatbuffers");
    reveal_strlit("build/flatc");
    reveal_strlit(".lock");
    let lock_name = NAMESPACE@ + LOCK_SUFFIX@;
    assert(lock_name.len() == 14);
    assert(lock_name[0] == 'f');
    lemma_join_relative(root, SOURCE_DIR@);
    lemma_join_relative(root, lock_name);
    lemma_join_relative(source_tree_spec(root), BINARY@);
}

/// Joins two paths as `std::path::Path::join` does on Unix.
pub fn join(base: &str, name: &str) -> (joined: String)
    ensures
        joined@ == join_spec(base@, name@),
{
    let name_len = name.unicode_len();
    if name_len > 0 && name.get_char(0) == '/' {
        return String::from_str(name);
    }
    let base_len = base.unicode_len();
    let mut joined = String::from_str(base);
    if base_len > 0 && base.get_char(base_len - 1) != '/' {
        proof {
            reveal_strlit("/");
            assert("/"@ =~= seq!['/']);
        }
        joined.append("/");
    }
    joined.append(name);
    joined
}

/// Resolves the cache root from the platform's cache directory.
pub fn cache_root(base: &str, namespace: &str) -> (root: String)
    ensures
        root@ == cache_root_spec(base@, namespace@),
{
    join(base, namespace)
}

/// Path of the lock file that guards the cache root.
pub fn lock_file(root: &str, namespace: &str) -> (path: String)
    ensures
        path@ == lock_file_spec(root@, namespace@),
{
    let mut name = String::from_str(namespace);
    name.append(LOCK_SUFFIX);
    join(root, name.as_str())
}

/// Path of the tool's source tree.
pub fn source_tree(root: &str) -> (path: String)
    ensures
        path@ == source_tree_spec(root@),
{
    join(root, SOURCE_DIR)
}

/// Path at which a finished build leaves the executable.
pub fn tool_binary(root: &str) -> (path: String)
    ensures
        path@ == tool_binary_spec(root@),
{
    let tree = source_tree(root);
    join(tree.as_str(), BINARY)
}

} // verus!
