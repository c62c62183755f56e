use vstd::prelude::*;

use crate::error::{is_policy_violation, description_of, GameError, GameResult};
use crate::options::OpenOptions;
use crate::path::{
    has_parent_ref, is_absolute, is_entry_name, is_sandboxed, is_sandboxed_path, lemma_child_stays_sandboxed,
    lemma_resolved_stays_under_root, resolve_path, resolved,
};

verus! {

/// What a filesystem is, seen from outside: its root and whether it is
/// readonly.
pub struct RootModel {
    pub root: Seq<char>,
    pub readonly: bool,
}

/// A snapshot of what the host reported about a file or directory.
#[derive(Debug, Clone, Copy, PartialEq, Eq, Structural)]
pub struct Metadata {
    pub is_dir: bool,
    pub is_file: bool,
    pub len: u64,
}

/// The kind tag under which a system registers itself.
#[derive(Debug, Clone, Copy, PartialEq, Eq, Structural)]
pub enum SystemType {
    Filesystem,
}

/// A filesystem confined to one host directory. Every path it is given is
/// relative to that root; paths that would leave it are refused, and so is
/// every change of what is stored when the filesystem is readonly.
#[derive(Debug)]
pub struct Filesystem {
    root: String,
    readonly: bool,
}

impl View for Filesystem {
    type V = RootModel;

    closed spec fn view(&self) -> RootModel {
        RootModel { root: self.root@, readonly: self.readonly }
    }
}

/// Where `p` lands under the root, or `None` when `p` may not be resolved.
pub open spec fn sandbox_target(m: RootModel, p: Seq<char>) -> Option<Seq<char>> {
    if is_sandboxed(p) {
        Some(resolved(m.root, p))
    } else {
        None
    }
}

/// Where opening `p` with `o` reaches the host, or `None` when it is refused.
pub open spec fn open_target_of(m: RootModel, p: Seq<char>, o: OpenOptions) -> Option<Seq<char>> {
    if m.readonly && o.spec_mutates() {
        None
    } else {
        sandbox_target(m, p)
    }
}

/// Where a change of what is stored at `p` reaches the host, or `None` when
/// it is refused.
pub open spec fn mutation_target_of(m: RootModel, p: Seq<char>) -> Option<Seq<char>> {
    if m.readonly {
        None
    } else {
        sandbox_target(m, p)
    }
}

/// Where the `Ok` value of `r`, if any, points.
pub open spec fn target_of_result(r: GameResult<String>) -> Option<Seq<char>> {
    match r {
        Ok(s) => Some(s@),
        Err(_) => None,
    }
}

/// The description of a refused path.
pub open spec fn invalid_path_message(p: Seq<char>) -> Seq<char> {
    "Path \""@ + p
        + "\" is not a valid sandboxed path: must be relative with no parent-directory references"@
}

/// The description of a refused open on a readonly filesystem.
pub open spec fn readonly_open_message(m: RootModel, p: Seq<char>) -> Seq<char> {
    "Cannot alter file \""@ + p + "\" in root \""@ + m.root + "\", filesystem read-only"@
}

/// The description of a refused directory creation on a readonly filesystem.
pub open spec fn readonly_mkdir_message(p: Seq<char>) -> Seq<char> {
    "Tried to create directory \""@ + p + "\" but the filesystem is read-only"@
}

/// The description of a refused removal on a readonly filesystem.
pub open spec fn readonly_rm_message(p: Seq<char>) -> Seq<char> {
    "Tried to remove the file/empty directory \""@ + p + "\", but the filesystem is read-only"@
}

/// The description of a refused recursive removal on a readonly filesystem.
pub open spec fn readonly_rmrf_message(p: Seq<char>) -> Seq<char> {
    "Tried to remove the file/directory \""@ + p + "\", but the filesystem is read-only"@
}

/// `r` is a policy violation described by `d`.
pub open spec fn refused_with(r: GameResult<String>, d: Seq<char>) -> bool {
    r is Err && is_policy_violation(r->Err_0) && description_of(r->Err_0) == d
}

/// The outcome of resolving `p` under the root: the resolved path, or a
/// policy violation naming `p`.
pub open spec fn resolves_as(m: RootModel, p: Seq<char>, r: GameResult<String>) -> bool {
    &&& target_of_result(r) == sandbox_target(m, p)
    &&& r is Err ==> refused_with(r, invalid_path_message(p))
}

/// The outcome of a change at `p`: refused with `readonly_message` on a
/// readonly filesystem, else as `p` resolves.
pub open spec fn mutation_as(
    m: RootModel,
    p: Seq<char>,
    readonly_message: Seq<char>,
    r: GameResult<String>,
) -> bool {
    &&& target_of_result(r) == mutation_target_of(m, p)
    &&& m.readonly ==> refused_with(r, readonly_message)
    &&& !m.readonly ==> resolves_as(m, p, r)
}

/// The outcome of opening `p` with `o`: refused on a readonly filesystem
/// when `o` may change what is stored, else as `p` resolves.
pub open spec fn open_as(m: RootModel, p: Seq<char>, o: OpenOptions, r: GameResult<String>) -> bool {
    &&& target_of_result(r) == open_target_of(m, p, o)
    &&& m.readonly && o.spec_mutates() ==> refused_with(r, readonly_open_message(m, p))
    &&& !(m.readonly && o.spec_mutates()) ==> resolves_as(m, p, r)
}

/// What one entry of a listing of `dir` becomes: a host failure is kept as
/// its cause, a name is resolved as the path `dir/name`.
pub open spec fn listing_entry_as(
    m: RootModel,
    dir: Seq<char>,
    entry: Result<String, std::io::Error>,
    r: GameResult<String>,
) -> bool {
    match entry {
        Ok(name) => resolves_as(m, resolved(dir, name@), r),
        Err(e) => r is Err && r->Err_0 is IOError && r->Err_0->IOError_1 == e,
    }
}

/// `before + middle + after` as a `String`.
fn framed(before: &str, middle: &str, after: &str) -> (r: String)
    ensures
        r@ == before@ + middle@ + after@,
{
    let mut r = String::from_str(before);
    r.append(middle);
    r.append(after);
    r
}

/// A policy violation described by `description`.
fn policy_violation(description: String) -> (r: GameResult<String>)
    ensures
        refused_with(r, description@),
{
    Err(GameError::FileSystemError(description))
}

impl Metadata {
    /// A snapshot of a file's kind and size.
    pub fn new(is_dir: bool, is_file: bool, len: u64) -> (r: Metadata)
        ensures
            r.is_dir == is_dir,
            r.is_file == is_file,
            r.len == len,
    {
        Metadata { is_dir, is_file, len }
    }

    /// Whether the path named a directory.
    pub fn is_dir(&self) -> (r: bool)
        ensures
            r == self.is_dir,
    {
        self.is_dir
    }

    /// Whether the path named a regular file.
    pub fn is_file(&self) -> (r: bool)
        ensures
            r == self.is_file,
    {
        self.is_file
    }

    /// The size in bytes.
    pub fn len(&self) -> (r: u64)
        ensures
            r == self.len,
    {
        self.len
    }
}

impl Filesystem {
    /// A filesystem rooted at `root`, readonly or not for its whole life.
    pub fn new(root: &str, readonly: bool) -> (r: Filesystem)
        ensures
            r@.root == root@,
            r@.readonly == readonly,
    {
        Filesystem { root: String::from_str(root), readonly }
    }

    /// The kind tag of this system.
    pub fn system_type(&self) -> (r: SystemType)
        ensures
            r == SystemType::Filesystem,
    {
        SystemType::Filesystem
    }

    /// Whether changes of what is stored are refused.
    pub fn is_readonly(&self) -> (r: bool)
        ensures
            r == self@.readonly,
    {
        self.readonly
    }

    /// The host directory that every path resolves under.
    pub fn to_path_buf(&self) -> (r: Option<String>)
        ensures
            r is Some,
            r->Some_0@ == self@.root,
    {
        Some(self.root.clone())
    }

    /// Releases what the filesystem holds: nothing, so it always succeeds and
    /// may be called any number of times.
    pub fn shut_down(&self) -> (r: GameResult<()>)
        ensures
            r is Ok,
    {
        Ok(())
    }

    /// Resolves `path` under the root, or refuses it when it is absolute or
    /// climbs to a parent directory.
    pub fn get_absolute(&self, path: &str) -> (r: GameResult<String>)
        ensures
            resolves_as(self@, path@, r),
    {
        if is_sandboxed_path(path) {
            Ok(resolve_path(self.root.as_str(), path))
        } else {
            proof {
                reveal_strlit("Path \"");
                reveal_strlit(
                    "\" is not a valid sandboxed path: must be relative with no parent-directory references",
                );
            }
            policy_violation(
                framed(
                    "Path \"",
                    path,
                    "\" is not a valid sandboxed path: must be relative with no parent-directory references",
                ),
            )
        }
    }

    /// Where the host is to open `path` with `options`: refused on a readonly
    /// filesystem when the options may change what is stored, else as `path`
    /// resolves.
    pub fn open_target(&self, path: &str, options: &OpenOptions) -> (r: GameResult<String>)
        ensures
            open_as(self@, path@, *options, r),
    {
        if self.readonly && options.mutates() {
            let mut d = framed("Cannot alter file \"", path, "\" in root \"");
            d.append(self.root.as_str());
            d.append("\", filesystem read-only");
            proof {
                reveal_strlit("Cannot alter file \"");
                reveal_strlit("\" in root \"");
                reveal_strlit("\", filesystem read-only");
                assert(d@ =~= readonly_open_message(self@, path@));
            }
            return policy_violation(d);
        }
        self.get_absolute(path)
    }

    /// Where the host is to create the directory `path` and its parents.
    pub fn mkdir_target(&self, path: &str) -> (r: GameResult<String>)
        ensures
            mutation_as(self@, path@, readonly_mkdir_message(path@), r),
    {
        if self.readonly {
            proof {
                reveal_strlit("Tried to create directory \"");
                reveal_strlit("\" but the filesystem is read-only");
            }
            return policy_violation(
                framed("Tried to create directory \"", path, "\" but the filesystem is read-only"),
            );
        }
        self.get_absolute(path)
    }

    /// Where the host is to remove one file or one empty directory.
    pub fn rm_target(&self, path: &str) -> (r: GameResult<String>)
        ensures
            mutation_as(self@, path@, readonly_rm_message(path@), r),
    {
        if self.readonly {
            proof {
                reveal_strlit("Tried to remove the file/empty directory \"");
                reveal_strlit("\", but the filesystem is read-only");
            }
            return policy_violation(
                framed(
                    "Tried to remove the file/empty directory \"",
                    path,
                    "\", but the filesystem is read-only",
                ),
            );
        }
        self.get_absolute(path)
    }

    /// Where the host is to remove a file, or a directory with all it holds.
    pub fn rmrf_target(&self, path: &str) -> (r: GameResult<String>)
        ensures
            mutation_as(self@, path@, readonly_rmrf_message(path@), r),
    {
        if self.readonly {
            proof {
                reveal_strlit("Tried to remove the file/directory \"");
                reveal_strlit("\", but the filesystem is read-only");
            }
            return policy_violation(
                framed(
                    "Tried to remove the file/directory \"",
                    path,
                    "\", but the filesystem is read-only",
                ),
            );
        }
        self.get_absolute(path)
    }

    /// Where the host is to look for `path`; `None` when the path is refused,
    /// in which case it does not exist as far as this filesystem goes.
    pub fn exists_target(&self, path: &str) -> (r: Option<String>)
        ensures
            r is Some <==> sandbox_target(self@, path@) is Some,
            r is Some ==> Some(r->Some_0@) == sandbox_target(self@, path@),
    {
        match self.get_absolute(path) {
            Ok(p) => Some(p),
            Err(_) => None,
        }
    }

    /// Turns what the host listed in the directory `dir` into one outcome per
    /// entry, in the same order: a name becomes the resolved path of
    /// `dir/name`, checked again; a host failure stays a failure of that entry
    /// alone.
    pub fn read_dir_listing(&self, dir: &str, entries: Vec<Result<String, std::io::Error>>) -> (r:
        Vec<GameResult<String>>)
        ensures
            r.len() == entries.len(),
            forall|i: int|
                0 <= i < r.len() ==> listing_entry_as(self@, dir@, #[trigger] entries[i], r[i]),
            is_sandboxed(dir@) ==> forall|i: int|
                0 <= i < r.len() && #[trigger] entries[i] is Ok && is_entry_name(
                    entries[i]->Ok_0@,
                ) ==> r[i] is Ok && r[i]->Ok_0@.len() >= self@.root.len() && r[i]->Ok_0@.subrange(
                    0,
                    self@.root.len() as int,
                ) == self@.root,
    {
        let ghost all = entries@;
        let mut rest = entries;
        let mut out: Vec<GameResult<String>> = Vec::new();
        while rest.len() > 0
            invariant
                out.len() + rest.len() == all.len(),
                rest@ == all.subrange(out.len() as int, all.len() as int),
                forall|i: int| 0 <= i < out.len() ==> listing_entry_as(self@, dir@, all[i], out[i]),
            decreases rest.len(),
        {
            let entry = rest.remove(0);
            let ghost k = out.len() as int;
            assert(entry == all[k]);
            let outcome = match entry {
                Ok(name) => {
                    let child = resolve_path(dir, name.as_str());
                    self.get_absolute(child.as_str())
                },
                Err(e) => Err(GameError::from_io(e)),
            };
            out.push(outcome);
            assert(rest@ =~= all.subrange(out.len() as int, all.len() as int));
        }
        proof {
            assert forall|i: int|
                0 <= i < out.len() && #[trigger] all[i] is Ok && is_entry_name(
                    all[i]->Ok_0@,
                ) && is_sandboxed(dir@) implies out[i] is Ok && out[i]->Ok_0@.len()
                >= self@.root.len() && out[i]->Ok_0@.subrange(0, self@.root.len() as int)
                == self@.root by {
                let c = resolved(dir@, all[i]->Ok_0@);
                lemma_child_stays_sandboxed(dir@, all[i]->Ok_0@);
                lemma_resolved_stays_under_root(self@.root, c);
            }
        }
        out
    }
}

/// A path that is absolute, or that has a `..` segment anywhere, is refused
/// by every operation, reading or changing, whatever the options and whether
/// or not the filesystem is readonly: each outcome is a policy violation and
/// no path is handed to the host.
pub proof fn lemma_escape_refused(m: RootModel, p: Seq<char>, o: OpenOptions)
    requires
        is_absolute(p) || has_parent_ref(p),
    ensures
        sandbox_target(m, p) is None,
        open_target_of(m, p, o) is None,
        mutation_target_of(m, p) is None,
        forall|r: GameResult<String>|
            #[trigger] resolves_as(m, p, r) ==> r is Err && is_policy_violation(r->Err_0),
        forall|r: GameResult<String>|
            #[trigger] open_as(m, p, o, r) ==> r is Err && is_policy_violation(r->Err_0),
        forall|d: Seq<char>, r: GameResult<String>|
            #[trigger] mutation_as(m, p, d, r) ==> r is Err && is_policy_violation(r->Err_0),
{
}

/// On a readonly filesystem, opening with any flag that may change what is
/// stored and every creation or removal are refused as policy violations
/// with no path handed to the host, while opening only to read, checking
/// existence, reading metadata and listing go on exactly as they would on a
/// writable filesystem with the same root.
pub proof fn lemma_readonly_policy(m: RootModel, p: Seq<char>, o: OpenOptions)
    requires
        m.readonly,
    ensures
        o.spec_mutates() ==> open_target_of(m, p, o) is None,
        o.spec_mutates() ==> forall|r: GameResult<String>|
            #[trigger] open_as(m, p, o, r) ==> r is Err && is_policy_violation(r->Err_0),
        mutation_target_of(m, p) is None,
        forall|d: Seq<char>, r: GameResult<String>|
            #[trigger] mutation_as(m, p, d, r) ==> refused_with(r, d),
        !o.spec_mutates() ==> open_target_of(m, p, o) == sandbox_target(m, p),
        sandbox_target(m, p) == sandbox_target((RootModel { readonly: false, ..m }), p),
        is_sandboxed(p) ==> sandbox_target(m, p) == Some(resolved(m.root, p)),
{
}

/// On a writable filesystem, every operation on `p` reaches the same host
/// path, whatever the operation and the options: the directory that a
/// creation makes is the one that an existence check, a listing and a
/// removal of `p` look at.
pub proof fn lemma_operations_share_target(m: RootModel, p: Seq<char>, o: OpenOptions)
    requires
        !m.readonly,
    ensures
        mutation_target_of(m, p) == sandbox_target(m, p),
        open_target_of(m, p, o) == sandbox_target(m, p),
{
}

} // verus!
