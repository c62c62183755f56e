use vstd::prelude::*;

verus! {

/// A path is host-absolute when it starts at the filesystem root.
pub open spec fn is_absolute(p: Seq<char>) -> bool {
    p.len() > 0 && p[0] == '/'
}

/// A segment `..` starts at index `i` of `p`.
pub open spec fn parent_ref_at(p: Seq<char>, i: int) -> bool {
    &&& 0 <= i
    &&& i + 2 <= p.len()
    &&& p[i] == '.'
    &&& p[i + 1] == '.'
    &&& (i == 0 || p[i - 1] == '/')
    &&& (i + 2 == p.len() || p[i + 2] == '/')
}

/// Some segment of `p` refers to the parent directory.
pub open spec fn has_parent_ref(p: Seq<char>) -> bool {
    exists|i: int| parent_ref_at(p, i)
}

/// A path that may be resolved under a root: relative, and never climbing up.
pub open spec fn is_sandboxed(p: Seq<char>) -> bool {
    !is_absolute(p) && !has_parent_ref(p)
}

/// Joining `p` to `root` puts a `/` between them unless `root` is empty or
/// already ends with one.
pub open spec fn needs_separator(root: Seq<char>) -> bool {
    root.len() > 0 && root.last() != '/'
}

/// Where the relative path `p` lands under `root`.
pub open spec fn resolved(root: Seq<char>, p: Seq<char>) -> Seq<char> {
    if p.len() == 0 {
        root
    } else if needs_separator(root) {
        root + seq!['/'] + p
    } else {
        root + p
    }
}

/// Tells whether `path` may be resolved under a root: it must not be
/// absolute, and no segment of it may be `..`, wherever it stands.
pub fn is_sandboxed_path(path: &str) -> (r: bool)
    ensures
        r == is_sandboxed(path@),
{
    let n = path.unicode_len();
    if n > 0 && path.get_char(0) == '/' {
        return false;
    }
    let mut i: usize = 0;
    while n - i >= 2
        invariant
            n == path@.len(),
            i <= n,
            !is_absolute(path@),
            forall|j: int| 0 <= j < i ==> !parent_ref_at(path@, j),
        decreases n - i,
    {
        if path.get_char(i) == '.' && path.get_char(i + 1) == '.' && (i == 0 || path.get_char(
            i - 1,
        ) == '/') && (i + 2 == n || path.get_char(i + 2) == '/') {
            assert(parent_ref_at(path@, i as int));
            return false;
        }
        i = i + 1;
    }
    true
}

/// Joins the relative path `path` to `root`.
pub fn resolve_path(root: &str, path: &str) -> (r: String)
    ensures
        r@ == resolved(root@, path@),
{
    let mut r = String::from_str(root);
    let path_len = path.unicode_len();
    if path_len == 0 {
        return r;
    }
    let root_len = root.unicode_len();
    if root_len > 0 && root.get_char(root_len - 1) != '/' {
        r.append("/");
        proof {
            reveal_strlit("/");
        }
    }
    r.append(path);
    proof {
        assert(r@ =~= resolved(root@, path@));
    }
    r
}

/// A sandboxed path resolves inside its root: the root is kept as a prefix,
/// and every `..` segment of the result lies within the root itself.
pub proof fn lemma_resolved_stays_under_root(root: Seq<char>, p: Seq<char>)
    requires
        is_sandboxed(p),
    ensures
        resolved(root, p).len() >= root.len(),
        resolved(root, p).subrange(0, root.len() as int) == root,
        forall|i: int| parent_ref_at(resolved(root, p), i) ==> i + 2 <= root.len(),
{
    let r = resolved(root, p);
    assert(r.subrange(0, root.len() as int) =~= root);
    let off: int = if p.len() > 0 && needs_separator(root) {
        root.len() + 1int
    } else {
        root.len() as int
    };
    assert forall|i: int| parent_ref_at(r, i) implies i + 2 <= root.len() by {
        if p.len() > 0 && i + 2 > root.len() {
            if i >= off {
                let j = i - off;
                assert(r[i] == p[j]);
                assert(r[i + 1] == p[j + 1]);
                assert(j == 0 || p[j - 1] == r[i - 1]);
                assert(j + 2 == p.len() || p[j + 2] == r[i + 2]);
                assert(parent_ref_at(p, j));
            } else if needs_separator(root) {
                assert(r[root.len() as int] == '/');
            } else {
                assert(r[root.len() - 1] == '/');
            }
        }
    }
}

/// A name that a directory listing can hold: not empty, free of `/`, and
/// not the parent directory.
pub open spec fn is_entry_name(n: Seq<char>) -> bool {
    &&& n.len() > 0
    &&& forall|k: int| 0 <= k < n.len() ==> n[k] != '/'
    &&& n != seq!['.', '.']
}

/// Naming an entry of a sandboxed directory gives a sandboxed path again.
pub proof fn lemma_child_stays_sandboxed(dir: Seq<char>, name: Seq<char>)
    requires
        is_sandboxed(dir),
        is_entry_name(name),
    ensures
        is_sandboxed(resolved(dir, name)),
{
    let r = resolved(dir, name);
    let off: int = if needs_separator(dir) {
        dir.len() + 1int
    } else {
        dir.len() as int
    };
    if dir.len() > 0 {
        assert(r[0] == dir[0]);
    } else {
        assert(r[0] == name[0]);
    }
    assert forall|i: int| !parent_ref_at(r, i) by {
        if parent_ref_at(r, i) {
            if i >= off {
                let j = i - off;
                assert(r[i] == name[j]);
                assert(r[i + 1] == name[j + 1]);
                if j > 0 {
                    assert(r[i - 1] == name[j - 1]);
                }
                if j + 2 < name.len() {
                    assert(r[i + 2] == name[j + 2]);
                }
                assert(name =~= seq!['.', '.']);
            } else if i + 2 <= dir.len() {
                assert(r[i] == dir[i]);
                assert(r[i + 1] == dir[i + 1]);
                if i > 0 {
                    assert(r[i - 1] == dir[i - 1]);
                }
                if i + 2 < dir.len() {
                    assert(r[i + 2] == dir[i + 2]);
                }
                assert(parent_ref_at(dir, i));
            } else if needs_separator(dir) {
                assert(r[dir.len() as int] == '/');
            } else {
                assert(r[dir.len() - 1] == '/');
            }
        }
    }
}

} // verus!
