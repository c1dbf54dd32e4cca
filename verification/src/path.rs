//! A path as the resolution logic reads it (a root and a list of
//! components), and a view of the file system made of directory listings and of the
//! system's answers about which paths exist.
use vstd::prelude::*;
use crate::text::{chars_of, ends_with_chars, has_suffix};

verus! {

/// A path: its root (`"/"`, a drive such as `"C:\\"`, or `""` for a relative
/// path) and its components in order.
#[derive(Debug, Clone, PartialEq, Eq)]
pub struct PathModel {
    pub root: String,
    pub parts: Vec<String>,
}

/// The mathematical value of a [`PathModel`].
pub struct PathView {
    pub root: Seq<char>,
    pub parts: Seq<Seq<char>>,
}

impl View for PathModel {
    type V = PathView;

    open spec fn view(&self) -> PathView {
        PathView { root: self.root@, parts: self.parts@.map_values(|s: String| s@) }
    }
}

/// The path without its last component; none for a path with no component.
pub open spec fn path_parent(p: PathView) -> Option<PathView> {
    if p.parts.len() == 0 {
        None
    } else {
        Some(PathView { root: p.root, parts: p.parts.drop_last() })
    }
}

/// The path with one more component `name` at its end.
pub open spec fn path_join(p: PathView, name: Seq<char>) -> PathView {
    PathView { root: p.root, parts: p.parts.push(name) }
}

/// The path made of the root and the first `k` components of `p`.
pub open spec fn path_prefix(p: PathView, k: int) -> PathView {
    PathView { root: p.root, parts: p.parts.take(k) }
}

/// `".app"`
pub open spec fn app_suffix() -> Seq<char> {
    seq!['.', 'a', 'p', 'p']
}

/// A component whose extension is `app`: it ends with `.app` and has at
/// least one character before that dot.
pub open spec fn has_app_extension(name: Seq<char>) -> bool {
    name.len() > app_suffix().len() && has_suffix(name, app_suffix())
}

/// The innermost `.app` bundle among the ancestors of `p` (`p` included):
/// the directory that holds it and its name.
pub open spec fn app_bundle_of(p: PathView) -> Option<(PathView, Seq<char>)>
    decreases p.parts.len(),
{
    if p.parts.len() == 0 {
        None
    } else if has_app_extension(p.parts.last()) {
        Some((PathView { root: p.root, parts: p.parts.drop_last() }, p.parts.last()))
    } else {
        app_bundle_of(PathView { root: p.root, parts: p.parts.drop_last() })
    }
}

/// The entries of one directory, by name, in the order in which the system
/// listed them.
#[derive(Debug, Clone, PartialEq, Eq)]
pub struct DirListing {
    pub dir: PathModel,
    pub entries: Vec<String>,
}

/// The system's answer to whether `path` exists.
#[derive(Debug, Clone, PartialEq, Eq)]
pub struct ExistsProbe {
    pub path: PathModel,
    pub exists: bool,
}

/// What the logic knows of the file system: the listings of the directories
/// that could be read, and the system's answers to whether given paths
/// exist. A directory without a listing could not be read; a path without
/// an answer counts as absent.
#[derive(Debug, Clone, PartialEq, Eq)]
pub struct FsView {
    pub listings: Vec<DirListing>,
    pub probes: Vec<ExistsProbe>,
}

/// The entries of the first listing of `dir`, if any.
pub open spec fn listing_of(fs: Seq<DirListing>, dir: PathView) -> Option<Seq<String>>
    decreases fs.len(),
{
    if fs.len() == 0 {
        None
    } else if fs[0].dir@ == dir {
        Some(fs[0].entries@)
    } else {
        listing_of(fs.drop_first(), dir)
    }
}

/// The first answer about `p`, if any.
pub open spec fn probe_of(probes: Seq<ExistsProbe>, p: PathView) -> Option<bool>
    decreases probes.len(),
{
    if probes.len() == 0 {
        None
    } else if probes[0].path@ == p {
        Some(probes[0].exists)
    } else {
        probe_of(probes.drop_first(), p)
    }
}

/// `p` exists: the system answered so when asked.
pub open spec fn path_exists(fs: FsView, p: PathView) -> bool {
    probe_of(fs.probes@, p) == Some(true)
}

proof fn lemma_probe_of_skip(probes: Seq<ExistsProbe>, p: PathView, i: int)
    requires
        0 <= i < probes.len(),
        probes[i].path@ != p,
    ensures
        probe_of(probes.skip(i), p) == probe_of(probes.skip(i + 1), p),
{
    assert(probes.skip(i).drop_first() =~= probes.skip(i + 1));
}

proof fn lemma_listing_of_skip(fs: Seq<DirListing>, dir: PathView, i: int)
    requires
        0 <= i < fs.len(),
        fs[i].dir@ != dir,
    ensures
        listing_of(fs.skip(i), dir) == listing_of(fs.skip(i + 1), dir),
{
    assert(fs.skip(i).drop_first() =~= fs.skip(i + 1));
}

impl PathModel {
    /// A path with the same root and components.
    pub fn duplicate(&self) -> (r: PathModel)
        ensures
            r@ == self@,
    {
        let r = self.take_parts(self.parts.len());
        proof {
            assert(self@.parts.take(self@.parts.len() as int) =~= self@.parts);
        }
        r
    }

    /// The path made of the root and the first `k` components.
    pub fn take_parts(&self, k: usize) -> (r: PathModel)
        requires
            k <= self@.parts.len(),
        ensures
            r@ == path_prefix(self@, k as int),
    {
        let mut parts: Vec<String> = Vec::new();
        let mut i: usize = 0;
        while i < k
            invariant
                k <= self.parts@.len(),
                i <= k,
                parts@.len() == i,
                forall|j: int| 0 <= j < i ==> parts@[j]@ == self.parts@[j]@,
            decreases k - i,
        {
            parts.push(self.parts[i].clone());
            i = i + 1;
        }
        let r = PathModel { root: self.root.clone(), parts };
        proof {
            assert(r@.parts =~= self@.parts.take(k as int));
        }
        r
    }

    /// The path with `name` appended as its last component.
    pub fn join(&self, name: &str) -> (r: PathModel)
        ensures
            r@ == path_join(self@, name@),
    {
        let mut r = self.duplicate();
        r.parts.push(name.to_owned());
        proof {
            assert(r@.parts =~= self@.parts.push(name@));
        }
        r
    }

    /// The path without its last component.
    pub fn parent(&self) -> (r: Option<PathModel>)
        ensures
            r matches Some(q) ==> path_parent(self@) == Some(q@),
            r is None ==> path_parent(self@) is None,
    {
        if self.parts.len() == 0 {
            None
        } else {
            let q = self.take_parts(self.parts.len() - 1);
            proof {
                assert(self@.parts.take(self@.parts.len() - 1) =~= self@.parts.drop_last());
            }
            Some(q)
        }
    }

    /// Whether two paths have the same root and the same components.
    pub fn same_as(&self, other: &PathModel) -> (r: bool)
        ensures
            r == (self@ == other@),
    {
        if self.root != other.root || self.parts.len() != other.parts.len() {
            proof {
                assert(self@.parts.len() == self.parts@.len());
                assert(other@.parts.len() == other.parts@.len());
            }
            return false;
        }
        let n = self.parts.len();
        let mut i: usize = 0;
        while i < n
            invariant
                n == self.parts@.len(),
                n == other.parts@.len(),
                i <= n,
                forall|j: int| 0 <= j < i ==> self.parts@[j]@ == other.parts@[j]@,
            decreases n - i,
        {
            if self.parts[i] != other.parts[i] {
                proof {
                    assert(self@.parts[i as int] != other@.parts[i as int]);
                }
                return false;
            }
            i = i + 1;
        }
        proof {
            assert(self@.parts =~= other@.parts);
        }
        true
    }
}

/// Whether a component has the extension `app`.
pub fn is_app_component(name: &str) -> (r: bool)
    ensures
        r == has_app_extension(name@),
{
    let chars = chars_of(name);
    let suffix = chars_of(".app");
    proof {
        reveal_strlit(".app");
        assert(suffix@ =~= app_suffix());
    }
    chars.len() > suffix.len() && ends_with_chars(&chars, &suffix)
}

/// The innermost `.app` bundle that holds `exe` (or is `exe`): the directory
/// that holds the bundle, and the bundle's name.
pub fn macos_applications_dir_and_app_name_from_exe(exe: &PathModel) -> (r: Option<(PathModel, String)>)
    ensures
        r matches Some((dir, name)) ==> app_bundle_of(exe@) == Some((dir@, name@)),
        r is None ==> app_bundle_of(exe@) is None,
{
    let mut k: usize = exe.parts.len();
    proof {
        assert(exe@.parts.take(exe@.parts.len() as int) =~= exe@.parts);
        assert(path_prefix(exe@, k as int) == exe@);
    }
    while k > 0
        invariant
            k <= exe@.parts.len(),
            app_bundle_of(exe@) == app_bundle_of(path_prefix(exe@, k as int)),
        decreases k,
    {
        let ghost cur = path_prefix(exe@, k as int);
        proof {
            assert(cur.parts.last() == exe@.parts[k - 1]);
            assert(cur.parts.drop_last() =~= exe@.parts.take(k - 1));
        }
        if is_app_component(exe.parts[k - 1].as_str()) {
            let dir = exe.take_parts(k - 1);
            return Some((dir, exe.parts[k - 1].clone()));
        }
        k = k - 1;
    }
    proof {
        assert(path_prefix(exe@, 0).parts.len() == 0);
    }
    None
}

/// Only the directory of the innermost `.app` bundle holding `exe`.
pub fn macos_applications_dir_from_exe(exe: &PathModel) -> (r: Option<PathModel>)
    ensures
        r matches Some(dir) ==> app_bundle_of(exe@) matches Some((d, _)) && d == dir@,
        r is None ==> app_bundle_of(exe@) is None,
{
    match macos_applications_dir_and_app_name_from_exe(exe) {
        Some((dir, _)) => Some(dir),
        None => None,
    }
}

impl FsView {
    /// The position of the first listing of `dir`, if any.
    pub fn listing_index(&self, dir: &PathModel) -> (r: Option<usize>)
        ensures
            r matches Some(i) ==> i < self.listings@.len() && listing_of(self.listings@, dir@)
                == Some(self.listings@[i as int].entries@),
            r is None ==> listing_of(self.listings@, dir@) is None,
    {
        let n = self.listings.len();
        let mut i: usize = 0;
        proof {
            assert(self.listings@.skip(0) =~= self.listings@);
        }
        while i < n
            invariant
                n == self.listings@.len(),
                i <= n,
                listing_of(self.listings@, dir@) == listing_of(self.listings@.skip(i as int), dir@),
            decreases n - i,
        {
            if self.listings[i].dir.same_as(dir) {
                proof {
                    assert(self.listings@.skip(i as int)[0] == self.listings@[i as int]);
                }
                return Some(i);
            }
            proof {
                lemma_listing_of_skip(self.listings@, dir@, i as int);
            }
            i = i + 1;
        }
        proof {
            assert(self.listings@.skip(n as int).len() == 0);
        }
        None
    }

    /// Whether `path` exists (see [`path_exists`]).
    pub fn path_is_present(&self, path: &PathModel) -> (r: bool)
        ensures
            r == path_exists(*self, path@),
    {
        let n = self.probes.len();
        let mut i: usize = 0;
        proof {
            assert(self.probes@.skip(0) =~= self.probes@);
        }
        while i < n
            invariant
                n == self.probes@.len(),
                i <= n,
                probe_of(self.probes@, path@) == probe_of(self.probes@.skip(i as int), path@),
            decreases n - i,
        {
            if self.probes[i].path.same_as(path) {
                proof {
                    assert(self.probes@.skip(i as int)[0] == self.probes@[i as int]);
                }
                return self.probes[i].exists;
            }
            proof {
                lemma_probe_of_skip(self.probes@, path@, i as int);
            }
            i = i + 1;
        }
        proof {
            assert(self.probes@.skip(n as int).len() == 0);
        }
        false
    }
}

/// The bundle found for `p` is its innermost ancestor (or `p` itself) whose
/// name has the extension `app`: `p` lies in `dir/name`, and no component
/// after `name` has that extension. None is found exactly when no component
/// of `p` has it.
pub proof fn law_app_bundle_is_innermost(p: PathView)
    ensures
        app_bundle_of(p) matches Some((dir, name)) ==> {
            &&& has_app_extension(name)
            &&& dir.root == p.root
            &&& dir.parts.len() < p.parts.len()
            &&& p.parts.take(dir.parts.len() as int) == dir.parts
            &&& p.parts[dir.parts.len() as int] == name
            &&& forall|k: int| dir.parts.len() < k < p.parts.len() ==> !has_app_extension(#[trigger] p.parts[k])
        },
        app_bundle_of(p) is None ==> forall|k: int| 0 <= k < p.parts.len() ==> !has_app_extension(#[trigger] p.parts[k]),
    decreases p.parts.len(),
{
    if p.parts.len() > 0 {
        let q = PathView { root: p.root, parts: p.parts.drop_last() };
        if !has_app_extension(p.parts.last()) {
            law_app_bundle_is_innermost(q);
            if let Some((dir, name)) = app_bundle_of(q) {
                assert(q.parts.take(dir.parts.len() as int) =~= p.parts.take(dir.parts.len() as int));
                assert forall|k: int| dir.parts.len() < k < p.parts.len() implies !has_app_extension(#[trigger] p.parts[k]) by {
                    if k < q.parts.len() {
                        assert(p.parts[k] == q.parts[k]);
                    }
                }
            } else {
                assert forall|k: int| 0 <= k < p.parts.len() implies !has_app_extension(#[trigger] p.parts[k]) by {
                    if k < q.parts.len() {
                        assert(p.parts[k] == q.parts[k]);
                    }
                }
            }
        } else {
            assert(p.parts.take(q.parts.len() as int) =~= q.parts);
        }
    }
}

} // verus!
