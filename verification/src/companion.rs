//! Where the companion executables (the silent launcher and the manager) are
//! found, given the running executable and a view of the file system.
use vstd::prelude::*;
use vstd::string::*;
use crate::path::{
    app_bundle_of, listing_of, macos_applications_dir_and_app_name_from_exe, path_exists,
    path_join, path_parent, probe_of, FsView, PathModel, PathView,
};
use crate::text::{
    chars_of, contains_char, has_prefix, has_suffix, skip_chars, starts_with_chars, str_eq,
    take_chars, ends_with_chars,
};

verus! {

/// Display name of the silent launcher entry.
pub const SILENT_NAME: &'static str = "Codex++";

/// Display name of the management tool entry.
pub const MANAGER_NAME: &'static str = "Codex++ 管理工具";

/// File name of the silent launcher executable.
pub const SILENT_BINARY: &'static str = "codex-plus-plus";

/// File name of the management tool executable.
pub const MANAGER_BINARY: &'static str = "codex-plus-plus-manager";

/// The platform the entry points are laid out for.
#[derive(Debug, Clone, Copy, PartialEq, Eq, Structural)]
pub enum TargetPlatform {
    Windows,
    Macos,
    Other,
}

/// The path `.`
pub open spec fn dot_path() -> PathView {
    PathView { root: Seq::empty(), parts: seq!["."@] }
}

/// The directory of `exe`, or `.` when it has none.
pub open spec fn dir_or_dot(exe: PathView) -> PathView {
    match path_parent(exe) {
        Some(d) => d,
        None => dot_path(),
    }
}

/// `dir/Contents/MacOS`, the executables' directory of a bundle.
pub open spec fn bundle_macos_dir(apps: PathView, bundle: Seq<char>) -> PathView {
    path_join(path_join(path_join(apps, bundle), "Contents"@), "MacOS"@)
}

/// A directory entry name of the form `<binary>-<triple>` (when `suffix` is
/// empty: the triple holds a `-` and no `.`) or `<binary>-<triple><suffix>`
/// (the triple holds a `-`).
pub open spec fn sidecar_name_matches(name: Seq<char>, binary: Seq<char>, suffix: Seq<char>) -> bool {
    let prefix = binary.push('-');
    &&& has_prefix(name, prefix)
    &&& {
        let after = name.skip(prefix.len() as int);
        if suffix.len() == 0 {
            after.contains('-') && !after.contains('.')
        } else {
            has_suffix(after, suffix) && after.take(after.len() - suffix.len()).contains('-')
        }
    }
}

/// The name of the first listed entry that matches as a sidecar.
pub open spec fn first_sidecar(entries: Seq<String>, binary: Seq<char>, suffix: Seq<char>) -> Option<Seq<char>>
    decreases entries.len(),
{
    if entries.len() == 0 {
        None
    } else if sidecar_name_matches(entries[0]@, binary, suffix) {
        Some(entries[0]@)
    } else {
        first_sidecar(entries.drop_first(), binary, suffix)
    }
}

/// The sidecar of `binary` in `dir`: the first matching entry of the listing
/// of `dir`; none when `dir` could not be read or nothing matches.
pub open spec fn sidecar_in(fs: FsView, dir: PathView, binary: Seq<char>, suffix: Seq<char>) -> Option<PathView> {
    match listing_of(fs.listings@, dir) {
        Some(entries) => match first_sidecar(entries, binary, suffix) {
            Some(name) => Some(path_join(dir, name)),
            None => None,
        },
        None => None,
    }
}

/// In the directory of `exe`: `sidecar_name` if it exists, else
/// `bundle_executable` if it exists, else `exe` itself.
pub open spec fn preferred_bundle_binary(
    fs: FsView,
    exe: PathView,
    sidecar_name: Seq<char>,
    bundle_executable: Seq<char>,
) -> PathView {
    let macos = dir_or_dot(exe);
    if path_exists(fs, path_join(macos, sidecar_name)) {
        path_join(macos, sidecar_name)
    } else if path_exists(fs, path_join(macos, bundle_executable)) {
        path_join(macos, bundle_executable)
    } else {
        exe
    }
}

/// `app_name` without a trailing `.app`.
pub open spec fn product_name(app_name: Seq<char>) -> Seq<char> {
    if has_suffix(app_name, ".app"@) {
        app_name.take(app_name.len() - ".app"@.len())
    } else {
        app_name
    }
}

/// `name` in `macos` if it exists there, else `fallback` in `macos`.
pub open spec fn existing_or(fs: FsView, macos: PathView, name: Seq<char>, fallback: Seq<char>) -> PathView {
    if path_exists(fs, path_join(macos, name)) {
        path_join(macos, name)
    } else {
        path_join(macos, fallback)
    }
}

/// Where the silent launcher is when `exe` lies in the bundle `app_name`
/// inside the directory `apps`.
pub open spec fn bundled_launcher(fs: FsView, exe: PathView, apps: PathView, app_name: Seq<char>) -> PathView {
    let beside = match path_parent(exe) {
        Some(d) => sidecar_in(fs, d, SILENT_BINARY@, Seq::empty()),
        None => None,
    };
    let tauri = sidecar_in(fs, bundle_macos_dir(apps, app_name), SILENT_BINARY@, Seq::empty());
    if beside is Some {
        beside.unwrap()
    } else if app_name == SILENT_NAME@ + ".app"@ {
        preferred_bundle_binary(fs, exe, SILENT_BINARY@, "CodexPlusPlus"@)
    } else if tauri is Some && path_exists(fs, tauri.unwrap()) {
        tauri.unwrap()
    } else {
        existing_or(fs, bundle_macos_dir(apps, SILENT_NAME@ + ".app"@), SILENT_BINARY@, "CodexPlusPlus"@)
    }
}

/// Where the manager is when `exe` lies in the bundle `app_name` inside the
/// directory `apps`.
pub open spec fn bundled_manager(fs: FsView, exe: PathView, apps: PathView, app_name: Seq<char>) -> PathView {
    let beside = match path_parent(exe) {
        Some(d) => if path_exists(fs, path_join(d, product_name(app_name))) {
            Some(path_join(d, product_name(app_name)))
        } else if path_exists(fs, path_join(d, MANAGER_BINARY@)) {
            Some(path_join(d, MANAGER_BINARY@))
        } else {
            None
        },
        None => None,
    };
    if beside is Some {
        beside.unwrap()
    } else if app_name == MANAGER_NAME@ + ".app"@ {
        preferred_bundle_binary(fs, exe, MANAGER_BINARY@, "CodexPlusPlusManager"@)
    } else {
        existing_or(fs, bundle_macos_dir(apps, MANAGER_NAME@ + ".app"@), MANAGER_BINARY@, "CodexPlusPlusManager"@)
    }
}

/// Where `binary` is found when `exe` lies inside an `.app` bundle; none when
/// it does not, or when `binary` is neither the launcher nor the manager.
pub open spec fn macos_companion(fs: FsView, exe: PathView, binary: Seq<char>) -> Option<PathView> {
    match app_bundle_of(exe) {
        None => None,
        Some((apps, app_name)) => if binary == SILENT_BINARY@ {
            Some(bundled_launcher(fs, exe, apps, app_name))
        } else if binary == MANAGER_BINARY@ {
            Some(bundled_manager(fs, exe, apps, app_name))
        } else {
            None
        },
    }
}

/// The file name suffix of executables on `platform`.
pub open spec fn exe_suffix(platform: TargetPlatform) -> Seq<char> {
    if platform == TargetPlatform::Windows {
        ".exe"@
    } else {
        Seq::empty()
    }
}

/// Where the companion `binary` of `exe` is: inside the `.app` bundle
/// layout when `exe` lies in one; else `binary` beside `exe` if it exists;
/// else a sidecar `<binary>-<triple>` beside `exe`; else `<binary><suffix>`
/// beside `exe`.
pub open spec fn companion_path(fs: FsView, exe: PathView, binary: Seq<char>, platform: TargetPlatform) -> PathView {
    let dir = dir_or_dot(exe);
    match macos_companion(fs, exe, binary) {
        Some(p) => p,
        None => if path_exists(fs, path_join(dir, binary)) {
            path_join(dir, binary)
        } else {
            match sidecar_in(fs, dir, binary, exe_suffix(platform)) {
                Some(s) => s,
                None => path_join(dir, binary + exe_suffix(platform)),
            }
        },
    }
}

/// Whether a directory entry name is a sidecar of `binary` with `suffix`.
pub fn sidecar_name_matches_exec(name: &str, binary: &str, suffix: &str) -> (r: bool)
    ensures
        r == sidecar_name_matches(name@, binary@, suffix@),
{
    let name_chars = chars_of(name);
    let mut prefix = chars_of(binary);
    prefix.push('-');
    if !starts_with_chars(&name_chars, &prefix) {
        return false;
    }
    let after = skip_chars(&name_chars, prefix.len());
    let suffix_chars = chars_of(suffix);
    if suffix_chars.len() == 0 {
        contains_char(&after, '-') && !contains_char(&after, '.')
    } else {
        if !ends_with_chars(&after, &suffix_chars) {
            return false;
        }
        let triple = take_chars(&after, after.len() - suffix_chars.len());
        contains_char(&triple, '-')
    }
}

proof fn lemma_first_sidecar_skip(entries: Seq<String>, binary: Seq<char>, suffix: Seq<char>, i: int)
    requires
        0 <= i < entries.len(),
        !sidecar_name_matches(entries[i]@, binary, suffix),
    ensures
        first_sidecar(entries.skip(i), binary, suffix) == first_sidecar(entries.skip(i + 1), binary, suffix),
{
    assert(entries.skip(i).drop_first() =~= entries.skip(i + 1));
}

/// The first sidecar of `binary` listed in `dir` (see [`sidecar_in`]).
pub fn find_sidecar_binary(dir: &PathModel, binary: &str, suffix: &str, fs: &FsView) -> (r: Option<PathModel>)
    ensures
        r matches Some(p) ==> sidecar_in(*fs, dir@, binary@, suffix@) == Some(p@),
        r is None ==> sidecar_in(*fs, dir@, binary@, suffix@) is None,
{
    let li = match fs.listing_index(dir) {
        Some(li) => li,
        None => return None,
    };
    let entries = &fs.listings[li].entries;
    let n = entries.len();
    let mut i: usize = 0;
    proof {
        assert(entries@.skip(0) =~= entries@);
    }
    while i < n
        invariant
            n == entries@.len(),
            i <= n,
            listing_of(fs.listings@, dir@) == Some(entries@),
            first_sidecar(entries@, binary@, suffix@) == first_sidecar(entries@.skip(i as int), binary@, suffix@),
        decreases n - i,
    {
        if sidecar_name_matches_exec(entries[i].as_str(), binary, suffix) {
            proof {
                assert(entries@.skip(i as int)[0] == entries@[i as int]);
            }
            return Some(dir.join(entries[i].as_str()));
        }
        proof {
            lemma_first_sidecar_skip(entries@, binary@, suffix@, i as int);
        }
        i = i + 1;
    }
    proof {
        assert(entries@.skip(n as int).len() == 0);
    }
    None
}

/// The path `.`
pub fn dot() -> (r: PathModel)
    ensures
        r@ == dot_path(),
{
    let mut parts: Vec<String> = Vec::new();
    parts.push(".".to_owned());
    let r = PathModel { root: String::new(), parts };
    proof {
        assert(r@.parts =~= dot_path().parts);
    }
    r
}

/// The directory of `exe`, or `.`.
pub fn exe_dir(exe: &PathModel) -> (r: PathModel)
    ensures
        r@ == dir_or_dot(exe@),
{
    match exe.parent() {
        Some(d) => d,
        None => dot(),
    }
}

/// `apps/<bundle>/Contents/MacOS`.
pub fn bundle_macos(apps: &PathModel, bundle: &str) -> (r: PathModel)
    ensures
        r@ == bundle_macos_dir(apps@, bundle@),
{
    apps.join(bundle).join("Contents").join("MacOS")
}

/// The sidecar of the launcher beside `exe`.
pub fn find_sidecar_in_macos_dir(exe: &PathModel, fs: &FsView) -> (r: Option<PathModel>)
    ensures
        r matches Some(p) ==> path_parent(exe@) matches Some(d)
            && sidecar_in(*fs, d, SILENT_BINARY@, Seq::empty()) == Some(p@),
        r is None ==> (path_parent(exe@) matches Some(d) ==> sidecar_in(*fs, d, SILENT_BINARY@, Seq::empty()) is None),
{
    let dir = exe.parent()?;
    let empty = String::new();
    find_sidecar_binary(&dir, SILENT_BINARY, empty.as_str(), fs)
}

/// See [`preferred_bundle_binary`].
pub fn macos_preferred_bundle_binary(exe: &PathModel, sidecar_name: &str, bundle_executable_name: &str, fs: &FsView) -> (r: PathModel)
    ensures
        r@ == preferred_bundle_binary(*fs, exe@, sidecar_name@, bundle_executable_name@),
{
    let macos = exe_dir(exe);
    let sidecar = macos.join(sidecar_name);
    if fs.path_is_present(&sidecar) {
        return sidecar;
    }
    let bundle_executable = macos.join(bundle_executable_name);
    if fs.path_is_present(&bundle_executable) {
        return bundle_executable;
    }
    exe.duplicate()
}

/// See [`existing_or`].
fn existing_or_exec(macos: &PathModel, name: &str, fallback: &str, fs: &FsView) -> (r: PathModel)
    ensures
        r@ == existing_or(*fs, macos@, name@, fallback@),
{
    let candidate = macos.join(name);
    if fs.path_is_present(&candidate) {
        candidate
    } else {
        macos.join(fallback)
    }
}

/// `name` followed by `.app`.
fn bundle_name(name: &str) -> (r: String)
    ensures
        r@ == name@ + ".app"@,
{
    String::from_str(name).concat(".app")
}

/// `app_name` without a trailing `.app`.
pub fn strip_app_suffix(app_name: &str) -> (r: String)
    ensures
        r@ == product_name(app_name@),
{
    let chars = chars_of(app_name);
    let suffix = chars_of(".app");
    if ends_with_chars(&chars, &suffix) {
        let n = app_name.unicode_len();
        let cut = n - suffix.len();
        app_name.substring_char(0, cut).to_owned()
    } else {
        app_name.to_owned()
    }
}

/// See [`bundled_launcher`].
fn bundled_launcher_exec(exe: &PathModel, apps: &PathModel, app_name: &str, fs: &FsView) -> (r: PathModel)
    ensures
        r@ == bundled_launcher(*fs, exe@, apps@, app_name@),
{
    if let Some(sidecar) = find_sidecar_in_macos_dir(exe, fs) {
        return sidecar;
    }
    let silent_app = bundle_name(SILENT_NAME);
    if str_eq(app_name, silent_app.as_str()) {
        return macos_preferred_bundle_binary(exe, SILENT_BINARY, "CodexPlusPlus", fs);
    }
    let tauri_app_macos = bundle_macos(apps, app_name);
    let empty = String::new();
    if let Some(sidecar) = find_sidecar_binary(&tauri_app_macos, SILENT_BINARY, empty.as_str(), fs) {
        if fs.path_is_present(&sidecar) {
            return sidecar;
        }
    }
    let macos = bundle_macos(apps, silent_app.as_str());
    existing_or_exec(&macos, SILENT_BINARY, "CodexPlusPlus", fs)
}

/// See [`bundled_manager`].
fn bundled_manager_exec(exe: &PathModel, apps: &PathModel, app_name: &str, fs: &FsView) -> (r: PathModel)
    ensures
        r@ == bundled_manager(*fs, exe@, apps@, app_name@),
{
    if let Some(dir) = exe.parent() {
        let product = strip_app_suffix(app_name);
        let manager_candidate = dir.join(product.as_str());
        if fs.path_is_present(&manager_candidate) {
            return manager_candidate;
        }
        let legacy_candidate = dir.join(MANAGER_BINARY);
        if fs.path_is_present(&legacy_candidate) {
            return legacy_candidate;
        }
    }
    let manager_app = bundle_name(MANAGER_NAME);
    if str_eq(app_name, manager_app.as_str()) {
        return macos_preferred_bundle_binary(exe, MANAGER_BINARY, "CodexPlusPlusManager", fs);
    }
    let macos = bundle_macos(apps, manager_app.as_str());
    existing_or_exec(&macos, MANAGER_BINARY, "CodexPlusPlusManager", fs)
}

/// Where `binary` is found when `exe` lies inside an `.app` bundle (see
/// [`macos_companion`]).
pub fn macos_companion_binary_from_exe(exe: &PathModel, binary: &str, fs: &FsView) -> (r: Option<PathModel>)
    ensures
        r matches Some(p) ==> macos_companion(*fs, exe@, binary@) == Some(p@),
        r is None ==> macos_companion(*fs, exe@, binary@) is None,
{
    let (applications_dir, app_name) = macos_applications_dir_and_app_name_from_exe(exe)?;
    if str_eq(binary, SILENT_BINARY) {
        return Some(bundled_launcher_exec(exe, &applications_dir, app_name.as_str(), fs));
    }
    if str_eq(binary, MANAGER_BINARY) {
        return Some(bundled_manager_exec(exe, &applications_dir, app_name.as_str(), fs));
    }
    None
}

/// Where the companion executable `binary` of `exe` is (see [`companion_path`]).
pub fn companion_binary_path_from_exe(exe: &PathModel, binary: &str, platform: TargetPlatform, fs: &FsView) -> (r: PathModel)
    ensures
        r@ == companion_path(*fs, exe@, binary@, platform),
{
    let dir = exe_dir(exe);
    let suffix = if platform == TargetPlatform::Windows {
        ".exe".to_owned()
    } else {
        String::new()
    };
    if let Some(bundle_binary) = macos_companion_binary_from_exe(exe, binary, fs) {
        return bundle_binary;
    }
    let same_bundle = dir.join(binary);
    if fs.path_is_present(&same_bundle) {
        return same_bundle;
    }
    if let Some(sidecar_path) = find_sidecar_binary(&dir, binary, suffix.as_str(), fs) {
        return sidecar_path;
    }
    let file = String::from_str(binary).concat(suffix.as_str());
    dir.join(file.as_str())
}

/// The configured path if there is one, else the companion `binary` of `exe`.
pub fn option_or_current_exe(value: &Option<PathModel>, exe: &PathModel, binary: &str, platform: TargetPlatform, fs: &FsView) -> (r: PathModel)
    ensures
        r@ == match value {
            Some(v) => v@,
            None => companion_path(*fs, exe@, binary@, platform),
        },
{
    match value {
        Some(v) => v.duplicate(),
        None => companion_binary_path_from_exe(exe, binary, platform, fs),
    }
}

/// The directories whose listings [`companion_path`] reads: the directory
/// of `exe` and, when `exe` lies in a bundle, the executables' directories of
/// that bundle and of the launcher's and the manager's bundles beside it.
pub open spec fn companion_probe_dirs(exe: PathView) -> Seq<PathView> {
    let dir = dir_or_dot(exe);
    match app_bundle_of(exe) {
        Some((apps, app_name)) => seq![
            dir,
            bundle_macos_dir(apps, app_name),
            bundle_macos_dir(apps, SILENT_NAME@ + ".app"@),
            bundle_macos_dir(apps, MANAGER_NAME@ + ".app"@),
        ],
        None => seq![dir],
    }
}

/// The directories to list before resolving a companion of `exe` (see
/// [`companion_probe_dirs`]).
pub fn companion_probe_dirs_of(exe: &PathModel) -> (r: Vec<PathModel>)
    ensures
        r@.map_values(|p: PathModel| p@) == companion_probe_dirs(exe@),
{
    let mut v: Vec<PathModel> = Vec::new();
    v.push(exe_dir(exe));
    if let Some((apps, app_name)) = macos_applications_dir_and_app_name_from_exe(exe) {
        v.push(bundle_macos(&apps, app_name.as_str()));
        let silent_app = bundle_name(SILENT_NAME);
        v.push(bundle_macos(&apps, silent_app.as_str()));
        let manager_app = bundle_name(MANAGER_NAME);
        v.push(bundle_macos(&apps, manager_app.as_str()));
    }
    proof {
        assert(v@.map_values(|p: PathModel| p@) =~= companion_probe_dirs(exe@));
    }
    v
}

/// The paths whose existence [`companion_path`] asks about, besides the
/// entries of the listings of [`companion_probe_dirs`]: `binary` beside
/// `exe` and, when `exe` lies in a bundle, the launcher's and the manager's
/// executables beside it and in their bundles.
pub open spec fn companion_probe_paths(exe: PathView, binary: Seq<char>) -> Seq<PathView> {
    let dir = dir_or_dot(exe);
    seq![path_join(dir, binary)] + match app_bundle_of(exe) {
        Some((apps, app_name)) => seq![
            path_join(dir, SILENT_BINARY@),
            path_join(dir, "CodexPlusPlus"@),
            path_join(dir, product_name(app_name)),
            path_join(dir, MANAGER_BINARY@),
            path_join(dir, "CodexPlusPlusManager"@),
            path_join(bundle_macos_dir(apps, SILENT_NAME@ + ".app"@), SILENT_BINARY@),
            path_join(bundle_macos_dir(apps, MANAGER_NAME@ + ".app"@), MANAGER_BINARY@),
        ],
        None => Seq::empty(),
    }
}

/// The paths to ask about before resolving the companion `binary` of `exe`
/// (see [`companion_probe_paths`]).
pub fn companion_probe_paths_of(exe: &PathModel, binary: &str) -> (r: Vec<PathModel>)
    ensures
        r@.map_values(|p: PathModel| p@) == companion_probe_paths(exe@, binary@),
{
    let dir = exe_dir(exe);
    let mut v: Vec<PathModel> = Vec::new();
    v.push(dir.join(binary));
    if let Some((apps, app_name)) = macos_applications_dir_and_app_name_from_exe(exe) {
        v.push(dir.join(SILENT_BINARY));
        v.push(dir.join("CodexPlusPlus"));
        let product = strip_app_suffix(app_name.as_str());
        v.push(dir.join(product.as_str()));
        v.push(dir.join(MANAGER_BINARY));
        v.push(dir.join("CodexPlusPlusManager"));
        let silent_app = bundle_name(SILENT_NAME);
        v.push(bundle_macos(&apps, silent_app.as_str()).join(SILENT_BINARY));
        let manager_app = bundle_name(MANAGER_NAME);
        v.push(bundle_macos(&apps, manager_app.as_str()).join(MANAGER_BINARY));
    }
    proof {
        assert(v@.map_values(|p: PathModel| p@) =~= companion_probe_paths(exe@, binary@));
    }
    v
}

/// Two views of the file system list each of `dirs` alike, and answer alike
/// about every path directly inside one of `dirs`.
pub open spec fn same_listings(fs1: FsView, fs2: FsView, dirs: Seq<PathView>) -> bool {
    &&& forall|i: int| 0 <= i < dirs.len() ==> listing_of(fs1.listings@, dirs[i]) == listing_of(fs2.listings@, dirs[i])
    &&& forall|i: int, n: Seq<char>|
        0 <= i < dirs.len() ==> #[trigger] probe_of(fs1.probes@, path_join(dirs[i], n)) == probe_of(
            fs2.probes@,
            path_join(dirs[i], n),
        )
}

proof fn lemma_join_parent(d: PathView, n: Seq<char>)
    ensures
        path_parent(path_join(d, n)) == Some(d),
        path_join(d, n).parts.last() == n,
{
    assert(path_join(d, n).parts.drop_last() =~= d.parts);
}

proof fn lemma_exists_in(fs1: FsView, fs2: FsView, dirs: Seq<PathView>, k: int, n: Seq<char>)
    requires
        same_listings(fs1, fs2, dirs),
        0 <= k < dirs.len(),
    ensures
        path_exists(fs1, path_join(dirs[k], n)) == path_exists(fs2, path_join(dirs[k], n)),
{
    assert(probe_of(fs1.probes@, path_join(dirs[k], n)) == probe_of(fs2.probes@, path_join(dirs[k], n)));
}

proof fn lemma_sidecar_in_exists(fs1: FsView, fs2: FsView, dirs: Seq<PathView>, k: int, b: Seq<char>, s: Seq<char>)
    requires
        same_listings(fs1, fs2, dirs),
        0 <= k < dirs.len(),
    ensures
        sidecar_in(fs1, dirs[k], b, s) == sidecar_in(fs2, dirs[k], b, s),
        sidecar_in(fs1, dirs[k], b, s) matches Some(p) ==> path_exists(fs1, p) == path_exists(fs2, p),
{
    assert(listing_of(fs1.listings@, dirs[k]) == listing_of(fs2.listings@, dirs[k]));
    if let Some(name) = first_sidecar(listing_of(fs1.listings@, dirs[k]).unwrap_or(Seq::empty()), b, s) {
        lemma_exists_in(fs1, fs2, dirs, k, name);
    }
}

/// Resolving a companion reads the file system only through the listings of
/// [`companion_probe_dirs`] and the answers about paths directly inside
/// them: two views that agree on those give the same path.
pub proof fn law_companion_reads_only_probe_dirs(
    fs1: FsView,
    fs2: FsView,
    exe: PathView,
    binary: Seq<char>,
    platform: TargetPlatform,
)
    requires
        same_listings(fs1, fs2, companion_probe_dirs(exe)),
    ensures
        companion_path(fs1, exe, binary, platform) == companion_path(fs2, exe, binary, platform),
{
    let dirs = companion_probe_dirs(exe);
    let dir = dir_or_dot(exe);
    assert(dirs[0] == dir);
    lemma_exists_in(fs1, fs2, dirs, 0, binary);
    lemma_sidecar_in_exists(fs1, fs2, dirs, 0, binary, exe_suffix(platform));
    if let Some((apps, app_name)) = app_bundle_of(exe) {
        assert(exe.parts.len() > 0);
        assert(path_parent(exe) == Some(dir));
        let t = bundle_macos_dir(apps, app_name);
        let sm = bundle_macos_dir(apps, SILENT_NAME@ + ".app"@);
        let mm = bundle_macos_dir(apps, MANAGER_NAME@ + ".app"@);
        assert(dirs[1] == t && dirs[2] == sm && dirs[3] == mm);
        lemma_sidecar_in_exists(fs1, fs2, dirs, 0, SILENT_BINARY@, Seq::empty());
        lemma_sidecar_in_exists(fs1, fs2, dirs, 1, SILENT_BINARY@, Seq::empty());
        lemma_exists_in(fs1, fs2, dirs, 0, SILENT_BINARY@);
        lemma_exists_in(fs1, fs2, dirs, 0, "CodexPlusPlus"@);
        lemma_exists_in(fs1, fs2, dirs, 0, MANAGER_BINARY@);
        lemma_exists_in(fs1, fs2, dirs, 0, "CodexPlusPlusManager"@);
        lemma_exists_in(fs1, fs2, dirs, 0, product_name(app_name));
        lemma_exists_in(fs1, fs2, dirs, 2, SILENT_BINARY@);
        lemma_exists_in(fs1, fs2, dirs, 3, MANAGER_BINARY@);
        assert(bundled_launcher(fs1, exe, apps, app_name) == bundled_launcher(fs2, exe, apps, app_name));
        assert(bundled_manager(fs1, exe, apps, app_name) == bundled_manager(fs2, exe, apps, app_name));
    }
}

/// When `exe` lies in no `.app` bundle, its companion is in the directory of
/// `exe` (or in `.` when `exe` has no directory).
pub proof fn law_companion_beside_exe(fs: FsView, exe: PathView, binary: Seq<char>, platform: TargetPlatform)
    requires
        app_bundle_of(exe) is None,
    ensures
        path_parent(companion_path(fs, exe, binary, platform)) == Some(dir_or_dot(exe)),
{
    let dir = dir_or_dot(exe);
    lemma_join_parent(dir, binary);
    lemma_join_parent(dir, binary + exe_suffix(platform));
    if let Some(entries) = listing_of(fs.listings@, dir) {
        if let Some(name) = first_sidecar(entries, binary, exe_suffix(platform)) {
            lemma_join_parent(dir, name);
        }
    }
}

proof fn lemma_binaries_differ()
    ensures
        SILENT_BINARY@ != MANAGER_BINARY@,
{
    reveal_strlit("codex-plus-plus");
    reveal_strlit("codex-plus-plus-manager");
    assert(SILENT_BINARY@.len() != MANAGER_BINARY@.len());
}

/// `apps/<bundle>/Contents/MacOS/<name>`, written out.
pub open spec fn in_bundle(apps: PathView, bundle: Seq<char>, name: Seq<char>) -> PathView {
    path_join(path_join(path_join(path_join(apps, bundle), "Contents"@), "MacOS"@), name)
}

/// For an executable inside a bundle: the manager is the executable named
/// after the product beside it if that exists, else `codex-plus-plus-manager`
/// beside it if that exists.
pub proof fn law_manager_found_beside_bundled_exe(
    fs: FsView,
    exe: PathView,
    platform: TargetPlatform,
    apps: PathView,
    app_name: Seq<char>,
)
    requires
        app_bundle_of(exe) == Some((apps, app_name)),
    ensures
        path_exists(fs, path_join(dir_or_dot(exe), product_name(app_name))) ==> companion_path(
            fs,
            exe,
            MANAGER_BINARY@,
            platform,
        ) == path_join(dir_or_dot(exe), product_name(app_name)),
        !path_exists(fs, path_join(dir_or_dot(exe), product_name(app_name))) && path_exists(
            fs,
            path_join(dir_or_dot(exe), MANAGER_BINARY@),
        ) ==> companion_path(fs, exe, MANAGER_BINARY@, platform) == path_join(dir_or_dot(exe), MANAGER_BINARY@),
{
    lemma_binaries_differ();
    assert(exe.parts.len() > 0);
    assert(path_parent(exe) == Some(dir_or_dot(exe)));
}

/// For an executable inside a bundle other than the manager's own, with no
/// manager beside it: the manager is `codex-plus-plus-manager` in the
/// manager's bundle `Codex++ 管理工具.app` when that exists; the name
/// `CodexPlusPlusManager` there is given only when it does not.
pub proof fn law_manager_found_in_manager_bundle(
    fs: FsView,
    exe: PathView,
    platform: TargetPlatform,
    apps: PathView,
    app_name: Seq<char>,
)
    requires
        app_bundle_of(exe) == Some((apps, app_name)),
        app_name != MANAGER_NAME@ + ".app"@,
        !path_exists(fs, path_join(dir_or_dot(exe), product_name(app_name))),
        !path_exists(fs, path_join(dir_or_dot(exe), MANAGER_BINARY@)),
    ensures
        path_exists(fs, in_bundle(apps, MANAGER_NAME@ + ".app"@, MANAGER_BINARY@)) ==> companion_path(
            fs,
            exe,
            MANAGER_BINARY@,
            platform,
        ) == in_bundle(apps, MANAGER_NAME@ + ".app"@, MANAGER_BINARY@),
        !path_exists(fs, in_bundle(apps, MANAGER_NAME@ + ".app"@, MANAGER_BINARY@)) ==> companion_path(
            fs,
            exe,
            MANAGER_BINARY@,
            platform,
        ) == in_bundle(apps, MANAGER_NAME@ + ".app"@, "CodexPlusPlusManager"@),
{
    lemma_binaries_differ();
    assert(exe.parts.len() > 0);
    assert(path_parent(exe) == Some(dir_or_dot(exe)));
}

/// For an executable inside the manager's own bundle `Codex++ 管理工具.app`,
/// with no manager beside it by the other names: the manager is
/// `CodexPlusPlusManager` beside it if that exists, else the executable
/// itself.
pub proof fn law_manager_in_own_bundle(
    fs: FsView,
    exe: PathView,
    platform: TargetPlatform,
    apps: PathView,
)
    requires
        app_bundle_of(exe) == Some((apps, MANAGER_NAME@ + ".app"@)),
        !path_exists(fs, path_join(dir_or_dot(exe), product_name(MANAGER_NAME@ + ".app"@))),
        !path_exists(fs, path_join(dir_or_dot(exe), MANAGER_BINARY@)),
    ensures
        path_exists(fs, path_join(dir_or_dot(exe), "CodexPlusPlusManager"@)) ==> companion_path(
            fs,
            exe,
            MANAGER_BINARY@,
            platform,
        ) == path_join(dir_or_dot(exe), "CodexPlusPlusManager"@),
        !path_exists(fs, path_join(dir_or_dot(exe), "CodexPlusPlusManager"@)) ==> companion_path(
            fs,
            exe,
            MANAGER_BINARY@,
            platform,
        ) == exe,
{
    lemma_binaries_differ();
    assert(exe.parts.len() > 0);
    assert(path_parent(exe) == Some(dir_or_dot(exe)));
}

/// For an executable inside a bundle: a launcher sidecar beside it wins.
pub proof fn law_launcher_sidecar_beside_wins(
    fs: FsView,
    exe: PathView,
    platform: TargetPlatform,
    apps: PathView,
    app_name: Seq<char>,
    sidecar: PathView,
)
    requires
        app_bundle_of(exe) == Some((apps, app_name)),
        sidecar_in(fs, dir_or_dot(exe), SILENT_BINARY@, Seq::empty()) == Some(sidecar),
    ensures
        companion_path(fs, exe, SILENT_BINARY@, platform) == sidecar,
        path_parent(sidecar) == Some(dir_or_dot(exe)),
{
    assert(exe.parts.len() > 0);
    assert(path_parent(exe) == Some(dir_or_dot(exe)));
    let entries = listing_of(fs.listings@, dir_or_dot(exe)).unwrap();
    lemma_join_parent(dir_or_dot(exe), first_sidecar(entries, SILENT_BINARY@, Seq::empty()).unwrap());
}

/// For an executable inside a bundle other than the launcher's own, with no
/// sidecar beside it: an existing sidecar in that bundle wins; failing that,
/// the launcher is `codex-plus-plus` in the launcher's bundle `Codex++.app`
/// when that exists, and the name `CodexPlusPlus` there only when it does
/// not.
pub proof fn law_launcher_found_in_launcher_bundle(
    fs: FsView,
    exe: PathView,
    platform: TargetPlatform,
    apps: PathView,
    app_name: Seq<char>,
)
    requires
        app_bundle_of(exe) == Some((apps, app_name)),
        app_name != SILENT_NAME@ + ".app"@,
        sidecar_in(fs, dir_or_dot(exe), SILENT_BINARY@, Seq::empty()) is None,
    ensures
        sidecar_in(fs, bundle_macos_dir(apps, app_name), SILENT_BINARY@, Seq::empty()) matches Some(t) ==> (
        path_exists(fs, t) ==> companion_path(fs, exe, SILENT_BINARY@, platform) == t),
        !(sidecar_in(fs, bundle_macos_dir(apps, app_name), SILENT_BINARY@, Seq::empty()) matches Some(t) && path_exists(
            fs,
            t,
        )) ==> companion_path(fs, exe, SILENT_BINARY@, platform) == if path_exists(
            fs,
            in_bundle(apps, SILENT_NAME@ + ".app"@, SILENT_BINARY@),
        ) {
            in_bundle(apps, SILENT_NAME@ + ".app"@, SILENT_BINARY@)
        } else {
            in_bundle(apps, SILENT_NAME@ + ".app"@, "CodexPlusPlus"@)
        },
{
    assert(exe.parts.len() > 0);
    assert(path_parent(exe) == Some(dir_or_dot(exe)));
}

/// For an executable inside the launcher's own bundle `Codex++.app`, with no
/// sidecar beside it: the launcher is `codex-plus-plus` beside it if that
/// exists, else `CodexPlusPlus` beside it if that exists, else the
/// executable itself.
pub proof fn law_launcher_in_own_bundle(fs: FsView, exe: PathView, platform: TargetPlatform, apps: PathView)
    requires
        app_bundle_of(exe) == Some((apps, SILENT_NAME@ + ".app"@)),
        sidecar_in(fs, dir_or_dot(exe), SILENT_BINARY@, Seq::empty()) is None,
    ensures
        companion_path(fs, exe, SILENT_BINARY@, platform) == if path_exists(fs, path_join(dir_or_dot(exe), SILENT_BINARY@)) {
            path_join(dir_or_dot(exe), SILENT_BINARY@)
        } else if path_exists(fs, path_join(dir_or_dot(exe), "CodexPlusPlus"@)) {
            path_join(dir_or_dot(exe), "CodexPlusPlus"@)
        } else {
            exe
        },
{
    assert(exe.parts.len() > 0);
    assert(path_parent(exe) == Some(dir_or_dot(exe)));
}

/// For an executable in no `.app` bundle: `binary` beside it if that
/// exists; else the first sidecar `<binary>-<triple>` (with `.exe` on
/// Windows) listed beside it; else `<binary>` (with `.exe` on Windows)
/// beside it.
pub proof fn law_companion_of_unbundled_exe(fs: FsView, exe: PathView, binary: Seq<char>, platform: TargetPlatform)
    requires
        app_bundle_of(exe) is None,
    ensures
        companion_path(fs, exe, binary, platform) == if path_exists(fs, path_join(dir_or_dot(exe), binary)) {
            path_join(dir_or_dot(exe), binary)
        } else {
            match sidecar_in(
                fs,
                dir_or_dot(exe),
                binary,
                if platform == TargetPlatform::Windows { ".exe"@ } else { Seq::empty() },
            ) {
                Some(s) => s,
                None => path_join(
                    dir_or_dot(exe),
                    binary + if platform == TargetPlatform::Windows { ".exe"@ } else { Seq::empty() },
                ),
            }
        },
{
}

} // verus!
