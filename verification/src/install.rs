//! The entry points (desktop shortcuts, `.app` bundles) of the tool: where
//! they are looked for, whether they are installed, and what an install,
//! uninstall or repair reports.
use vstd::prelude::*;
use vstd::string::*;
use crate::companion::{TargetPlatform, MANAGER_NAME, SILENT_NAME};
use crate::path::{
    app_bundle_of, macos_applications_dir_and_app_name_from_exe, macos_applications_dir_from_exe,
    path_exists, path_join, FsView, PathModel, PathView,
};

verus! {

/// What the caller asked of an install, uninstall or repair.
#[derive(Debug, Clone, PartialEq, Eq)]
pub struct InstallOptions {
    pub install_root: Option<PathModel>,
    pub launcher_path: Option<PathModel>,
    pub manager_path: Option<PathModel>,
    pub remove_owned_data: bool,
}

impl Default for InstallOptions {
    fn default() -> (r: Self)
        ensures
            r.install_root is None,
            r.launcher_path is None,
            r.manager_path is None,
            !r.remove_owned_data,
    {
        InstallOptions { install_root: None, launcher_path: None, manager_path: None, remove_owned_data: false }
    }
}

/// Whether one entry point is installed, and where it is (or would be).
#[derive(Debug, Clone, PartialEq, Eq)]
pub struct ShortcutState {
    pub installed: bool,
    pub path: Option<PathModel>,
}

/// The state of both entry points.
#[derive(Debug, Clone, PartialEq, Eq)]
pub struct EntryPointState {
    pub silent_shortcut: ShortcutState,
    pub management_shortcut: ShortcutState,
}

/// What an install, uninstall or repair reports.
#[derive(Debug, Clone, PartialEq, Eq)]
pub struct InstallActionResult {
    pub status: String,
    pub message: String,
    pub silent_shortcut: ShortcutState,
    pub management_shortcut: ShortcutState,
}

/// A macOS application bundle to be written.
#[derive(Debug, Clone, PartialEq, Eq)]
pub struct MacosAppBundle {
    pub app_path: PathModel,
    pub info_plist: String,
    pub launch_script: String,
    pub binary_source: Option<PathModel>,
    pub binary_target_name: Option<String>,
}

/// Status of a successful action.
pub const STATUS_OK: &'static str = "ok";

/// Status of a failed action.
pub const STATUS_FAILED: &'static str = "failed";

/// Message of a successful install.
pub const INSTALLED_MESSAGE: &'static str = "入口已安装。";

/// Message of a successful uninstall.
pub const UNINSTALLED_MESSAGE: &'static str = "入口已卸载。";

/// Message of a successful repair.
pub const REPAIRED_MESSAGE: &'static str = "入口已修复。";

/// Error of an install on a platform without entry points.
pub const INSTALL_UNSUPPORTED: &'static str = "当前平台暂不支持安装 Codex++ 入口";

/// Error of an uninstall on a platform without entry points.
pub const UNINSTALL_UNSUPPORTED: &'static str = "当前平台暂不支持卸载 Codex++ 入口";

/// The first candidate that exists.
pub open spec fn first_present(fs: FsView, candidates: Seq<PathView>) -> Option<PathView>
    decreases candidates.len(),
{
    if candidates.len() == 0 {
        None
    } else if path_exists(fs, candidates[0]) {
        Some(candidates[0])
    } else {
        first_present(fs, candidates.drop_first())
    }
}

/// The state that a list of candidates gives: installed at the first that
/// exists; else not installed, at the first candidate (if any).
pub open spec fn shortcut_state_of(fs: FsView, candidates: Seq<PathView>, s: ShortcutState) -> bool {
    match first_present(fs, candidates) {
        Some(p) => s.installed && (s.path matches Some(q) && q@ == p),
        None => !s.installed && if candidates.len() == 0 {
            s.path is None
        } else {
            s.path matches Some(q) && q@ == candidates[0]
        },
    }
}

proof fn lemma_first_present_skip(fs: FsView, candidates: Seq<PathView>, i: int)
    requires
        0 <= i < candidates.len(),
        !path_exists(fs, candidates[i]),
    ensures
        first_present(fs, candidates.skip(i)) == first_present(fs, candidates.skip(i + 1)),
{
    assert(candidates.skip(i).drop_first() =~= candidates.skip(i + 1));
}

proof fn lemma_first_present(fs: FsView, candidates: Seq<PathView>)
    ensures
        first_present(fs, candidates) is Some <==> exists|i: int| 0 <= i < candidates.len() && path_exists(fs, #[trigger] candidates[i]),
        first_present(fs, candidates) matches Some(p) ==> exists|i: int| 0 <= i < candidates.len() && p == #[trigger] candidates[i] && path_exists(fs, p),
    decreases candidates.len(),
{
    if candidates.len() > 0 {
        let rest = candidates.drop_first();
        lemma_first_present(fs, rest);
        if !path_exists(fs, candidates[0]) {
            if exists|i: int| 0 <= i < candidates.len() && path_exists(fs, #[trigger] candidates[i]) {
                let i = choose|i: int| 0 <= i < candidates.len() && path_exists(fs, #[trigger] candidates[i]);
                assert(rest[i - 1] == candidates[i]);
            }
            if let Some(p) = first_present(fs, rest) {
                let j = choose|j: int| 0 <= j < rest.len() && p == #[trigger] rest[j] && path_exists(fs, p);
                assert(candidates[j + 1] == rest[j]);
            }
        }
    }
}

/// An entry point is reported installed exactly when one of its candidate
/// paths exists, and then it is reported at an existing candidate.
pub proof fn law_installed_iff_a_candidate_exists(fs: FsView, candidates: Seq<PathView>, s: ShortcutState)
    requires
        shortcut_state_of(fs, candidates, s),
    ensures
        s.installed <==> exists|i: int| 0 <= i < candidates.len() && path_exists(fs, #[trigger] candidates[i]),
        s.installed ==> (s.path matches Some(q) && path_exists(fs, q@)),
{
    lemma_first_present(fs, candidates);
}

impl ShortcutState {
    /// Not installed, at `path`.
    pub fn missing(path: Option<PathModel>) -> (r: Self)
        ensures
            !r.installed,
            r.path == path,
    {
        ShortcutState { installed: false, path }
    }

    /// The state of an entry point that may be at any of `candidates` (see
    /// [`shortcut_state_of`]).
    pub fn from_candidates(candidates: Vec<PathModel>, fs: &FsView) -> (r: Self)
        ensures
            shortcut_state_of(*fs, path_views(candidates@), r),
    {
        let n = candidates.len();
        let mut i: usize = 0;
        let ghost views = path_views(candidates@);
        proof {
            assert(views.skip(0) =~= views);
        }
        while i < n
            invariant
                n == candidates@.len(),
                views == path_views(candidates@),
                i <= n,
                first_present(*fs, views) == first_present(*fs, views.skip(i as int)),
            decreases n - i,
        {
            if fs.path_is_present(&candidates[i]) {
                proof {
                    assert(views.skip(i as int)[0] == candidates@[i as int]@);
                }
                return ShortcutState { installed: true, path: Some(candidates[i].duplicate()) };
            }
            proof {
                lemma_first_present_skip(*fs, views, i as int);
            }
            i = i + 1;
        }
        proof {
            assert(views.skip(n as int).len() == 0);
        }
        if n == 0 {
            Self::missing(None)
        } else {
            Self::missing(Some(candidates[0].duplicate()))
        }
    }
}

/// The file names of the Windows shortcuts: silent launcher, manager.
pub fn shortcut_names() -> (r: (&'static str, &'static str))
    ensures
        r.0@ == "Codex++.lnk"@,
        r.1@ == "Codex++ 管理工具.lnk"@,
{
    ("Codex++.lnk", "Codex++ 管理工具.lnk")
}

/// The names of the macOS bundles: silent launcher, manager.
pub fn app_bundle_names() -> (r: (&'static str, &'static str))
    ensures
        r.0@ == "Codex++.app"@,
        r.1@ == "Codex++ 管理工具.app"@,
{
    ("Codex++.app", "Codex++ 管理工具.app")
}

/// How the default install root is found on `platform`.
pub fn default_install_root_strategy(platform: TargetPlatform) -> (r: &'static str)
    ensures
        r@ == match platform {
            TargetPlatform::Windows => "windows-known-folder"@,
            TargetPlatform::Macos => "macos-applications"@,
            TargetPlatform::Other => "user-dirs-desktop"@,
        },
{
    match platform {
        TargetPlatform::Windows => "windows-known-folder",
        TargetPlatform::Macos => "macos-applications",
        TargetPlatform::Other => "user-dirs-desktop",
    }
}

/// The display name of an entry point.
pub open spec fn entry_name(manager: bool) -> Seq<char> {
    if manager { MANAGER_NAME@ } else { SILENT_NAME@ }
}

/// Where an entry point may be: nothing without a root; on Windows the
/// `.lnk` shortcut; on macOS the bundle that holds the running executable
/// (when it lies in one, and differs from the next) followed by the
/// `.app` bundle of the entry; elsewhere the `.desktop` file.
pub open spec fn entry_candidates(
    root: Option<PathView>,
    manager: bool,
    platform: TargetPlatform,
    exe: Option<PathView>,
) -> Seq<PathView> {
    match root {
        None => Seq::empty(),
        Some(r) => match platform {
            TargetPlatform::Windows => seq![path_join(r, entry_name(manager) + ".lnk"@)],
            TargetPlatform::Macos => {
                let bundle = path_join(r, entry_name(manager) + ".app"@);
                match exe {
                    Some(e) => match app_bundle_of(e) {
                        Some((_, app_name)) => if path_join(r, app_name) != bundle {
                            seq![path_join(r, app_name), bundle]
                        } else {
                            seq![bundle]
                        },
                        None => seq![bundle],
                    },
                    None => seq![bundle],
                }
            },
            TargetPlatform::Other => seq![path_join(r, entry_name(manager) + ".desktop"@)],
        },
    }
}

/// The views of a sequence of paths.
pub open spec fn path_views(v: Seq<PathModel>) -> Seq<PathView> {
    v.map_values(|p: PathModel| p@)
}

/// Where an entry point may be (see [`entry_candidates`]); `current_exe` is
/// the running executable, if known.
pub fn entrypoint_candidates(
    root: &Option<PathModel>,
    manager: bool,
    platform: TargetPlatform,
    current_exe: &Option<PathModel>,
) -> (r: Vec<PathModel>)
    ensures
        path_views(r@) == entry_candidates(
            match root {
                Some(p) => Some(p@),
                None => None,
            },
            manager,
            platform,
            match current_exe {
                Some(p) => Some(p@),
                None => None,
            },
        ),
{
    let root = match root {
        Some(r) => r,
        None => {
            let v: Vec<PathModel> = Vec::new();
            proof {
                assert(path_views(v@) =~= Seq::<PathView>::empty());
            }
            return v;
        },
    };
    let name = if manager { MANAGER_NAME } else { SILENT_NAME };
    let mut v: Vec<PathModel> = Vec::new();
    match platform {
        TargetPlatform::Windows => {
            let file = String::from_str(name).concat(".lnk");
            v.push(root.join(file.as_str()));
        },
        TargetPlatform::Macos => {
            let file = String::from_str(name).concat(".app");
            let bundle = root.join(file.as_str());
            let mut current: Option<PathModel> = None;
            if let Some(exe) = current_exe {
                if let Some((_, app_name)) = macos_applications_dir_and_app_name_from_exe(exe) {
                    let current_app = root.join(app_name.as_str());
                    if !current_app.same_as(&bundle) {
                        current = Some(current_app);
                    }
                }
            }
            if let Some(c) = current {
                v.push(c);
            }
            v.push(bundle);
        },
        TargetPlatform::Other => {
            let file = String::from_str(name).concat(".desktop");
            v.push(root.join(file.as_str()));
        },
    }
    proof {
        assert(path_views(v@) =~= entry_candidates(
            Some(root@),
            manager,
            platform,
            match current_exe {
                Some(p) => Some(p@),
                None => None,
            },
        ));
    }
    v
}

/// Both entry points' states, looked for under `root`.
pub fn inspect_entrypoints(
    root: &Option<PathModel>,
    platform: TargetPlatform,
    current_exe: &Option<PathModel>,
    fs: &FsView,
) -> (r: EntryPointState)
    ensures
        shortcut_state_of(
            *fs,
            entry_candidates(
                match root {
                    Some(p) => Some(p@),
                    None => None,
                },
                false,
                platform,
                match current_exe {
                    Some(p) => Some(p@),
                    None => None,
                },
            ),
            r.silent_shortcut,
        ),
        shortcut_state_of(
            *fs,
            entry_candidates(
                match root {
                    Some(p) => Some(p@),
                    None => None,
                },
                true,
                platform,
                match current_exe {
                    Some(p) => Some(p@),
                    None => None,
                },
            ),
            r.management_shortcut,
        ),
{
    let silent = entrypoint_candidates(root, false, platform, current_exe);
    let manager = entrypoint_candidates(root, true, platform, current_exe);
    EntryPointState {
        silent_shortcut: ShortcutState::from_candidates(silent, fs),
        management_shortcut: ShortcutState::from_candidates(manager, fs),
    }
}

/// The report of an action: `ok` with `success_message`, or `failed` with
/// the error's text; both with the entry points' state after the action.
pub fn action_result(result: &Result<(), String>, success_message: &str, state: EntryPointState) -> (r: InstallActionResult)
    ensures
        r.silent_shortcut == state.silent_shortcut,
        r.management_shortcut == state.management_shortcut,
        match result {
            Ok(()) => r.status@ == STATUS_OK@ && r.message@ == success_message@,
            Err(e) => r.status@ == STATUS_FAILED@ && r.message@ == e@,
        },
{
    match result {
        Ok(()) => InstallActionResult {
            status: STATUS_OK.to_owned(),
            message: success_message.to_owned(),
            silent_shortcut: state.silent_shortcut,
            management_shortcut: state.management_shortcut,
        },
        Err(error) => InstallActionResult {
            status: STATUS_FAILED.to_owned(),
            message: error.clone(),
            silent_shortcut: state.silent_shortcut,
            management_shortcut: state.management_shortcut,
        },
    }
}

/// The outcome of installing on `platform`: the platform installer's outcome,
/// or an error where the platform has no entry points.
pub fn platform_install(platform: TargetPlatform, native_outcome: Result<(), String>) -> (r: Result<(), String>)
    ensures
        platform == TargetPlatform::Other ==> (r matches Err(e) && e@ == INSTALL_UNSUPPORTED@),
        platform != TargetPlatform::Other ==> r == native_outcome,
{
    match platform {
        TargetPlatform::Other => Err(INSTALL_UNSUPPORTED.to_owned()),
        _ => native_outcome,
    }
}

/// The outcome of uninstalling on `platform` (see [`platform_install`]).
pub fn platform_uninstall(platform: TargetPlatform, native_outcome: Result<(), String>) -> (r: Result<(), String>)
    ensures
        platform == TargetPlatform::Other ==> (r matches Err(e) && e@ == UNINSTALL_UNSUPPORTED@),
        platform != TargetPlatform::Other ==> r == native_outcome,
{
    match platform {
        TargetPlatform::Other => Err(UNINSTALL_UNSUPPORTED.to_owned()),
        _ => native_outcome,
    }
}

/// The report of an install with outcome `result`.
pub fn install_entrypoints(result: &Result<(), String>, state: EntryPointState) -> (r: InstallActionResult)
    ensures
        r.silent_shortcut == state.silent_shortcut,
        r.management_shortcut == state.management_shortcut,
        match result {
            Ok(()) => r.status@ == STATUS_OK@ && r.message@ == INSTALLED_MESSAGE@,
            Err(e) => r.status@ == STATUS_FAILED@ && r.message@ == e@,
        },
{
    action_result(result, INSTALLED_MESSAGE, state)
}

/// Whether an uninstall with outcome `result` goes on to remove the tool's
/// own data: only after a successful uninstall that asked for it.
pub fn removes_owned_data(result: &Result<(), String>, options: &InstallOptions) -> (r: bool)
    ensures
        r == (result is Ok && options.remove_owned_data),
{
    result.is_ok() && options.remove_owned_data
}

/// The report of an uninstall with outcome `result`.
pub fn uninstall_entrypoints(result: &Result<(), String>, state: EntryPointState) -> (r: InstallActionResult)
    ensures
        r.silent_shortcut == state.silent_shortcut,
        r.management_shortcut == state.management_shortcut,
        match result {
            Ok(()) => r.status@ == STATUS_OK@ && r.message@ == UNINSTALLED_MESSAGE@,
            Err(e) => r.status@ == STATUS_FAILED@ && r.message@ == e@,
        },
{
    action_result(result, UNINSTALLED_MESSAGE, state)
}

/// The report of a repair (an install again) with outcome `result`.
pub fn repair_entrypoints(result: &Result<(), String>, state: EntryPointState) -> (r: InstallActionResult)
    ensures
        r.silent_shortcut == state.silent_shortcut,
        r.management_shortcut == state.management_shortcut,
        match result {
            Ok(()) => r.status@ == STATUS_OK@ && r.message@ == REPAIRED_MESSAGE@,
            Err(e) => r.status@ == STATUS_FAILED@ && r.message@ == e@,
        },
{
    action_result(result, REPAIRED_MESSAGE, state)
}

/// On macOS, when the running executable lies in a bundle whose namesake
/// exists under the root, both entry points are found installed there: one
/// bundle serves as the launcher's and the manager's entry.
pub proof fn law_single_bundle_serves_both_entries(fs: FsView, root: PathView, exe: PathView, manager: bool)
    requires
        app_bundle_of(exe) matches Some((_, app_name)) && path_exists(fs, path_join(root, app_name)),
    ensures
        first_present(fs, entry_candidates(Some(root), manager, TargetPlatform::Macos, Some(exe)))
            == Some(path_join(root, app_bundle_of(exe).unwrap().1)),
{
    let c = entry_candidates(Some(root), manager, TargetPlatform::Macos, Some(exe));
    assert(path_exists(fs, c[0]));
}

/// `/Applications`
pub open spec fn system_applications() -> PathView {
    PathView { root: "/"@, parts: seq!["Applications"@] }
}

/// The directory `/Applications`.
pub fn applications_dir() -> (r: PathModel)
    ensures
        r@ == system_applications(),
{
    let mut parts: Vec<String> = Vec::new();
    parts.push("Applications".to_owned());
    let r = PathModel { root: "/".to_owned(), parts };
    proof {
        assert(r@.parts =~= system_applications().parts);
    }
    r
}

/// `/Applications`, or `Applications` in the home directory.
pub open spec fn is_applications_dir(path: PathView, home: Option<PathView>) -> bool {
    path == system_applications() || (home matches Some(h) && path == path_join(h, "Applications"@))
}

/// Whether `path` is an applications directory (see [`is_applications_dir`]).
pub fn is_macos_applications_dir(path: &PathModel, home: &Option<PathModel>) -> (r: bool)
    ensures
        r == is_applications_dir(path@, match home {
            Some(h) => Some(h@),
            None => None,
        }),
{
    if path.same_as(&applications_dir()) {
        return true;
    }
    match home {
        Some(h) => path.same_as(&h.join("Applications")),
        None => false,
    }
}

/// The default install root on macOS: `/Applications`, except when no entry
/// bundle is installed there and the running executable lies in a bundle
/// held by an applications directory (`/Applications` or `~/Applications`):
/// then that directory.
pub open spec fn macos_install_root(fs: FsView, exe: Option<PathView>, home: Option<PathView>) -> PathView {
    let apps = system_applications();
    if path_exists(fs, path_join(apps, SILENT_NAME@ + ".app"@)) || path_exists(fs, path_join(apps, MANAGER_NAME@ + ".app"@)) {
        apps
    } else {
        match exe {
            Some(e) => match app_bundle_of(e) {
                Some((dir, _)) => if is_applications_dir(dir, home) { dir } else { apps },
                None => apps,
            },
            None => apps,
        }
    }
}

/// The paths whose existence [`macos_install_root`] asks about: the entry
/// bundles in `/Applications` and, when `exe` lies in a bundle, that bundle's
/// name in `/Applications`.
pub open spec fn install_root_probe_paths(exe: Option<PathView>) -> Seq<PathView> {
    let apps = system_applications();
    seq![path_join(apps, SILENT_NAME@ + ".app"@), path_join(apps, MANAGER_NAME@ + ".app"@)] + match exe {
        Some(e) => match app_bundle_of(e) {
            Some((_, app_name)) => seq![path_join(apps, app_name)],
            None => Seq::empty(),
        },
        None => Seq::empty(),
    }
}

/// The paths to ask about before finding the default install root (see
/// [`install_root_probe_paths`]).
pub fn install_root_probe_paths_of(current_exe: &Option<PathModel>) -> (r: Vec<PathModel>)
    ensures
        r@.map_values(|p: PathModel| p@) == install_root_probe_paths(match current_exe {
            Some(e) => Some(e@),
            None => None,
        }),
{
    let apps = applications_dir();
    let mut v: Vec<PathModel> = Vec::new();
    let silent_app = String::from_str(SILENT_NAME).concat(".app");
    let manager_app = String::from_str(MANAGER_NAME).concat(".app");
    v.push(apps.join(silent_app.as_str()));
    v.push(apps.join(manager_app.as_str()));
    if let Some(exe) = current_exe {
        if let Some((_, app_name)) = macos_applications_dir_and_app_name_from_exe(exe) {
            v.push(apps.join(app_name.as_str()));
        }
    }
    proof {
        assert(v@.map_values(|p: PathModel| p@) =~= install_root_probe_paths(match current_exe {
            Some(e) => Some(e@),
            None => None,
        }));
    }
    v
}

/// The default install root: the desktop on Windows and elsewhere, an
/// applications directory on macOS (see [`macos_install_root`]).
pub open spec fn install_root_default(
    platform: TargetPlatform,
    desktop: Option<PathView>,
    exe: Option<PathView>,
    home: Option<PathView>,
    fs: FsView,
) -> Option<PathView> {
    match platform {
        TargetPlatform::Macos => Some(macos_install_root(fs, exe, home)),
        _ => desktop,
    }
}

/// The default install root (see [`install_root_default`]); `desktop` is the
/// user's desktop directory, `current_exe` the running executable and `home`
/// the home directory, each if known.
pub fn default_install_root(
    platform: TargetPlatform,
    desktop: &Option<PathModel>,
    current_exe: &Option<PathModel>,
    home: &Option<PathModel>,
    fs: &FsView,
) -> (r: Option<PathModel>)
    ensures
        match r {
            Some(p) => install_root_default(
                platform,
                match desktop { Some(d) => Some(d@), None => None },
                match current_exe { Some(e) => Some(e@), None => None },
                match home { Some(h) => Some(h@), None => None },
                *fs,
            ) == Some(p@),
            None => install_root_default(
                platform,
                match desktop { Some(d) => Some(d@), None => None },
                match current_exe { Some(e) => Some(e@), None => None },
                match home { Some(h) => Some(h@), None => None },
                *fs,
            ) is None,
        },
{
    match platform {
        TargetPlatform::Macos => {
            let sys_apps = applications_dir();
            let silent_app = String::from_str(SILENT_NAME).concat(".app");
            let manager_app = String::from_str(MANAGER_NAME).concat(".app");
            if fs.path_is_present(&sys_apps.join(silent_app.as_str())) || fs.path_is_present(
                &sys_apps.join(manager_app.as_str()),
            ) {
                return Some(sys_apps);
            }
            if let Some(exe) = current_exe {
                if let Some((dir, app_name)) = macos_applications_dir_and_app_name_from_exe(exe) {
                    if is_macos_applications_dir(&dir, home) {
                        return Some(dir);
                    }
                    if fs.path_is_present(&sys_apps.join(app_name.as_str())) {
                        return Some(sys_apps);
                    }
                }
                if let Some(dir) = macos_applications_dir_from_exe(exe) {
                    if is_macos_applications_dir(&dir, home) {
                        return Some(dir);
                    }
                }
            }
            Some(sys_apps)
        },
        _ => match desktop {
            Some(d) => Some(d.duplicate()),
            None => None,
        },
    }
}

/// The install root of `options`, else `default_root`, else `.`.
pub fn install_root_or_default(options: &InstallOptions, default_root: &Option<PathModel>) -> (r: PathModel)
    ensures
        r@ == match options.install_root {
            Some(p) => p@,
            None => match default_root {
                Some(d) => d@,
                None => crate::companion::dot_path(),
            },
        },
{
    match &options.install_root {
        Some(p) => p.duplicate(),
        None => match default_root {
            Some(d) => d.duplicate(),
            None => crate::companion::dot(),
        },
    }
}

proof fn lemma_entry_file_names()
    ensures
        SILENT_NAME@ + ".lnk"@ == "Codex++.lnk"@,
        MANAGER_NAME@ + ".lnk"@ == "Codex++ 管理工具.lnk"@,
        SILENT_NAME@ + ".app"@ == "Codex++.app"@,
        MANAGER_NAME@ + ".app"@ == "Codex++ 管理工具.app"@,
        SILENT_NAME@ + ".desktop"@ == "Codex++.desktop"@,
        MANAGER_NAME@ + ".desktop"@ == "Codex++ 管理工具.desktop"@,
{
    reveal_strlit("Codex++");
    reveal_strlit("Codex++ 管理工具");
    reveal_strlit(".lnk");
    reveal_strlit(".app");
    reveal_strlit(".desktop");
    reveal_strlit("Codex++.lnk");
    reveal_strlit("Codex++ 管理工具.lnk");
    reveal_strlit("Codex++.app");
    reveal_strlit("Codex++ 管理工具.app");
    reveal_strlit("Codex++.desktop");
    reveal_strlit("Codex++ 管理工具.desktop");
    assert(SILENT_NAME@ + ".lnk"@ =~= "Codex++.lnk"@);
    assert(MANAGER_NAME@ + ".lnk"@ =~= "Codex++ 管理工具.lnk"@);
    assert(SILENT_NAME@ + ".app"@ =~= "Codex++.app"@);
    assert(MANAGER_NAME@ + ".app"@ =~= "Codex++ 管理工具.app"@);
    assert(SILENT_NAME@ + ".desktop"@ =~= "Codex++.desktop"@);
    assert(MANAGER_NAME@ + ".desktop"@ =~= "Codex++ 管理工具.desktop"@);
}

/// Where each entry is looked for, by file name under the root: on Windows
/// its shortcut (the launcher's `Codex++.lnk`, the manager's
/// `Codex++ 管理工具.lnk`, as [`shortcut_names`] gives them); elsewhere but on
/// macOS its `.desktop` file; on macOS last its own bundle (as
/// [`app_bundle_names`] gives them), before which only the bundle that
/// holds the running executable may stand. Without a root, nowhere.
pub proof fn law_entry_candidates_are_the_entrys_files(root: PathView, manager: bool, exe: Option<PathView>)
    ensures
        entry_candidates(Some(root), manager, TargetPlatform::Windows, exe) == seq![
            path_join(root, if manager { "Codex++ 管理工具.lnk"@ } else { "Codex++.lnk"@ }),
        ],
        entry_candidates(Some(root), manager, TargetPlatform::Other, exe) == seq![
            path_join(root, if manager { "Codex++ 管理工具.desktop"@ } else { "Codex++.desktop"@ }),
        ],
        entry_candidates(Some(root), manager, TargetPlatform::Macos, exe).len() > 0,
        entry_candidates(Some(root), manager, TargetPlatform::Macos, exe).last() == path_join(
            root,
            if manager { "Codex++ 管理工具.app"@ } else { "Codex++.app"@ },
        ),
        forall|i: int|
            0 <= i < entry_candidates(Some(root), manager, TargetPlatform::Macos, exe).len() - 1 ==> (exe matches Some(
                e,
            ) && app_bundle_of(e) matches Some((_, app_name)) && #[trigger] entry_candidates(
                Some(root),
                manager,
                TargetPlatform::Macos,
                exe,
            )[i] == path_join(root, app_name)),
        entry_candidates(None, manager, TargetPlatform::Windows, exe).len() == 0,
        entry_candidates(None, manager, TargetPlatform::Macos, exe).len() == 0,
        entry_candidates(None, manager, TargetPlatform::Other, exe).len() == 0,
{
    lemma_entry_file_names();
}

/// On macOS the default install root is always an applications directory
/// (`/Applications` or `Applications` in the home directory); elsewhere it
/// is the desktop.
pub proof fn law_macos_install_root_is_an_applications_dir(
    platform: TargetPlatform,
    desktop: Option<PathView>,
    exe: Option<PathView>,
    home: Option<PathView>,
    fs: FsView,
)
    ensures
        platform == TargetPlatform::Macos ==> (install_root_default(platform, desktop, exe, home, fs) matches Some(r)
            && is_applications_dir(r, home)),
        platform != TargetPlatform::Macos ==> install_root_default(platform, desktop, exe, home, fs) == desktop,
{
}

/// An entry is reported installed at the first of its candidates that
/// exists: that candidate exists and none before it does. When it is not
/// installed, it is reported at its first candidate.
pub proof fn law_installed_at_first_existing_candidate(fs: FsView, candidates: Seq<PathView>, s: ShortcutState)
    requires
        shortcut_state_of(fs, candidates, s),
    ensures
        s.installed ==> exists|i: int|
            0 <= i < candidates.len() && (s.path matches Some(q) && q@ == candidates[i]) && path_exists(fs, candidates[i])
                && forall|j: int| 0 <= j < i ==> !path_exists(fs, #[trigger] candidates[j]),
        !s.installed ==> forall|j: int| 0 <= j < candidates.len() ==> !path_exists(fs, #[trigger] candidates[j]),
        !s.installed && candidates.len() > 0 ==> (s.path matches Some(q) && q@ == candidates[0]),
        !s.installed && candidates.len() == 0 ==> s.path is None,
{
    lemma_first_present_is_first(fs, candidates);
}

proof fn lemma_first_present_is_first(fs: FsView, candidates: Seq<PathView>)
    ensures
        first_present(fs, candidates) matches Some(p) ==> exists|i: int|
            0 <= i < candidates.len() && p == candidates[i] && path_exists(fs, candidates[i])
                && forall|j: int| 0 <= j < i ==> !path_exists(fs, #[trigger] candidates[j]),
        first_present(fs, candidates) is None ==> forall|j: int|
            0 <= j < candidates.len() ==> !path_exists(fs, #[trigger] candidates[j]),
    decreases candidates.len(),
{
    if candidates.len() > 0 {
        let rest = candidates.drop_first();
        lemma_first_present_is_first(fs, rest);
        if path_exists(fs, candidates[0]) {
            assert(0 <= 0 < candidates.len() && candidates[0] == candidates[0]);
        } else {
            if let Some(p) = first_present(fs, rest) {
                let i = choose|i: int|
                    0 <= i < rest.len() && p == rest[i] && path_exists(fs, rest[i])
                        && forall|j: int| 0 <= j < i ==> !path_exists(fs, #[trigger] rest[j]);
                assert forall|j: int| 0 <= j < i + 1 implies !path_exists(fs, #[trigger] candidates[j]) by {
                    if j > 0 {
                        assert(candidates[j] == rest[j - 1]);
                    }
                }
                assert(candidates[i + 1] == rest[i]);
            } else {
                assert forall|j: int| 0 <= j < candidates.len() implies !path_exists(fs, #[trigger] candidates[j]) by {
                    if j > 0 {
                        assert(candidates[j] == rest[j - 1]);
                    }
                }
            }
        }
    }
}

} // verus!
