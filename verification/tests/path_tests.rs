use codex_plus_core::companion::{
    companion_binary_path_from_exe, companion_probe_dirs_of, find_sidecar_binary,
    macos_companion_binary_from_exe, option_or_current_exe, sidecar_name_matches_exec,
    strip_app_suffix, TargetPlatform, MANAGER_BINARY, SILENT_BINARY,
};
use codex_plus_core::path::{
    is_app_component, macos_applications_dir_and_app_name_from_exe, DirListing, ExistsProbe, FsView,
    PathModel,
};

fn abs(parts: &[&str]) -> PathModel {
    PathModel { root: "/".to_string(), parts: parts.iter().map(|s| s.to_string()).collect() }
}

/// A listing of `dir`, with the answers about its entries.
fn listing(dir: PathModel, names: &[(&str, bool)]) -> (DirListing, Vec<ExistsProbe>) {
    let probes = names.iter().map(|(n, e)| ExistsProbe { path: dir.join(n), exists: *e }).collect();
    (DirListing { dir, entries: names.iter().map(|(n, _)| n.to_string()).collect() }, probes)
}

fn view(parts: Vec<(DirListing, Vec<ExistsProbe>)>) -> FsView {
    let mut fs = FsView { listings: Vec::new(), probes: Vec::new() };
    for (l, p) in parts {
        fs.listings.push(l);
        fs.probes.extend(p);
    }
    fs
}

#[test]
fn path_parent_and_join() {
    let p = abs(&["a", "b"]);
    assert_eq!(p.parent(), Some(abs(&["a"])));
    assert_eq!(abs(&[]).parent(), None);
    assert_eq!(p.join("c"), abs(&["a", "b", "c"]));
    assert!(p.same_as(&abs(&["a", "b"])));
    assert!(!p.same_as(&abs(&["a"])));
}

#[test]
fn app_extension() {
    assert!(is_app_component("Codex++.app"));
    assert!(!is_app_component(".app"));
    assert!(!is_app_component("x.apps"));
    assert!(!is_app_component("app"));
}

#[test]
fn bundle_of_exe() {
    let exe = abs(&["Applications", "CodexPlusPlus.app", "Contents", "MacOS", "CodexPlusPlus"]);
    let (dir, name) = macos_applications_dir_and_app_name_from_exe(&exe).unwrap();
    assert_eq!(dir, abs(&["Applications"]));
    assert_eq!(name, "CodexPlusPlus.app");
    // the innermost bundle wins
    let nested = abs(&["x", "Outer.app", "Inner.app", "bin"]);
    let (dir, name) = macos_applications_dir_and_app_name_from_exe(&nested).unwrap();
    assert_eq!(dir, abs(&["x", "Outer.app"]));
    assert_eq!(name, "Inner.app");
    assert!(macos_applications_dir_and_app_name_from_exe(&abs(&["usr", "bin", "tool"])).is_none());
}

#[test]
fn sidecar_names() {
    assert!(sidecar_name_matches_exec("codex-plus-plus-aarch64-apple-darwin", "codex-plus-plus", ""));
    assert!(!sidecar_name_matches_exec("codex-plus-plus-aarch64-apple-darwin.sig", "codex-plus-plus", ""));
    assert!(!sidecar_name_matches_exec("codex-plus-plus-manager", "codex-plus-plus", ""));
    assert!(sidecar_name_matches_exec("codex-plus-plus-x86_64-pc-windows-msvc.exe", "codex-plus-plus", ".exe"));
    assert!(!sidecar_name_matches_exec("codex-plus-plus-x86_64.exe", "codex-plus-plus", ".exe"));
    assert!(!sidecar_name_matches_exec("codex-plus-plus", "codex-plus-plus", ""));
}

#[test]
fn sidecar_first_match_in_listing_order() {
    let dir = abs(&["opt", "tool"]);
    let fs = view(vec![listing(
            dir.clone(),
            &[("readme.txt", true), ("codex-plus-plus-x86_64-unknown-linux-gnu", true), ("codex-plus-plus-aarch64-apple-darwin", true)],
        )]);
    let found = find_sidecar_binary(&dir, "codex-plus-plus", "", &fs);
    assert_eq!(found, Some(dir.join("codex-plus-plus-x86_64-unknown-linux-gnu")));
    assert_eq!(find_sidecar_binary(&abs(&["elsewhere"]), "codex-plus-plus", "", &fs), None);
}

#[test]
fn companion_beside_plain_executable() {
    let dir = abs(&["opt", "tool"]);
    let exe = dir.join("codex-plus-plus-manager");
    let empty = view(vec![listing(dir.clone(), &[])]);
    assert_eq!(
        companion_binary_path_from_exe(&exe, SILENT_BINARY, TargetPlatform::Other, &empty),
        dir.join("codex-plus-plus")
    );
    assert_eq!(
        companion_binary_path_from_exe(&exe, SILENT_BINARY, TargetPlatform::Windows, &empty),
        dir.join("codex-plus-plus.exe")
    );
    let with_sidecar = view(vec![listing(dir.clone(), &[("codex-plus-plus-x86_64-pc-windows-msvc.exe", true)])]);
    assert_eq!(
        companion_binary_path_from_exe(&exe, SILENT_BINARY, TargetPlatform::Windows, &with_sidecar),
        dir.join("codex-plus-plus-x86_64-pc-windows-msvc.exe")
    );
    let with_plain = view(vec![listing(dir.clone(), &[("codex-plus-plus-x86_64-pc-windows-msvc.exe", true), ("codex-plus-plus", true)])]);
    assert_eq!(
        companion_binary_path_from_exe(&exe, SILENT_BINARY, TargetPlatform::Windows, &with_plain),
        dir.join("codex-plus-plus")
    );
}

#[test]
fn companion_of_bare_name_is_in_dot() {
    let exe = PathModel { root: String::new(), parts: vec![] };
    let fs = view(vec![]);
    let r = companion_binary_path_from_exe(&exe, "tool", TargetPlatform::Other, &fs);
    assert_eq!(r, PathModel { root: String::new(), parts: vec![".".to_string(), "tool".to_string()] });
}

#[test]
fn launcher_sidecar_inside_single_bundle() {
    let macos = abs(&["Applications", "CodexPlusPlus.app", "Contents", "MacOS"]);
    let exe = macos.join("CodexPlusPlus");
    let fs = view(vec![listing(macos.clone(), &[("CodexPlusPlus", true), ("codex-plus-plus-aarch64-apple-darwin", true)])]);
    assert_eq!(
        macos_companion_binary_from_exe(&exe, SILENT_BINARY, &fs),
        Some(macos.join("codex-plus-plus-aarch64-apple-darwin"))
    );
    // the manager is the bundle's own executable, named after the product
    assert_eq!(macos_companion_binary_from_exe(&exe, MANAGER_BINARY, &fs), Some(macos.join("CodexPlusPlus")));
    assert_eq!(macos_companion_binary_from_exe(&exe, "other", &fs), None);
}

#[test]
fn launcher_falls_back_to_legacy_bundle() {
    let macos = abs(&["Applications", "CodexPlusPlus.app", "Contents", "MacOS"]);
    let exe = macos.join("CodexPlusPlus");
    let fs = view(vec![]);
    let legacy = abs(&["Applications", "Codex++.app", "Contents", "MacOS"]);
    assert_eq!(macos_companion_binary_from_exe(&exe, SILENT_BINARY, &fs), Some(legacy.join("CodexPlusPlus")));
    let fs2 = view(vec![listing(legacy.clone(), &[("codex-plus-plus", true)])]);
    assert_eq!(macos_companion_binary_from_exe(&exe, SILENT_BINARY, &fs2), Some(legacy.join("codex-plus-plus")));
    let manager_legacy = abs(&["Applications", "Codex++ 管理工具.app", "Contents", "MacOS"]);
    assert_eq!(
        macos_companion_binary_from_exe(&exe, MANAGER_BINARY, &fs),
        Some(manager_legacy.join("CodexPlusPlusManager"))
    );
}

#[test]
fn legacy_silent_bundle_prefers_its_own_binaries() {
    let macos = abs(&["Applications", "Codex++.app", "Contents", "MacOS"]);
    let exe = macos.join("CodexPlusPlus");
    let none = view(vec![listing(macos.clone(), &[])]);
    assert_eq!(macos_companion_binary_from_exe(&exe, SILENT_BINARY, &none), Some(exe.clone()));
    let fs = view(vec![listing(macos.clone(), &[("codex-plus-plus", true)])]);
    assert_eq!(macos_companion_binary_from_exe(&exe, SILENT_BINARY, &fs), Some(macos.join("codex-plus-plus")));
}

#[test]
fn dangling_entry_does_not_exist() {
    let dir = abs(&["opt"]);
    let exe = dir.join("m");
    let fs = view(vec![listing(dir.clone(), &[("codex-plus-plus", false)])]);
    assert!(!fs.path_is_present(&dir.join("codex-plus-plus")));
    assert_eq!(
        companion_binary_path_from_exe(&exe, SILENT_BINARY, TargetPlatform::Other, &fs),
        dir.join("codex-plus-plus")
    );
}

#[test]
fn configured_path_wins() {
    let fs = view(vec![]);
    let exe = abs(&["opt", "m"]);
    let configured = abs(&["custom", "launcher"]);
    assert_eq!(option_or_current_exe(&Some(configured.clone()), &exe, SILENT_BINARY, TargetPlatform::Other, &fs), configured);
    assert_eq!(
        option_or_current_exe(&None, &exe, SILENT_BINARY, TargetPlatform::Other, &fs),
        abs(&["opt", "codex-plus-plus"])
    );
}

#[test]
fn probe_dirs() {
    let exe = abs(&["Applications", "X.app", "Contents", "MacOS", "X"]);
    let dirs = companion_probe_dirs_of(&exe);
    assert_eq!(dirs.len(), 4);
    assert_eq!(dirs[0], abs(&["Applications", "X.app", "Contents", "MacOS"]));
    assert_eq!(dirs[2], abs(&["Applications", "Codex++.app", "Contents", "MacOS"]));
    assert_eq!(companion_probe_dirs_of(&abs(&["bin", "x"])), vec![abs(&["bin"])]);
}

#[test]
fn strip_app() {
    assert_eq!(strip_app_suffix("CodexPlusPlus.app"), "CodexPlusPlus");
    assert_eq!(strip_app_suffix("管理工具.app"), "管理工具");
    assert_eq!(strip_app_suffix("plain"), "plain");
}

#[test]
fn unprobed_listings_do_not_matter() {
    let dir = abs(&["opt", "tool"]);
    let exe = dir.join("m");
    let base = view(vec![listing(dir.clone(), &[("codex-plus-plus-x86_64-unknown-linux-gnu", true)])]);
    let more = view(vec![
        listing(abs(&["elsewhere"]), &[("codex-plus-plus", true)]),
        listing(dir.clone(), &[("codex-plus-plus-x86_64-unknown-linux-gnu", true)]),
    ]);
    let a = companion_binary_path_from_exe(&exe, SILENT_BINARY, TargetPlatform::Other, &base);
    let b = companion_binary_path_from_exe(&exe, SILENT_BINARY, TargetPlatform::Other, &more);
    assert_eq!(a, b);
    assert_eq!(a, dir.join("codex-plus-plus-x86_64-unknown-linux-gnu"));
}

#[test]
fn existence_is_the_systems_answer() {
    // a name the listing spells otherwise (a case-insensitive volume) still
    // exists when the system says so
    let dir = abs(&["opt"]);
    let exe = dir.join("m");
    let fs = FsView {
        listings: vec![DirListing { dir: dir.clone(), entries: vec!["Codex-Plus-Plus".to_string()] }],
        probes: vec![ExistsProbe { path: dir.join("codex-plus-plus"), exists: true }],
    };
    assert!(fs.path_is_present(&dir.join("codex-plus-plus")));
    assert!(!fs.path_is_present(&dir.join("other")));
    assert_eq!(
        companion_binary_path_from_exe(&exe, SILENT_BINARY, TargetPlatform::Other, &fs),
        dir.join("codex-plus-plus")
    );
}

#[test]
fn probe_paths() {
    let exe = abs(&["Applications", "X.app", "Contents", "MacOS", "X"]);
    let paths = codex_plus_core::companion::companion_probe_paths_of(&exe, SILENT_BINARY);
    assert_eq!(paths.len(), 8);
    assert_eq!(paths[0], abs(&["Applications", "X.app", "Contents", "MacOS", "codex-plus-plus"]));
    assert_eq!(paths[3], abs(&["Applications", "X.app", "Contents", "MacOS", "X"]));
    assert_eq!(paths[7], abs(&["Applications", "Codex++ 管理工具.app", "Contents", "MacOS", "codex-plus-plus-manager"]));
    assert_eq!(codex_plus_core::companion::companion_probe_paths_of(&abs(&["bin", "x"]), "t"), vec![abs(&["bin", "t"])]);
}
