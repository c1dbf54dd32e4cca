use codex_plus_core::companion::TargetPlatform;
use codex_plus_core::install::{
    action_result, app_bundle_names, default_install_root, default_install_root_strategy,
    entrypoint_candidates, inspect_entrypoints, install_entrypoints, install_root_or_default,
    platform_install, platform_uninstall, removes_owned_data, repair_entrypoints, shortcut_names,
    uninstall_entrypoints, EntryPointState, InstallOptions, ShortcutState, INSTALL_UNSUPPORTED,
    UNINSTALL_UNSUPPORTED,
};
use codex_plus_core::path::{DirListing, ExistsProbe, FsView, PathModel};

fn abs(parts: &[&str]) -> PathModel {
    PathModel { root: "/".to_string(), parts: parts.iter().map(|s| s.to_string()).collect() }
}

/// A view in which the entries `names` of `dir` exist.
fn present(dir: PathModel, names: &[&str]) -> FsView {
    FsView {
        listings: vec![DirListing { dir: dir.clone(), entries: names.iter().map(|n| n.to_string()).collect() }],
        probes: names.iter().map(|n| ExistsProbe { path: dir.join(n), exists: true }).collect(),
    }
}

fn state() -> EntryPointState {
    EntryPointState {
        silent_shortcut: ShortcutState::missing(None),
        management_shortcut: ShortcutState::missing(Some(abs(&["d", "m.lnk"]))),
    }
}

#[test]
fn names() {
    assert_eq!(shortcut_names(), ("Codex++.lnk", "Codex++ 管理工具.lnk"));
    assert_eq!(app_bundle_names(), ("Codex++.app", "Codex++ 管理工具.app"));
    assert_eq!(default_install_root_strategy(TargetPlatform::Windows), "windows-known-folder");
    assert_eq!(default_install_root_strategy(TargetPlatform::Macos), "macos-applications");
    assert_eq!(default_install_root_strategy(TargetPlatform::Other), "user-dirs-desktop");
}

#[test]
fn shortcut_state_from_candidates() {
    let desk = abs(&["home", "u", "Desktop"]);
    let fs = present(desk.clone(), &["b.desktop"]);
    let a = desk.join("a.desktop");
    let b = desk.join("b.desktop");
    let s = ShortcutState::from_candidates(vec![a.clone(), b.clone()], &fs);
    assert!(s.installed);
    assert_eq!(s.path, Some(b));
    let t = ShortcutState::from_candidates(vec![a.clone()], &fs);
    assert!(!t.installed);
    assert_eq!(t.path, Some(a));
    let e = ShortcutState::from_candidates(vec![], &fs);
    assert_eq!(e, ShortcutState { installed: false, path: None });
}

#[test]
fn candidates_per_platform() {
    let root = Some(abs(&["Desk"]));
    assert_eq!(entrypoint_candidates(&root, false, TargetPlatform::Windows, &None), vec![abs(&["Desk", "Codex++.lnk"])]);
    assert_eq!(
        entrypoint_candidates(&root, true, TargetPlatform::Other, &None),
        vec![abs(&["Desk", "Codex++ 管理工具.desktop"])]
    );
    assert!(entrypoint_candidates(&None, true, TargetPlatform::Windows, &None).is_empty());
    let exe = Some(abs(&["Applications", "CodexPlusPlus.app", "Contents", "MacOS", "CodexPlusPlus"]));
    let apps = Some(abs(&["Applications"]));
    assert_eq!(
        entrypoint_candidates(&apps, false, TargetPlatform::Macos, &exe),
        vec![abs(&["Applications", "CodexPlusPlus.app"]), abs(&["Applications", "Codex++.app"])]
    );
    let own = Some(abs(&["Applications", "Codex++.app", "Contents", "MacOS", "x"]));
    assert_eq!(
        entrypoint_candidates(&apps, false, TargetPlatform::Macos, &own),
        vec![abs(&["Applications", "Codex++.app"])]
    );
}

#[test]
fn inspect_single_bundle() {
    let apps = abs(&["Applications"]);
    let exe = Some(abs(&["Applications", "CodexPlusPlus.app", "Contents", "MacOS", "CodexPlusPlus"]));
    let fs = present(apps.clone(), &["CodexPlusPlus.app"]);
    let st = inspect_entrypoints(&Some(apps.clone()), TargetPlatform::Macos, &exe, &fs);
    assert!(st.silent_shortcut.installed);
    assert!(st.management_shortcut.installed);
    assert_eq!(st.management_shortcut.path, Some(abs(&["Applications", "CodexPlusPlus.app"])));
}

#[test]
fn reports() {
    let ok: Result<(), String> = Ok(());
    let err: Result<(), String> = Err("boom".to_string());
    let r = install_entrypoints(&ok, state());
    assert_eq!((r.status.as_str(), r.message.as_str()), ("ok", "入口已安装。"));
    assert_eq!(r.management_shortcut, state().management_shortcut);
    let r = uninstall_entrypoints(&ok, state());
    assert_eq!(r.message, "入口已卸载。");
    let r = repair_entrypoints(&err, state());
    assert_eq!((r.status.as_str(), r.message.as_str()), ("failed", "boom"));
    let r = action_result(&ok, "done", state());
    assert_eq!(r.message, "done");
}

#[test]
fn unsupported_platform() {
    let r = platform_install(TargetPlatform::Other, Ok(()));
    assert_eq!(r, Err(INSTALL_UNSUPPORTED.to_string()));
    assert_eq!(r, Err("当前平台暂不支持安装 Codex++ 入口".to_string()));
    assert_eq!(platform_uninstall(TargetPlatform::Other, Ok(())), Err(UNINSTALL_UNSUPPORTED.to_string()));
    assert_eq!(platform_install(TargetPlatform::Windows, Ok(())), Ok(()));
    assert_eq!(platform_uninstall(TargetPlatform::Macos, Err("e".to_string())), Err("e".to_string()));
    let r = install_entrypoints(&platform_install(TargetPlatform::Other, Ok(())), state());
    assert_eq!(r.status, "failed");
    assert_eq!(r.message, "当前平台暂不支持安装 Codex++ 入口");
}

#[test]
fn owned_data_removal_only_after_success() {
    let mut options = InstallOptions::default();
    assert!(!removes_owned_data(&Ok(()), &options));
    options.remove_owned_data = true;
    assert!(removes_owned_data(&Ok(()), &options));
    assert!(!removes_owned_data(&Err("x".to_string()), &options));
}

#[test]
fn install_roots() {
    let desk = Some(abs(&["home", "u", "Desktop"]));
    let fs = FsView { listings: vec![], probes: vec![] };
    assert_eq!(default_install_root(TargetPlatform::Other, &desk, &None, &None, &fs), desk);
    assert_eq!(default_install_root(TargetPlatform::Windows, &None, &None, &None, &fs), None);
    let apps = abs(&["Applications"]);
    assert_eq!(default_install_root(TargetPlatform::Macos, &None, &None, &None, &fs), Some(apps.clone()));
    let home = Some(abs(&["Users", "u"]));
    let exe = Some(abs(&["Users", "u", "Applications", "CodexPlusPlus.app", "Contents", "MacOS", "c"]));
    assert_eq!(
        default_install_root(TargetPlatform::Macos, &None, &exe, &home, &fs),
        Some(abs(&["Users", "u", "Applications"]))
    );
    let installed = present(apps.clone(), &["Codex++ 管理工具.app"]);
    assert_eq!(default_install_root(TargetPlatform::Macos, &None, &exe, &home, &installed), Some(apps.clone()));
    let options = InstallOptions { install_root: Some(abs(&["x"])), ..InstallOptions::default() };
    assert_eq!(install_root_or_default(&options, &desk), abs(&["x"]));
    assert_eq!(install_root_or_default(&InstallOptions::default(), &desk), desk.clone().unwrap());
    assert_eq!(
        install_root_or_default(&InstallOptions::default(), &None),
        PathModel { root: String::new(), parts: vec![".".to_string()] }
    );
}

#[test]
fn install_root_probes() {
    let exe = Some(abs(&["Users", "u", "Applications", "CodexPlusPlus.app", "Contents", "MacOS", "c"]));
    let paths = codex_plus_core::install::install_root_probe_paths_of(&exe);
    assert_eq!(
        paths,
        vec![
            abs(&["Applications", "Codex++.app"]),
            abs(&["Applications", "Codex++ 管理工具.app"]),
            abs(&["Applications", "CodexPlusPlus.app"]),
        ]
    );
    assert_eq!(codex_plus_core::install::install_root_probe_paths_of(&None).len(), 2);
}
