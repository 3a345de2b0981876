use clashrpc::update::{
    asset_extension, is_update_file_removable, newest_update_version, normalize_version_tag,
    pick_asset_for_windows, pick_zip_exe, plan_pending_update, plan_release, plan_update_check,
    strip_windows_verbatim_prefix, updates_disabled, version_from_filename, GithubAsset,
    GithubRelease, PendingPlan, ReleasePlan,
};

fn asset(name: &str) -> GithubAsset {
    GithubAsset { name: name.to_string(), browser_download_url: format!("https://dl/{name}") }
}

#[test]
fn version_tags() {
    assert_eq!(normalize_version_tag(" v1.2.3 ").unwrap().to_text(), "1.2.3");
    assert_eq!(normalize_version_tag("vV2.0.0-rc.1").unwrap().to_text(), "2.0.0-rc.1");
    assert!(normalize_version_tag("Vv1.0.0").is_none());
    assert!(normalize_version_tag("1.2").is_none());
    assert!(normalize_version_tag("banana").is_none());
}

#[test]
fn version_order() {
    let a = normalize_version_tag("1.10.0").unwrap();
    let b = normalize_version_tag("v1.9.9").unwrap();
    assert!(a.is_after(&b));
    assert!(!b.is_after(&a));
    assert!(!a.is_after(&a));
    let rc = normalize_version_tag("1.10.0-rc.1").unwrap();
    assert!(a.is_after(&rc));
}

#[test]
fn disabled_updates() {
    assert!(updates_disabled(Some("true"), None));
    assert!(updates_disabled(None, Some(" 1 ")));
    assert!(!updates_disabled(Some("no"), None));
    assert!(!updates_disabled(None, None));
}

#[test]
fn windows_asset_choice() {
    let assets = vec![asset("src.zip"), asset("ClashRPC-win.zip"), asset("x.exe"), asset("ClashRPC-Windows.ZIP")];
    assert_eq!(pick_asset_for_windows(&assets), Some(3));
    let assets = vec![asset("a.tar"), asset("b.zip"), asset("c.zip")];
    assert_eq!(pick_asset_for_windows(&assets), Some(1));
    let assets = vec![asset("a.tar"), asset("b.EXE"), asset("c.exe")];
    assert_eq!(pick_asset_for_windows(&assets), Some(1));
    assert_eq!(pick_asset_for_windows(&[asset("readme.md")]), None);
    assert_eq!(pick_asset_for_windows(&[]), None);
}

#[test]
fn extensions() {
    assert_eq!(asset_extension("A.ZIP"), "zip");
    assert_eq!(asset_extension("a.exe"), "exe");
    assert_eq!(asset_extension("a.msi"), "bin");
}

#[test]
fn zip_entries() {
    let names: Vec<String> = vec!["readme.txt".into(), "tool.exe".into(), "bin/ClashRPC.EXE".into()];
    assert_eq!(pick_zip_exe(&names), Some(2));
    let names: Vec<String> = vec!["readme.txt".into(), "tool.exe".into()];
    assert_eq!(pick_zip_exe(&names), Some(1));
    let names: Vec<String> = vec!["readme.txt".into()];
    assert_eq!(pick_zip_exe(&names), None);
}

#[test]
fn file_versions() {
    assert_eq!(version_from_filename("ClashRPC-1.2.3.exe").unwrap().to_text(), "1.2.3");
    assert_eq!(version_from_filename("download-v2.0.0.zip").unwrap().to_text(), "2.0.0");
    assert_eq!(version_from_filename("DOWNLOAD-2.0.1.BIN").unwrap().to_text(), "2.0.1");
    assert!(version_from_filename("download-2.0.0.tar").is_none());
    assert!(version_from_filename("pending.json").is_none());
    assert!(version_from_filename("ClashRPC-.exe").is_none());
}

#[test]
fn newest_kept() {
    let names: Vec<String> = vec!["ClashRPC-1.2.0.exe".into(), "download-1.3.0.zip".into(), "apply_update.bat".into(), "ClashRPC-1.1.0.exe".into()];
    assert_eq!(newest_update_version(Some("1.0.0"), &names).unwrap().to_text(), "1.3.0");
    assert_eq!(newest_update_version(Some("9.0.0"), &names).unwrap().to_text(), "9.0.0");
    assert!(newest_update_version(None, &[]).is_none());
}

#[test]
fn removable_files() {
    assert!(!is_update_file_removable("pending.json", false, "1.3.0"));
    assert!(!is_update_file_removable("apply_update.bat", false, "1.3.0"));
    assert!(!is_update_file_removable("download-1.3.0.zip", false, "1.3.0"));
    assert!(!is_update_file_removable("old.exe", true, "1.3.0"));
    assert!(is_update_file_removable("ClashRPC-1.2.0.exe", false, "1.3.0"));
}

#[test]
fn verbatim_prefix() {
    assert_eq!(strip_windows_verbatim_prefix(r"\\?\UNC\server\share\a"), r"\\server\share\a");
    assert_eq!(strip_windows_verbatim_prefix(r"\\?\C:\Users\x"), r"C:\Users\x");
    assert_eq!(strip_windows_verbatim_prefix(r"C:\plain"), r"C:\plain");
}

#[test]
fn pending_plans() {
    assert!(matches!(plan_pending_update(true, "1.0.0", Some("2.0.0"), true), PendingPlan::Nothing));
    assert!(matches!(plan_pending_update(false, "1.0.0", None, true), PendingPlan::Nothing));
    assert!(matches!(plan_pending_update(false, "x", Some("2.0.0"), true), PendingPlan::Nothing));
    assert!(matches!(plan_pending_update(false, "2.0.0", Some("2.0.0"), true), PendingPlan::Discard));
    match plan_pending_update(false, "1.0.0", Some("v2.0.0"), true) {
        PendingPlan::Apply(v) => assert_eq!(v.to_text(), "2.0.0"),
        _ => panic!("expected apply"),
    }
    assert!(matches!(plan_pending_update(false, "1.0.0", Some("2.0.0"), false), PendingPlan::Missing));
    assert!(matches!(plan_pending_update(false, "2.0.0", Some("1.0.0"), false), PendingPlan::Discard));
}

#[test]
fn check_plans() {
    assert!(plan_update_check(true, "1.0.0", None).is_none());
    assert!(plan_update_check(false, "bad", None).is_none());
    assert!(plan_update_check(false, "1.0.0", Some("1.5.0")).is_none());
    assert_eq!(plan_update_check(false, "1.0.0", Some("0.5.0")).unwrap().to_text(), "1.0.0");
}

#[test]
fn release_plans() {
    let cur = normalize_version_tag("1.1.1").unwrap();
    let rel = GithubRelease { tag_name: "v1.2.0".into(), prerelease: false, assets: vec![asset("ClashRPC-windows.zip")] };
    match plan_release(&cur, &rel) {
        ReleasePlan::Download { asset, version, download_name, exe_name, unzip } => {
            assert_eq!(asset, 0);
            assert_eq!(version.to_text(), "1.2.0");
            assert_eq!(download_name, "download-1.2.0.zip");
            assert_eq!(exe_name, "ClashRPC-1.2.0.exe");
            assert!(unzip);
        }
        _ => panic!("expected download"),
    }
    let exe = GithubRelease { tag_name: "v1.3.0".into(), prerelease: false, assets: vec![asset("ClashRPC.EXE")] };
    match plan_release(&cur, &exe) {
        ReleasePlan::Download { download_name, unzip, .. } => {
            assert_eq!(download_name, "download-1.3.0.exe");
            assert!(!unzip);
        }
        _ => panic!("expected download"),
    }
    let pre = GithubRelease { tag_name: "v9.0.0".into(), prerelease: true, assets: vec![asset("a.zip")] };
    assert!(matches!(plan_release(&cur, &pre), ReleasePlan::UpToDate));
    let old = GithubRelease { tag_name: "v1.1.1".into(), prerelease: false, assets: vec![asset("a.zip")] };
    assert!(matches!(plan_release(&cur, &old), ReleasePlan::UpToDate));
    let none = GithubRelease { tag_name: "v2.0.0".into(), prerelease: false, assets: vec![asset("notes.md")] };
    assert!(matches!(plan_release(&cur, &none), ReleasePlan::NoAsset));
}
