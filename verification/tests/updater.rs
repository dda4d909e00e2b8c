use tella::updater::{
    install_command, install_shell, latest_version, package_managers, registry_url, should_update,
    update_notice, upgrade_banner, version_newer, version_numbers, CURRENT_VERSION,
};

#[test]
fn newer_version_is_an_update() {
    assert!(version_newer("1.2.0", "1.1.9"));
}

#[test]
fn same_version_is_no_update() {
    assert!(!version_newer("1.2.0", "1.2.0"));
}

#[test]
fn older_version_is_no_update() {
    assert!(!version_newer("1.2.0", "1.3.0"));
}

#[test]
fn missing_components_count_as_zero() {
    assert!(!version_newer("1.2", "1.2.0"));
    assert!(!version_newer("1.2.0", "1.2"));
    assert!(version_newer("1.2.1", "1.2"));
    assert!(!version_newer("1.2", "1.2.1"));
    assert!(version_newer("2", "1.9.9"));
    assert!(!version_newer("1.2.0.0.0", "1.2"));
}

#[test]
fn components_compare_as_numbers() {
    assert!(version_newer("1.10.0", "1.9.0"));
    assert!(!version_newer("1.9.0", "1.10.0"));
    assert!(version_newer("0.1.20", "0.1.19"));
    assert!(!version_newer("01.02", "1.2"));
}

#[test]
fn components_that_are_no_numbers_count_as_zero() {
    assert_eq!(version_numbers("1.2.3"), vec![1, 2, 3]);
    assert_eq!(version_numbers("1.x.3"), vec![1, 0, 3]);
    assert_eq!(version_numbers("1.2.3-beta"), vec![1, 2, 0]);
    assert_eq!(version_numbers(""), vec![0]);
    assert_eq!(version_numbers("1."), vec![1, 0]);
    assert_eq!(version_numbers(".."), vec![0, 0, 0]);
    assert_eq!(version_numbers("+4.4294967295.4294967296"), vec![4, 4294967295, 0]);
    assert!(!version_newer("v2.0.0", "1.0.0"));
}

#[test]
fn should_update_compares_with_this_release() {
    assert_eq!(CURRENT_VERSION, "0.1.19");
    assert!(should_update("0.1.20"));
    assert!(should_update("1.0.0"));
    assert!(!should_update("0.1.19"));
    assert!(!should_update("0.1.18"));
    assert!(!should_update("0.1.19.0"));
}

#[test]
fn latest_version_is_read_from_the_dist_tags() {
    assert_eq!(registry_url(), "https://registry.npmjs.org/tella");
    assert_eq!(
        latest_version("{\"name\":\"tella\",\"dist-tags\":{\"latest\":\"0.2.0\",\"next\":\"0.3.0\"}}"),
        Ok("0.2.0".to_string())
    );
    assert_eq!(
        latest_version("{\"dist-tags\":{}}"),
        Err("Failed to parse npm response: missing field `latest`".to_string())
    );
    assert_eq!(
        latest_version("{}"),
        Err("Failed to parse npm response: missing field `dist-tags`".to_string())
    );
    assert_eq!(
        latest_version("Not Found"),
        Err("Failed to parse npm response: expected value at line 1 column 1".to_string())
    );
}

#[test]
fn install_command_follows_the_package_manager() {
    let menu = package_managers();
    assert_eq!(menu.option_count(), 4);
    assert_eq!(menu.title(0), "npm");
    assert_eq!(menu.title(1), "bun");
    assert_eq!(menu.title(2), "yarn");
    assert_eq!(menu.title(3), "pnpm");
    assert_eq!(install_command(0), "npm install -g tella");
    assert_eq!(install_command(1), "bun install -g tella");
    assert_eq!(install_command(2), "yarn global add tella");
    assert_eq!(install_command(3), "pnpm add -g tella");
    assert_eq!(install_command(4), "npm install -g tella");
}

#[test]
fn notices_name_both_versions() {
    let lines = update_notice("0.2.0");
    assert_eq!(lines.len(), 6);
    assert_eq!(lines[0], "");
    assert_eq!(lines[2], "│ 📦 Update available: 0.1.19 → 0.2.0 │");
    assert_eq!(lines[3], "│ Run: tella --upgrade                    │");
    assert_eq!(lines[5], "");
    assert_eq!(upgrade_banner("0.2.0"), "⬆️  Upgrading from 0.1.19 to 0.2.0...");
}

#[test]
fn the_install_command_runs_in_bash_but_on_windows() {
    for os in ["linux", "macos", "freebsd"] {
        let shell = install_shell(os);
        assert_eq!((shell.program, shell.flag), ("bash", "-c"));
    }
    let w = install_shell("windows");
    assert_eq!((w.program, w.flag), ("powershell", "-Command"));
}
