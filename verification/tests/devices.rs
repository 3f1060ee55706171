use sbsrf_update::config::Config;
use sbsrf_update::device::Device;
use sbsrf_update::fcitx5::Fcitx5;
use sbsrf_update::flow::cache_is_stale;
use sbsrf_update::hamster::Hamster;
use sbsrf_update::im::{
    install_advice, needs_host, variant_for_name, IMUpdateConfig, InputMethod, InstallAdvice,
    VariantKind,
};
use sbsrf_update::paths;
use sbsrf_update::release::{find_asset_with_prefix, matched_assets, Asset, Release};
use sbsrf_update::squirrel::Squirrel;
use sbsrf_update::weasel::Weasel;

#[test]
fn squirrel_default_config_layout() {
    let c = Squirrel::default_config("/Users/me");
    assert_eq!(c.name.as_str(), "Squirrel");
    assert_eq!(
        c.exe.as_deref(),
        Some("/Library/Input Methods/Squirrel.app/Contents/MacOS/Squirrel")
    );
    assert_eq!(c.user_dir.as_str(), "/Users/me/Library/Rime");
    assert_eq!(c.update_dir.as_str(), "/Users/me/.sbsrf-update/macos");
    assert_eq!(c.max_backups, 1);
    assert!(!c.sentence);
    assert_eq!(c.version.as_str(), "20051203");
}

#[test]
fn fcitx5_default_config_layout() {
    let c = Fcitx5::default_config("/Users/me");
    assert_eq!(c.name.as_str(), "Fcitx5");
    assert_eq!(c.user_dir.as_str(), "/Users/me/.local/share/fcitx5/rime");
    assert_eq!(c.update_dir.as_str(), "/Users/me/.sbsrf-update/Fcitx5");
}

#[test]
fn weasel_default_config_layout() {
    let c = Weasel::default_config("C:/Users/me", "C:/Users/me/AppData/Roaming");
    assert_eq!(c.name.as_str(), "Weasel");
    assert!(c.exe.is_none());
    assert_eq!(c.user_dir.as_str(), "C:/Users/me/AppData/Roaming/Rime");
    assert_eq!(c.update_dir.as_str(), "C:/Users/me/.sbsrf-update/windows");
}

#[test]
fn hamster_default_config_layout() {
    let c = Hamster::default_config("/Users/me", "phone");
    assert_eq!(c.name.as_str(), "Hamster");
    assert!(c.exe.is_none());
    assert_eq!(c.user_dir.as_str(), "");
    assert_eq!(c.update_dir.as_str(), "/Users/me/.sbsrf-update/phone");
}

#[test]
fn config_record_starts_with_defaults_and_updates_versions() {
    let mut c = Config::new("/work/macos", "/Users/me/Library/Rime");
    assert_eq!(c.get_max_backups(), 1);
    assert!(!c.is_include_octagram());
    assert_eq!(c.get_version_id().as_str(), "init-version");
    assert_eq!(c.get_version_name().as_str(), "20051203");
    assert_eq!(c.get_rime_config_path().as_str(), "/Users/me/Library/Rime");
    c.set_version("id-2".to_string(), "20240101".to_string());
    assert_eq!(c.get_version_id().as_str(), "id-2");
    assert_eq!(c.get_version_name().as_str(), "20240101");
}

#[test]
fn default_rime_config_paths_differ_per_host() {
    assert_eq!(
        Config::default_rime_config_path("/Users/me", false).as_str(),
        "/Users/me/Library/Rime"
    );
    assert_eq!(
        Config::default_rime_config_path("C:/Users/me/AppData/Roaming", true).as_str(),
        "C:/Users/me/AppData/Roaming/Rime"
    );
}

#[test]
fn device_record_defaults_for_the_local_name_only() {
    let d = Device::new("/work", "macos", "macos").unwrap();
    assert_eq!(d.base_dir.as_str(), "/work/macos");
    assert_eq!(d.max_backups, 1);
    assert_eq!(d.version.as_str(), "20051203");
    match Device::new("/work", "phone", "macos") {
        Ok(_) => panic!("expected a refusal"),
        Err(err) => assert_eq!(err.message().as_str(), "no configuration for device phone"),
    }
}

#[test]
fn device_save_records_the_version() {
    let mut d = Device::new("/work", "macos", "macos").unwrap();
    d.save("v9");
    assert_eq!(d.version.as_str(), "v9");
}

#[test]
fn im_config_save_records_the_version_only() {
    let mut c = Squirrel::default_config("/Users/me");
    c.save("20240202");
    assert_eq!(c.version.as_str(), "20240202");
    assert_eq!(c.name.as_str(), "Squirrel");
    assert_eq!(c.max_backups, 1);
}

#[test]
fn variant_facts_through_the_interface() {
    let s = Squirrel::new(Squirrel::default_config("/h"));
    let f = Fcitx5::new(Fcitx5::default_config("/h"));
    let w = Weasel::new(Weasel::default_config("/h", "/a"));
    let m = Hamster::new(Hamster::default_config("/h", "p"), "192.168.1.8".to_string());
    assert_eq!(s.tag().as_str(), "squirrel");
    assert_eq!(f.tag().as_str(), "fcitx5");
    assert_eq!(w.tag().as_str(), "weasel");
    assert_eq!(m.tag().as_str(), "hamster");
    assert!(!s.has_process_guard());
    assert!(w.has_process_guard());
    assert!(!s.is_remote());
    assert!(m.is_remote());
}

#[test]
fn squirrel_deploys_by_reload_signal() {
    let s = Squirrel::new(Squirrel::default_config("/h"));
    let cmd = s.deploy_command().unwrap();
    assert_eq!(
        cmd.program.as_str(),
        "/Library/Input Methods/Squirrel.app/Contents/MacOS/Squirrel"
    );
    assert_eq!(cmd.args, vec!["--reload".to_string()]);
}

#[test]
fn fcitx5_deploys_through_its_helper() {
    let f = Fcitx5::new(Fcitx5::default_config("/h"));
    let cmd = f.deploy_command().unwrap();
    assert_eq!(
        cmd.program.as_str(),
        "/Library/Input Methods/Fcitx5.app/Contents/bin/fcitx5-curl"
    );
    assert_eq!(cmd.args.len(), 5);
    assert_eq!(cmd.args[0].as_str(), "/config/addon/rime/deploy");
    assert_eq!(cmd.args[4].as_str(), "{}");
}

#[test]
fn weasel_deploys_through_the_deployer_next_to_the_server() {
    let mut config = Weasel::default_config("C:/u", "C:/a");
    config.exe = Some("C:/apps/weasel/WeaselServer.exe".to_string());
    let w = Weasel::new(config);
    let cmd = w.deploy_command().unwrap();
    assert_eq!(cmd.program.as_str(), "C:/apps/weasel/WeaselDeployer.exe");
    assert!(cmd.args.is_empty());
}

#[test]
fn variants_without_an_executable_do_not_deploy() {
    let mut config = Squirrel::default_config("/h");
    config.exe = None;
    assert!(Squirrel::new(config).deploy_command().is_none());
    let m = Hamster::new(Hamster::default_config("/h", "p"), "h".to_string());
    assert!(m.deploy_command().is_none());
}

#[test]
fn weasel_start_and_stop_commands() {
    let mut config = Weasel::default_config("C:/u", "C:/a");
    config.exe = Some("C:/apps/weasel/WeaselServer.exe".to_string());
    let w = Weasel::new(config);
    let start = w.start().unwrap();
    assert_eq!(start.program.as_str(), "C:/apps/weasel/WeaselServer.exe");
    assert!(start.args.is_empty());
    let stop = w.stop().unwrap();
    assert_eq!(stop.args, vec!["/q".to_string()]);
}

#[test]
fn weasel_running_reads_the_process_table() {
    let w = Weasel::new(Weasel::default_config("C:/u", "C:/a"));
    let listing = "\r\nh\r\n=\r\nWeaselServer.exe 42 Console 1 10 K\r\n";
    assert!(w.running(listing));
    assert!(!w.running("nothing here"));
}

#[test]
fn matched_assets_follow_the_matcher() {
    let assets = vec![
        Asset { name: "sbsrf-core.zip".to_string(), download_url: "u1".to_string() },
        Asset { name: "octagram-cn.zip".to_string(), download_url: "u2".to_string() },
        Asset { name: "weasel-setup.exe".to_string(), download_url: "u3".to_string() },
        Asset { name: "squirrel-0.15.pkg".to_string(), download_url: "u4".to_string() },
    ];
    let picked = matched_assets(&assets, "squirrel", false);
    let names: Vec<&str> = picked.iter().map(|a| a.name.as_str()).collect();
    assert_eq!(names, vec!["sbsrf-core.zip", "squirrel-0.15.pkg"]);
    let with_sentence = matched_assets(&assets, "squirrel", true);
    assert_eq!(with_sentence.len(), 3);
}

#[test]
fn release_holds_its_assets_in_order() {
    let release = Release {
        version: "v2".to_string(),
        intro: "changes".to_string(),
        assets: vec![Asset { name: "sbsrf.zip".to_string(), download_url: "u".to_string() }],
    };
    assert_eq!(release.version.as_str(), "v2");
    assert_eq!(release.assets[0].name.as_str(), "sbsrf.zip");
    assert_eq!(find_asset_with_prefix(&release.assets, "sbsrf"), Some(0));
    assert_eq!(find_asset_with_prefix(&release.assets, "weasel"), None);
}

#[test]
fn installer_entries_are_picked_by_name() {
    let names = vec![
        "readme.txt".to_string(),
        "Squirrel-0.15.zip".to_string(),
        "install.pkg".to_string(),
        "setup.exe".to_string(),
    ];
    assert_eq!(Squirrel::pick_installer_entry(&names), Some(1));
    assert_eq!(Squirrel::pick_pkg_entry(&names), Some(2));
    assert_eq!(Weasel::pick_exe_entry(&names), Some(3));
    assert_eq!(Squirrel::pick_installer_entry(&vec!["a".to_string()]), None);
}

#[test]
fn setup_advice_follows_what_was_found() {
    assert!(matches!(install_advice(false, false), InstallAdvice::AskToInstall));
    assert!(matches!(install_advice(true, false), InstallAdvice::DefaultToSquirrel));
    assert!(matches!(install_advice(false, true), InstallAdvice::DefaultToFcitx5));
    assert!(matches!(install_advice(true, true), InstallAdvice::AskWhichDefault));
}

#[test]
fn variants_are_dispatched_by_record_name() {
    assert!(matches!(variant_for_name("Squirrel"), Some(VariantKind::Squirrel)));
    assert!(matches!(variant_for_name("Fcitx5"), Some(VariantKind::Fcitx5)));
    assert!(matches!(variant_for_name("Weasel"), Some(VariantKind::Weasel)));
    assert!(matches!(variant_for_name("Hamster"), Some(VariantKind::Hamster)));
    assert!(variant_for_name("Other").is_none());
}

#[test]
fn only_the_remote_variant_needs_a_host() {
    assert!(needs_host("Hamster"));
    assert!(!needs_host("Squirrel"));
    assert!(!needs_host("Weasel"));
}

#[test]
fn cache_staleness_compares_versions() {
    assert!(cache_is_stale(&None, "v2"));
    assert!(cache_is_stale(&Some("v1".to_string()), "v2"));
    assert!(!cache_is_stale(&Some("v2".to_string()), "v2"));
    assert!(!cache_is_stale(&Some("0".to_string()), "0"));
}

#[test]
fn paths_are_built_exactly() {
    assert_eq!(paths::work_dir("/Users/me").as_str(), "/Users/me/.sbsrf-update");
    assert_eq!(paths::cache_dir("/w").as_str(), "/w/_cache");
    assert_eq!(paths::backups_dir("/w/macos").as_str(), "/w/macos/backups");
    assert_eq!(paths::backup_target("/w/macos", "v1").as_str(), "/w/macos/backups/v1");
    assert_eq!(paths::restore_source("/w/macos", "v1", false).as_str(), "/w/macos/backups/v1");
    assert_eq!(
        paths::restore_source("/w/phone", "v1", true).as_str(),
        "/w/phone/backups/v1/Rime.zip"
    );
    assert_eq!(
        paths::upload_url("192.168.1.8", "sbsrf/a.txt").as_str(),
        "http://192.168.1.8/api/tus/Rime/sbsrf/a.txt?override=true"
    );
    assert_eq!(
        paths::remote_backup_url("192.168.1.8").as_str(),
        "http://192.168.1.8/api/raw/Rime"
    );
    assert_eq!(paths::join("/a", "b").as_str(), "/a/b");
}

#[test]
fn parent_dir_strips_the_last_component() {
    assert_eq!(paths::parent_dir("/a/b/c").unwrap().as_str(), "/a/b");
    assert_eq!(paths::parent_dir("/a").unwrap().as_str(), "");
    assert!(paths::parent_dir("plain").is_none());
    assert!(paths::parent_dir("").is_none());
}
