use proxy_updater::manager::Proxy;
use proxy_updater::proxy::{new, CommandSpec, Platform, ProxyType, UnsupportedProxy, Xray};
use proxy_updater::restart::{CommandResult, RestartAction, RestartError, RestartState};
use proxy_updater::rules::{download_rules, rule_url, RuleFile, RulesState};

#[test]
fn the_identity_on_unix() {
    let x = Xray::new(Platform::Unix, "/opt/xray", "https://api.example/latest", "Xray-linux-64.zip");
    assert_eq!(x.platform(), Platform::Unix);
    assert_eq!(x.name(), "xray");
    assert_eq!(x.daemon_name(), "wxray");
    assert_eq!(x.dir(), "/opt/xray");
    assert_eq!(x.latest_url(), "https://api.example/latest");
    assert_eq!(x.asset_name(), "Xray-linux-64.zip");
}

#[test]
fn the_identity_on_windows() {
    let x = Xray::new(Platform::Windows, "./", "https://api.example/latest", "Xray-windows-64.zip");
    assert_eq!(x.platform(), Platform::Windows);
    assert_eq!(x.name(), "xray.exe");
    assert_eq!(x.daemon_name(), "wxray.exe");
    assert_eq!(x.dir(), "./");
}

#[test]
fn only_xray_can_be_selected() {
    let x = new(&ProxyType::Xray, Platform::Unix, "d", "u", "a");
    assert_eq!(x, Ok(Xray::new(Platform::Unix, "d", "u", "a")));
    let v = new(&ProxyType::V2ray, Platform::Unix, "d", "u", "a");
    assert_eq!(v, Err(UnsupportedProxy { requested: ProxyType::V2ray }));
}

#[test]
fn the_version_command_runs_in_the_install_directory() {
    let x = Xray::new(Platform::Windows, "C:/proxy", "u", "a");
    assert_eq!(
        x.version_command(),
        CommandSpec {
            program: "xray.exe".to_string(),
            args: vec!["version".to_string()],
            dir: Some("C:/proxy".to_string()),
        }
    );
}

#[test]
fn the_kill_command_depends_on_the_platform() {
    let w = Xray::new(Platform::Windows, "C:/proxy", "u", "a");
    assert_eq!(
        w.kill_command(),
        CommandSpec {
            program: "taskkill".to_string(),
            args: vec!["/F".to_string(), "/IM".to_string(), "wxray.exe".to_string()],
            dir: Some("C:/proxy".to_string()),
        }
    );
    let u = Xray::new(Platform::Unix, "/opt/proxy", "u", "a");
    assert_eq!(
        u.kill_command(),
        CommandSpec {
            program: "pkill".to_string(),
            args: vec!["wxray".to_string()],
            dir: Some("/opt/proxy".to_string()),
        }
    );
}

#[test]
fn the_start_command_is_the_daemon_alone() {
    let u = Xray::new(Platform::Unix, "/opt/proxy", "u", "a");
    assert_eq!(
        u.start_command(),
        CommandSpec { program: "wxray".to_string(), args: vec![], dir: None }
    );
}

#[test]
fn a_restart_kills_and_then_starts() {
    let s = RestartState::start();
    assert_eq!(s, RestartState::Killing);
    assert_eq!(s.action(), RestartAction::Kill);
    let s = s.step(CommandResult::Completed);
    assert_eq!(s, RestartState::Starting);
    assert_eq!(s.action(), RestartAction::Spawn);
    let s = s.step(CommandResult::Completed);
    assert_eq!(s, RestartState::Restarted);
    assert_eq!(s.action(), RestartAction::Finish);
    assert_eq!(s.step(CommandResult::Failed), RestartState::Restarted);
}

#[test]
fn a_failed_kill_does_not_stop_the_restart() {
    let s = RestartState::start().step(CommandResult::Failed);
    assert_eq!(s, RestartState::Starting);
    assert_eq!(s.step(CommandResult::Completed), RestartState::Restarted);
}

#[test]
fn a_failed_start_is_fatal() {
    let s = RestartState::start().step(CommandResult::Completed).step(CommandResult::Failed);
    assert_eq!(s, RestartState::SpawnFailed);
    assert_eq!(s.action(), RestartAction::Abort);
    assert_eq!(s.step(CommandResult::Completed), RestartState::SpawnFailed);
}

#[test]
fn the_restart_commands_and_outcome() {
    let x = Xray::new(Platform::Unix, "/opt/proxy", "u", "a");
    assert_eq!(x.restart_command(RestartAction::Kill), Some(x.kill_command()));
    assert_eq!(x.restart_command(RestartAction::Spawn), Some(x.start_command()));
    assert_eq!(x.restart_command(RestartAction::Finish), None);
    assert_eq!(x.restart_command(RestartAction::Abort), None);
    assert_eq!(x.restart_outcome(RestartState::Killing), None);
    assert_eq!(x.restart_outcome(RestartState::Starting), None);
    assert_eq!(x.restart_outcome(RestartState::Restarted), Some(Ok(())));
    assert_eq!(
        x.restart_outcome(RestartState::SpawnFailed),
        Some(Err(RestartError { daemon_name: "wxray".to_string() }))
    );
}

#[test]
fn the_proxy_restarts_as_the_course_says() {
    let x = Xray::new(Platform::Unix, "/opt/proxy", "u", "a");
    assert_eq!(x.restart(RestartState::Killing, CommandResult::Failed), RestartState::Starting);
    assert_eq!(x.restart(RestartState::Starting, CommandResult::Failed), RestartState::SpawnFailed);
    assert_eq!(x.restart(RestartState::Starting, CommandResult::Completed), RestartState::Restarted);
}

#[test]
fn the_rule_files_are_downloaded_in_order() {
    let s = RulesState::start();
    assert_eq!(s, RulesState::Downloading(RuleFile::GeoIp));
    let s = download_rules(s, true);
    assert_eq!(s, RulesState::Downloading(RuleFile::GeoSite));
    let s = download_rules(s, true);
    assert_eq!(s, RulesState::Finished);
    assert_eq!(download_rules(s, false), RulesState::Finished);
}

#[test]
fn the_first_failed_rule_file_ends_the_course() {
    assert_eq!(download_rules(RulesState::start(), false), RulesState::Failed(RuleFile::GeoIp));
    assert_eq!(
        download_rules(download_rules(RulesState::start(), true), false),
        RulesState::Failed(RuleFile::GeoSite)
    );
    assert_eq!(
        download_rules(RulesState::Failed(RuleFile::GeoIp), true),
        RulesState::Failed(RuleFile::GeoIp)
    );
}

#[test]
fn each_rule_file_has_its_address() {
    assert_eq!(rule_url(RuleFile::GeoIp, "https://x/geoip.dat", "https://x/geosite.dat"), "https://x/geoip.dat");
    assert_eq!(rule_url(RuleFile::GeoSite, "https://x/geoip.dat", "https://x/geosite.dat"), "https://x/geosite.dat");
}
