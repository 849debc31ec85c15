//! Tests for which programs run, where the configuration is searched for,
//! and the daemon mode decisions.

use bpfagent::cli::{default_metrics_ip, metrics_addr, BpfAgentArgs, DEFAULT_METRICS_PORT};
use bpfagent::config::{
    choose_config, config_candidates, default_true, join_path, select_programs, ConfigChoice,
    DaemonConfig, EbpfProgramConfig,
};
use bpfagent::daemon::{logger_mode_after_daemonize, logs_before_daemonize, should_daemonize, LoggerMode};

fn program(name: &str, enabled: bool) -> EbpfProgramConfig {
    EbpfProgramConfig { name: name.to_string(), enabled, settings: None }
}

fn config(programs: Vec<EbpfProgramConfig>) -> DaemonConfig {
    DaemonConfig { ebpf_programs: programs, ..DaemonConfig::default() }
}

#[test]
fn defaults_match_the_documented_settings() {
    let cfg = DaemonConfig::default();
    assert_eq!(cfg.pid_file, "/tmp/bpfagent.pid");
    assert_eq!(cfg.working_directory, "/");
    assert_eq!(cfg.log_file, "/tmp/bpfagent.log");
    assert!(cfg.ebpf_programs.is_empty());
    assert!(default_true());
}

#[test]
fn all_programs_run_when_none_is_listed() {
    let cfg = config(vec![]);
    assert!(cfg.is_program_enabled("sca"));
    assert!(!cfg.has_explicit_programs());
    assert!(cfg.enabled_program_names().is_empty());
}

#[test]
fn listed_programs_decide() {
    let cfg = config(vec![program("kfree_skb", true), program("sca", false), program("sca", true)]);
    assert!(cfg.is_program_enabled("kfree_skb"));
    assert!(!cfg.is_program_enabled("sca"));
    assert!(!cfg.is_program_enabled("irss"));
    assert!(cfg.has_explicit_programs());
    assert_eq!(cfg.enabled_program_names(), vec!["kfree_skb".to_string(), "sca".to_string()]);
}

#[test]
fn selection_uses_listed_enabled_programs_or_all_available() {
    let available = vec!["kfree_skb".to_string(), "sca".to_string(), "irss".to_string()];
    assert_eq!(select_programs(&config(vec![]), &available), Ok(available.clone()));
    let only_sca = config(vec![program("sca", true), program("irss", false)]);
    assert_eq!(select_programs(&only_sca, &available), Ok(vec!["sca".to_string()]));
    let none_enabled = config(vec![program("sca", false)]);
    assert_eq!(select_programs(&none_enabled, &available), Ok(vec![]));
    let unknown = config(vec![program("sca", true), program("bogus", true), program("nope", true)]);
    assert_eq!(select_programs(&unknown, &available), Err("bogus".to_string()));
}

#[test]
fn search_paths_follow_home_and_current_directory() {
    let paths = config_candidates(Some("/home/u".to_string()), Some("/work/".to_string()));
    assert_eq!(
        paths,
        vec![
            "/etc/bpfagent.conf",
            "/etc/bpfagent/bpfagent.conf",
            "/usr/local/etc/bpfagent.conf",
            "/usr/local/etc/bpfagent/bpfagent.conf",
            "/home/u/.bpfagent.conf",
            "/home/u/.config/bpfagent/config.toml",
            "/work/bpfagent.conf",
        ]
    );
    assert_eq!(config_candidates(None, None).len(), 4);
    assert_eq!(join_path("", "a"), "a");
    assert_eq!(join_path("/x/", "a"), "/x/a");
    assert_eq!(join_path("/x", "a"), "/x/a");
}

#[test]
fn config_choice() {
    let cands = vec!["a".to_string(), "b".to_string(), "c".to_string()];
    match choose_config(Some("/my.conf".to_string()), true, cands.clone(), &vec![true, true, true]) {
        ConfigChoice::LoadFile(p) => assert_eq!(p, "/my.conf"),
        _ => panic!("custom file should load"),
    }
    match choose_config(Some("/my.conf".to_string()), false, cands.clone(), &vec![true, true, true]) {
        ConfigChoice::MissingCustom(p) => assert_eq!(p, "/my.conf"),
        _ => panic!("missing custom file is an error"),
    }
    match choose_config(None, false, cands.clone(), &vec![false, true, true]) {
        ConfigChoice::LoadFile(p) => assert_eq!(p, "b"),
        _ => panic!("first existing candidate should load"),
    }
    assert!(matches!(
        choose_config(None, false, cands, &vec![false, false, false]),
        ConfigChoice::Defaults
    ));
}

fn args(daemon: bool, verbose: bool) -> BpfAgentArgs {
    BpfAgentArgs {
        daemon,
        metrics_ip: default_metrics_ip(),
        metrics_port: DEFAULT_METRICS_PORT,
        verbose,
        config_file: None,
    }
}

#[test]
fn verbose_overrides_daemon_mode() {
    assert!(should_daemonize(&args(true, false)));
    assert!(!should_daemonize(&args(true, true)));
    assert!(!should_daemonize(&args(false, false)));
    assert!(!logs_before_daemonize(&args(true, false)));
    assert!(logs_before_daemonize(&args(true, true)));
    assert_eq!(logger_mode_after_daemonize(&args(true, false)), LoggerMode::Daemon);
    assert_eq!(logger_mode_after_daemonize(&args(true, true)), LoggerMode::VerboseForeground);
    assert_eq!(logger_mode_after_daemonize(&args(false, true)), LoggerMode::Foreground);
}

#[test]
fn metrics_address_joins_ip_and_port() {
    assert_eq!(metrics_addr(&args(false, false)), "0.0.0.0:9101");
    let mut a = args(false, false);
    a.metrics_ip = "127.0.0.1".to_string();
    a.metrics_port = 0;
    assert_eq!(metrics_addr(&a), "127.0.0.1:0");
}
