use configtool::config::Config;
use configtool::errors::ToolError;
use configtool::flow::{Action, ConfigOutcome, Flow, Phase, ReadOutcome};

fn started(xdg: &str) -> (Flow, Action) {
    Flow::start(None, None, Some(xdg.to_string()), None).unwrap()
}

#[test]
fn run_reads_default_config_first() {
    let (flow, action) = started("/xdg");
    assert_eq!(flow.phase, Phase::AwaitConfig);
    match action {
        Action::ReadConfig(p) => assert_eq!(p, "/xdg/configtool/config.json"),
        other => panic!("expected ReadConfig, got {:?}", other),
    }
}

#[test]
fn run_honours_explicit_config_path() {
    let (_, action) =
        Flow::start(Some("/tmp/cfg.json".to_string()), None, Some("/xdg".to_string()), None)
            .unwrap();
    match action {
        Action::ReadConfig(p) => assert_eq!(p, "/tmp/cfg.json"),
        other => panic!("expected ReadConfig, got {:?}", other),
    }
}

#[test]
fn run_falls_back_to_home() {
    let (flow, _) = Flow::start(None, None, None, Some("/home/me".to_string())).unwrap();
    assert_eq!(flow.dir, "/home/me/.config/configtool");
}

#[test]
fn run_fails_without_environment() {
    let r = Flow::start(None, None, None, None);
    assert_eq!(r.unwrap_err(), ToolError::MissingHome);
}

#[test]
fn missing_default_config_scaffolds_and_stops() {
    let (mut flow, _) = started("/xdg");
    let action = flow.on_config(ConfigOutcome::Unreadable);
    match action {
        Action::Scaffold(dir) => assert_eq!(dir, "/xdg/configtool"),
        other => panic!("expected Scaffold, got {:?}", other),
    }
    assert_eq!(flow.phase, Phase::Finished);
    // The scaffolded default configuration is empty.
    let c = Config::default();
    assert!(c.files.is_empty());
    assert!(c.theme_name.is_empty());
}

#[test]
fn missing_explicit_config_fails() {
    let (mut flow, _) =
        Flow::start(Some("/tmp/cfg.json".to_string()), None, Some("/xdg".to_string()), None)
            .unwrap();
    let action = flow.on_config(ConfigOutcome::Unreadable);
    match action {
        Action::Fail(e) => assert_eq!(e, ToolError::ConfigMissing),
        other => panic!("expected Fail, got {:?}", other),
    }
    assert_eq!(flow.phase, Phase::Failed);
}

#[test]
fn malformed_config_fails() {
    let (mut flow, _) = started("/xdg");
    let action = flow.on_config(ConfigOutcome::Malformed("bad document".to_string()));
    match action {
        Action::Fail(ToolError::ConfigParse(m)) => assert_eq!(m, "bad document"),
        other => panic!("expected Fail(ConfigParse), got {:?}", other),
    }
}

#[test]
fn theme_looked_up_by_name_under_config_dir() {
    let (mut flow, _) = started("/xdg");
    let cfg = Config::new(vec!["/a".to_string()], "dark".to_string());
    let action = flow.on_config(ConfigOutcome::Loaded(cfg));
    match action {
        Action::ReadTheme(p) => assert_eq!(p, "/xdg/configtool/themes/dark"),
        other => panic!("expected ReadTheme, got {:?}", other),
    }
    assert_eq!(flow.phase, Phase::AwaitTheme);
}

#[test]
fn explicit_theme_path_overrides_lookup() {
    let (mut flow, _) =
        Flow::start(None, Some("/tmp/theme.json".to_string()), Some("/xdg".to_string()), None)
            .unwrap();
    let cfg = Config::new(Vec::new(), "dark".to_string());
    let action = flow.on_config(ConfigOutcome::Loaded(cfg));
    match action {
        Action::ReadTheme(p) => assert_eq!(p, "/tmp/theme.json"),
        other => panic!("expected ReadTheme, got {:?}", other),
    }
}

#[test]
fn missing_theme_fails_before_any_write() {
    let (mut flow, _) = started("/xdg");
    let cfg = Config::new(vec!["/a".to_string()], "dark".to_string());
    flow.on_config(ConfigOutcome::Loaded(cfg));
    let action = flow.on_theme(ReadOutcome::Unreadable);
    match action {
        Action::Fail(ToolError::ThemeRead(p)) => assert_eq!(p, "/xdg/configtool/themes/dark"),
        other => panic!("expected Fail(ThemeRead), got {:?}", other),
    }
    // The run is over before any target file was read or written.
    assert_eq!(flow.phase, Phase::Failed);
}

#[test]
fn malformed_theme_fails_before_any_write() {
    let (mut flow, _) = started("/xdg");
    let cfg = Config::new(vec!["/a".to_string()], "dark".to_string());
    flow.on_config(ConfigOutcome::Loaded(cfg));
    let action = flow.on_theme(ReadOutcome::Bytes(b"not json".to_vec()));
    assert!(matches!(action, Action::Fail(ToolError::ThemeParse(_))));
    assert_eq!(flow.phase, Phase::Failed);
}

#[test]
fn empty_file_list_finishes_at_once() {
    let (mut flow, _) = started("/xdg");
    let cfg = Config::new(Vec::new(), "dark".to_string());
    flow.on_config(ConfigOutcome::Loaded(cfg));
    let action = flow.on_theme(ReadOutcome::Bytes(b"{}".to_vec()));
    assert!(matches!(action, Action::Finish));
    assert_eq!(flow.phase, Phase::Finished);
}

#[test]
fn first_file_substituted_before_second_fails() {
    let (mut flow, _) = started("/xdg");
    let cfg = Config::new(vec!["/a".to_string(), "/b".to_string()], "dark".to_string());
    flow.on_config(ConfigOutcome::Loaded(cfg));
    let action = flow.on_theme(ReadOutcome::Bytes(br#"{"FOO":"bar"}"#.to_vec()));
    match action {
        Action::ReadTarget(p) => assert_eq!(p, "/a"),
        other => panic!("expected ReadTarget, got {:?}", other),
    }
    let action = flow.on_target(ReadOutcome::Bytes(b"say FOO twice: FOO".to_vec()));
    match action {
        Action::WriteTarget(p, contents) => {
            assert_eq!(p, "/a");
            assert_eq!(contents, b"say bar twice: bar".to_vec());
        },
        other => panic!("expected WriteTarget, got {:?}", other),
    }
    let action = flow.on_written(true);
    match action {
        Action::ReadTarget(p) => assert_eq!(p, "/b"),
        other => panic!("expected ReadTarget, got {:?}", other),
    }
    // The second file does not exist: the run fails naming it, and the
    // already-written first file stays as it is (no rollback).
    let action = flow.on_target(ReadOutcome::Unreadable);
    match action {
        Action::Fail(e) => {
            assert_eq!(e, ToolError::TargetRead("/b".to_string()));
            assert!(e.message().contains("/b"));
        },
        other => panic!("expected Fail, got {:?}", other),
    }
    assert_eq!(flow.phase, Phase::Failed);
}

#[test]
fn successful_run_over_all_files() {
    let (mut flow, _) = started("/xdg");
    let cfg = Config::new(vec!["/a".to_string(), "/b".to_string()], "dark".to_string());
    flow.on_config(ConfigOutcome::Loaded(cfg));
    flow.on_theme(ReadOutcome::Bytes(br#"{"FOO":"bar"}"#.to_vec()));
    flow.on_target(ReadOutcome::Bytes(b"FOO".to_vec()));
    let action = flow.on_written(true);
    assert!(matches!(action, Action::ReadTarget(_)));
    let action = flow.on_target(ReadOutcome::Bytes(b"no key".to_vec()));
    match action {
        Action::WriteTarget(p, contents) => {
            assert_eq!(p, "/b");
            assert_eq!(contents, b"no key".to_vec());
        },
        other => panic!("expected WriteTarget, got {:?}", other),
    }
    let action = flow.on_written(true);
    assert!(matches!(action, Action::Finish));
    assert_eq!(flow.phase, Phase::Finished);
}

#[test]
fn failed_write_fails_the_run() {
    let (mut flow, _) = started("/xdg");
    let cfg = Config::new(vec!["/a".to_string()], "dark".to_string());
    flow.on_config(ConfigOutcome::Loaded(cfg));
    flow.on_theme(ReadOutcome::Bytes(b"{}".to_vec()));
    flow.on_target(ReadOutcome::Bytes(b"text".to_vec()));
    let action = flow.on_written(false);
    match action {
        Action::Fail(e) => assert_eq!(e, ToolError::TargetWrite("/a".to_string())),
        other => panic!("expected Fail, got {:?}", other),
    }
    assert_eq!(flow.phase, Phase::Failed);
}
