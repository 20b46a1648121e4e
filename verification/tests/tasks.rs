use dionysius::borg::{BorgCreateOptions, BorgCreateTask};
use dionysius::exclude::{BorgPattern, GitIgnorePattern};
use dionysius::git::{
    autosave_plan, push_decision, BranchCount, GitAction, GitSaveTask, OnUnsave, RepoCheck,
    RepoWorkStatus,
};
use dionysius::log::LogLevel;
use dionysius::task::PushTask;
use dionysius::trigger::TriggerTask;

fn borg_task(source: &str, exclude_list: Vec<String>, extra: Vec<BorgPattern>) -> BorgCreateTask {
    BorgCreateTask {
        source: source.to_string(),
        target: "/backup".to_string(),
        exclude_list,
        extra_exclude_patterns: extra,
        options: BorgCreateOptions::default(),
    }
}

#[test]
fn test_borg_exclude_patterns_relativize() {
    let t = borg_task(
        "R/a",
        vec!["R/a/x".to_string(), "R/a/y/z".to_string()],
        vec![BorgPattern::Shell("n".to_string())],
    );
    let pats = t.borg_exclude_patterns().unwrap();
    assert_eq!(pats.len(), 3);
    assert_eq!(pats[0], BorgPattern::PathFullMatch("x".to_string()));
    assert_eq!(pats[1], BorgPattern::PathFullMatch("y/z".to_string()));
    assert_eq!(pats[2], BorgPattern::Shell("n".to_string()));
}

#[test]
fn test_borg_exclude_patterns_reject_outside_path() {
    let t = borg_task("R/a", vec!["R/b/x".to_string()], vec![]);
    assert_eq!(t.borg_exclude_patterns().unwrap_err(), "Exclude path must be under source path");
}

#[test]
fn test_borg_exclude_pattern_options() {
    let t = borg_task(
        "R/a",
        vec!["R/a/x".to_string()],
        vec![BorgPattern::Shell("n".to_string())],
    );
    let opts = t.exclude_pattern_options();
    assert_eq!(
        opts,
        vec![
            "--exclude".to_string(),
            "pf:x".to_string(),
            "--exclude".to_string(),
            "sh:n".to_string(),
        ]
    );
}

#[test]
fn test_borg_command_args() {
    let t = borg_task("R/a", vec!["R/a/x".to_string()], vec![]);
    let expected: Vec<String> = vec![
        "create",
        "--stats",
        "--progress",
        "--one-file-system",
        "--compression",
        "zstd",
        "--exclude",
        "pf:x",
        "/backup",
        "R/a",
    ]
    .into_iter()
    .map(|s| s.to_string())
    .collect();
    assert_eq!(t.command_args(), expected);
}

#[test]
fn test_git_exclude_pattern_options() {
    let t = GitSaveTask {
        repo_path: "R/a".to_string(),
        exclude_list: vec!["R/a/x".to_string(), "R/b/out".to_string()],
        unsaved_behavior: OnUnsave::Save,
        extra_exclude_patterns: vec![GitIgnorePattern { pattern: "*.log".to_string() }],
    };
    let opts = t.exclude_pattern_options();
    assert_eq!(opts, vec![":(exclude)x".to_string(), "*.log".to_string()]);
}

#[test]
fn test_trigger_exclude_pattern_options_empty() {
    let t = TriggerTask { current_dir: "R/a".to_string() };
    assert!(t.exclude_pattern_options().is_empty());
}

#[test]
fn test_autosave_plan_save() {
    let plan = autosave_plan(&OnUnsave::Save, false, false, false, false).unwrap();
    assert_eq!(plan, vec![GitAction::AddAll, GitAction::Commit, GitAction::Fetch]);
    let clean = autosave_plan(&OnUnsave::Save, true, true, false, false).unwrap();
    assert_eq!(clean, vec![GitAction::Fetch]);
}

#[test]
fn test_autosave_plan_interrupt() {
    let err = autosave_plan(&OnUnsave::Interrupt, false, true, false, false).unwrap_err();
    assert_eq!(err.message, "Working directory is not clean.");
    let err = autosave_plan(&OnUnsave::Interrupt, true, false, false, false).unwrap_err();
    assert_eq!(err.message, "Index is not clean.");
}

#[test]
fn test_autosave_plan_ask_and_ignore() {
    let plan = autosave_plan(&OnUnsave::Ask, false, false, true, false).unwrap();
    assert_eq!(plan, vec![GitAction::AddAll, GitAction::Fetch]);
    let plan = autosave_plan(&OnUnsave::Ignore, false, false, false, false).unwrap();
    assert_eq!(plan, vec![GitAction::Fetch]);
}

#[test]
fn test_push_decision_table() {
    assert_eq!(push_decision(true, true), GitAction::ReportDiverged);
    assert_eq!(push_decision(true, false), GitAction::Push);
    assert_eq!(push_decision(false, true), GitAction::WarnBehind);
    assert_eq!(push_decision(false, false), GitAction::ReportUpToDate);
}

#[test]
fn test_work_status_string() {
    let s = RepoWorkStatus {
        workdir_unsaved: Some(true),
        index_unsaved: Some(false),
        ahead_upstream: Some(true),
        behind_upstream: None,
        submodule_exist: Some(false),
        diverged: Some(false),
    };
    assert_eq!(s.to_string(), "W A/ ");
}

#[test]
fn test_repo_check_string() {
    let c = RepoCheck {
        is_bare: Some(false),
        head_points_to_branch: Some(true),
        branch_exists: Some(true),
        local_branch_count: Some(BranchCount::One),
        remote_branch_count: Some(BranchCount::Many),
        has_upstream: None,
    };
    assert_eq!(c.to_string(), " HE1M/");
}

#[test]
fn test_log_level_prefixes() {
    assert_eq!(LogLevel::Info.prefix(), "INFO: ");
    assert_eq!(LogLevel::Warn.prefix(), "WARN: ");
    assert_eq!(LogLevel::Error.prefix(), "ERROR: ");
}

#[test]
fn test_borg_create_options_default() {
    let o = BorgCreateOptions::default();
    assert!(o.acl);
    assert!(o.numeric_owner);
    assert_eq!(o.compression, "zstd");
}
