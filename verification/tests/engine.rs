use dionysius::borg::{BorgConfig, BorgInheritableConfig, BorgTargetConfig};
use dionysius::config::{DionysiusConfig, OnRecursion, PushTaskConfig};
use dionysius::exclude::BorgPattern;
use dionysius::git::{GitConfig, GitInheritableConfig, OnUnsave};
use dionysius::task::{
    apply_recursion_strategy, collect_tasks_root, CliTaskConfig, CollectError, DirNode, Task,
};
use dionysius::trigger::{TriggerConfig, TriggerInheriableConfig};

fn plain(name: &str, children: Vec<DirNode>) -> DirNode {
    DirNode {
        name: name.to_string(),
        config: None,
        has_git_dir: false,
        gitignore: None,
        children,
    }
}

fn git_repo(name: &str, children: Vec<DirNode>) -> DirNode {
    DirNode {
        name: name.to_string(),
        config: None,
        has_git_dir: true,
        gitignore: None,
        children,
    }
}

fn cli() -> CliTaskConfig {
    CliTaskConfig { exclude_patterns: vec![], search_hidden: false }
}

fn git_section(on_recursion: OnRecursion) -> PushTaskConfig {
    PushTaskConfig::Git(GitConfig {
        target: None,
        assets: Some(GitInheritableConfig {
            trigger_by: None,
            on_unsave: None,
            on_recursion: Some(on_recursion),
            ignore_child: None,
        }),
        heritage: None,
    })
}

fn borg_section(target: &str, extra_exclude_mode: Option<Vec<String>>) -> PushTaskConfig {
    PushTaskConfig::Borg(BorgConfig {
        target: Some(BorgTargetConfig {
            mode: Some("path".to_string()),
            target: Some(target.to_string()),
        }),
        assets: Some(BorgInheritableConfig {
            trigger_by: None,
            exclude_list: None,
            extra_exclude_mode,
            on_recursion: None,
            ignore_child: None,
        }),
        heritage: None,
    })
}

#[test]
fn test_single_git_repo() {
    let root = plain("R", vec![git_repo("repo", vec![])]);
    let tasks = collect_tasks_root("git", &root, &"R".to_string(), &cli()).unwrap();
    assert_eq!(tasks.len(), 1);
    match &tasks[0] {
        Task::Git(g) => {
            assert_eq!(g.repo_path, "R/repo");
            assert!(g.exclude_list.is_empty());
            assert!(matches!(g.unsaved_behavior, OnUnsave::Save));
            assert!(g.extra_exclude_patterns.is_empty());
        },
        _ => panic!("expected a git save task"),
    }
}

#[test]
fn test_nested_standalone() {
    let root = plain("R", vec![git_repo("outer", vec![git_repo("inner", vec![])])]);
    let tasks = collect_tasks_root("git", &root, &"R".to_string(), &cli()).unwrap();
    assert_eq!(tasks.len(), 2);
    match &tasks[0] {
        Task::Git(g) => assert_eq!(g.repo_path, "R/outer/inner"),
        _ => panic!("expected a git save task"),
    }
    match &tasks[1] {
        Task::Git(g) => {
            assert_eq!(g.repo_path, "R/outer");
            assert_eq!(g.exclude_list, vec!["R/outer/inner".to_string()]);
        },
        _ => panic!("expected a git save task"),
    }
}

#[test]
fn test_skip_policy() {
    let inner = DirNode {
        name: "inner".to_string(),
        config: Some(DionysiusConfig {
            trigger: None,
            git: Some(git_section(OnRecursion::Skip)),
            borg: None,
        }),
        has_git_dir: true,
        gitignore: None,
        children: vec![],
    };
    let root = plain("R", vec![git_repo("outer", vec![inner])]);
    let tasks = collect_tasks_root("git", &root, &"R".to_string(), &cli()).unwrap();
    assert_eq!(tasks.len(), 1);
    match &tasks[0] {
        Task::Git(g) => {
            assert_eq!(g.repo_path, "R/outer");
            assert_eq!(g.exclude_list, vec!["R/outer/inner".to_string()]);
        },
        _ => panic!("expected a git save task"),
    }
}

#[test]
fn test_borg_with_gitignore() {
    let proj = DirNode {
        name: "proj".to_string(),
        config: Some(DionysiusConfig {
            trigger: None,
            git: None,
            borg: Some(borg_section("/backup/proj", Some(vec!["git".to_string()]))),
        }),
        has_git_dir: true,
        gitignore: Some(vec!["target/".to_string(), "*.log".to_string()]),
        children: vec![],
    };
    let root = plain("R", vec![proj]);
    let tasks = collect_tasks_root("borg", &root, &"R".to_string(), &cli()).unwrap();
    assert_eq!(tasks.len(), 1);
    match &tasks[0] {
        Task::Borg(b) => {
            assert_eq!(b.source, "R/proj");
            assert_eq!(b.target, "/backup/proj");
            assert!(b.extra_exclude_patterns.contains(&BorgPattern::Shell("target/".to_string())));
            assert!(
                b.extra_exclude_patterns.contains(&BorgPattern::Shell("**/*.log".to_string()))
            );
            assert_eq!(b.options.compression, "zstd");
            assert!(b.options.acl);
            assert!(b.options.numeric_owner);
        },
        _ => panic!("expected a borg create task"),
    }
}

#[test]
fn test_cli_exclude_pattern() {
    let proj = DirNode {
        name: "proj".to_string(),
        config: Some(DionysiusConfig {
            trigger: None,
            git: None,
            borg: Some(borg_section("/backup/proj", None)),
        }),
        has_git_dir: false,
        gitignore: None,
        children: vec![],
    };
    let root = plain("R", vec![proj]);
    let options = CliTaskConfig {
        exclude_patterns: vec!["sh:node_modules".to_string()],
        search_hidden: false,
    };
    let tasks = collect_tasks_root("borg", &root, &"R".to_string(), &options).unwrap();
    assert_eq!(tasks.len(), 1);
    match &tasks[0] {
        Task::Borg(b) => {
            assert!(
                b.extra_exclude_patterns.contains(&BorgPattern::Shell("node_modules".to_string()))
            );
        },
        _ => panic!("expected a borg create task"),
    }
}

#[test]
fn test_trigger_over_mixed_tree() {
    let mix = DirNode {
        name: "mix".to_string(),
        config: Some(DionysiusConfig {
            trigger: Some(PushTaskConfig::Trigger(TriggerConfig {
                assets: Some(TriggerInheriableConfig {
                    on_recursion: Some(OnRecursion::Standalone),
                }),
                heritage: None,
            })),
            git: Some(git_section(OnRecursion::Standalone)),
            borg: Some(borg_section("/backup/mix", None)),
        }),
        has_git_dir: true,
        gitignore: None,
        children: vec![],
    };
    let root = plain("R", vec![mix]);
    let tasks = collect_tasks_root("trigger", &root, &"R".to_string(), &cli()).unwrap();
    assert_eq!(tasks.len(), 3);
    assert!(matches!(&tasks[0], Task::Trigger(t) if t.current_dir == "R/mix"));
    assert!(matches!(&tasks[1], Task::Git(g) if g.repo_path == "R/mix"));
    assert!(matches!(&tasks[2], Task::Borg(b) if b.source == "R/mix"));
}

#[test]
fn test_trigger_run_visits_nested_repos() {
    let mix = DirNode {
        name: "mix".to_string(),
        config: Some(DionysiusConfig {
            trigger: Some(PushTaskConfig::Trigger(TriggerConfig {
                assets: Some(TriggerInheriableConfig {
                    on_recursion: Some(OnRecursion::Standalone),
                }),
                heritage: None,
            })),
            git: Some(git_section(OnRecursion::Standalone)),
            borg: None,
        }),
        has_git_dir: false,
        gitignore: None,
        children: vec![git_repo("nested", vec![])],
    };
    let root = plain("R", vec![mix]);
    let tasks = collect_tasks_root("trigger", &root, &"R".to_string(), &cli()).unwrap();
    assert_eq!(tasks.len(), 3);
    assert!(matches!(&tasks[0], Task::Git(g) if g.repo_path == "R/mix/nested"));
    assert!(matches!(&tasks[1], Task::Trigger(t) if t.current_dir == "R/mix"));
    match &tasks[2] {
        Task::Git(g) => {
            assert_eq!(g.repo_path, "R/mix");
            assert_eq!(g.exclude_list, vec!["R/mix/nested".to_string()]);
        },
        _ => panic!("expected a git save task"),
    }
}

#[test]
fn test_hidden_directories_skipped() {
    let root = plain("R", vec![git_repo(".hidden", vec![])]);
    let tasks = collect_tasks_root("git", &root, &"R".to_string(), &cli()).unwrap();
    assert_eq!(tasks.len(), 0);
    let options = CliTaskConfig { exclude_patterns: vec![], search_hidden: true };
    let tasks = collect_tasks_root("git", &root, &"R".to_string(), &options).unwrap();
    assert_eq!(tasks.len(), 1);
}

#[test]
fn test_unconfigured_directories_are_transparent() {
    let root = plain("R", vec![plain("sub", vec![plain("deeper", vec![git_repo(
        "repo",
        vec![],
    )])])]);
    let tasks = collect_tasks_root("git", &root, &"R".to_string(), &cli()).unwrap();
    assert_eq!(tasks.len(), 1);
    assert!(matches!(&tasks[0], Task::Git(g) if g.repo_path == "R/sub/deeper/repo"));
}

#[test]
fn test_trigger_by_filter_skips_handler() {
    let repo = DirNode {
        name: "repo".to_string(),
        config: Some(DionysiusConfig {
            trigger: None,
            git: Some(PushTaskConfig::Git(GitConfig {
                target: None,
                assets: Some(GitInheritableConfig {
                    trigger_by: Some(vec!["git".to_string()]),
                    on_unsave: None,
                    on_recursion: Some(OnRecursion::Standalone),
                    ignore_child: None,
                }),
                heritage: None,
            })),
            borg: None,
        }),
        has_git_dir: false,
        gitignore: None,
        children: vec![],
    };
    let root = plain("R", vec![repo]);
    let tasks = collect_tasks_root("borg", &root, &"R".to_string(), &cli()).unwrap();
    assert_eq!(tasks.len(), 0);
    let tasks = collect_tasks_root("git", &root, &"R".to_string(), &cli()).unwrap();
    assert_eq!(tasks.len(), 1);
}

#[test]
fn test_include_policy_swallows_subtree() {
    let inner = DirNode {
        name: "inner".to_string(),
        config: Some(DionysiusConfig {
            trigger: None,
            git: Some(git_section(OnRecursion::Include)),
            borg: None,
        }),
        has_git_dir: true,
        gitignore: None,
        children: vec![git_repo("deeper", vec![])],
    };
    let root = plain("R", vec![git_repo("outer", vec![inner])]);
    let tasks = collect_tasks_root("git", &root, &"R".to_string(), &cli()).unwrap();
    // inner is rolled into outer: no task for it, no exclude entry, and its
    // subtree is not descended into
    assert_eq!(tasks.len(), 1);
    match &tasks[0] {
        Task::Git(g) => {
            assert_eq!(g.repo_path, "R/outer");
            assert!(g.exclude_list.is_empty());
        },
        _ => panic!("expected a git save task"),
    }
}

#[test]
fn test_double_policy_keeps_overlap() {
    let inner = DirNode {
        name: "inner".to_string(),
        config: Some(DionysiusConfig {
            trigger: None,
            git: Some(git_section(OnRecursion::Double)),
            borg: None,
        }),
        has_git_dir: true,
        gitignore: None,
        children: vec![],
    };
    let root = plain("R", vec![git_repo("outer", vec![inner])]);
    let tasks = collect_tasks_root("git", &root, &"R".to_string(), &cli()).unwrap();
    assert_eq!(tasks.len(), 2);
    match &tasks[1] {
        Task::Git(g) => {
            assert_eq!(g.repo_path, "R/outer");
            // a double task is not excluded from the ancestor
            assert!(g.exclude_list.is_empty());
        },
        _ => panic!("expected a git save task"),
    }
}

#[test]
fn test_bad_config_aborts_collection() {
    let repo = DirNode {
        name: "repo".to_string(),
        config: Some(DionysiusConfig {
            trigger: None,
            git: None,
            borg: Some(borg_section_with_mode("ftp", "/b")),
        }),
        has_git_dir: false,
        gitignore: None,
        children: vec![],
    };
    let root = plain("R", vec![repo]);
    let err = collect_tasks_root("borg", &root, &"R".to_string(), &cli()).unwrap_err();
    assert!(matches!(err, CollectError::ConfigIncomplete(m) if m == "Invalid target mode"));
}

fn borg_section_with_mode(mode: &str, target: &str) -> PushTaskConfig {
    PushTaskConfig::Borg(BorgConfig {
        target: Some(BorgTargetConfig {
            mode: Some(mode.to_string()),
            target: Some(target.to_string()),
        }),
        assets: None,
        heritage: None,
    })
}

#[test]
fn test_trigger_without_policy_is_rejected() {
    let node = DirNode {
        name: "t".to_string(),
        config: Some(DionysiusConfig {
            trigger: Some(PushTaskConfig::Trigger(TriggerConfig {
                assets: None,
                heritage: None,
            })),
            git: None,
            borg: None,
        }),
        has_git_dir: false,
        gitignore: None,
        children: vec![],
    };
    let root = plain("R", vec![node]);
    let err = collect_tasks_root("trigger", &root, &"R".to_string(), &cli()).unwrap_err();
    assert!(matches!(err, CollectError::ConfigIncomplete(m) if m == "`on_recursion` is not set"));
}

#[test]
fn test_recursion_policy_table() {
    let dir = "R/a".to_string();
    let mut excl: Vec<String> = vec![];
    assert_eq!(
        apply_recursion_strategy(&dir, &OnRecursion::Skip, &mut excl).unwrap(),
        false
    );
    assert_eq!(excl, vec!["R/a".to_string()]);

    let mut excl: Vec<String> = vec![];
    assert_eq!(
        apply_recursion_strategy(&dir, &OnRecursion::Include, &mut excl).unwrap(),
        false
    );
    assert!(excl.is_empty());

    let mut excl: Vec<String> = vec![];
    assert_eq!(
        apply_recursion_strategy(&dir, &OnRecursion::Standalone, &mut excl).unwrap(),
        true
    );
    assert_eq!(excl, vec!["R/a".to_string()]);

    let mut excl: Vec<String> = vec![];
    assert_eq!(
        apply_recursion_strategy(&dir, &OnRecursion::Double, &mut excl).unwrap(),
        true
    );
    assert!(excl.is_empty());

    let mut excl: Vec<String> = vec![];
    let err = apply_recursion_strategy(&dir, &OnRecursion::Inherit, &mut excl).unwrap_err();
    assert!(matches!(err, CollectError::InternalInvariant));
    assert!(excl.is_empty());
}
