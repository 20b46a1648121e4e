use dionysius::borg::{BorgConfig, BorgInheritableConfig, BorgTargetConfig};
use dionysius::config::{
    CompletableConfig, DionysiusConfig, HasInheritableConfig, InheritableConfig, OnRecursion,
    PushTaskConfig,
};
use dionysius::git::{GitConfig, GitInheritableConfig, GitTargetConfig, OnUnsave};

#[test]
fn test_git_completion_fills_defaults() {
    let cfg = GitConfig {
        target: Some(GitTargetConfig {
            mode: Some("path".to_string()),
            target: Some("/backup".to_string()),
        }),
        assets: None,
        heritage: None,
    };
    assert!(!cfg.is_complete());
    let done = cfg.completion().unwrap();
    assert!(done.is_complete());
    let assets = done.assets.unwrap();
    assert_eq!(assets.trigger_by, Some(vec!["git".to_string(), "borg".to_string()]));
    assert!(matches!(assets.on_unsave, Some(OnUnsave::Save)));
    assert!(matches!(assets.on_recursion, Some(OnRecursion::Inherit)));
    let heritage = done.heritage.unwrap();
    assert_eq!(heritage.ignore_child, Some(false));
    assert!(matches!(heritage.on_recursion, Some(OnRecursion::Inherit)));
}

#[test]
fn test_borg_completion_requires_target() {
    let cfg = BorgConfig { target: None, assets: None, heritage: None };
    assert_eq!(cfg.completion().unwrap_err(), "Target config is required");

    let no_string = BorgConfig {
        target: Some(BorgTargetConfig { mode: Some("path".to_string()), target: None }),
        assets: None,
        heritage: None,
    };
    assert_eq!(no_string.completion().unwrap_err(), "Target cannot be None");

    let bad_mode = BorgConfig {
        target: Some(BorgTargetConfig {
            mode: Some("ftp".to_string()),
            target: Some("/b".to_string()),
        }),
        assets: None,
        heritage: None,
    };
    assert_eq!(bad_mode.completion().unwrap_err(), "Invalid target mode");

    let ok = BorgConfig {
        target: Some(BorgTargetConfig {
            mode: Some("path".to_string()),
            target: Some("/b".to_string()),
        }),
        assets: None,
        heritage: None,
    };
    let done = ok.completion().unwrap();
    assert!(done.is_complete());
    let assets = done.assets.unwrap();
    assert_eq!(assets.trigger_by, Some(vec!["borg".to_string()]));
    assert_eq!(assets.extra_exclude_mode, Some(vec!["git".to_string()]));
}

#[test]
fn test_git_completion_rejects_bad_target() {
    let no_string = GitConfig {
        target: Some(GitTargetConfig { mode: Some("path".to_string()), target: None }),
        assets: None,
        heritage: None,
    };
    assert_eq!(no_string.completion().unwrap_err(), "Target string cannot be empty");

    let bad_mode = GitConfig {
        target: Some(GitTargetConfig {
            mode: Some("ftp".to_string()),
            target: Some("x".to_string()),
        }),
        assets: None,
        heritage: None,
    };
    assert_eq!(bad_mode.completion().unwrap_err(), "Invalid target mode");
}

#[test]
fn test_inheritance_resolves_inherit_from_parent_heritage() {
    let child = GitInheritableConfig {
        trigger_by: Some(vec!["git".to_string()]),
        on_unsave: Some(OnUnsave::Ignore),
        on_recursion: Some(OnRecursion::Inherit),
        ignore_child: None,
    };
    let parent_heritage = GitInheritableConfig {
        trigger_by: None,
        on_unsave: Some(OnUnsave::Save),
        on_recursion: Some(OnRecursion::Standalone),
        ignore_child: Some(false),
    };
    let resolved = child.inherit_from(Some(&parent_heritage));
    assert!(matches!(resolved.on_recursion, Some(OnRecursion::Standalone)));
    // the other assets fields are never inherited
    assert_eq!(resolved.trigger_by, Some(vec!["git".to_string()]));
    assert!(matches!(resolved.on_unsave, Some(OnUnsave::Ignore)));
    assert_eq!(resolved.ignore_child, None);
}

#[test]
fn test_inheritance_without_parent_falls_back_to_standalone() {
    let child = BorgInheritableConfig {
        trigger_by: Some(vec!["borg".to_string()]),
        exclude_list: None,
        extra_exclude_mode: None,
        on_recursion: Some(OnRecursion::Inherit),
        ignore_child: None,
    };
    let resolved = child.inherit_from(None);
    assert!(matches!(resolved.on_recursion, Some(OnRecursion::Standalone)));
}

#[test]
fn test_inheritance_keeps_terminal_policy() {
    let child = GitInheritableConfig {
        trigger_by: None,
        on_unsave: None,
        on_recursion: Some(OnRecursion::Double),
        ignore_child: None,
    };
    let parent_heritage = GitInheritableConfig {
        trigger_by: None,
        on_unsave: None,
        on_recursion: Some(OnRecursion::Skip),
        ignore_child: Some(false),
    };
    let resolved = child.inherit_from(Some(&parent_heritage));
    assert!(matches!(resolved.on_recursion, Some(OnRecursion::Double)));
}

#[test]
fn test_git_default_config_is_complete() {
    let cfg = DionysiusConfig::git_default_config();
    assert!(cfg.is_complete());
    assert!(cfg.trigger.is_none());
    assert!(cfg.borg.is_none());
    match &cfg.git {
        Some(PushTaskConfig::Git(g)) => {
            let assets = g.assets.as_ref().unwrap();
            assert_eq!(
                assets.trigger_by,
                Some(vec!["git".to_string(), "borg".to_string()])
            );
            assert!(matches!(assets.on_unsave, Some(OnUnsave::Save)));
        },
        _ => panic!("the default configuration must hold a git section"),
    }
}

#[test]
fn test_push_task_configs_order() {
    let cfg = DionysiusConfig {
        trigger: None,
        git: Some(PushTaskConfig::Git(GitConfig::default())),
        borg: Some(PushTaskConfig::Borg(BorgConfig::default())),
    };
    let sections = cfg.push_task_configs();
    assert_eq!(sections.len(), 2);
    assert_eq!(sections[0].0, "git");
    assert_eq!(sections[1].0, "borg");
}

#[test]
fn test_accepted_trigger() {
    let git = PushTaskConfig::Git(GitConfig::default());
    assert_eq!(git.accepted_trigger(), vec!["git".to_string(), "borg".to_string()]);
    let borg = PushTaskConfig::Borg(BorgConfig::default());
    assert_eq!(borg.accepted_trigger(), vec!["borg".to_string()]);
}

#[test]
fn test_super_on_recursion() {
    let git = PushTaskConfig::Git(GitConfig::default());
    assert!(matches!(git.super_on_recursion(), Some(OnRecursion::Inherit)));
    let bare = PushTaskConfig::Git(GitConfig { target: None, assets: None, heritage: None });
    assert!(bare.super_on_recursion().is_none());
}

#[test]
fn test_get_heritage_and_assets_config() {
    let g = GitConfig::default();
    assert!(matches!(g.get_assets_config().on_unsave, Some(OnUnsave::Save)));
    assert_eq!(g.get_heritage_config().ignore_child, Some(false));
}
