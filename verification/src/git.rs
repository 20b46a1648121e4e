//! The git handler: its configuration section, defaults, completion rules,
//! inheritance, and the git save task descriptor.

use vstd::prelude::*;

use crate::config::{CompletableConfig, HasInheritableConfig, InheritableConfig, OnRecursion};
use crate::exclude::GitIgnorePattern;
use crate::strutil::string_eq_str;

verus! {

/// What to do when the working tree or the index is not clean at save time.
#[derive(Clone, Copy, Debug, PartialEq, Eq, Structural)]
pub enum OnUnsave {
    Save,
    Ignore,
    Ask,
    Interrupt,
}

impl Default for OnUnsave {
    /// The stand-alone default: ask before touching anything.
    fn default() -> (r: Self)
        ensures
            r == OnUnsave::Ask,
    {
        OnUnsave::Ask
    }
}

/// Where git pushes go: a mode (`gitconfig` or `path`) and a target string.
#[derive(Debug)]
pub struct GitTargetConfig {
    pub mode: Option<String>,
    pub target: Option<String>,
}

/// The mathematical value of a [`GitTargetConfig`].
pub struct GitTargetConfigV {
    pub mode: Option<Seq<char>>,
    pub target: Option<Seq<char>>,
}

impl View for GitTargetConfig {
    type V = GitTargetConfigV;

    open spec fn view(&self) -> GitTargetConfigV {
        GitTargetConfigV { mode: self.mode.deep_view(), target: self.target.deep_view() }
    }
}

impl Clone for GitTargetConfig {
    fn clone(&self) -> (res: Self)
        ensures
            res@ == self@,
    {
        GitTargetConfig {
            mode: match &self.mode {
                Some(s) => Some(s.clone()),
                None => None,
            },
            target: match &self.target {
                Some(s) => Some(s.clone()),
                None => None,
            },
        }
    }
}

/// The assets or heritage record of a git section.
#[derive(Debug)]
pub struct GitInheritableConfig {
    pub trigger_by: Option<Vec<String>>,
    pub on_unsave: Option<OnUnsave>,
    pub on_recursion: Option<OnRecursion>,
    pub ignore_child: Option<bool>,
}

/// The mathematical value of a [`GitInheritableConfig`].
pub struct GitInheritableConfigV {
    pub trigger_by: Option<Seq<Seq<char>>>,
    pub on_unsave: Option<OnUnsave>,
    pub on_recursion: Option<OnRecursion>,
    pub ignore_child: Option<bool>,
}

impl View for GitInheritableConfig {
    type V = GitInheritableConfigV;

    open spec fn view(&self) -> GitInheritableConfigV {
        GitInheritableConfigV {
            trigger_by: self.trigger_by.deep_view(),
            on_unsave: self.on_unsave,
            on_recursion: self.on_recursion,
            ignore_child: self.ignore_child,
        }
    }
}

impl Clone for GitInheritableConfig {
    fn clone(&self) -> (res: Self)
        ensures
            res@ == self@,
    {
        let res = GitInheritableConfig {
            trigger_by: match &self.trigger_by {
                Some(v) => Some(v.clone()),
                None => None,
            },
            on_unsave: self.on_unsave,
            on_recursion: self.on_recursion,
            ignore_child: self.ignore_child,
        };
        proof {
            assert(res.trigger_by.deep_view() =~~= self.trigger_by.deep_view());
        }
        res
    }
}

/// A git handler section: target, assets and heritage.
#[derive(Debug)]
pub struct GitConfig {
    pub target: Option<GitTargetConfig>,
    pub assets: Option<GitInheritableConfig>,
    pub heritage: Option<GitInheritableConfig>,
}

/// The mathematical value of a [`GitConfig`].
pub struct GitConfigV {
    pub target: Option<GitTargetConfigV>,
    pub assets: Option<GitInheritableConfigV>,
    pub heritage: Option<GitInheritableConfigV>,
}

impl View for GitConfig {
    type V = GitConfigV;

    open spec fn view(&self) -> GitConfigV {
        GitConfigV {
            target: match self.target {
                Some(t) => Some(t@),
                None => None,
            },
            assets: match self.assets {
                Some(a) => Some(a@),
                None => None,
            },
            heritage: match self.heritage {
                Some(h) => Some(h@),
                None => None,
            },
        }
    }
}

impl Clone for GitConfig {
    fn clone(&self) -> (res: Self)
        ensures
            res@ == self@,
    {
        GitConfig {
            target: match &self.target {
                Some(t) => Some(t.clone()),
                None => None,
            },
            assets: match &self.assets {
                Some(a) => Some(a.clone()),
                None => None,
            },
            heritage: match &self.heritage {
                Some(h) => Some(h.clone()),
                None => None,
            },
        }
    }
}

/// The assets record the git defaults provide.
pub open spec fn spec_git_default_assets() -> GitInheritableConfigV {
    GitInheritableConfigV {
        trigger_by: Some(seq!["git"@, "borg"@]),
        on_unsave: Some(OnUnsave::Save),
        on_recursion: Some(OnRecursion::Inherit),
        ignore_child: None,
    }
}

/// The heritage record the git defaults provide.
pub open spec fn spec_git_default_heritage() -> GitInheritableConfigV {
    GitInheritableConfigV {
        trigger_by: None,
        on_unsave: Some(OnUnsave::Save),
        on_recursion: Some(OnRecursion::Inherit),
        ignore_child: Some(false),
    }
}

/// The built-in default git section.
pub open spec fn spec_git_default() -> GitConfigV {
    GitConfigV {
        target: Some(GitTargetConfigV { mode: Some("gitconfig"@), target: Some(""@) }),
        assets: Some(spec_git_default_assets()),
        heritage: Some(spec_git_default_heritage()),
    }
}

fn default_trigger_by() -> (r: Vec<String>)
    ensures
        r.deep_view() == seq!["git"@, "borg"@],
{
    let mut v: Vec<String> = Vec::new();
    v.push("git".to_owned());
    v.push("borg".to_owned());
    proof {
        assert(v.deep_view() =~~= seq!["git"@, "borg"@]);
    }
    v
}

impl Default for GitConfig {
    /// The built-in default git section.
    fn default() -> (r: Self)
        ensures
            r@ == spec_git_default(),
    {
        GitConfig {
            target: Some(
                GitTargetConfig { mode: Some("gitconfig".to_owned()), target: Some("".to_owned()) },
            ),
            assets: Some(
                GitInheritableConfig {
                    trigger_by: Some(default_trigger_by()),
                    on_unsave: Some(OnUnsave::Save),
                    on_recursion: Some(OnRecursion::Inherit),
                    ignore_child: None,
                },
            ),
            heritage: Some(
                GitInheritableConfig {
                    trigger_by: None,
                    on_unsave: Some(OnUnsave::Save),
                    on_recursion: Some(OnRecursion::Inherit),
                    ignore_child: Some(false),
                },
            ),
        }
    }
}

/// Completeness of a git section: the assets record carries at least
/// `trigger_by`, `on_unsave` and `on_recursion`; the heritage record carries
/// at least `ignore_child` and `on_recursion`.
pub open spec fn spec_git_is_complete(c: GitConfigV) -> bool {
    &&& c.assets matches Some(a) && a.trigger_by is Some && a.on_unsave is Some
        && a.on_recursion is Some
    &&& c.heritage matches Some(h) && h.ignore_child is Some && h.on_recursion is Some
}

/// Completion of a git section: a present target must hold a target string
/// and a mode of `gitconfig` or `path`; missing assets and heritage scalars
/// are filled from the git defaults.
pub open spec fn spec_git_completion(c: GitConfigV) -> Result<GitConfigV, Seq<char>> {
    if c.target matches Some(t) && t.target is None {
        Err("Target string cannot be empty"@)
    } else if c.target matches Some(t) && !(t.mode matches Some(m) && (m == "gitconfig"@ || m
        == "path"@)) {
        Err("Invalid target mode"@)
    } else {
        Ok(
            GitConfigV {
                target: c.target,
                assets: Some(
                    match c.assets {
                        Some(a) => GitInheritableConfigV {
                            trigger_by: if a.trigger_by is Some {
                                a.trigger_by
                            } else {
                                Some(seq!["git"@, "borg"@])
                            },
                            on_unsave: if a.on_unsave is Some {
                                a.on_unsave
                            } else {
                                Some(OnUnsave::Save)
                            },
                            on_recursion: if a.on_recursion is Some {
                                a.on_recursion
                            } else {
                                Some(OnRecursion::Inherit)
                            },
                            ignore_child: a.ignore_child,
                        },
                        None => spec_git_default_assets(),
                    },
                ),
                heritage: Some(
                    match c.heritage {
                        Some(h) => GitInheritableConfigV {
                            trigger_by: h.trigger_by,
                            on_unsave: h.on_unsave,
                            on_recursion: if h.on_recursion is Some {
                                h.on_recursion
                            } else {
                                Some(OnRecursion::Inherit)
                            },
                            ignore_child: if h.ignore_child is Some {
                                h.ignore_child
                            } else {
                                Some(false)
                            },
                        },
                        None => spec_git_default_heritage(),
                    },
                ),
            },
        )
    }
}

impl CompletableConfig for GitConfig {
    type CompletionResult = Result<GitConfig, &'static str>;

    fn is_complete(&self) -> (r: bool)
        ensures
            r == spec_git_is_complete(self@),
    {
        let assets_ok = match &self.assets {
            Some(a) => a.trigger_by.is_some() && a.on_unsave.is_some() && a.on_recursion.is_some(),
            None => false,
        };
        let heritage_ok = match &self.heritage {
            Some(h) => h.ignore_child.is_some() && h.on_recursion.is_some(),
            None => false,
        };
        assets_ok && heritage_ok
    }

    fn completion(&self) -> (r: Result<GitConfig, &'static str>)
        ensures
            match r {
                Ok(c) => spec_git_completion(self@) == Ok::<GitConfigV, Seq<char>>(c@),
                Err(e) => spec_git_completion(self@) == Err::<GitConfigV, Seq<char>>(e@),
            },
    {
        if let Some(t) = &self.target {
            if t.target.is_none() {
                return Err("Target string cannot be empty");
            }
            let mode_ok = match &t.mode {
                Some(m) => string_eq_str(m, "gitconfig") || string_eq_str(m, "path"),
                None => false,
            };
            if !mode_ok {
                return Err("Invalid target mode");
            }
        }
        let assets = match &self.assets {
            Some(a) => GitInheritableConfig {
                trigger_by: match &a.trigger_by {
                    Some(v) => Some(v.clone()),
                    None => Some(default_trigger_by()),
                },
                on_unsave: match a.on_unsave {
                    Some(u) => Some(u),
                    None => Some(OnUnsave::Save),
                },
                on_recursion: match a.on_recursion {
                    Some(o) => Some(o),
                    None => Some(OnRecursion::Inherit),
                },
                ignore_child: a.ignore_child,
            },
            None => GitInheritableConfig {
                trigger_by: Some(default_trigger_by()),
                on_unsave: Some(OnUnsave::Save),
                on_recursion: Some(OnRecursion::Inherit),
                ignore_child: None,
            },
        };
        let heritage = match &self.heritage {
            Some(h) => GitInheritableConfig {
                trigger_by: match &h.trigger_by {
                    Some(v) => Some(v.clone()),
                    None => None,
                },
                on_unsave: h.on_unsave,
                on_recursion: match h.on_recursion {
                    Some(o) => Some(o),
                    None => Some(OnRecursion::Inherit),
                },
                ignore_child: match h.ignore_child {
                    Some(b) => Some(b),
                    None => Some(false),
                },
            },
            None => GitInheritableConfig {
                trigger_by: None,
                on_unsave: Some(OnUnsave::Save),
                on_recursion: Some(OnRecursion::Inherit),
                ignore_child: Some(false),
            },
        };
        let target = match &self.target {
            Some(t) => Some(t.clone()),
            None => None,
        };
        Ok(GitConfig { target, assets: Some(assets), heritage: Some(heritage) })
    }
}

/// Resolution of one git record against the parent's heritage record: an
/// `inherit` policy takes the parent's policy, or the handler default where
/// there is no parent; every other field is kept as it stands.
pub open spec fn spec_git_inh_inherit(
    this: GitInheritableConfigV,
    sup: Option<GitInheritableConfigV>,
) -> GitInheritableConfigV {
    if this.on_recursion == Some(OnRecursion::Inherit) {
        GitInheritableConfigV {
            trigger_by: this.trigger_by,
            on_unsave: this.on_unsave,
            on_recursion: match sup {
                Some(s) => s.on_recursion,
                None => Some(OnRecursion::Standalone),
            },
            ignore_child: this.ignore_child,
        }
    } else {
        this
    }
}

impl InheritableConfig for GitInheritableConfig {
    fn inherit_from(&self, sup: Option<&Self>) -> (r: Self)
        ensures
            r@ == spec_git_inh_inherit(self@, match sup {
                Some(s) => Some(s@),
                None => None,
            }),
    {
        let on_recursion = match self.on_recursion {
            Some(OnRecursion::Inherit) => match sup {
                Some(s) => s.on_recursion,
                None => Some(OnRecursion::Standalone),
            },
            _ => self.on_recursion,
        };
        let r = GitInheritableConfig {
            trigger_by: match &self.trigger_by {
                Some(v) => Some(v.clone()),
                None => None,
            },
            on_unsave: self.on_unsave,
            on_recursion,
            ignore_child: self.ignore_child,
        };
        proof {
            assert(r.trigger_by.deep_view() =~~= self.trigger_by.deep_view());
        }
        r
    }
}

/// Resolution of a whole git section: both records resolve against the
/// parent's heritage record; the target and every other assets field are
/// never inherited.
pub open spec fn spec_git_cfg_inherit(this: GitConfigV, sup: Option<GitConfigV>) -> GitConfigV {
    let sup_heritage = match sup {
        Some(s) => s.heritage,
        None => None,
    };
    GitConfigV {
        target: this.target,
        assets: match this.assets {
            Some(a) => Some(spec_git_inh_inherit(a, sup_heritage)),
            None => None,
        },
        heritage: match this.heritage {
            Some(h) => Some(spec_git_inh_inherit(h, sup_heritage)),
            None => None,
        },
    }
}

impl HasInheritableConfig for GitConfig {
    type M = GitInheritableConfig;

    open spec fn assets_present(&self) -> bool {
        self.assets is Some
    }

    open spec fn heritage_present(&self) -> bool {
        self.heritage is Some
    }

    fn get_assets_config(&self) -> (r: &GitInheritableConfig)
        ensures
            *r == self.assets->0,
    {
        self.assets.as_ref().unwrap()
    }

    fn get_heritage_config(&self) -> (r: &GitInheritableConfig)
        ensures
            *r == self.heritage->0,
    {
        self.heritage.as_ref().unwrap()
    }

    fn inherit_from(&self, sup: Option<&Self>) -> (r: Self)
        ensures
            r@ == spec_git_cfg_inherit(self@, match sup {
                Some(s) => Some(s@),
                None => None,
            }),
    {
        let sup_heritage = match sup {
            Some(s) => s.heritage.as_ref(),
            None => None,
        };
        GitConfig {
            target: match &self.target {
                Some(t) => Some(t.clone()),
                None => None,
            },
            assets: match &self.assets {
                Some(a) => Some(a.inherit_from(sup_heritage)),
                None => None,
            },
            heritage: match &self.heritage {
                Some(h) => Some(h.inherit_from(sup_heritage)),
                None => None,
            },
        }
    }
}

/// A git save task: save the working tree and the index of the repository,
/// then push, leaving the excluded descendant paths out of the save.
#[derive(Debug)]
pub struct GitSaveTask {
    pub repo_path: String,
    pub exclude_list: Vec<String>,
    pub unsaved_behavior: OnUnsave,
    pub extra_exclude_patterns: Vec<GitIgnorePattern>,
}

/// The mathematical value of a [`GitSaveTask`].
pub struct GitSaveTaskV {
    pub repo_path: Seq<char>,
    pub exclude_list: Seq<Seq<char>>,
    pub unsaved_behavior: OnUnsave,
    pub extra_exclude_patterns: Seq<Seq<char>>,
}

impl View for GitSaveTask {
    type V = GitSaveTaskV;

    open spec fn view(&self) -> GitSaveTaskV {
        GitSaveTaskV {
            repo_path: self.repo_path@,
            exclude_list: self.exclude_list.deep_view(),
            unsaved_behavior: self.unsaved_behavior,
            extra_exclude_patterns: self.extra_exclude_patterns@.map_values(
                |p: GitIgnorePattern| p@,
            ),
        }
    }
}

/// The `:(exclude)` pathspecs of the excluded paths that lie under the
/// repository, in order; paths outside the repository are dropped.
pub open spec fn spec_git_exclude_pathspecs(excl: Seq<Seq<char>>, base: Seq<char>) -> Seq<
    Seq<char>,
>
    decreases excl.len(),
{
    if excl.len() == 0 {
        Seq::empty()
    } else {
        let rest = spec_git_exclude_pathspecs(excl.drop_last(), base);
        match crate::task::spec_rel_to(excl.last(), base) {
            Some(rel) => rest.push(":(exclude)"@ + rel),
            None => rest,
        }
    }
}

/// The exclude options a git save task hands to its driver: one `:(exclude)`
/// pathspec per excluded path under the repository, then the extra exclude
/// patterns verbatim.
pub open spec fn spec_git_exclude_options(t: GitSaveTaskV) -> Seq<Seq<char>> {
    spec_git_exclude_pathspecs(t.exclude_list, t.repo_path) + t.extra_exclude_patterns
}

impl crate::task::PushTask for GitSaveTask {
    open spec fn task_wf(&self) -> bool {
        true
    }

    fn exclude_pattern_options(&self) -> (r: Vec<String>)
        ensures
            r.deep_view() == spec_git_exclude_options(self@),
    {
        let base = &self.repo_path;
        let ghost excl = self.exclude_list.deep_view();
        let mut r: Vec<String> = Vec::new();
        let mut i: usize = 0;
        proof {
            assert(excl.take(0) =~= Seq::<Seq<char>>::empty());
            assert(r.deep_view() =~= spec_git_exclude_pathspecs(excl.take(0), base@));
        }
        while i < self.exclude_list.len()
            invariant
                i <= self.exclude_list@.len(),
                excl == self.exclude_list.deep_view(),
                base@ == self.repo_path@,
                r.deep_view() == spec_git_exclude_pathspecs(excl.take(i as int), base@),
            decreases self.exclude_list@.len() - i,
        {
            proof {
                assert(excl.take(i as int + 1).drop_last() =~= excl.take(i as int));
                assert(excl.take(i as int + 1).last() == self.exclude_list@[i as int]@);
            }
            let ghost before = r.deep_view();
            if let Some(rel) = crate::task::rel_to(&self.exclude_list[i], base) {
                r.push(crate::strutil::concat_str(":(exclude)", rel.as_str()));
                proof {
                    assert(r.deep_view() =~= before.push(r@.last()@));
                }
            }
            i = i + 1;
        }
        proof {
            assert(excl.take(self.exclude_list@.len() as int) =~= excl);
        }
        let ghost pathspecs = r.deep_view();
        let ghost extras = self@.extra_exclude_patterns;
        let mut j: usize = 0;
        proof {
            assert(pathspecs + extras.take(0) =~= pathspecs);
        }
        while j < self.extra_exclude_patterns.len()
            invariant
                j <= self.extra_exclude_patterns@.len(),
                extras == self@.extra_exclude_patterns,
                pathspecs == spec_git_exclude_pathspecs(
                    self.exclude_list.deep_view(),
                    self.repo_path@,
                ),
                r.deep_view() == pathspecs + extras.take(j as int),
            decreases self.extra_exclude_patterns@.len() - j,
        {
            let ghost before = r.deep_view();
            r.push(self.extra_exclude_patterns[j].pattern.clone());
            proof {
                assert(extras.take(j as int + 1) =~= extras.take(j as int).push(
                    extras[j as int],
                ));
                assert(r.deep_view() =~= before.push(extras[j as int]));
                assert(pathspecs + extras.take(j as int + 1) =~= (pathspecs + extras.take(
                    j as int,
                )).push(extras[j as int]));
            }
            j = j + 1;
        }
        proof {
            assert(extras.take(self.extra_exclude_patterns@.len() as int) =~= extras);
        }
        r
    }
}

/// One step a git save may take; the driver performs these in order.
#[derive(Clone, Copy, Debug, PartialEq, Eq, Structural)]
pub enum GitAction {
    AddAll,
    Commit,
    Fetch,
    Push,
    ReportDiverged,
    WarnBehind,
    ReportUpToDate,
}

/// An error reported by the git driver or the save plan.
#[derive(Debug)]
pub struct GitCommandError {
    pub message: String,
}

impl Clone for GitCommandError {
    fn clone(&self) -> (res: Self)
        ensures
            res == *self,
    {
        GitCommandError { message: self.message.clone() }
    }
}

impl View for GitCommandError {
    type V = Seq<char>;

    open spec fn view(&self) -> Seq<char> {
        self.message@
    }
}

/// The saving half of the git state machine: what to do about an unclean
/// working tree and an unclean index before fetching. `save` saves, `ignore`
/// only warns, `ask` follows the caller's confirmation, and `interrupt`
/// fails with the reason.
pub open spec fn spec_autosave_plan(
    behavior: OnUnsave,
    tree_clean: bool,
    index_clean: bool,
    save_confirmed: bool,
    commit_confirmed: bool,
) -> Result<Seq<GitAction>, Seq<char>> {
    let add: Result<Seq<GitAction>, Seq<char>> = if tree_clean {
        Ok(Seq::empty())
    } else {
        match behavior {
            OnUnsave::Save => Ok(seq![GitAction::AddAll]),
            OnUnsave::Ignore => Ok(Seq::empty()),
            OnUnsave::Ask => if save_confirmed {
                Ok(seq![GitAction::AddAll])
            } else {
                Ok(Seq::empty())
            },
            OnUnsave::Interrupt => Err("Working directory is not clean."@),
        }
    };
    match add {
        Err(e) => Err(e),
        Ok(first) => {
            let commit: Result<Seq<GitAction>, Seq<char>> = if index_clean {
                Ok(Seq::empty())
            } else {
                match behavior {
                    OnUnsave::Save => Ok(seq![GitAction::Commit]),
                    OnUnsave::Ignore => Ok(Seq::empty()),
                    OnUnsave::Ask => if commit_confirmed {
                        Ok(seq![GitAction::Commit])
                    } else {
                        Ok(Seq::empty())
                    },
                    OnUnsave::Interrupt => Err("Index is not clean."@),
                }
            };
            match commit {
                Err(e) => Err(e),
                Ok(second) => Ok(first + second + seq![GitAction::Fetch]),
            }
        },
    }
}

/// Plans the saving half of a git save task: which of add-all and commit to
/// perform before fetching, or the error that interrupts the save. The
/// confirmation flags stand for the answers an `ask` behaviour would gather.
pub fn autosave_plan(
    behavior: &OnUnsave,
    tree_clean: bool,
    index_clean: bool,
    save_confirmed: bool,
    commit_confirmed: bool,
) -> (r: Result<Vec<GitAction>, GitCommandError>)
    ensures
        match r {
            Ok(actions) => spec_autosave_plan(
                *behavior,
                tree_clean,
                index_clean,
                save_confirmed,
                commit_confirmed,
            ) == Ok::<Seq<GitAction>, Seq<char>>(actions@),
            Err(e) => spec_autosave_plan(
                *behavior,
                tree_clean,
                index_clean,
                save_confirmed,
                commit_confirmed,
            ) == Err::<Seq<GitAction>, Seq<char>>(e@),
        },
{
    let mut actions: Vec<GitAction> = Vec::new();
    let ghost empty_actions = actions@;
    if !tree_clean {
        match behavior {
            OnUnsave::Save => {
                actions.push(GitAction::AddAll);
            },
            OnUnsave::Ignore => {},
            OnUnsave::Ask => {
                if save_confirmed {
                    actions.push(GitAction::AddAll);
                }
            },
            OnUnsave::Interrupt => {
                return Err(
                    GitCommandError { message: "Working directory is not clean.".to_owned() },
                );
            },
        }
    }
    let ghost first = actions@;
    if !index_clean {
        match behavior {
            OnUnsave::Save => {
                actions.push(GitAction::Commit);
            },
            OnUnsave::Ignore => {},
            OnUnsave::Ask => {
                if commit_confirmed {
                    actions.push(GitAction::Commit);
                }
            },
            OnUnsave::Interrupt => {
                return Err(GitCommandError { message: "Index is not clean.".to_owned() });
            },
        }
    }
    actions.push(GitAction::Fetch);
    proof {
        let addv = spec_autosave_plan(
            *behavior,
            tree_clean,
            index_clean,
            save_confirmed,
            commit_confirmed,
        );
        assert(actions@ =~= addv->Ok_0);
    }
    Ok(actions)
}

/// The pushing half of the git state machine, decided after the fetch: a
/// repository both ahead of and behind its upstream reports divergence, one
/// only ahead pushes, one only behind warns, and one in sync reports itself
/// up to date.
pub open spec fn spec_push_decision(ahead: bool, behind: bool) -> GitAction {
    if ahead && behind {
        GitAction::ReportDiverged
    } else if ahead {
        GitAction::Push
    } else if behind {
        GitAction::WarnBehind
    } else {
        GitAction::ReportUpToDate
    }
}

/// Decides what follows the fetch of a git save task.
pub fn push_decision(ahead: bool, behind: bool) -> (r: GitAction)
    ensures
        r == spec_push_decision(ahead, behind),
{
    if ahead && behind {
        GitAction::ReportDiverged
    } else if ahead {
        GitAction::Push
    } else if behind {
        GitAction::WarnBehind
    } else {
        GitAction::ReportUpToDate
    }
}

/// How many branches a repository has: none, one, or more.
#[derive(Clone, Copy, Debug, PartialEq, Eq, Structural)]
pub enum BranchCount {
    Zero,
    One,
    Many,
}

/// The work-status flags of a repository; a flag left `None` could not be
/// determined.
#[derive(Clone, Copy, Debug)]
pub struct RepoWorkStatus {
    pub workdir_unsaved: Option<bool>,
    pub index_unsaved: Option<bool>,
    pub ahead_upstream: Option<bool>,
    pub behind_upstream: Option<bool>,
    pub submodule_exist: Option<bool>,
    pub diverged: Option<bool>,
}

/// One status flag: the given letter when set, a blank when clear, a slash
/// when unknown.
pub open spec fn spec_status_flag(v: Option<bool>, letter: char) -> char {
    match v {
        Some(true) => letter,
        Some(false) => ' ',
        None => '/',
    }
}

fn status_flag(v: Option<bool>, letter: char) -> (r: char)
    ensures
        r == spec_status_flag(v, letter),
{
    match v {
        Some(true) => letter,
        Some(false) => ' ',
        None => '/',
    }
}

/// The five work-status flags in order: working tree, index, ahead, behind,
/// submodules.
pub open spec fn spec_work_status_string(s: RepoWorkStatus) -> Seq<char> {
    seq![
        spec_status_flag(s.workdir_unsaved, 'W'),
        spec_status_flag(s.index_unsaved, 'I'),
        spec_status_flag(s.ahead_upstream, 'A'),
        spec_status_flag(s.behind_upstream, 'B'),
        spec_status_flag(s.submodule_exist, 'S'),
    ]
}

impl RepoWorkStatus {
    /// Renders the five work-status flags.
    pub fn to_string(&self) -> (r: String)
        ensures
            r@ == spec_work_status_string(*self),
    {
        let mut r = String::new();
        crate::strutil::push_char(&mut r, status_flag(self.workdir_unsaved, 'W'));
        crate::strutil::push_char(&mut r, status_flag(self.index_unsaved, 'I'));
        crate::strutil::push_char(&mut r, status_flag(self.ahead_upstream, 'A'));
        crate::strutil::push_char(&mut r, status_flag(self.behind_upstream, 'B'));
        crate::strutil::push_char(&mut r, status_flag(self.submodule_exist, 'S'));
        proof {
            assert(r@ =~= spec_work_status_string(*self));
        }
        r
    }
}

/// The structural checks of a repository; a field left `None` could not be
/// determined.
#[derive(Clone, Copy, Debug)]
pub struct RepoCheck {
    pub is_bare: Option<bool>,
    pub head_points_to_branch: Option<bool>,
    pub branch_exists: Option<bool>,
    pub local_branch_count: Option<BranchCount>,
    pub remote_branch_count: Option<BranchCount>,
    pub has_upstream: Option<bool>,
}

/// One branch-count flag: `0`, `1` or `M`, a slash when unknown.
pub open spec fn spec_count_flag(v: Option<BranchCount>) -> char {
    match v {
        Some(BranchCount::Zero) => '0',
        Some(BranchCount::One) => '1',
        Some(BranchCount::Many) => 'M',
        None => '/',
    }
}

fn count_flag(v: Option<BranchCount>) -> (r: char)
    ensures
        r == spec_count_flag(v),
{
    match v {
        Some(BranchCount::Zero) => '0',
        Some(BranchCount::One) => '1',
        Some(BranchCount::Many) => 'M',
        None => '/',
    }
}

/// The six repository-check flags in order: bare, head-on-branch, branch
/// exists, local branch count, remote branch count, upstream configured.
pub open spec fn spec_repo_check_string(s: RepoCheck) -> Seq<char> {
    seq![
        spec_status_flag(s.is_bare, 'B'),
        spec_status_flag(s.head_points_to_branch, 'H'),
        spec_status_flag(s.branch_exists, 'E'),
        spec_count_flag(s.local_branch_count),
        spec_count_flag(s.remote_branch_count),
        spec_status_flag(s.has_upstream, 'U'),
    ]
}

impl RepoCheck {
    /// Renders the six repository-check flags.
    pub fn to_string(&self) -> (r: String)
        ensures
            r@ == spec_repo_check_string(*self),
    {
        let mut r = String::new();
        crate::strutil::push_char(&mut r, status_flag(self.is_bare, 'B'));
        crate::strutil::push_char(&mut r, status_flag(self.head_points_to_branch, 'H'));
        crate::strutil::push_char(&mut r, status_flag(self.branch_exists, 'E'));
        crate::strutil::push_char(&mut r, count_flag(self.local_branch_count));
        crate::strutil::push_char(&mut r, count_flag(self.remote_branch_count));
        crate::strutil::push_char(&mut r, status_flag(self.has_upstream, 'U'));
        proof {
            assert(r@ =~= spec_repo_check_string(*self));
        }
        r
    }
}

} // verus!
