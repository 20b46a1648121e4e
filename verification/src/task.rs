//! The task model and the collection engine: walks a directory-tree value,
//! resolves each directory's effective configuration, applies the recursion
//! policy, and appends task descriptors in post-order.

use vstd::prelude::*;

use crate::borg::{
    spec_borg_cfg_inherit, BorgConfigV, BorgCreateOptions, BorgCreateTask, BorgCreateTaskV,
};
use crate::config::{
    spec_accepted_trigger, spec_assets_on_recursion, spec_dio_completion, spec_dio_is_complete,
    spec_git_default_dio, CompletableConfig, DionysiusConfig, DionysiusConfigV, OnRecursion,
    PushTaskConfig, PushTaskConfigV,
};
use crate::exclude::{
    borg_pattern_from_string, gitignore_pattern_from_string, gitignore_to_borg, read_gitignore,
    spec_gitignore_from_string, spec_gitignore_to_borg, spec_parse_borg, spec_read_gitignore,
    strs_view, BorgPattern, BorgPatternView, GitIgnorePattern,
};
use crate::git::{spec_git_cfg_inherit, GitConfigV, GitSaveTask, GitSaveTaskV};
use crate::strutil::{push_char, starts_with_char, str_eq, string_eq_str};
use crate::trigger::{spec_trigger_cfg_inherit, TriggerConfig, TriggerTask};

verus! {

/// What every task descriptor offers: the exclude options it hands to its
/// driver. Executing and previewing a task invoke outside tools and stay
/// with the caller.
pub trait PushTask {
    /// Whether the task is well formed enough to render its exclude options.
    spec fn task_wf(&self) -> bool;

    fn exclude_pattern_options(&self) -> Vec<String>
        requires
            self.task_wf(),
    ;
}

/// One collected backup task.
#[derive(Debug)]
pub enum Task {
    Trigger(TriggerTask),
    Git(GitSaveTask),
    Borg(BorgCreateTask),
}

/// The mathematical value of a [`Task`].
pub enum TaskV {
    Trigger(Seq<char>),
    Git(GitSaveTaskV),
    Borg(BorgCreateTaskV),
}

impl View for Task {
    type V = TaskV;

    open spec fn view(&self) -> TaskV {
        match self {
            Task::Trigger(t) => TaskV::Trigger(t@),
            Task::Git(g) => TaskV::Git(g@),
            Task::Borg(b) => TaskV::Borg(b@),
        }
    }
}

/// The values of the tasks of a list, in order.
pub open spec fn tasks_view(s: Seq<Task>) -> Seq<TaskV> {
    s.map_values(|t: Task| t@)
}

/// What the command line contributes to every task of a run.
#[derive(Debug)]
pub struct CliTaskConfig {
    pub exclude_patterns: Vec<String>,
    pub search_hidden: bool,
}

impl Clone for CliTaskConfig {
    fn clone(&self) -> (res: Self)
        ensures
            res.exclude_patterns.deep_view() == self.exclude_patterns.deep_view(),
            res.search_hidden == self.search_hidden,
    {
        let res = CliTaskConfig {
            exclude_patterns: self.exclude_patterns.clone(),
            search_hidden: self.search_hidden,
        };
        proof {
            assert(res.exclude_patterns.deep_view() =~~= self.exclude_patterns.deep_view());
        }
        res
    }
}

/// A directory of the scanned tree, as a plain value: its base name, the raw
/// configuration parsed out of its configuration file (if one exists),
/// whether it holds a `.git` directory, the lines of its `.gitignore` file
/// (if one exists), and its subdirectories in scan order.
#[derive(Debug)]
pub struct DirNode {
    pub name: String,
    pub config: Option<DionysiusConfig>,
    pub has_git_dir: bool,
    pub gitignore: Option<Vec<String>>,
    pub children: Vec<DirNode>,
}

/// A fatal collection error.
#[derive(Debug)]
pub enum CollectError {
    /// A configuration could not be completed; carries the completion error.
    ConfigIncomplete(&'static str),
    /// An internal invariant did not hold, such as an unresolved `inherit`
    /// recursion policy after inheritance.
    InternalInvariant,
}

/// The mathematical value of a [`CollectError`].
pub enum CollectErrorV {
    ConfigIncomplete(Seq<char>),
    InternalInvariant,
}

impl View for CollectError {
    type V = CollectErrorV;

    open spec fn view(&self) -> CollectErrorV {
        match self {
            CollectError::ConfigIncomplete(e) => CollectErrorV::ConfigIncomplete(e@),
            CollectError::InternalInvariant => CollectErrorV::InternalInvariant,
        }
    }
}

/// The path of a child directory: the parent's path, a slash, the name.
pub open spec fn spec_join_path(dir: Seq<char>, name: Seq<char>) -> Seq<char> {
    dir.push('/') + name
}

/// Whether `p` lies strictly below `base`: `base`, a slash, and a non-empty
/// remainder.
pub open spec fn is_strict_descendant(p: Seq<char>, base: Seq<char>) -> bool {
    p.len() > base.len() + 1 && p.subrange(0, base.len() as int) == base && p[base.len() as int]
        == '/'
}

/// The path of `p` relative to `base`: empty when they are equal, the part
/// after the slash when `p` lies below `base`, nothing otherwise.
pub open spec fn spec_rel_to(p: Seq<char>, base: Seq<char>) -> Option<Seq<char>> {
    if p == base {
        Some(Seq::empty())
    } else if is_strict_descendant(p, base) {
        Some(p.skip(base.len() as int + 1))
    } else {
        None
    }
}

/// Joins a directory path and a child name with a slash.
pub fn join_path(dir: &String, name: &String) -> (r: String)
    ensures
        r@ == spec_join_path(dir@, name@),
{
    let mut r = dir.clone();
    push_char(&mut r, '/');
    r.append(name.as_str());
    r
}

/// The path of `p` relative to `base`, when `p` is `base` or lies below it.
pub fn rel_to(p: &String, base: &String) -> (r: Option<String>)
    ensures
        match r {
            Some(s) => spec_rel_to(p@, base@) == Some(s@),
            None => spec_rel_to(p@, base@) is None,
        },
{
    if string_eq_str(p, base.as_str()) {
        let r = String::new();
        proof {
            assert(r@ =~= Seq::<char>::empty());
        }
        return Some(r);
    }
    let plen = p.unicode_len();
    let blen = base.unicode_len();
    if blen < usize::MAX && plen > blen + 1 && crate::strutil::str_prefix_at(
        p.as_str(),
        base.as_str(),
    )
        && p.as_str().get_char(blen) == '/' {
        let r = p.as_str().substring_char(blen + 1, plen).to_owned();
        proof {
            assert(r@ =~= p@.skip(base@.len() as int + 1));
        }
        Some(r)
    } else {
        None
    }
}

/// Whether one of the strings of `v` has exactly the characters of `s`.
pub fn contains_string(v: &Vec<String>, s: &str) -> (r: bool)
    ensures
        r == v.deep_view().contains(s@),
{
    let mut i: usize = 0;
    while i < v.len()
        invariant
            i <= v@.len(),
            v.deep_view().len() == v@.len(),
            forall|j: int| 0 <= j < i ==> v.deep_view()[j] != s@,
        decreases v@.len() - i,
    {
        proof {
            assert(v.deep_view()[i as int] == v@[i as int]@);
        }
        if str_eq(v[i].as_str(), s) {
            return true;
        }
        i = i + 1;
    }
    false
}

/// The decision the recursion policy takes for one handler at one directory:
/// whether the directory registers in the parent's exclude list, and whether
/// it becomes a task of its own. An unresolved `inherit` is an internal
/// invariant violation.
pub open spec fn spec_policy_decision(on_recursion: OnRecursion) -> Result<
    (bool, bool),
    CollectErrorV,
> {
    match on_recursion {
        OnRecursion::Skip => Ok((true, false)),
        OnRecursion::Include => Ok((false, false)),
        OnRecursion::Standalone => Ok((true, true)),
        OnRecursion::Double => Ok((false, true)),
        OnRecursion::Inherit => Err(CollectErrorV::InternalInvariant),
    }
}

/// Applies the recursion policy for one handler at `current_dir`: `skip` and
/// `standalone` register the directory in the parent's exclude list; the
/// result says whether the directory becomes a task of its own. An
/// unresolved `inherit` is rejected as an internal invariant violation.
pub fn apply_recursion_strategy(
    current_dir: &String,
    on_recursion: &OnRecursion,
    super_exclude_list: &mut Vec<String>,
) -> (r: Result<bool, CollectError>)
    ensures
        match r {
            Ok(create) => {
                &&& spec_policy_decision(*on_recursion) matches Ok(d)
                &&& create == d.1
                &&& final(super_exclude_list).deep_view() == if d.0 {
                    old(super_exclude_list).deep_view().push(current_dir@)
                } else {
                    old(super_exclude_list).deep_view()
                }
            },
            Err(e) => spec_policy_decision(*on_recursion) == Err::<(bool, bool), CollectErrorV>(e@)
                && final(super_exclude_list).deep_view() == old(super_exclude_list).deep_view(),
        },
{
    match on_recursion {
        OnRecursion::Skip => {
            let ghost before = super_exclude_list.deep_view();
            super_exclude_list.push(current_dir.clone());
            proof {
                assert(super_exclude_list.deep_view() =~= before.push(current_dir@));
            }
            Ok(false)
        },
        OnRecursion::Include => Ok(false),
        OnRecursion::Standalone => {
            let ghost before = super_exclude_list.deep_view();
            super_exclude_list.push(current_dir.clone());
            proof {
                assert(super_exclude_list.deep_view() =~= before.push(current_dir@));
            }
            Ok(true)
        },
        OnRecursion::Double => Ok(true),
        OnRecursion::Inherit => Err(CollectError::InternalInvariant),
    }
}

/// The parent's git section, where the parent has one of the git kind.
pub open spec fn spec_sup_git(sup: Option<DionysiusConfigV>) -> Option<GitConfigV> {
    match sup {
        Some(s) => match s.git {
            Some(PushTaskConfigV::Git(g)) => Some(g),
            _ => None,
        },
        None => None,
    }
}

/// The parent's borg section, where the parent has one of the borg kind.
pub open spec fn spec_sup_borg(sup: Option<DionysiusConfigV>) -> Option<BorgConfigV> {
    match sup {
        Some(s) => match s.borg {
            Some(PushTaskConfigV::Borg(b)) => Some(b),
            _ => None,
        },
        None => None,
    }
}

/// The parent's trigger section, where the parent has one of the trigger
/// kind.
pub open spec fn spec_sup_trigger(sup: Option<DionysiusConfigV>) -> Option<TriggerConfig> {
    match sup {
        Some(s) => match s.trigger {
            Some(PushTaskConfigV::Trigger(t)) => Some(t),
            _ => None,
        },
        None => None,
    }
}

/// Resolution of one section against the parent's section of the same
/// handler kind.
pub open spec fn spec_inherit_section(
    sec: PushTaskConfigV,
    sup: Option<DionysiusConfigV>,
) -> PushTaskConfigV {
    match sec {
        PushTaskConfigV::Trigger(t) => PushTaskConfigV::Trigger(
            spec_trigger_cfg_inherit(t, spec_sup_trigger(sup)),
        ),
        PushTaskConfigV::Git(g) => PushTaskConfigV::Git(spec_git_cfg_inherit(g, spec_sup_git(sup))),
        PushTaskConfigV::Borg(b) => PushTaskConfigV::Borg(
            spec_borg_cfg_inherit(b, spec_sup_borg(sup)),
        ),
    }
}

/// The effective configuration of a directory: every section of the local
/// configuration resolved against the parent's effective configuration.
pub open spec fn spec_dio_inherit(
    this: DionysiusConfigV,
    sup: Option<DionysiusConfigV>,
) -> DionysiusConfigV {
    DionysiusConfigV {
        trigger: match this.trigger {
            Some(t) => Some(spec_inherit_section(t, sup)),
            None => None,
        },
        git: match this.git {
            Some(g) => Some(spec_inherit_section(g, sup)),
            None => None,
        },
        borg: match this.borg {
            Some(b) => Some(spec_inherit_section(b, sup)),
            None => None,
        },
    }
}

/// The view of an optional borrowed configuration.
pub open spec fn spec_sup_view(sup: Option<&DionysiusConfig>) -> Option<DionysiusConfigV> {
    match sup {
        Some(c) => Some(c@),
        None => None,
    }
}

fn inherit_section(sec: &PushTaskConfig, sup: Option<&DionysiusConfig>) -> (r: PushTaskConfig)
    ensures
        r@ == spec_inherit_section(sec@, spec_sup_view(sup)),
{
    match sec {
        PushTaskConfig::Trigger(t) => {
            let sup_sec = match sup {
                Some(s) => match &s.trigger {
                    Some(PushTaskConfig::Trigger(st)) => Some(st),
                    _ => None,
                },
                None => None,
            };
            PushTaskConfig::Trigger(
                crate::config::HasInheritableConfig::inherit_from(t, sup_sec),
            )
        },
        PushTaskConfig::Git(g) => {
            let sup_sec = match sup {
                Some(s) => match &s.git {
                    Some(PushTaskConfig::Git(sg)) => Some(sg),
                    _ => None,
                },
                None => None,
            };
            PushTaskConfig::Git(crate::config::HasInheritableConfig::inherit_from(g, sup_sec))
        },
        PushTaskConfig::Borg(b) => {
            let sup_sec = match sup {
                Some(s) => match &s.borg {
                    Some(PushTaskConfig::Borg(sb)) => Some(sb),
                    _ => None,
                },
                None => None,
            };
            PushTaskConfig::Borg(crate::config::HasInheritableConfig::inherit_from(b, sup_sec))
        },
    }
}

/// Gitignore patterns parsed out of the command-line exclude strings, in
/// order; strings that fail to parse are dropped.
pub open spec fn spec_git_cli_excludes(pats: Seq<Seq<char>>) -> Seq<Seq<char>>
    decreases pats.len(),
{
    if pats.len() == 0 {
        Seq::empty()
    } else {
        let rest = spec_git_cli_excludes(pats.drop_last());
        match spec_gitignore_from_string(pats.last()) {
            Ok(g) => rest.push(g),
            Err(_) => rest,
        }
    }
}

/// Borg patterns parsed out of a list of strings, in order; strings that
/// fail to parse are dropped.
pub open spec fn spec_borg_parse_list(pats: Seq<Seq<char>>) -> Seq<BorgPatternView>
    decreases pats.len(),
{
    if pats.len() == 0 {
        Seq::empty()
    } else {
        let rest = spec_borg_parse_list(pats.drop_last());
        match spec_parse_borg(pats.last()) {
            Ok(p) => rest.push(p),
            Err(_) => rest,
        }
    }
}

/// Borg patterns converted out of gitignore patterns, in order; patterns
/// that do not convert (negations) are dropped.
pub open spec fn spec_borg_from_gitignores(gs: Seq<Seq<char>>) -> Seq<BorgPatternView>
    decreases gs.len(),
{
    if gs.len() == 0 {
        Seq::empty()
    } else {
        let rest = spec_borg_from_gitignores(gs.drop_last());
        match spec_gitignore_to_borg(gs.last()) {
            Ok(p) => rest.push(p),
            Err(_) => rest,
        }
    }
}

fn parse_git_cli_excludes(pats: &Vec<String>) -> (r: Vec<GitIgnorePattern>)
    ensures
        r@.map_values(|p: GitIgnorePattern| p@) == spec_git_cli_excludes(pats.deep_view()),
{
    let mut r: Vec<GitIgnorePattern> = Vec::new();
    let mut i: usize = 0;
    proof {
        assert(pats.deep_view().take(0) =~= Seq::<Seq<char>>::empty());
        assert(r@.map_values(|p: GitIgnorePattern| p@) =~= spec_git_cli_excludes(
            pats.deep_view().take(0),
        ));
    }
    while i < pats.len()
        invariant
            i <= pats@.len(),
            pats.deep_view().len() == pats@.len(),
            r@.map_values(|p: GitIgnorePattern| p@) == spec_git_cli_excludes(
                pats.deep_view().take(i as int),
            ),
        decreases pats@.len() - i,
    {
        let ghost prefix = pats.deep_view().take(i as int);
        proof {
            assert(pats.deep_view().take(i as int + 1).drop_last() =~= prefix);
            assert(pats.deep_view().take(i as int + 1).last() == pats@[i as int]@);
        }
        let ghost before = r@;
        if let Ok(g) = gitignore_pattern_from_string(&pats[i]) {
            r.push(g);
            proof {
                assert(r@.map_values(|p: GitIgnorePattern| p@) =~= before.map_values(
                    |p: GitIgnorePattern| p@,
                ).push(r@.last()@));
            }
        }
        i = i + 1;
    }
    proof {
        assert(pats.deep_view().take(pats@.len() as int) =~= pats.deep_view());
    }
    r
}

fn parse_borg_list(pats: &Vec<String>) -> (r: Vec<BorgPattern>)
    ensures
        r@.map_values(|p: BorgPattern| p@) == spec_borg_parse_list(pats.deep_view()),
{
    let mut r: Vec<BorgPattern> = Vec::new();
    let mut i: usize = 0;
    proof {
        assert(pats.deep_view().take(0) =~= Seq::<Seq<char>>::empty());
        assert(r@.map_values(|p: BorgPattern| p@) =~= spec_borg_parse_list(
            pats.deep_view().take(0),
        ));
    }
    while i < pats.len()
        invariant
            i <= pats@.len(),
            pats.deep_view().len() == pats@.len(),
            r@.map_values(|p: BorgPattern| p@) == spec_borg_parse_list(
                pats.deep_view().take(i as int),
            ),
        decreases pats@.len() - i,
    {
        let ghost prefix = pats.deep_view().take(i as int);
        proof {
            assert(pats.deep_view().take(i as int + 1).drop_last() =~= prefix);
            assert(pats.deep_view().take(i as int + 1).last() == pats@[i as int]@);
        }
        let ghost before = r@;
        if let Ok(p) = borg_pattern_from_string(&pats[i]) {
            r.push(p);
            proof {
                assert(r@.map_values(|p: BorgPattern| p@) =~= before.map_values(
                    |p: BorgPattern| p@,
                ).push(r@.last()@));
            }
        }
        i = i + 1;
    }
    proof {
        assert(pats.deep_view().take(pats@.len() as int) =~= pats.deep_view());
    }
    r
}

fn borg_from_gitignore_lines(lines: &Vec<String>) -> (r: Vec<BorgPattern>)
    ensures
        r@.map_values(|p: BorgPattern| p@) == spec_borg_from_gitignores(
            spec_read_gitignore(lines.deep_view()),
        ),
{
    let gs = read_gitignore(lines);
    let ghost gsv = gs@.map_values(|p: GitIgnorePattern| p@);
    proof {
        assert(lines.deep_view() =~= strs_view(lines@));
    }
    let mut r: Vec<BorgPattern> = Vec::new();
    let mut i: usize = 0;
    proof {
        assert(gsv.take(0) =~= Seq::<Seq<char>>::empty());
        assert(r@.map_values(|p: BorgPattern| p@) =~= spec_borg_from_gitignores(gsv.take(0)));
    }
    while i < gs.len()
        invariant
            i <= gs@.len(),
            gsv == gs@.map_values(|p: GitIgnorePattern| p@),
            r@.map_values(|p: BorgPattern| p@) == spec_borg_from_gitignores(gsv.take(i as int)),
        decreases gs@.len() - i,
    {
        let ghost prefix = gsv.take(i as int);
        proof {
            assert(gsv.take(i as int + 1).drop_last() =~= prefix);
            assert(gsv.take(i as int + 1).last() == gs@[i as int]@);
        }
        let ghost before = r@;
        if let Ok(p) = gitignore_to_borg(&gs[i]) {
            r.push(p);
            proof {
                assert(r@.map_values(|p: BorgPattern| p@) =~= before.map_values(
                    |p: BorgPattern| p@,
                ).push(r@.last()@));
            }
        }
        i = i + 1;
    }
    proof {
        assert(gsv.take(gs@.len() as int) =~= gsv);
    }
    r
}

/// Whether a run of kind `ttid` visits this section: a trigger run visits
/// every section, any other run only the sections whose `trigger_by` names
/// it.
pub open spec fn spec_eligible(sec: PushTaskConfigV, ttid: Seq<char>) -> bool {
    ttid == "trigger"@ || spec_accepted_trigger(sec).contains(ttid)
}

/// The policy outcome of one section at one directory: `(register, create)`,
/// or nothing where the run does not visit the section. A missing recursion
/// policy is a configuration error, an unresolved `inherit` an internal
/// invariant violation.
pub open spec fn spec_section_policy(sec: PushTaskConfigV, ttid: Seq<char>) -> Result<
    (bool, bool),
    CollectErrorV,
> {
    if !spec_eligible(sec, ttid) {
        Ok((false, false))
    } else {
        match spec_assets_on_recursion(sec) {
            None => Err(CollectErrorV::ConfigIncomplete("`on_recursion` is not set"@)),
            Some(o) => spec_policy_decision(o),
        }
    }
}

/// The policy outcomes of the three section slots, in the fixed order; an
/// absent section neither registers nor creates.
pub open spec fn spec_dir_policies(eff: DionysiusConfigV, ttid: Seq<char>) -> Result<
    ((bool, bool), (bool, bool), (bool, bool)),
    CollectErrorV,
> {
    let tp = match eff.trigger {
        Some(s) => spec_section_policy(s, ttid),
        None => Ok((false, false)),
    };
    match tp {
        Err(e) => Err(e),
        Ok(tpd) => {
            let gp = match eff.git {
                Some(s) => spec_section_policy(s, ttid),
                None => Ok((false, false)),
            };
            match gp {
                Err(e) => Err(e),
                Ok(gpd) => {
                    let bp = match eff.borg {
                        Some(s) => spec_section_policy(s, ttid),
                        None => Ok((false, false)),
                    };
                    match bp {
                        Err(e) => Err(e),
                        Ok(bpd) => Ok((tpd, gpd, bpd)),
                    }
                },
            }
        },
    }
}

/// The task one creating section yields: a trigger marker, a git save task,
/// or a borg create task, with the frozen exclude list and the extra exclude
/// patterns resolved by the section's own pattern language.
pub open spec fn spec_task_for_section(
    sec: PushTaskConfigV,
    dir: Seq<char>,
    own: Seq<Seq<char>>,
    cli_pats: Seq<Seq<char>>,
    gitignore: Option<Seq<Seq<char>>>,
) -> Result<TaskV, CollectErrorV> {
    match sec {
        PushTaskConfigV::Trigger(_) => Ok(TaskV::Trigger(dir)),
        PushTaskConfigV::Git(g) => {
            let on_unsave = match g.assets {
                Some(a) => a.on_unsave,
                None => None,
            };
            match on_unsave {
                Some(u) => Ok(
                    TaskV::Git(
                        GitSaveTaskV {
                            repo_path: dir,
                            exclude_list: own,
                            unsaved_behavior: u,
                            extra_exclude_patterns: spec_git_cli_excludes(cli_pats),
                        },
                    ),
                ),
                None => Err(CollectErrorV::ConfigIncomplete("`on_unsave` is not set"@)),
            }
        },
        PushTaskConfigV::Borg(b) => {
            let target = match b.target {
                Some(t) => t.target,
                None => None,
            };
            match target {
                None => Err(CollectErrorV::InternalInvariant),
                Some(tt) => {
                    let cli_part = spec_borg_parse_list(cli_pats);
                let cfg_part = match b.assets {
                    Some(a) => match a.exclude_list {
                        Some(l) => spec_borg_parse_list(l),
                        None => Seq::empty(),
                    },
                    None => Seq::empty(),
                };
                let git_part = if b.assets matches Some(a) && a.extra_exclude_mode matches Some(m)
                    && m.contains("git"@) && gitignore is Some {
                    spec_borg_from_gitignores(spec_read_gitignore(gitignore->0))
                } else {
                    Seq::empty()
                };
                    Ok(
                        TaskV::Borg(
                            BorgCreateTaskV {
                                source: dir,
                                target: tt,
                                exclude_list: own,
                                extra_exclude_patterns: cli_part + cfg_part + git_part,
                                options: crate::borg::spec_borg_default_options(),
                            },
                        ),
                    )
                },
            }
        },
    }
}

/// What collecting at one directory yields: whether the run got this far,
/// the tasks appended (in post-order), and the parent exclude list as it
/// stands afterwards.
pub open spec fn spec_collect(
    ttid: Seq<char>,
    node: DirNode,
    dir: Seq<char>,
    sup: Option<DionysiusConfigV>,
    excl: Seq<Seq<char>>,
    cli: CliTaskConfig,
) -> Result<(Seq<TaskV>, Seq<Seq<char>>), CollectErrorV>
    decreases node, 1int, 0int,
{
    if excl.contains(dir) {
        Ok((Seq::empty(), excl))
    } else if !cli.search_hidden && starts_with_char(node.name@, '.') {
        Ok((Seq::empty(), excl))
    } else if node.config is None && !node.has_git_dir {
        spec_collect_children(ttid, node.children@, 0, dir, sup, excl, cli)
    } else {
        let raw = match node.config {
            Some(c) => c@,
            None => spec_git_default_dio(),
        };
        let completed = if spec_dio_is_complete(raw) {
            Ok(raw)
        } else {
            spec_dio_completion(raw)
        };
        match completed {
            Err(e) => Err(CollectErrorV::ConfigIncomplete(e)),
            Ok(cfg) => {
                let eff = spec_dio_inherit(cfg, sup);
                match spec_dir_policies(eff, ttid) {
                    Err(e) => Err(e),
                    Ok(pols) => {
                        let excl1 = if pols.0.0 {
                            excl.push(dir)
                        } else {
                            excl
                        };
                        let excl2 = if pols.1.0 {
                            excl1.push(dir)
                        } else {
                            excl1
                        };
                        let excl3 = if pols.2.0 {
                            excl2.push(dir)
                        } else {
                            excl2
                        };
                        if !(pols.0.1 || pols.1.1 || pols.2.1) {
                            Ok((Seq::empty(), excl3))
                        } else {
                            match spec_collect_children(
                                ttid,
                                node.children@,
                                0,
                                dir,
                                Some(eff),
                                Seq::empty(),
                                cli,
                            ) {
                                Err(e) => Err(e),
                                Ok(sub) => spec_created_tasks(
                                    eff,
                                    pols,
                                    dir,
                                    sub.1,
                                    cli.exclude_patterns.deep_view(),
                                    node.gitignore.deep_view(),
                                    sub.0,
                                    excl3,
                                ),
                            }
                        }
                    },
                }
            },
        }
    }
}

/// The tasks of the creating sections of one directory, in the fixed order,
/// appended after the subtree's tasks.
pub open spec fn spec_created_tasks(
    eff: DionysiusConfigV,
    pols: ((bool, bool), (bool, bool), (bool, bool)),
    dir: Seq<char>,
    own: Seq<Seq<char>>,
    cli_pats: Seq<Seq<char>>,
    gitignore: Option<Seq<Seq<char>>>,
    child_tasks: Seq<TaskV>,
    excl_out: Seq<Seq<char>>,
) -> Result<(Seq<TaskV>, Seq<Seq<char>>), CollectErrorV> {
    let tt = if pols.0.1 {
        match spec_task_for_section(eff.trigger->0, dir, own, cli_pats, gitignore) {
            Ok(t) => Ok(seq![t]),
            Err(e) => Err(e),
        }
    } else {
        Ok(Seq::empty())
    };
    match tt {
        Err(e) => Err(e),
        Ok(ts0) => {
            let gt = if pols.1.1 {
                match spec_task_for_section(eff.git->0, dir, own, cli_pats, gitignore) {
                    Ok(t) => Ok(seq![t]),
                    Err(e) => Err(e),
                }
            } else {
                Ok(Seq::empty())
            };
            match gt {
                Err(e) => Err(e),
                Ok(ts1) => {
                    let bt = if pols.2.1 {
                        match spec_task_for_section(eff.borg->0, dir, own, cli_pats, gitignore) {
                            Ok(t) => Ok(seq![t]),
                            Err(e) => Err(e),
                        }
                    } else {
                        Ok(Seq::empty())
                    };
                    match bt {
                        Err(e) => Err(e),
                        Ok(ts2) => Ok((child_tasks + ts0 + ts1 + ts2, excl_out)),
                    }
                },
            }
        },
    }
}

/// What collecting the children of a directory from position `from` on
/// yields, threading the shared exclude list left to right.
pub open spec fn spec_collect_children(
    ttid: Seq<char>,
    nodes: Seq<DirNode>,
    from: int,
    parent_dir: Seq<char>,
    sup: Option<DionysiusConfigV>,
    excl: Seq<Seq<char>>,
    cli: CliTaskConfig,
) -> Result<(Seq<TaskV>, Seq<Seq<char>>), CollectErrorV>
    decreases nodes, 0int, nodes.len() - from,
{
    if from < 0 || from >= nodes.len() {
        Ok((Seq::empty(), excl))
    } else {
        match spec_collect(
            ttid,
            nodes[from],
            spec_join_path(parent_dir, nodes[from].name@),
            sup,
            excl,
            cli,
        ) {
            Err(e) => Err(e),
            Ok(first) => match spec_collect_children(
                ttid,
                nodes,
                from + 1,
                parent_dir,
                sup,
                first.1,
                cli,
            ) {
                Err(e) => Err(e),
                Ok(rest) => Ok((first.0 + rest.0, rest.1)),
            },
        }
    }
}

/// Resolves a directory's configuration against the parent's effective
/// configuration: each section inherits from the parent's section of the
/// same handler kind; with no parent, `inherit` policies fall back to the
/// handler default.
pub fn inherit_config(this: &DionysiusConfig, sup: Option<&DionysiusConfig>) -> (r: DionysiusConfig)
    ensures
        r@ == spec_dio_inherit(this@, spec_sup_view(sup)),
{
    DionysiusConfig {
        trigger: match &this.trigger {
            Some(t) => Some(inherit_section(t, sup)),
            None => None,
        },
        git: match &this.git {
            Some(g) => Some(inherit_section(g, sup)),
            None => None,
        },
        borg: match &this.borg {
            Some(b) => Some(inherit_section(b, sup)),
            None => None,
        },
    }
}

fn section_eligible(sec: &PushTaskConfig, task_type_id: &str) -> (r: bool)
    ensures
        r == spec_eligible(sec@, task_type_id@),
{
    if str_eq(task_type_id, "trigger") {
        true
    } else {
        let acc = sec.accepted_trigger();
        contains_string(&acc, task_type_id)
    }
}

fn section_policy_apply(
    sec: &PushTaskConfig,
    task_type_id: &str,
    current_dir: &String,
    super_exclude_list: &mut Vec<String>,
) -> (r: Result<bool, CollectError>)
    ensures
        match r {
            Ok(create) => {
                &&& spec_section_policy(sec@, task_type_id@) matches Ok(d)
                &&& create == d.1
                &&& final(super_exclude_list).deep_view() == if d.0 {
                    old(super_exclude_list).deep_view().push(current_dir@)
                } else {
                    old(super_exclude_list).deep_view()
                }
            },
            Err(e) => spec_section_policy(sec@, task_type_id@) == Err::<(bool, bool), CollectErrorV>(
                e@,
            ) && final(super_exclude_list).deep_view() == old(super_exclude_list).deep_view(),
        },
{
    if !section_eligible(sec, task_type_id) {
        return Ok(false);
    }
    match sec.assets_on_recursion() {
        None => Err(CollectError::ConfigIncomplete("`on_recursion` is not set")),
        Some(o) => apply_recursion_strategy(current_dir, &o, super_exclude_list),
    }
}

fn section_task(
    sec: &PushTaskConfig,
    current_dir: &String,
    own_exclude: &Vec<String>,
    cli_config: &CliTaskConfig,
    gitignore: &Option<Vec<String>>,
) -> (r: Result<Task, CollectError>)
    ensures
        match r {
            Ok(t) => spec_task_for_section(
                sec@,
                current_dir@,
                own_exclude.deep_view(),
                cli_config.exclude_patterns.deep_view(),
                gitignore.deep_view(),
            ) == Ok::<TaskV, CollectErrorV>(t@),
            Err(e) => spec_task_for_section(
                sec@,
                current_dir@,
                own_exclude.deep_view(),
                cli_config.exclude_patterns.deep_view(),
                gitignore.deep_view(),
            ) == Err::<TaskV, CollectErrorV>(e@),
        },
{
    match sec {
        PushTaskConfig::Trigger(_) => Ok(
            Task::Trigger(TriggerTask { current_dir: current_dir.clone() }),
        ),
        PushTaskConfig::Git(g) => {
            let on_unsave = match &g.assets {
                Some(a) => a.on_unsave,
                None => None,
            };
            match on_unsave {
                Some(u) => {
                    let excl = own_exclude.clone();
                    let extra = parse_git_cli_excludes(&cli_config.exclude_patterns);
                    let t = GitSaveTask {
                        repo_path: current_dir.clone(),
                        exclude_list: excl,
                        unsaved_behavior: u,
                        extra_exclude_patterns: extra,
                    };
                    proof {
                        assert(t.exclude_list.deep_view() =~~= own_exclude.deep_view());
                    }
                    Ok(Task::Git(t))
                },
                None => Err(CollectError::ConfigIncomplete("`on_unsave` is not set")),
            }
        },
        PushTaskConfig::Borg(b) => {
            let target: Option<String> = match &b.target {
                Some(t) => match &t.target {
                    Some(tt) => Some(tt.clone()),
                    None => None,
                },
                None => None,
            };
            match target {
                None => Err(CollectError::InternalInvariant),
                Some(tt) => {
                    let mut extra = parse_borg_list(&cli_config.exclude_patterns);
                    let ghost cli_part = extra@.map_values(|p: BorgPattern| p@);
                    let mut cfg_vec: Vec<BorgPattern> = match &b.assets {
                        Some(a) => match &a.exclude_list {
                            Some(l) => parse_borg_list(l),
                            None => Vec::new(),
                        },
                        None => Vec::new(),
                    };
                    let ghost cfg_part = cfg_vec@.map_values(|p: BorgPattern| p@);
                    let use_gitignore = match &b.assets {
                        Some(a) => match &a.extra_exclude_mode {
                            Some(m) => contains_string(m, "git"),
                            None => false,
                        },
                        None => false,
                    };
                    let mut git_vec: Vec<BorgPattern> = if use_gitignore {
                        match gitignore {
                            Some(lines) => borg_from_gitignore_lines(lines),
                            None => Vec::new(),
                        }
                    } else {
                        Vec::new()
                    };
                    let ghost git_part = git_vec@.map_values(|p: BorgPattern| p@);
                    extra.append(&mut cfg_vec);
                    extra.append(&mut git_vec);
                    let excl = own_exclude.clone();
                    let t = BorgCreateTask {
                        source: current_dir.clone(),
                        target: tt,
                        exclude_list: excl,
                        extra_exclude_patterns: extra,
                        options: BorgCreateOptions::default(),
                    };
                    proof {
                        assert(t.exclude_list.deep_view() =~~= own_exclude.deep_view());
                        assert(t.extra_exclude_patterns@.map_values(|p: BorgPattern| p@)
                            =~= cli_part + cfg_part + git_part);
                        if gitignore.deep_view() is Some {
                            assert(gitignore matches Some(l) && l.deep_view()
                                == gitignore.deep_view()->0);
                        }
                    }
                    Ok(Task::Borg(t))
                },
            }
        },
    }
}

/// Collects tasks at one directory of the tree: checks the parent's exclude
/// list and the hidden filter, resolves the directory's configuration,
/// applies each eligible handler's recursion policy (registering the
/// directory in the parent's exclude list where the policy says so), and,
/// where some handler creates a task, first collects the whole subtree with
/// a fresh shared exclude list and then appends this directory's tasks in
/// the fixed order trigger, git, borg.
pub fn collect_tasks(
    task_type_id: &str,
    node: &DirNode,
    current_dir: &String,
    task_list: &mut Vec<Task>,
    super_config: Option<&DionysiusConfig>,
    super_exclude_list: &mut Vec<String>,
    cli_config: &CliTaskConfig,
) -> (r: Result<(), CollectError>)
    ensures
        match r {
            Ok(_) => ({
                &&& spec_collect(
                    task_type_id@,
                    *node,
                    current_dir@,
                    spec_sup_view(super_config),
                    old(super_exclude_list).deep_view(),
                    *cli_config,
                ) matches Ok(out)
                &&& tasks_view(final(task_list)@) == tasks_view(old(task_list)@) + out.0
                &&& final(super_exclude_list).deep_view() == out.1
            }),
            Err(e) => spec_collect(
                task_type_id@,
                *node,
                current_dir@,
                spec_sup_view(super_config),
                old(super_exclude_list).deep_view(),
                *cli_config,
            ) == Err::<(Seq<TaskV>, Seq<Seq<char>>), CollectErrorV>(e@),
        },
    decreases *node, 1int, 0int,
{
    let ghost excl0 = super_exclude_list.deep_view();
    let ghost tasks0 = task_list@;
    if contains_string(super_exclude_list, current_dir.as_str()) {
        proof {
            assert(tasks_view(task_list@) =~= tasks_view(tasks0) + Seq::<TaskV>::empty());
        }
        return Ok(());
    }
    if !cli_config.search_hidden && crate::strutil::first_char_is(&node.name, '.') {
        proof {
            assert(tasks_view(task_list@) =~= tasks_view(tasks0) + Seq::<TaskV>::empty());
        }
        return Ok(());
    }
    if node.config.is_none() && !node.has_git_dir {
        return collect_children(
            task_type_id,
            &node.children,
            current_dir,
            task_list,
            super_config,
            super_exclude_list,
            cli_config,
        );
    }
    let raw: DionysiusConfig = match &node.config {
        Some(c) => c.clone(),
        None => DionysiusConfig::git_default_config(),
    };
    let cfg: DionysiusConfig = if raw.is_complete() {
        raw
    } else {
        match raw.completion() {
            Ok(c) => c,
            Err(e) => {
                return Err(CollectError::ConfigIncomplete(e));
            },
        }
    };
    let eff = inherit_config(&cfg, super_config);
    let create_trigger = match &eff.trigger {
        Some(s) => match section_policy_apply(s, task_type_id, current_dir, super_exclude_list) {
            Ok(c) => c,
            Err(e) => {
                return Err(e);
            },
        },
        None => false,
    };
    let create_git = match &eff.git {
        Some(s) => match section_policy_apply(s, task_type_id, current_dir, super_exclude_list) {
            Ok(c) => c,
            Err(e) => {
                return Err(e);
            },
        },
        None => false,
    };
    let create_borg = match &eff.borg {
        Some(s) => match section_policy_apply(s, task_type_id, current_dir, super_exclude_list) {
            Ok(c) => c,
            Err(e) => {
                return Err(e);
            },
        },
        None => false,
    };
    if !(create_trigger || create_git || create_borg) {
        proof {
            assert(tasks_view(task_list@) =~= tasks_view(tasks0) + Seq::<TaskV>::empty());
        }
        return Ok(());
    }
    let mut own_exclude: Vec<String> = Vec::new();
    proof {
        assert(own_exclude.deep_view() =~= Seq::<Seq<char>>::empty());
    }
    match collect_children(
        task_type_id,
        &node.children,
        current_dir,
        task_list,
        Some(&eff),
        &mut own_exclude,
        cli_config,
    ) {
        Ok(_) => {},
        Err(e) => {
            return Err(e);
        },
    }
    if create_trigger {
        let sec = eff.trigger.as_ref().unwrap();
        match section_task(sec, current_dir, &own_exclude, cli_config, &node.gitignore) {
            Ok(t) => {
                let ghost before = task_list@;
                task_list.push(t);
                proof {
                    assert(tasks_view(task_list@) =~= tasks_view(before).push(
                        task_list@.last()@,
                    ));
                }
            },
            Err(e) => {
                return Err(e);
            },
        }
    }
    if create_git {
        let sec = eff.git.as_ref().unwrap();
        match section_task(sec, current_dir, &own_exclude, cli_config, &node.gitignore) {
            Ok(t) => {
                let ghost before = task_list@;
                task_list.push(t);
                proof {
                    assert(tasks_view(task_list@) =~= tasks_view(before).push(
                        task_list@.last()@,
                    ));
                }
            },
            Err(e) => {
                return Err(e);
            },
        }
    }
    if create_borg {
        let sec = eff.borg.as_ref().unwrap();
        match section_task(sec, current_dir, &own_exclude, cli_config, &node.gitignore) {
            Ok(t) => {
                let ghost before = task_list@;
                task_list.push(t);
                proof {
                    assert(tasks_view(task_list@) =~= tasks_view(before).push(
                        task_list@.last()@,
                    ));
                }
            },
            Err(e) => {
                return Err(e);
            },
        }
    }
    proof {
        let ttid = task_type_id@;
        let supv = spec_sup_view(super_config);
        let out = spec_collect(ttid, *node, current_dir@, supv, excl0, *cli_config)->Ok_0;
        assert(tasks_view(task_list@) =~= tasks_view(tasks0) + out.0);
    }
    Ok(())
}

#[verifier::loop_isolation(false)]
fn collect_children(
    task_type_id: &str,
    children: &Vec<DirNode>,
    parent_dir: &String,
    task_list: &mut Vec<Task>,
    super_config: Option<&DionysiusConfig>,
    excl: &mut Vec<String>,
    cli_config: &CliTaskConfig,
) -> (r: Result<(), CollectError>)
    ensures
        match r {
            Ok(_) => ({
                &&& spec_collect_children(
                    task_type_id@,
                    children@,
                    0,
                    parent_dir@,
                    spec_sup_view(super_config),
                    old(excl).deep_view(),
                    *cli_config,
                ) matches Ok(out)
                &&& tasks_view(final(task_list)@) == tasks_view(old(task_list)@) + out.0
                &&& final(excl).deep_view() == out.1
            }),
            Err(e) => spec_collect_children(
                task_type_id@,
                children@,
                0,
                parent_dir@,
                spec_sup_view(super_config),
                old(excl).deep_view(),
                *cli_config,
            ) == Err::<(Seq<TaskV>, Seq<Seq<char>>), CollectErrorV>(e@),
        },
    decreases children@, 0int, 0int,
{
    let ghost ttid = task_type_id@;
    let ghost supv = spec_sup_view(super_config);
    let ghost excl0 = old(excl).deep_view();
    let ghost tasks0 = old(task_list)@;
    let ghost full = spec_collect_children(ttid, children@, 0, parent_dir@, supv, excl0, *cli_config);
    let mut i: usize = 0;
    let ghost mut acc: Seq<TaskV> = Seq::empty();
    proof {
        assert(tasks_view(task_list@) =~= tasks_view(tasks0) + acc);
        match spec_collect_children(
            ttid,
            children@,
            0,
            parent_dir@,
            supv,
            excl.deep_view(),
            *cli_config,
        ) {
            Ok(r2) => {
                assert(acc + r2.0 =~= r2.0);
            },
            Err(_) => {},
        }
    }
    while i < children.len()
        invariant
            i <= children@.len(),
            tasks_view(task_list@) == tasks_view(tasks0) + acc,
            full == spec_collect_children(
                ttid,
                children@,
                0,
                parent_dir@,
                supv,
                excl0,
                *cli_config,
            ),
            ttid == task_type_id@,
            supv == spec_sup_view(super_config),
            ({
                let rest = spec_collect_children(
                    ttid,
                    children@,
                    i as int,
                    parent_dir@,
                    supv,
                    excl.deep_view(),
                    *cli_config,
                );
                match rest {
                    Ok(r2) => full matches Ok(f) && f.0 == acc + r2.0 && f.1 == r2.1,
                    Err(e) => full == Err::<(Seq<TaskV>, Seq<Seq<char>>), CollectErrorV>(e),
                }
            }),
        decreases children@.len() - i,
    {
        let child = &children[i];
        let child_dir = join_path(parent_dir, &child.name);
        let ghost excl_before = excl.deep_view();
        let ghost tasks_before = task_list@;
        match collect_tasks(
            task_type_id,
            child,
            &child_dir,
            task_list,
            super_config,
            excl,
            cli_config,
        ) {
            Ok(_) => {
                proof {
                    let first = spec_collect(
                        ttid,
                        children@[i as int],
                        spec_join_path(parent_dir@, children@[i as int].name@),
                        supv,
                        excl_before,
                        *cli_config,
                    )->Ok_0;
                    let acc_old = acc;
                    acc = acc + first.0;
                    assert(tasks_view(task_list@) =~= tasks_view(tasks0) + acc);
                    let rest_next = spec_collect_children(
                        ttid,
                        children@,
                        i as int + 1,
                        parent_dir@,
                        supv,
                        excl.deep_view(),
                        *cli_config,
                    );
                    match rest_next {
                        Ok(r3) => {
                            assert(acc_old + (first.0 + r3.0) =~= acc + r3.0);
                        },
                        Err(_) => {},
                    }
                }
            },
            Err(e) => {
                proof {
                    assert(spec_collect(
                        ttid,
                        children@[i as int],
                        spec_join_path(parent_dir@, children@[i as int].name@),
                        supv,
                        excl_before,
                        *cli_config,
                    ) == Err::<(Seq<TaskV>, Seq<Seq<char>>), CollectErrorV>(e@));
                    assert(spec_collect_children(
                        ttid,
                        children@,
                        i as int,
                        parent_dir@,
                        supv,
                        excl_before,
                        *cli_config,
                    ) == Err::<(Seq<TaskV>, Seq<Seq<char>>), CollectErrorV>(e@));
                }
                return Err(e);
            },
        }
        i = i + 1;
    }
    proof {
        assert(acc + Seq::<TaskV>::empty() =~= acc);
    }
    Ok(())
}

/// Collects the tasks of a whole run: walks the tree from `root`, with no
/// parent configuration and no parent exclude list, and returns the task
/// list in post-order.
pub fn collect_tasks_root(
    task_type_id: &str,
    root: &DirNode,
    root_dir: &String,
    cli_config: &CliTaskConfig,
) -> (r: Result<Vec<Task>, CollectError>)
    ensures
        match r {
            Ok(tasks) => ({
                &&& spec_collect(
                    task_type_id@,
                    *root,
                    root_dir@,
                    None,
                    Seq::empty(),
                    *cli_config,
                ) matches Ok(out)
                &&& tasks_view(tasks@) == out.0
            }),
            Err(e) => spec_collect(
                task_type_id@,
                *root,
                root_dir@,
                None,
                Seq::empty(),
                *cli_config,
            ) == Err::<(Seq<TaskV>, Seq<Seq<char>>), CollectErrorV>(e@),
        },
{
    let mut task_list: Vec<Task> = Vec::new();
    let mut dummy_exclude: Vec<String> = Vec::new();
    proof {
        assert(dummy_exclude.deep_view() =~= Seq::<Seq<char>>::empty());
        assert(tasks_view(task_list@) =~= Seq::<TaskV>::empty());
    }
    match collect_tasks(
        task_type_id,
        root,
        root_dir,
        &mut task_list,
        None,
        &mut dummy_exclude,
        cli_config,
    ) {
        Ok(_) => {
            proof {
                let out = spec_collect(
                    task_type_id@,
                    *root,
                    root_dir@,
                    None,
                    Seq::empty(),
                    *cli_config,
                )->Ok_0;
                assert(tasks_view(task_list@) =~= Seq::<TaskV>::empty() + out.0);
                assert(Seq::<TaskV>::empty() + out.0 =~= out.0);
            }
            Ok(task_list)
        },
        Err(e) => Err(e),
    }
}

} // verus!
