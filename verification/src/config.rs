//! Configuration model: the per-directory configuration with its handler
//! sections, the completion rules that fill missing scalars from handler
//! defaults, and the inheritance algebra that resolves `inherit` recursion
//! policies against the parent's heritage.

use vstd::prelude::*;

use crate::borg::{spec_borg_completion, spec_borg_is_complete, BorgConfig, BorgConfigV};
use crate::git::{spec_git_completion, spec_git_is_complete, GitConfig, GitConfigV};
use crate::trigger::TriggerConfig;

verus! {

/// The five-valued recursion policy: what a directory that qualifies for a
/// task does when it sits inside the scope of an ancestor task.
#[derive(Clone, Copy, Debug, PartialEq, Eq, Structural)]
pub enum OnRecursion {
    Skip,
    Include,
    Standalone,
    Double,
    Inherit,
}

impl Default for OnRecursion {
    /// The handler default: a nested qualifying directory becomes its own
    /// task and is excluded from the ancestor's scope.
    fn default() -> (r: Self)
        ensures
            r == OnRecursion::Standalone,
    {
        OnRecursion::Standalone
    }
}

/// A configuration that can check itself for completeness and fill what is
/// missing from the handler defaults.
pub trait CompletableConfig: Sized {
    type CompletionResult;

    fn is_complete(&self) -> bool;

    fn completion(&self) -> Self::CompletionResult;
}

/// A record whose `inherit` recursion policy can be resolved against the
/// corresponding record of the parent's effective configuration.
pub trait InheritableConfig: Sized {
    fn inherit_from(&self, sup: Option<&Self>) -> Self;
}

/// A handler section that carries an assets record (its own behaviour as a
/// task root) and a heritage record (its influence on nested tasks).
pub trait HasInheritableConfig: Sized {
    type M: InheritableConfig;

    /// Whether the section carries an assets record.
    spec fn assets_present(&self) -> bool;

    /// Whether the section carries a heritage record.
    spec fn heritage_present(&self) -> bool;

    fn get_assets_config(&self) -> &Self::M
        requires
            self.assets_present(),
    ;

    fn get_heritage_config(&self) -> &Self::M
        requires
            self.heritage_present(),
    ;

    fn inherit_from(&self, sup: Option<&Self>) -> Self;
}

/// One handler section, tagged by its handler kind.
#[derive(Debug)]
pub enum PushTaskConfig {
    Trigger(TriggerConfig),
    Git(GitConfig),
    Borg(BorgConfig),
}

/// The mathematical value of a [`PushTaskConfig`].
pub enum PushTaskConfigV {
    Trigger(TriggerConfig),
    Git(GitConfigV),
    Borg(BorgConfigV),
}

impl View for PushTaskConfig {
    type V = PushTaskConfigV;

    open spec fn view(&self) -> PushTaskConfigV {
        match self {
            PushTaskConfig::Trigger(t) => PushTaskConfigV::Trigger(*t),
            PushTaskConfig::Git(g) => PushTaskConfigV::Git(g@),
            PushTaskConfig::Borg(b) => PushTaskConfigV::Borg(b@),
        }
    }
}

impl Clone for PushTaskConfig {
    fn clone(&self) -> (res: Self)
        ensures
            res@ == self@,
    {
        match self {
            PushTaskConfig::Trigger(t) => PushTaskConfig::Trigger(*t),
            PushTaskConfig::Git(g) => PushTaskConfig::Git(g.clone()),
            PushTaskConfig::Borg(b) => PushTaskConfig::Borg(b.clone()),
        }
    }
}

/// The task-type identifiers that trigger a handler section: its
/// `trigger_by` list, empty where the list is absent; a trigger section is
/// triggered by the git and borg run kinds.
pub open spec fn spec_accepted_trigger(c: PushTaskConfigV) -> Seq<Seq<char>> {
    match c {
        PushTaskConfigV::Trigger(_) => seq!["git"@, "borg"@],
        PushTaskConfigV::Git(g) => match g.assets {
            Some(a) => match a.trigger_by {
                Some(t) => t,
                None => Seq::empty(),
            },
            None => Seq::empty(),
        },
        PushTaskConfigV::Borg(b) => match b.assets {
            Some(a) => match a.trigger_by {
                Some(t) => t,
                None => Seq::empty(),
            },
            None => Seq::empty(),
        },
    }
}

/// The recursion policy this section's assets record carries, if any.
pub open spec fn spec_assets_on_recursion(c: PushTaskConfigV) -> Option<OnRecursion> {
    match c {
        PushTaskConfigV::Trigger(t) => match t.assets {
            Some(a) => a.on_recursion,
            None => None,
        },
        PushTaskConfigV::Git(g) => match g.assets {
            Some(a) => a.on_recursion,
            None => None,
        },
        PushTaskConfigV::Borg(b) => match b.assets {
            Some(a) => a.on_recursion,
            None => None,
        },
    }
}

/// The recursion policy this section hands to nested tasks, if any; a trigger
/// section leaves the question to its children.
pub open spec fn spec_super_on_recursion(c: PushTaskConfigV) -> Option<OnRecursion> {
    match c {
        PushTaskConfigV::Trigger(_) => Some(OnRecursion::Inherit),
        PushTaskConfigV::Git(g) => match g.heritage {
            Some(h) => h.on_recursion,
            None => None,
        },
        PushTaskConfigV::Borg(b) => match b.heritage {
            Some(h) => h.on_recursion,
            None => None,
        },
    }
}

/// Completeness of one section; a trigger section is always complete.
pub open spec fn spec_push_is_complete(c: PushTaskConfigV) -> bool {
    match c {
        PushTaskConfigV::Trigger(_) => true,
        PushTaskConfigV::Git(g) => spec_git_is_complete(g),
        PushTaskConfigV::Borg(b) => spec_borg_is_complete(b),
    }
}

/// Completion of one section; a trigger section is returned as it stands.
pub open spec fn spec_push_completion(c: PushTaskConfigV) -> Result<PushTaskConfigV, Seq<char>> {
    match c {
        PushTaskConfigV::Trigger(t) => Ok(PushTaskConfigV::Trigger(t)),
        PushTaskConfigV::Git(g) => match spec_git_completion(g) {
            Ok(g2) => Ok(PushTaskConfigV::Git(g2)),
            Err(e) => Err(e),
        },
        PushTaskConfigV::Borg(b) => match spec_borg_completion(b) {
            Ok(b2) => Ok(PushTaskConfigV::Borg(b2)),
            Err(e) => Err(e),
        },
    }
}

impl PushTaskConfig {
    /// The task-type identifiers that trigger this section.
    pub fn accepted_trigger(&self) -> (r: Vec<String>)
        ensures
            r.deep_view() == spec_accepted_trigger(self@),
    {
        match self {
            PushTaskConfig::Trigger(_) => {
                let mut v: Vec<String> = Vec::new();
                v.push("git".to_owned());
                v.push("borg".to_owned());
                proof {
                    assert(v.deep_view() =~~= seq!["git"@, "borg"@]);
                }
                v
            },
            PushTaskConfig::Git(g) => match &g.assets {
                Some(a) => match &a.trigger_by {
                    Some(t) => {
                        let r = t.clone();
                        proof {
                            assert(r.deep_view() =~~= t.deep_view());
                        }
                        r
                    },
                    None => {
                        let r: Vec<String> = Vec::new();
                        proof {
                            assert(r.deep_view() =~~= Seq::<Seq<char>>::empty());
                        }
                        r
                    },
                },
                None => {
                    let r: Vec<String> = Vec::new();
                    proof {
                        assert(r.deep_view() =~~= Seq::<Seq<char>>::empty());
                    }
                    r
                },
            },
            PushTaskConfig::Borg(b) => match &b.assets {
                Some(a) => match &a.trigger_by {
                    Some(t) => {
                        let r = t.clone();
                        proof {
                            assert(r.deep_view() =~~= t.deep_view());
                        }
                        r
                    },
                    None => {
                        let r: Vec<String> = Vec::new();
                        proof {
                            assert(r.deep_view() =~~= Seq::<Seq<char>>::empty());
                        }
                        r
                    },
                },
                None => {
                    let r: Vec<String> = Vec::new();
                    proof {
                        assert(r.deep_view() =~~= Seq::<Seq<char>>::empty());
                    }
                    r
                },
            },
        }
    }

    /// The recursion policy this section hands to nested tasks, if any.
    pub fn super_on_recursion(&self) -> (r: Option<OnRecursion>)
        ensures
            r == spec_super_on_recursion(self@),
    {
        match self {
            PushTaskConfig::Trigger(_) => Some(OnRecursion::Inherit),
            PushTaskConfig::Git(g) => match &g.heritage {
                Some(h) => h.on_recursion,
                None => None,
            },
            PushTaskConfig::Borg(b) => match &b.heritage {
                Some(h) => h.on_recursion,
                None => None,
            },
        }
    }

    /// The recursion policy this section's assets record carries, if any.
    pub fn assets_on_recursion(&self) -> (r: Option<OnRecursion>)
        ensures
            r == spec_assets_on_recursion(self@),
    {
        match self {
            PushTaskConfig::Trigger(t) => match &t.assets {
                Some(a) => a.on_recursion,
                None => None,
            },
            PushTaskConfig::Git(g) => match &g.assets {
                Some(a) => a.on_recursion,
                None => None,
            },
            PushTaskConfig::Borg(b) => match &b.assets {
                Some(a) => a.on_recursion,
                None => None,
            },
        }
    }
}

impl CompletableConfig for PushTaskConfig {
    type CompletionResult = Result<PushTaskConfig, &'static str>;

    fn is_complete(&self) -> (r: bool)
        ensures
            r == spec_push_is_complete(self@),
    {
        match self {
            PushTaskConfig::Trigger(_) => true,
            PushTaskConfig::Git(g) => g.is_complete(),
            PushTaskConfig::Borg(b) => b.is_complete(),
        }
    }

    fn completion(&self) -> (r: Result<PushTaskConfig, &'static str>)
        ensures
            match r {
                Ok(c) => spec_push_completion(self@) == Ok::<PushTaskConfigV, Seq<char>>(c@),
                Err(e) => spec_push_completion(self@) == Err::<PushTaskConfigV, Seq<char>>(e@),
            },
    {
        match self {
            PushTaskConfig::Trigger(t) => Ok(PushTaskConfig::Trigger(*t)),
            PushTaskConfig::Git(g) => match g.completion() {
                Ok(g2) => Ok(PushTaskConfig::Git(g2)),
                Err(e) => Err(e),
            },
            PushTaskConfig::Borg(b) => match b.completion() {
                Ok(b2) => Ok(PushTaskConfig::Borg(b2)),
                Err(e) => Err(e),
            },
        }
    }
}

/// The whole per-directory configuration: up to one section per handler, in
/// the fixed order trigger, git, borg.
#[derive(Debug)]
pub struct DionysiusConfig {
    pub trigger: Option<PushTaskConfig>,
    pub git: Option<PushTaskConfig>,
    pub borg: Option<PushTaskConfig>,
}

/// The mathematical value of a [`DionysiusConfig`].
pub struct DionysiusConfigV {
    pub trigger: Option<PushTaskConfigV>,
    pub git: Option<PushTaskConfigV>,
    pub borg: Option<PushTaskConfigV>,
}

impl View for DionysiusConfig {
    type V = DionysiusConfigV;

    open spec fn view(&self) -> DionysiusConfigV {
        DionysiusConfigV {
            trigger: match self.trigger {
                Some(t) => Some(t@),
                None => None,
            },
            git: match self.git {
                Some(g) => Some(g@),
                None => None,
            },
            borg: match self.borg {
                Some(b) => Some(b@),
                None => None,
            },
        }
    }
}

impl Clone for DionysiusConfig {
    fn clone(&self) -> (res: Self)
        ensures
            res@ == self@,
    {
        DionysiusConfig {
            trigger: match &self.trigger {
                Some(t) => Some(t.clone()),
                None => None,
            },
            git: match &self.git {
                Some(g) => Some(g.clone()),
                None => None,
            },
            borg: match &self.borg {
                Some(b) => Some(b.clone()),
                None => None,
            },
        }
    }
}

/// Completeness of the whole configuration: every present section complete.
pub open spec fn spec_dio_is_complete(c: DionysiusConfigV) -> bool {
    &&& (c.trigger matches Some(t) ==> spec_push_is_complete(t))
    &&& (c.git matches Some(g) ==> spec_push_is_complete(g))
    &&& (c.borg matches Some(b) ==> spec_push_is_complete(b))
}

/// Completion of the whole configuration, section by section in the fixed
/// order; the first failing section's error is returned.
pub open spec fn spec_dio_completion(c: DionysiusConfigV) -> Result<DionysiusConfigV, Seq<char>> {
    let trigger = match c.trigger {
        Some(t) => spec_push_completion(t),
        None => Ok(PushTaskConfigV::Trigger(TriggerConfig { assets: None, heritage: None })),
    };
    let git = match c.git {
        Some(g) => spec_push_completion(g),
        None => Ok(PushTaskConfigV::Trigger(TriggerConfig { assets: None, heritage: None })),
    };
    let borg = match c.borg {
        Some(b) => spec_push_completion(b),
        None => Ok(PushTaskConfigV::Trigger(TriggerConfig { assets: None, heritage: None })),
    };
    if c.trigger is Some && trigger is Err {
        Err(trigger->Err_0)
    } else if c.git is Some && git is Err {
        Err(git->Err_0)
    } else if c.borg is Some && borg is Err {
        Err(borg->Err_0)
    } else {
        Ok(
            DionysiusConfigV {
                trigger: match c.trigger {
                    Some(_) => Some(trigger->Ok_0),
                    None => None,
                },
                git: match c.git {
                    Some(_) => Some(git->Ok_0),
                    None => None,
                },
                borg: match c.borg {
                    Some(_) => Some(borg->Ok_0),
                    None => None,
                },
            },
        )
    }
}

impl CompletableConfig for DionysiusConfig {
    type CompletionResult = Result<DionysiusConfig, &'static str>;

    fn is_complete(&self) -> (r: bool)
        ensures
            r == spec_dio_is_complete(self@),
    {
        let trigger_ok = match &self.trigger {
            Some(t) => t.is_complete(),
            None => true,
        };
        let git_ok = match &self.git {
            Some(g) => g.is_complete(),
            None => true,
        };
        let borg_ok = match &self.borg {
            Some(b) => b.is_complete(),
            None => true,
        };
        trigger_ok && git_ok && borg_ok
    }

    fn completion(&self) -> (r: Result<DionysiusConfig, &'static str>)
        ensures
            match r {
                Ok(c) => spec_dio_completion(self@) == Ok::<DionysiusConfigV, Seq<char>>(c@),
                Err(e) => spec_dio_completion(self@) == Err::<DionysiusConfigV, Seq<char>>(e@),
            },
    {
        let trigger = match &self.trigger {
            Some(t) => match t.completion() {
                Ok(t2) => Some(t2),
                Err(e) => {
                    return Err(e);
                },
            },
            None => None,
        };
        let git = match &self.git {
            Some(g) => match g.completion() {
                Ok(g2) => Some(g2),
                Err(e) => {
                    return Err(e);
                },
            },
            None => None,
        };
        let borg = match &self.borg {
            Some(b) => match b.completion() {
                Ok(b2) => Some(b2),
                Err(e) => {
                    return Err(e);
                },
            },
            None => None,
        };
        Ok(DionysiusConfig { trigger, git, borg })
    }
}

/// The view of the built-in configuration a bare git repository gets.
pub open spec fn spec_git_default_dio() -> DionysiusConfigV {
    DionysiusConfigV {
        trigger: None,
        git: Some(PushTaskConfigV::Git(crate::git::spec_git_default())),
        borg: None,
    }
}

impl DionysiusConfig {
    /// The built-in configuration used for a directory that holds a `.git`
    /// directory but no configuration file of its own.
    pub fn git_default_config() -> (r: DionysiusConfig)
        ensures
            r@ == spec_git_default_dio(),
    {
        DionysiusConfig {
            trigger: None,
            git: Some(PushTaskConfig::Git(GitConfig::default())),
            borg: None,
        }
    }

    /// The present handler sections, each under its field name, in the fixed
    /// order trigger, git, borg.
    pub fn push_task_configs(&self) -> (r: Vec<(&'static str, PushTaskConfig)>)
        ensures
            r@.map_values(|e: (&'static str, PushTaskConfig)| e.0@) == spec_section_names(self@),
            r@.map_values(|e: (&'static str, PushTaskConfig)| e.1@) == spec_sections(self@),
    {
        let mut r: Vec<(&'static str, PushTaskConfig)> = Vec::new();
        if let Some(t) = &self.trigger {
            r.push(("trigger", t.clone()));
        }
        if let Some(g) = &self.git {
            r.push(("git", g.clone()));
        }
        if let Some(b) = &self.borg {
            r.push(("borg", b.clone()));
        }
        proof {
            assert(r@.map_values(|e: (&'static str, PushTaskConfig)| e.0@) =~= spec_section_names(
                self@,
            ));
            assert(r@.map_values(|e: (&'static str, PushTaskConfig)| e.1@) =~= spec_sections(
                self@,
            ));
        }
        r
    }
}

/// The names of the present sections, in the fixed order.
pub open spec fn spec_section_names(c: DionysiusConfigV) -> Seq<Seq<char>> {
    (if c.trigger is Some {
        seq!["trigger"@]
    } else {
        Seq::empty()
    }) + (if c.git is Some {
        seq!["git"@]
    } else {
        Seq::empty()
    }) + (if c.borg is Some {
        seq!["borg"@]
    } else {
        Seq::empty()
    })
}

/// The present sections themselves, in the fixed order.
pub open spec fn spec_sections(c: DionysiusConfigV) -> Seq<PushTaskConfigV> {
    (match c.trigger {
        Some(t) => seq![t],
        None => Seq::empty(),
    }) + (match c.git {
        Some(g) => seq![g],
        None => Seq::empty(),
    }) + (match c.borg {
        Some(b) => seq![b],
        None => Seq::empty(),
    })
}

} // verus!
