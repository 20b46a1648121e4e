//! The trigger handler: a structural marker with no target of its own.

use vstd::prelude::*;

use crate::config::{HasInheritableConfig, InheritableConfig, OnRecursion};

verus! {

/// The assets or heritage record of a trigger section: only the recursion
/// policy, which has to be set by hand for a trigger.
#[derive(Clone, Copy, Debug)]
pub struct TriggerInheriableConfig {
    pub on_recursion: Option<OnRecursion>,
}

/// A trigger handler section.
#[derive(Clone, Copy, Debug)]
pub struct TriggerConfig {
    pub assets: Option<TriggerInheriableConfig>,
    pub heritage: Option<TriggerInheriableConfig>,
}

/// Resolution of one trigger record against the parent's heritage record: an
/// `inherit` policy takes the parent's policy, or the handler default where
/// there is no parent; anything else is kept.
pub open spec fn spec_trigger_inh_inherit(
    this: TriggerInheriableConfig,
    sup: Option<TriggerInheriableConfig>,
) -> TriggerInheriableConfig {
    if this.on_recursion == Some(OnRecursion::Inherit) {
        match sup {
            Some(s) => TriggerInheriableConfig { on_recursion: s.on_recursion },
            None => TriggerInheriableConfig { on_recursion: Some(OnRecursion::Standalone) },
        }
    } else {
        this
    }
}

impl InheritableConfig for TriggerInheriableConfig {
    fn inherit_from(&self, sup: Option<&Self>) -> (r: Self)
        ensures
            r == spec_trigger_inh_inherit(*self, match sup {
                Some(s) => Some(*s),
                None => None,
            }),
    {
        match self.on_recursion {
            Some(OnRecursion::Inherit) => match sup {
                Some(s) => TriggerInheriableConfig { on_recursion: s.on_recursion },
                None => TriggerInheriableConfig { on_recursion: Some(OnRecursion::Standalone) },
            },
            _ => *self,
        }
    }
}

/// Resolution of a whole trigger section: both records resolve against the
/// parent's heritage record; a missing record stays missing.
pub open spec fn spec_trigger_cfg_inherit(this: TriggerConfig, sup: Option<TriggerConfig>) -> TriggerConfig {
    let sup_heritage = match sup {
        Some(s) => s.heritage,
        None => None,
    };
    TriggerConfig {
        assets: match this.assets {
            Some(a) => Some(spec_trigger_inh_inherit(a, sup_heritage)),
            None => None,
        },
        heritage: match this.heritage {
            Some(h) => Some(spec_trigger_inh_inherit(h, sup_heritage)),
            None => None,
        },
    }
}

impl HasInheritableConfig for TriggerConfig {
    type M = TriggerInheriableConfig;

    open spec fn assets_present(&self) -> bool {
        self.assets is Some
    }

    open spec fn heritage_present(&self) -> bool {
        self.heritage is Some
    }

    fn get_assets_config(&self) -> (r: &TriggerInheriableConfig)
        ensures
            *r == self.assets->0,
    {
        self.assets.as_ref().unwrap()
    }

    fn get_heritage_config(&self) -> (r: &TriggerInheriableConfig)
        ensures
            *r == self.heritage->0,
    {
        self.heritage.as_ref().unwrap()
    }

    fn inherit_from(&self, sup: Option<&Self>) -> (r: Self)
        ensures
            r == spec_trigger_cfg_inherit(*self, match sup {
                Some(s) => Some(*s),
                None => None,
            }),
    {
        let sup_heritage = match sup {
            Some(s) => s.heritage.as_ref(),
            None => None,
        };
        TriggerConfig {
            assets: match self.assets.as_ref() {
                Some(a) => Some(a.inherit_from(sup_heritage)),
                None => None,
            },
            heritage: match self.heritage.as_ref() {
                Some(h) => Some(h.inherit_from(sup_heritage)),
                None => None,
            },
        }
    }
}

/// A trigger marker task: nothing but the directory it stands for.
#[derive(Debug)]
pub struct TriggerTask {
    pub current_dir: String,
}

impl Clone for TriggerTask {
    fn clone(&self) -> (res: Self)
        ensures
            res == *self,
    {
        TriggerTask { current_dir: self.current_dir.clone() }
    }
}

impl View for TriggerTask {
    type V = Seq<char>;

    open spec fn view(&self) -> Seq<char> {
        self.current_dir@
    }
}

impl crate::task::PushTask for TriggerTask {
    open spec fn task_wf(&self) -> bool {
        true
    }

    /// A trigger marker excludes nothing.
    fn exclude_pattern_options(&self) -> (r: Vec<String>)
        ensures
            r.deep_view() == Seq::<Seq<char>>::empty(),
    {
        let r: Vec<String> = Vec::new();
        proof {
            assert(r.deep_view() =~= Seq::<Seq<char>>::empty());
        }
        r
    }
}

} // verus!
