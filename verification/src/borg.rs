//! The borg handler: its configuration section, defaults, completion rules,
//! inheritance, and the borg create task descriptor.

use vstd::prelude::*;

use crate::config::{CompletableConfig, HasInheritableConfig, InheritableConfig, OnRecursion};
use crate::exclude::BorgPattern;
use crate::strutil::string_eq_str;

verus! {

/// Where borg archives go: a mode (only `path`) and a target string.
#[derive(Debug)]
pub struct BorgTargetConfig {
    pub mode: Option<String>,
    pub target: Option<String>,
}

/// The mathematical value of a [`BorgTargetConfig`].
pub struct BorgTargetConfigV {
    pub mode: Option<Seq<char>>,
    pub target: Option<Seq<char>>,
}

impl View for BorgTargetConfig {
    type V = BorgTargetConfigV;

    open spec fn view(&self) -> BorgTargetConfigV {
        BorgTargetConfigV { mode: self.mode.deep_view(), target: self.target.deep_view() }
    }
}

impl Clone for BorgTargetConfig {
    fn clone(&self) -> (res: Self)
        ensures
            res@ == self@,
    {
        BorgTargetConfig {
            mode: match &self.mode {
                Some(s) => Some(s.clone()),
                None => None,
            },
            target: match &self.target {
                Some(s) => Some(s.clone()),
                None => None,
            },
        }
    }
}

/// The assets or heritage record of a borg section.
#[derive(Debug)]
pub struct BorgInheritableConfig {
    pub trigger_by: Option<Vec<String>>,
    pub exclude_list: Option<Vec<String>>,
    pub extra_exclude_mode: Option<Vec<String>>,
    pub on_recursion: Option<OnRecursion>,
    pub ignore_child: Option<bool>,
}

/// The mathematical value of a [`BorgInheritableConfig`].
pub struct BorgInheritableConfigV {
    pub trigger_by: Option<Seq<Seq<char>>>,
    pub exclude_list: Option<Seq<Seq<char>>>,
    pub extra_exclude_mode: Option<Seq<Seq<char>>>,
    pub on_recursion: Option<OnRecursion>,
    pub ignore_child: Option<bool>,
}

impl View for BorgInheritableConfig {
    type V = BorgInheritableConfigV;

    open spec fn view(&self) -> BorgInheritableConfigV {
        BorgInheritableConfigV {
            trigger_by: self.trigger_by.deep_view(),
            exclude_list: self.exclude_list.deep_view(),
            extra_exclude_mode: self.extra_exclude_mode.deep_view(),
            on_recursion: self.on_recursion,
            ignore_child: self.ignore_child,
        }
    }
}

fn clone_opt_strings(v: &Option<Vec<String>>) -> (res: Option<Vec<String>>)
    ensures
        res.deep_view() == v.deep_view(),
{
    let res = match v {
        Some(v) => Some(v.clone()),
        None => None,
    };
    proof {
        assert(res.deep_view() =~~= v.deep_view());
    }
    res
}

impl Clone for BorgInheritableConfig {
    fn clone(&self) -> (res: Self)
        ensures
            res@ == self@,
    {
        BorgInheritableConfig {
            trigger_by: clone_opt_strings(&self.trigger_by),
            exclude_list: clone_opt_strings(&self.exclude_list),
            extra_exclude_mode: clone_opt_strings(&self.extra_exclude_mode),
            on_recursion: self.on_recursion,
            ignore_child: self.ignore_child,
        }
    }
}

/// A borg handler section: target, assets and heritage.
#[derive(Debug)]
pub struct BorgConfig {
    pub target: Option<BorgTargetConfig>,
    pub assets: Option<BorgInheritableConfig>,
    pub heritage: Option<BorgInheritableConfig>,
}

/// The mathematical value of a [`BorgConfig`].
pub struct BorgConfigV {
    pub target: Option<BorgTargetConfigV>,
    pub assets: Option<BorgInheritableConfigV>,
    pub heritage: Option<BorgInheritableConfigV>,
}

impl View for BorgConfig {
    type V = BorgConfigV;

    open spec fn view(&self) -> BorgConfigV {
        BorgConfigV {
            target: match self.target {
                Some(t) => Some(t@),
                None => None,
            },
            assets: match self.assets {
                Some(a) => Some(a@),
                None => None,
            },
            heritage: match self.heritage {
                Some(h) => Some(h@),
                None => None,
            },
        }
    }
}

impl Clone for BorgConfig {
    fn clone(&self) -> (res: Self)
        ensures
            res@ == self@,
    {
        BorgConfig {
            target: match &self.target {
                Some(t) => Some(t.clone()),
                None => None,
            },
            assets: match &self.assets {
                Some(a) => Some(a.clone()),
                None => None,
            },
            heritage: match &self.heritage {
                Some(h) => Some(h.clone()),
                None => None,
            },
        }
    }
}

/// The assets record the borg defaults provide.
pub open spec fn spec_borg_default_assets() -> BorgInheritableConfigV {
    BorgInheritableConfigV {
        trigger_by: Some(seq!["borg"@]),
        exclude_list: None,
        extra_exclude_mode: Some(seq!["git"@]),
        on_recursion: Some(OnRecursion::Inherit),
        ignore_child: None,
    }
}

/// The heritage record the borg defaults provide.
pub open spec fn spec_borg_default_heritage() -> BorgInheritableConfigV {
    BorgInheritableConfigV {
        trigger_by: None,
        exclude_list: None,
        extra_exclude_mode: None,
        on_recursion: Some(OnRecursion::Inherit),
        ignore_child: Some(false),
    }
}

/// The built-in default borg section: no target of its own.
pub open spec fn spec_borg_default() -> BorgConfigV {
    BorgConfigV {
        target: None,
        assets: Some(spec_borg_default_assets()),
        heritage: Some(spec_borg_default_heritage()),
    }
}

fn singleton_string(s: &str) -> (r: Vec<String>)
    ensures
        r.deep_view() == seq![s@],
{
    let mut v: Vec<String> = Vec::new();
    v.push(s.to_owned());
    proof {
        assert(v.deep_view() =~~= seq![s@]);
    }
    v
}

impl Default for BorgConfig {
    /// The built-in default borg section.
    fn default() -> (r: Self)
        ensures
            r@ == spec_borg_default(),
    {
        BorgConfig {
            target: None,
            assets: Some(
                BorgInheritableConfig {
                    trigger_by: Some(singleton_string("borg")),
                    exclude_list: None,
                    extra_exclude_mode: Some(singleton_string("git")),
                    on_recursion: Some(OnRecursion::Inherit),
                    ignore_child: None,
                },
            ),
            heritage: Some(
                BorgInheritableConfig {
                    trigger_by: None,
                    exclude_list: None,
                    extra_exclude_mode: None,
                    on_recursion: Some(OnRecursion::Inherit),
                    ignore_child: Some(false),
                },
            ),
        }
    }
}

/// Completeness of a borg section: the assets record carries at least
/// `trigger_by` and `on_recursion`; the heritage record carries at least
/// `ignore_child` and `on_recursion`.
pub open spec fn spec_borg_is_complete(c: BorgConfigV) -> bool {
    &&& c.assets matches Some(a) && a.trigger_by is Some && a.on_recursion is Some
    &&& c.heritage matches Some(h) && h.ignore_child is Some && h.on_recursion is Some
}

/// Completion of a borg section: the target is required, must hold a target
/// string, and its mode must be `path`; missing assets and heritage scalars
/// are filled from the borg defaults.
pub open spec fn spec_borg_completion(c: BorgConfigV) -> Result<BorgConfigV, Seq<char>> {
    if c.target is None {
        Err("Target config is required"@)
    } else if c.target matches Some(t) && t.target is None {
        Err("Target cannot be None"@)
    } else if c.target matches Some(t) && !(t.mode matches Some(m) && m == "path"@) {
        Err("Invalid target mode"@)
    } else {
        Ok(
            BorgConfigV {
                target: c.target,
                assets: Some(
                    match c.assets {
                        Some(a) => BorgInheritableConfigV {
                            trigger_by: if a.trigger_by is Some {
                                a.trigger_by
                            } else {
                                Some(seq!["borg"@])
                            },
                            exclude_list: a.exclude_list,
                            extra_exclude_mode: a.extra_exclude_mode,
                            on_recursion: if a.on_recursion is Some {
                                a.on_recursion
                            } else {
                                Some(OnRecursion::Inherit)
                            },
                            ignore_child: a.ignore_child,
                        },
                        None => spec_borg_default_assets(),
                    },
                ),
                heritage: Some(
                    match c.heritage {
                        Some(h) => BorgInheritableConfigV {
                            trigger_by: h.trigger_by,
                            exclude_list: h.exclude_list,
                            extra_exclude_mode: h.extra_exclude_mode,
                            on_recursion: if h.on_recursion is Some {
                                h.on_recursion
                            } else {
                                Some(OnRecursion::Inherit)
                            },
                            ignore_child: if h.ignore_child is Some {
                                h.ignore_child
                            } else {
                                Some(false)
                            },
                        },
                        None => spec_borg_default_heritage(),
                    },
                ),
            },
        )
    }
}

impl CompletableConfig for BorgConfig {
    type CompletionResult = Result<BorgConfig, &'static str>;

    fn is_complete(&self) -> (r: bool)
        ensures
            r == spec_borg_is_complete(self@),
    {
        let assets_ok = match &self.assets {
            Some(a) => a.trigger_by.is_some() && a.on_recursion.is_some(),
            None => false,
        };
        let heritage_ok = match &self.heritage {
            Some(h) => h.ignore_child.is_some() && h.on_recursion.is_some(),
            None => false,
        };
        assets_ok && heritage_ok
    }

    fn completion(&self) -> (r: Result<BorgConfig, &'static str>)
        ensures
            match r {
                Ok(c) => spec_borg_completion(self@) == Ok::<BorgConfigV, Seq<char>>(c@),
                Err(e) => spec_borg_completion(self@) == Err::<BorgConfigV, Seq<char>>(e@),
            },
    {
        match &self.target {
            None => {
                return Err("Target config is required");
            },
            Some(t) => {
                if t.target.is_none() {
                    return Err("Target cannot be None");
                }
                let mode_ok = match &t.mode {
                    Some(m) => string_eq_str(m, "path"),
                    None => false,
                };
                if !mode_ok {
                    return Err("Invalid target mode");
                }
            },
        }
        let assets = match &self.assets {
            Some(a) => BorgInheritableConfig {
                trigger_by: match &a.trigger_by {
                    Some(v) => Some(v.clone()),
                    None => Some(singleton_string("borg")),
                },
                exclude_list: clone_opt_strings(&a.exclude_list),
                extra_exclude_mode: clone_opt_strings(&a.extra_exclude_mode),
                on_recursion: match a.on_recursion {
                    Some(o) => Some(o),
                    None => Some(OnRecursion::Inherit),
                },
                ignore_child: a.ignore_child,
            },
            None => BorgInheritableConfig {
                trigger_by: Some(singleton_string("borg")),
                exclude_list: None,
                extra_exclude_mode: Some(singleton_string("git")),
                on_recursion: Some(OnRecursion::Inherit),
                ignore_child: None,
            },
        };
        let heritage = match &self.heritage {
            Some(h) => BorgInheritableConfig {
                trigger_by: clone_opt_strings(&h.trigger_by),
                exclude_list: clone_opt_strings(&h.exclude_list),
                extra_exclude_mode: clone_opt_strings(&h.extra_exclude_mode),
                on_recursion: match h.on_recursion {
                    Some(o) => Some(o),
                    None => Some(OnRecursion::Inherit),
                },
                ignore_child: match h.ignore_child {
                    Some(b) => Some(b),
                    None => Some(false),
                },
            },
            None => BorgInheritableConfig {
                trigger_by: None,
                exclude_list: None,
                extra_exclude_mode: None,
                on_recursion: Some(OnRecursion::Inherit),
                ignore_child: Some(false),
            },
        };
        let target = match &self.target {
            Some(t) => Some(t.clone()),
            None => None,
        };
        Ok(BorgConfig { target, assets: Some(assets), heritage: Some(heritage) })
    }
}

/// Resolution of one borg record against the parent's heritage record: an
/// `inherit` policy takes the parent's policy, or the handler default where
/// there is no parent; every other field is kept as it stands.
pub open spec fn spec_borg_inh_inherit(
    this: BorgInheritableConfigV,
    sup: Option<BorgInheritableConfigV>,
) -> BorgInheritableConfigV {
    if this.on_recursion == Some(OnRecursion::Inherit) {
        BorgInheritableConfigV {
            trigger_by: this.trigger_by,
            exclude_list: this.exclude_list,
            extra_exclude_mode: this.extra_exclude_mode,
            on_recursion: match sup {
                Some(s) => s.on_recursion,
                None => Some(OnRecursion::Standalone),
            },
            ignore_child: this.ignore_child,
        }
    } else {
        this
    }
}

impl InheritableConfig for BorgInheritableConfig {
    fn inherit_from(&self, sup: Option<&Self>) -> (r: Self)
        ensures
            r@ == spec_borg_inh_inherit(self@, match sup {
                Some(s) => Some(s@),
                None => None,
            }),
    {
        let on_recursion = match self.on_recursion {
            Some(OnRecursion::Inherit) => match sup {
                Some(s) => s.on_recursion,
                None => Some(OnRecursion::Standalone),
            },
            _ => self.on_recursion,
        };
        BorgInheritableConfig {
            trigger_by: clone_opt_strings(&self.trigger_by),
            exclude_list: clone_opt_strings(&self.exclude_list),
            extra_exclude_mode: clone_opt_strings(&self.extra_exclude_mode),
            on_recursion,
            ignore_child: self.ignore_child,
        }
    }
}

/// Resolution of a whole borg section: both records resolve against the
/// parent's heritage record; the target and every other assets field are
/// never inherited.
pub open spec fn spec_borg_cfg_inherit(this: BorgConfigV, sup: Option<BorgConfigV>) -> BorgConfigV {
    let sup_heritage = match sup {
        Some(s) => s.heritage,
        None => None,
    };
    BorgConfigV {
        target: this.target,
        assets: match this.assets {
            Some(a) => Some(spec_borg_inh_inherit(a, sup_heritage)),
            None => None,
        },
        heritage: match this.heritage {
            Some(h) => Some(spec_borg_inh_inherit(h, sup_heritage)),
            None => None,
        },
    }
}

impl HasInheritableConfig for BorgConfig {
    type M = BorgInheritableConfig;

    open spec fn assets_present(&self) -> bool {
        self.assets is Some
    }

    open spec fn heritage_present(&self) -> bool {
        self.heritage is Some
    }

    fn get_assets_config(&self) -> (r: &BorgInheritableConfig)
        ensures
            *r == self.assets->0,
    {
        self.assets.as_ref().unwrap()
    }

    fn get_heritage_config(&self) -> (r: &BorgInheritableConfig)
        ensures
            *r == self.heritage->0,
    {
        self.heritage.as_ref().unwrap()
    }

    fn inherit_from(&self, sup: Option<&Self>) -> (r: Self)
        ensures
            r@ == spec_borg_cfg_inherit(self@, match sup {
                Some(s) => Some(s@),
                None => None,
            }),
    {
        let sup_heritage = match sup {
            Some(s) => s.heritage.as_ref(),
            None => None,
        };
        BorgConfig {
            target: match &self.target {
                Some(t) => Some(t.clone()),
                None => None,
            },
            assets: match &self.assets {
                Some(a) => Some(a.inherit_from(sup_heritage)),
                None => None,
            },
            heritage: match &self.heritage {
                Some(h) => Some(h.inherit_from(sup_heritage)),
                None => None,
            },
        }
    }
}

/// The fixed options a borg create task runs with.
#[derive(Debug)]
pub struct BorgCreateOptions {
    pub acl: bool,
    pub numeric_owner: bool,
    pub compression: String,
}

/// The mathematical value of a [`BorgCreateOptions`].
pub struct BorgCreateOptionsV {
    pub acl: bool,
    pub numeric_owner: bool,
    pub compression: Seq<char>,
}

impl View for BorgCreateOptions {
    type V = BorgCreateOptionsV;

    open spec fn view(&self) -> BorgCreateOptionsV {
        BorgCreateOptionsV {
            acl: self.acl,
            numeric_owner: self.numeric_owner,
            compression: self.compression@,
        }
    }
}

impl Clone for BorgCreateOptions {
    fn clone(&self) -> (res: Self)
        ensures
            res == *self,
    {
        BorgCreateOptions {
            acl: self.acl,
            numeric_owner: self.numeric_owner,
            compression: self.compression.clone(),
        }
    }
}

/// The default borg create options: keep ACLs and numeric owners, compress
/// with zstd.
pub open spec fn spec_borg_default_options() -> BorgCreateOptionsV {
    BorgCreateOptionsV { acl: true, numeric_owner: true, compression: "zstd"@ }
}

impl Default for BorgCreateOptions {
    fn default() -> (r: Self)
        ensures
            r@ == spec_borg_default_options(),
    {
        BorgCreateOptions { acl: true, numeric_owner: true, compression: "zstd".to_owned() }
    }
}

/// A borg create task: archive `source` into `target`, leaving out the
/// excluded descendant paths and the extra exclude patterns.
#[derive(Debug)]
pub struct BorgCreateTask {
    pub source: String,
    pub target: String,
    pub exclude_list: Vec<String>,
    pub extra_exclude_patterns: Vec<BorgPattern>,
    pub options: BorgCreateOptions,
}

/// The mathematical value of a [`BorgCreateTask`].
pub struct BorgCreateTaskV {
    pub source: Seq<char>,
    pub target: Seq<char>,
    pub exclude_list: Seq<Seq<char>>,
    pub extra_exclude_patterns: Seq<crate::exclude::BorgPatternView>,
    pub options: BorgCreateOptionsV,
}

impl View for BorgCreateTask {
    type V = BorgCreateTaskV;

    open spec fn view(&self) -> BorgCreateTaskV {
        BorgCreateTaskV {
            source: self.source@,
            target: self.target@,
            exclude_list: self.exclude_list.deep_view(),
            extra_exclude_patterns: self.extra_exclude_patterns@.map_values(|p: BorgPattern| p@),
            options: self.options@,
        }
    }
}

/// The excluded paths as path-full-match patterns relative to `base`, in
/// order; a path that does not lie under `base` fails the whole list.
pub open spec fn spec_borg_rel_patterns(excl: Seq<Seq<char>>, base: Seq<char>) -> Result<
    Seq<crate::exclude::BorgPatternView>,
    Seq<char>,
>
    decreases excl.len(),
{
    if excl.len() == 0 {
        Ok(Seq::empty())
    } else {
        match spec_borg_rel_patterns(excl.drop_last(), base) {
            Err(e) => Err(e),
            Ok(rest) => match crate::task::spec_rel_to(excl.last(), base) {
                Some(rel) => Ok(rest.push(crate::exclude::BorgPatternView::PathFullMatch(rel))),
                None => Err("Exclude path must be under source path"@),
            },
        }
    }
}

/// The full exclude-pattern list of a borg create task: the excluded paths
/// relativized against the source as path-full-match patterns, then the
/// extra exclude patterns.
pub open spec fn spec_borg_exclude_patterns(t: BorgCreateTaskV) -> Result<
    Seq<crate::exclude::BorgPatternView>,
    Seq<char>,
> {
    match spec_borg_rel_patterns(t.exclude_list, t.source) {
        Ok(rel) => Ok(rel + t.extra_exclude_patterns),
        Err(e) => Err(e),
    }
}

impl BorgCreateTask {
    /// The exclude patterns the borg invocation gets: every excluded path
    /// relativized against the source, then the extra patterns; fails when
    /// an excluded path does not lie under the source.
    pub fn borg_exclude_patterns(&self) -> (r: Result<Vec<BorgPattern>, &'static str>)
        ensures
            match r {
                Ok(ps) => spec_borg_exclude_patterns(self@) == Ok::<
                    Seq<crate::exclude::BorgPatternView>,
                    Seq<char>,
                >(ps@.map_values(|p: BorgPattern| p@)),
                Err(e) => spec_borg_exclude_patterns(self@) == Err::<
                    Seq<crate::exclude::BorgPatternView>,
                    Seq<char>,
                >(e@),
            },
    {
        let ghost excl = self.exclude_list.deep_view();
        let mut r: Vec<BorgPattern> = Vec::new();
        let mut i: usize = 0;
        proof {
            assert(excl.take(0) =~= Seq::<Seq<char>>::empty());
            assert(r@.map_values(|p: BorgPattern| p@) =~= spec_borg_rel_patterns(
                excl.take(0),
                self.source@,
            )->Ok_0);
        }
        while i < self.exclude_list.len()
            invariant
                i <= self.exclude_list@.len(),
                excl == self.exclude_list.deep_view(),
                spec_borg_rel_patterns(excl.take(i as int), self.source@) matches Ok(sofar)
                    && sofar == r@.map_values(|p: BorgPattern| p@),
            decreases self.exclude_list@.len() - i,
        {
            proof {
                assert(excl.take(i as int + 1).drop_last() =~= excl.take(i as int));
                assert(excl.take(i as int + 1).last() == self.exclude_list@[i as int]@);
            }
            let ghost before = r@;
            match crate::task::rel_to(&self.exclude_list[i], &self.source) {
                Some(rel) => {
                    r.push(BorgPattern::PathFullMatch(rel));
                    proof {
                        assert(r@.map_values(|p: BorgPattern| p@) =~= before.map_values(
                            |p: BorgPattern| p@,
                        ).push(r@.last()@));
                    }
                },
                None => {
                    proof {
                        let j = i as int;
                        assert(spec_borg_rel_patterns(excl.take(j + 1), self.source@) is Err);
                        lemma_rel_patterns_err_extends(excl, j + 1, self.source@);
                        assert(excl.take(excl.len() as int) =~= excl);
                    }
                    return Err("Exclude path must be under source path");
                },
            }
            i = i + 1;
        }
        proof {
            assert(excl.take(self.exclude_list@.len() as int) =~= excl);
        }
        let ghost rel_part = r@.map_values(|p: BorgPattern| p@);
        let mut j: usize = 0;
        proof {
            assert(rel_part + self@.extra_exclude_patterns.take(0) =~= rel_part);
        }
        while j < self.extra_exclude_patterns.len()
            invariant
                j <= self.extra_exclude_patterns@.len(),
                rel_part == spec_borg_rel_patterns(
                    self.exclude_list.deep_view(),
                    self.source@,
                )->Ok_0,
                spec_borg_rel_patterns(self.exclude_list.deep_view(), self.source@) is Ok,
                r@.map_values(|p: BorgPattern| p@) == rel_part
                    + self@.extra_exclude_patterns.take(j as int),
            decreases self.extra_exclude_patterns@.len() - j,
        {
            let ghost before = r@;
            let ghost extras = self@.extra_exclude_patterns;
            r.push(self.extra_exclude_patterns[j].clone());
            proof {
                assert(extras.take(j as int + 1) =~= extras.take(j as int).push(extras[j as int]));
                assert(r@.map_values(|p: BorgPattern| p@) =~= before.map_values(
                    |p: BorgPattern| p@,
                ).push(extras[j as int]));
                assert(rel_part + extras.take(j as int + 1) =~= (rel_part + extras.take(
                    j as int,
                )).push(extras[j as int]));
            }
            j = j + 1;
        }
        proof {
            assert(self@.extra_exclude_patterns.take(self.extra_exclude_patterns@.len() as int)
                =~= self@.extra_exclude_patterns);
        }
        Ok(r)
    }
}

proof fn lemma_rel_patterns_err_extends(excl: Seq<Seq<char>>, upto: int, base: Seq<char>)
    requires
        0 < upto <= excl.len(),
        spec_borg_rel_patterns(excl.take(upto), base) is Err,
    ensures
        forall|k: int|
            upto <= k <= excl.len() ==> #[trigger] spec_borg_rel_patterns(excl.take(k), base)
                == spec_borg_rel_patterns(excl.take(upto), base),
    decreases excl.len() - upto,
{
    if upto < excl.len() {
        assert(excl.take(upto + 1).drop_last() =~= excl.take(upto));
        lemma_rel_patterns_err_extends(excl, upto + 1, base);
        assert forall|k: int|
            upto <= k <= excl.len() implies #[trigger] spec_borg_rel_patterns(excl.take(k), base)
            == spec_borg_rel_patterns(excl.take(upto), base) by {
            if k > upto {
                assert(spec_borg_rel_patterns(excl.take(k), base) == spec_borg_rel_patterns(
                    excl.take(upto + 1),
                    base,
                ));
            }
        }
    }
}

/// The exclude options a borg create task hands to its driver: `--exclude`
/// followed by the pattern's wire form, for each pattern in order.
pub open spec fn spec_borg_exclude_options(pats: Seq<crate::exclude::BorgPatternView>) -> Seq<
    Seq<char>,
>
    decreases pats.len(),
{
    if pats.len() == 0 {
        Seq::empty()
    } else {
        spec_borg_exclude_options(pats.drop_last()).push("--exclude"@).push(
            crate::exclude::spec_borg_string(pats.last()),
        )
    }
}

/// The argument list of the borg invocation for a task: the fixed `create`
/// options, the compression, the exclude options, the target, the source.
pub open spec fn spec_borg_command_args(
    t: BorgCreateTaskV,
    pats: Seq<crate::exclude::BorgPatternView>,
) -> Seq<Seq<char>> {
    seq!["create"@, "--stats"@, "--progress"@, "--one-file-system"@, "--compression"@, t
        .options
        .compression] + spec_borg_exclude_options(pats) + seq![t.target, t.source]
}

impl BorgCreateTask {
    /// The arguments the borg driver invokes `borg` with, in order.
    pub fn command_args(&self) -> (r: Vec<String>)
        requires
            spec_borg_exclude_patterns(self@) is Ok,
        ensures
            r.deep_view() == spec_borg_command_args(
                self@,
                spec_borg_exclude_patterns(self@)->Ok_0,
            ),
    {
        let mut r: Vec<String> = Vec::new();
        r.push("create".to_owned());
        r.push("--stats".to_owned());
        r.push("--progress".to_owned());
        r.push("--one-file-system".to_owned());
        r.push("--compression".to_owned());
        r.push(self.options.compression.clone());
        let ghost head = r.deep_view();
        proof {
            assert(head =~= seq![
                "create"@,
                "--stats"@,
                "--progress"@,
                "--one-file-system"@,
                "--compression"@,
                self@.options.compression,
            ]);
        }
        let mut excl_opts = crate::task::PushTask::exclude_pattern_options(self);
        let ghost excl_view = excl_opts.deep_view();
        r.append(&mut excl_opts);
        proof {
            assert(r.deep_view() =~= head + excl_view);
        }
        let ghost mid = r.deep_view();
        r.push(self.target.clone());
        r.push(self.source.clone());
        proof {
            assert(r.deep_view() =~= mid + seq![self@.target, self@.source]);
            assert((head + excl_view) + seq![self@.target, self@.source] =~= head + excl_view
                + seq![self@.target, self@.source]);
        }
        r
    }
}

impl crate::task::PushTask for BorgCreateTask {
    open spec fn task_wf(&self) -> bool {
        spec_borg_exclude_patterns(self@) is Ok
    }

    fn exclude_pattern_options(&self) -> (r: Vec<String>)
        ensures
            r.deep_view() == spec_borg_exclude_options(spec_borg_exclude_patterns(self@)->Ok_0),
    {
        let pats: Vec<BorgPattern> = match self.borg_exclude_patterns() {
            Ok(p) => p,
            Err(_) => {
                proof {
                    assert(false);
                }
                Vec::new()
            },
        };
        let ghost patsv = pats@.map_values(|p: BorgPattern| p@);
        let mut r: Vec<String> = Vec::new();
        let mut i: usize = 0;
        proof {
            assert(patsv.take(0) =~= Seq::<crate::exclude::BorgPatternView>::empty());
            assert(r.deep_view() =~= spec_borg_exclude_options(patsv.take(0)));
        }
        while i < pats.len()
            invariant
                i <= pats@.len(),
                patsv == pats@.map_values(|p: BorgPattern| p@),
                r.deep_view() == spec_borg_exclude_options(patsv.take(i as int)),
            decreases pats@.len() - i,
        {
            proof {
                assert(patsv.take(i as int + 1).drop_last() =~= patsv.take(i as int));
                assert(patsv.take(i as int + 1).last() == pats@[i as int]@);
            }
            let ghost before = r.deep_view();
            r.push("--exclude".to_owned());
            let ghost mid = r.deep_view();
            proof {
                assert(mid =~= before.push("--exclude"@));
            }
            r.push(pats[i].to_string());
            proof {
                assert(r.deep_view() =~= mid.push(r@.last()@));
            }
            i = i + 1;
        }
        proof {
            assert(patsv.take(pats@.len() as int) =~= patsv);
        }
        r
    }
}

} // verus!
