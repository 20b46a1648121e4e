//! Laws of the collection engine: every excluded path lies below its task's
//! root, no two tasks of one handler share a root, hidden directories are
//! skipped, and unconfigured directories are traversed transparently.

use vstd::prelude::*;

use crate::config::{DionysiusConfigV, OnRecursion, PushTaskConfigV};
use crate::strutil::starts_with_char;
use crate::task::{
    is_strict_descendant, spec_collect, spec_collect_children, spec_join_path, CliTaskConfig,
    CollectErrorV, DirNode, TaskV,
};

verus! {

/// The directory a task is rooted at.
pub open spec fn task_root(t: TaskV) -> Seq<char> {
    match t {
        TaskV::Trigger(d) => d,
        TaskV::Git(g) => g.repo_path,
        TaskV::Borg(b) => b.source,
    }
}

/// The handler kind of a task, as a small number.
pub open spec fn task_kind(t: TaskV) -> int {
    match t {
        TaskV::Trigger(_) => 0,
        TaskV::Git(_) => 1,
        TaskV::Borg(_) => 2,
    }
}

/// The exclude list a task carries; a trigger marker carries none.
pub open spec fn task_excl(t: TaskV) -> Seq<Seq<char>> {
    match t {
        TaskV::Trigger(_) => Seq::empty(),
        TaskV::Git(g) => g.exclude_list,
        TaskV::Borg(b) => b.exclude_list,
    }
}

/// `p` is `base` itself or lies strictly below it.
pub open spec fn desc_or_self(p: Seq<char>, base: Seq<char>) -> bool {
    p == base || is_strict_descendant(p, base)
}

/// A well-formed directory name: non-empty and without slashes.
pub open spec fn name_ok(n: DirNode) -> bool {
    n.name@.len() > 0 && forall|k: int| 0 <= k < n.name@.len() ==> n.name@[k] != '/'
}

/// Each section of the configuration holds the handler kind its slot names.
pub open spec fn config_variants_match(c: DionysiusConfigV) -> bool {
    &&& (c.trigger matches Some(s) ==> s is Trigger)
    &&& (c.git matches Some(s) ==> s is Git)
    &&& (c.borg matches Some(s) ==> s is Borg)
}

/// Well-formedness of the children of a node from position `from` on: names
/// non-empty, slash-free and pairwise distinct, and every subtree well
/// formed.
pub open spec fn wf_children_from(nodes: Seq<DirNode>, from: int) -> bool
    decreases nodes, 0int, nodes.len() - from,
{
    from < 0 || from >= nodes.len() || {
        &&& name_ok(nodes[from])
        &&& forall|j: int|
            from < j < nodes.len() ==> nodes[from].name@ != (#[trigger] nodes[j]).name@
        &&& wf_tree(nodes[from])
        &&& wf_children_from(nodes, from + 1)
    }
}

/// Well-formedness of a directory tree: every configuration's sections sit
/// in their matching slots, and the children are well formed.
pub open spec fn wf_tree(node: DirNode) -> bool
    decreases node, 1int, 0int,
{
    &&& (match node.config {
        Some(c) => config_variants_match(c@),
        None => true,
    })
    &&& wf_children_from(node.children@, 0)
}

proof fn lemma_desc_prefix(r: Seq<char>, j: Seq<char>)
    requires
        desc_or_self(r, j),
    ensures
        r.len() >= j.len(),
        r.subrange(0, j.len() as int) == j,
{
    if r == j {
        assert(r.subrange(0, j.len() as int) =~= j);
    }
}

proof fn lemma_strict_trans(a: Seq<char>, b: Seq<char>, c: Seq<char>)
    requires
        is_strict_descendant(a, b),
        is_strict_descendant(b, c),
    ensures
        is_strict_descendant(a, c),
{
    assert forall|k: int| 0 <= k < b.len() implies a[k] == b[k] by {
        assert(a.subrange(0, b.len() as int)[k] == a[k]);
    }
    assert(a.subrange(0, c.len() as int) =~= c);
}

proof fn lemma_desc_strict_chain(r: Seq<char>, j: Seq<char>, dir: Seq<char>)
    requires
        desc_or_self(r, j),
        is_strict_descendant(j, dir),
    ensures
        is_strict_descendant(r, dir),
{
    if r != j {
        lemma_strict_trans(r, j, dir);
    }
}

proof fn lemma_join_strict(dir: Seq<char>, name: Seq<char>)
    requires
        name.len() > 0,
    ensures
        is_strict_descendant(spec_join_path(dir, name), dir),
{
    let j = spec_join_path(dir, name);
    assert(j.subrange(0, dir.len() as int) =~= dir);
    assert(j[dir.len() as int] == '/');
}

proof fn lemma_sibling_disjoint_ordered(
    dir: Seq<char>,
    a: Seq<char>,
    b: Seq<char>,
    r: Seq<char>,
)
    requires
        a.len() <= b.len(),
        a.len() > 0,
        b.len() > 0,
        forall|k: int| 0 <= k < b.len() ==> b[k] != '/',
        a != b,
    ensures
        !(desc_or_self(r, spec_join_path(dir, a)) && desc_or_self(r, spec_join_path(dir, b))),
{
    let j1 = spec_join_path(dir, a);
    let j2 = spec_join_path(dir, b);
    if desc_or_self(r, j1) && desc_or_self(r, j2) {
        lemma_desc_prefix(r, j1);
        lemma_desc_prefix(r, j2);
        assert forall|k: int| 0 <= k < a.len() implies a[k] == b[k] by {
            assert(r.subrange(0, j1.len() as int)[dir.len() + 1 + k] == r[dir.len() + 1 + k]);
            assert(r.subrange(0, j2.len() as int)[dir.len() + 1 + k] == r[dir.len() + 1 + k]);
            assert(j1[dir.len() + 1 + k] == a[k]);
            assert(j2[dir.len() + 1 + k] == b[k]);
        }
        if a.len() == b.len() {
            assert(a =~= b);
        } else {
            let q = j1.len() as int;
            assert(j2[q] == b[a.len() as int]);
            assert(r.subrange(0, j2.len() as int)[q] == r[q]);
            assert(r[q] == b[a.len() as int]);
            if r == j1 {
                assert(r.len() < j2.len());
            } else {
                assert(r[q] == '/');
            }
        }
    }
}

proof fn lemma_sibling_disjoint(dir: Seq<char>, a: Seq<char>, b: Seq<char>, r: Seq<char>)
    requires
        a.len() > 0,
        b.len() > 0,
        forall|k: int| 0 <= k < a.len() ==> a[k] != '/',
        forall|k: int| 0 <= k < b.len() ==> b[k] != '/',
        a != b,
    ensures
        !(desc_or_self(r, spec_join_path(dir, a)) && desc_or_self(r, spec_join_path(dir, b))),
{
    if a.len() <= b.len() {
        lemma_sibling_disjoint_ordered(dir, a, b, r);
    } else {
        lemma_sibling_disjoint_ordered(dir, b, a, r);
    }
}

/// Every task of `ts` carries only exclude paths strictly below its root.
pub open spec fn tasks_excl_ok(ts: Seq<TaskV>) -> bool {
    forall|i: int| 0 <= i < ts.len() ==> excl_ok(#[trigger] ts[i])
}

/// One task's exclude paths all lie strictly below its root.
pub open spec fn excl_ok(t: TaskV) -> bool {
    forall|k: int|
        0 <= k < task_excl(t).len() ==> is_strict_descendant(
            #[trigger] task_excl(t)[k],
            task_root(t),
        )
}

/// Every task of `ts` is rooted at `dir` or strictly below it.
pub open spec fn tasks_roots_under(ts: Seq<TaskV>, dir: Seq<char>) -> bool {
    forall|i: int| 0 <= i < ts.len() ==> desc_or_self(task_root(#[trigger] ts[i]), dir)
}

/// No two tasks of the same handler kind share a root.
pub open spec fn tasks_distinct(ts: Seq<TaskV>) -> bool {
    forall|i: int, j: int|
        #![trigger ts[i], ts[j]]
        0 <= i < j < ts.len() && task_kind(ts[i]) == task_kind(ts[j]) ==> task_root(ts[i])
            != task_root(ts[j])
}

/// Every task of `ts` is rooted at or below the path of one of the children
/// `nodes[from..]`, whose name is well formed.
pub open spec fn tasks_under_children(
    ts: Seq<TaskV>,
    nodes: Seq<DirNode>,
    from: int,
    dir: Seq<char>,
) -> bool {
    forall|i: int|
        0 <= i < ts.len() ==> exists|c: int|
            from <= c < nodes.len() && desc_or_self(
                task_root(#[trigger] ts[i]),
                spec_join_path(dir, nodes[c].name@),
            ) && name_ok(nodes[c])
}

/// `out_excl` extends `excl`: the old entries stand unchanged in front.
pub open spec fn excl_extended(excl: Seq<Seq<char>>, out_excl: Seq<Seq<char>>) -> bool {
    out_excl.len() >= excl.len() && out_excl.subrange(0, excl.len() as int) == excl
}

/// Every entry `out_excl` adds beyond `excl` is `dir` or lies below it.
pub open spec fn excl_additions_under(
    excl: Seq<Seq<char>>,
    out_excl: Seq<Seq<char>>,
    dir: Seq<char>,
) -> bool {
    forall|k: int|
        excl.len() <= k < out_excl.len() ==> desc_or_self(#[trigger] out_excl[k], dir)
}

/// Every entry `out_excl` adds beyond `excl` lies at or below the path of
/// one of the children `nodes[from..]`.
pub open spec fn excl_additions_under_children(
    excl: Seq<Seq<char>>,
    out_excl: Seq<Seq<char>>,
    nodes: Seq<DirNode>,
    from: int,
    dir: Seq<char>,
) -> bool {
    forall|k: int|
        excl.len() <= k < out_excl.len() ==> exists|c: int|
            from <= c < nodes.len() && desc_or_self(
                #[trigger] out_excl[k],
                spec_join_path(dir, nodes[c].name@),
            ) && name_ok(nodes[c])
}

proof fn lemma_completion_variants(c: DionysiusConfigV)
    requires
        config_variants_match(c),
        crate::config::spec_dio_completion(c) is Ok,
    ensures
        config_variants_match(crate::config::spec_dio_completion(c)->Ok_0),
{
}

proof fn lemma_inherit_variants(c: DionysiusConfigV, sup: Option<DionysiusConfigV>)
    requires
        config_variants_match(c),
    ensures
        config_variants_match(crate::task::spec_dio_inherit(c, sup)),
{
}

proof fn lemma_created_tasks_ok(
    eff: DionysiusConfigV,
    pols: ((bool, bool), (bool, bool), (bool, bool)),
    dir: Seq<char>,
    own: Seq<Seq<char>>,
    cli_pats: Seq<Seq<char>>,
    gitignore: Option<Seq<Seq<char>>>,
    child_tasks: Seq<TaskV>,
    excl_out: Seq<Seq<char>>,
)
    requires
        crate::task::spec_created_tasks(
            eff,
            pols,
            dir,
            own,
            cli_pats,
            gitignore,
            child_tasks,
            excl_out,
        ) is Ok,
        config_variants_match(eff),
        pols.0.1 ==> eff.trigger is Some,
        pols.1.1 ==> eff.git is Some,
        pols.2.1 ==> eff.borg is Some,
        forall|k: int| 0 <= k < own.len() ==> is_strict_descendant(#[trigger] own[k], dir),
        tasks_excl_ok(child_tasks),
        tasks_distinct(child_tasks),
        forall|i: int|
            0 <= i < child_tasks.len() ==> is_strict_descendant(
                task_root(#[trigger] child_tasks[i]),
                dir,
            ),
    ensures
        ({
            let out = crate::task::spec_created_tasks(
                eff,
                pols,
                dir,
                own,
                cli_pats,
                gitignore,
                child_tasks,
                excl_out,
            )->Ok_0;
            &&& out.1 == excl_out
            &&& tasks_roots_under(out.0, dir)
            &&& tasks_excl_ok(out.0)
            &&& tasks_distinct(out.0)
        }),
{
    let out = crate::task::spec_created_tasks(
        eff,
        pols,
        dir,
        own,
        cli_pats,
        gitignore,
        child_tasks,
        excl_out,
    )->Ok_0;
    let ts0: Seq<TaskV> = if pols.0.1 {
        seq![
            crate::task::spec_task_for_section(eff.trigger->0, dir, own, cli_pats, gitignore)->Ok_0,
        ]
    } else {
        Seq::empty()
    };
    let ts1: Seq<TaskV> = if pols.1.1 {
        seq![crate::task::spec_task_for_section(eff.git->0, dir, own, cli_pats, gitignore)->Ok_0]
    } else {
        Seq::empty()
    };
    let ts2: Seq<TaskV> = if pols.2.1 {
        seq![crate::task::spec_task_for_section(eff.borg->0, dir, own, cli_pats, gitignore)->Ok_0]
    } else {
        Seq::empty()
    };
    assert(out.0 == child_tasks + ts0 + ts1 + ts2);
    if pols.0.1 {
        let t0 = crate::task::spec_task_for_section(
            eff.trigger->0,
            dir,
            own,
            cli_pats,
            gitignore,
        )->Ok_0;
        assert(ts0 == seq![t0]);
        assert(task_root(t0) == dir && task_kind(t0) == 0);
        assert(task_excl(t0) =~= Seq::<Seq<char>>::empty());
        assert(excl_ok(t0));
    }
    if pols.1.1 {
        let t1 = crate::task::spec_task_for_section(eff.git->0, dir, own, cli_pats, gitignore)->Ok_0;
        assert(ts1 == seq![t1]);
        assert(task_root(t1) == dir && task_kind(t1) == 1 && task_excl(t1) == own);
        assert(excl_ok(t1));
    }
    if pols.2.1 {
        let t2 = crate::task::spec_task_for_section(
            eff.borg->0,
            dir,
            own,
            cli_pats,
            gitignore,
        )->Ok_0;
        assert(ts2 == seq![t2]);
        assert(task_root(t2) == dir && task_kind(t2) == 2 && task_excl(t2) == own);
        assert(excl_ok(t2));
    }
    let created = ts0 + ts1 + ts2;
    assert forall|i: int| 0 <= i < created.len() implies task_root(#[trigger] created[i]) == dir
        && excl_ok(created[i]) by {
        if i < ts0.len() {
            assert(created[i] == ts0[0]);
        } else if i < ts0.len() + ts1.len() {
            assert(created[i] == ts1[i - ts0.len()]);
        } else {
            assert(created[i] == ts2[i - ts0.len() - ts1.len()]);
        }
    }
    assert forall|i: int, j: int|
        #![trigger created[i], created[j]]
        0 <= i < j < created.len() implies task_kind(created[i]) != task_kind(created[j]) by {
        let k0 = ts0.len() as int;
        let k1 = k0 + ts1.len() as int;
        if i < k0 {
            assert(created[i] == ts0[0] && task_kind(created[i]) == 0);
        } else if i < k1 {
            assert(created[i] == ts1[i - k0] && task_kind(created[i]) == 1);
        } else {
            assert(created[i] == ts2[i - k1] && task_kind(created[i]) == 2);
        }
        if j < k0 {
            assert(created[j] == ts0[0] && task_kind(created[j]) == 0);
        } else if j < k1 {
            assert(created[j] == ts1[j - k0] && task_kind(created[j]) == 1);
        } else {
            assert(created[j] == ts2[j - k1] && task_kind(created[j]) == 2);
        }
    }
    assert(out.0 =~= child_tasks + created);
    assert forall|i: int| 0 <= i < out.0.len() implies desc_or_self(
        task_root(#[trigger] out.0[i]),
        dir,
    ) && excl_ok(out.0[i]) by {
        if i < child_tasks.len() {
            assert(out.0[i] == child_tasks[i]);
        } else {
            assert(out.0[i] == created[i - child_tasks.len()]);
        }
    }
    assert forall|i: int, j: int|
        #![trigger out.0[i], out.0[j]]
        0 <= i < j < out.0.len() && task_kind(out.0[i]) == task_kind(out.0[j]) implies task_root(
        out.0[i],
    ) != task_root(out.0[j]) by {
        let n = child_tasks.len();
        if i < n && j < n {
            assert(out.0[i] == child_tasks[i] && out.0[j] == child_tasks[j]);
        } else if i < n && j >= n {
            assert(out.0[i] == child_tasks[i] && out.0[j] == created[j - n]);
            assert(is_strict_descendant(task_root(child_tasks[i]), dir));
            assert(task_root(out.0[j]) == dir);
            assert(task_root(out.0[i]).len() > dir.len());
        } else {
            assert(out.0[i] == created[i - n] && out.0[j] == created[j - n]);
        }
    }
}

/// At a well-formed tree, a run that succeeds puts every task at or below
/// the directory it started from, never lets two tasks of one handler share
/// a root, gives every task only exclude paths strictly below its own root,
/// and only ever appends to the parent's exclude list, each added entry at
/// or below the directory.
pub proof fn lemma_collect_ok(
    ttid: Seq<char>,
    node: DirNode,
    dir: Seq<char>,
    sup: Option<DionysiusConfigV>,
    excl: Seq<Seq<char>>,
    cli: CliTaskConfig,
)
    requires
        wf_tree(node),
        spec_collect(ttid, node, dir, sup, excl, cli) is Ok,
    ensures
        ({
            let out = spec_collect(ttid, node, dir, sup, excl, cli)->Ok_0;
            &&& tasks_roots_under(out.0, dir)
            &&& tasks_excl_ok(out.0)
            &&& tasks_distinct(out.0)
            &&& excl_extended(excl, out.1)
            &&& excl_additions_under(excl, out.1, dir)
        }),
    decreases node, 1int, 0int,
{
    let out = spec_collect(ttid, node, dir, sup, excl, cli)->Ok_0;
    if excl.contains(dir) || (!cli.search_hidden && starts_with_char(node.name@, '.')) {
        assert(out.1.subrange(0, excl.len() as int) =~= excl);
    } else if node.config is None && !node.has_git_dir {
        lemma_collect_children_ok(ttid, node.children@, 0, dir, sup, excl, cli);
        assert forall|i: int| 0 <= i < out.0.len() implies desc_or_self(
            task_root(#[trigger] out.0[i]),
            dir,
        ) by {
            let c = choose|c: int|
                0 <= c < node.children@.len() && desc_or_self(
                    task_root(out.0[i]),
                    spec_join_path(dir, node.children@[c].name@),
                ) && name_ok(node.children@[c]);
            lemma_join_strict(dir, node.children@[c].name@);
            lemma_desc_strict_chain(
                task_root(out.0[i]),
                spec_join_path(dir, node.children@[c].name@),
                dir,
            );
        }
        assert forall|k: int| excl.len() <= k < out.1.len() implies desc_or_self(
            #[trigger] out.1[k],
            dir,
        ) by {
            let c = choose|c: int|
                0 <= c < node.children@.len() && desc_or_self(
                    out.1[k],
                    spec_join_path(dir, node.children@[c].name@),
                ) && name_ok(node.children@[c]);
            lemma_join_strict(dir, node.children@[c].name@);
            lemma_desc_strict_chain(out.1[k], spec_join_path(dir, node.children@[c].name@), dir);
        }
    } else {
        let raw = match node.config {
            Some(c) => c@,
            None => crate::config::spec_git_default_dio(),
        };
        let completed = if crate::config::spec_dio_is_complete(raw) {
            Ok::<DionysiusConfigV, Seq<char>>(raw)
        } else {
            crate::config::spec_dio_completion(raw)
        };
        let cfg = completed->Ok_0;
        assert(config_variants_match(raw));
        if !crate::config::spec_dio_is_complete(raw) {
            lemma_completion_variants(raw);
        }
        let eff = crate::task::spec_dio_inherit(cfg, sup);
        lemma_inherit_variants(cfg, sup);
        let pols = crate::task::spec_dir_policies(eff, ttid)->Ok_0;
        let excl1 = if pols.0.0 {
            excl.push(dir)
        } else {
            excl
        };
        let excl2 = if pols.1.0 {
            excl1.push(dir)
        } else {
            excl1
        };
        let excl3 = if pols.2.0 {
            excl2.push(dir)
        } else {
            excl2
        };
        assert(excl3.subrange(0, excl.len() as int) =~= excl);
        if !(pols.0.1 || pols.1.1 || pols.2.1) {
            assert(out.1 == excl3);
        } else {
            let sub = spec_collect_children(
                ttid,
                node.children@,
                0,
                dir,
                Some(eff),
                Seq::empty(),
                cli,
            )->Ok_0;
            lemma_collect_children_ok(
                ttid,
                node.children@,
                0,
                dir,
                Some(eff),
                Seq::empty(),
                cli,
            );
            assert forall|k: int| 0 <= k < sub.1.len() implies is_strict_descendant(
                #[trigger] sub.1[k],
                dir,
            ) by {
                let c = choose|c: int|
                    0 <= c < node.children@.len() && desc_or_self(
                        sub.1[k],
                        spec_join_path(dir, node.children@[c].name@),
                    ) && name_ok(node.children@[c]);
                lemma_join_strict(dir, node.children@[c].name@);
                lemma_desc_strict_chain(
                    sub.1[k],
                    spec_join_path(dir, node.children@[c].name@),
                    dir,
                );
            }
            assert forall|i: int| 0 <= i < sub.0.len() implies is_strict_descendant(
                task_root(#[trigger] sub.0[i]),
                dir,
            ) by {
                let c = choose|c: int|
                    0 <= c < node.children@.len() && desc_or_self(
                        task_root(sub.0[i]),
                        spec_join_path(dir, node.children@[c].name@),
                    ) && name_ok(node.children@[c]);
                lemma_join_strict(dir, node.children@[c].name@);
                lemma_desc_strict_chain(
                    task_root(sub.0[i]),
                    spec_join_path(dir, node.children@[c].name@),
                    dir,
                );
            }
            lemma_created_tasks_ok(
                eff,
                pols,
                dir,
                sub.1,
                cli.exclude_patterns.deep_view(),
                node.gitignore.deep_view(),
                sub.0,
                excl3,
            );
        }
    }
}

/// Law: in a run over a well-formed tree, every path in a task's exclude
/// list lies strictly below that task's root.
pub proof fn lemma_excludes_within_task_root(
    ttid: Seq<char>,
    root: DirNode,
    dir: Seq<char>,
    cli: CliTaskConfig,
)
    requires
        wf_tree(root),
        spec_collect(ttid, root, dir, None, Seq::empty(), cli) is Ok,
    ensures
        tasks_excl_ok(spec_collect(ttid, root, dir, None, Seq::empty(), cli)->Ok_0.0),
{
    lemma_collect_ok(ttid, root, dir, None, Seq::empty(), cli);
}

/// Law: in a run over a well-formed tree, no two tasks of the same handler
/// kind share a root.
pub proof fn lemma_no_shared_roots(
    ttid: Seq<char>,
    root: DirNode,
    dir: Seq<char>,
    cli: CliTaskConfig,
)
    requires
        wf_tree(root),
        spec_collect(ttid, root, dir, None, Seq::empty(), cli) is Ok,
    ensures
        tasks_distinct(spec_collect(ttid, root, dir, None, Seq::empty(), cli)->Ok_0.0),
{
    lemma_collect_ok(ttid, root, dir, None, Seq::empty(), cli);
}

/// Law: without `search_hidden`, a directory whose name begins with a dot
/// contributes nothing and is not descended into.
pub proof fn lemma_hidden_skipped(
    ttid: Seq<char>,
    node: DirNode,
    dir: Seq<char>,
    sup: Option<DionysiusConfigV>,
    excl: Seq<Seq<char>>,
    cli: CliTaskConfig,
)
    requires
        !cli.search_hidden,
        starts_with_char(node.name@, '.'),
    ensures
        spec_collect(ttid, node, dir, sup, excl, cli) == Ok::<
            (Seq<TaskV>, Seq<Seq<char>>),
            CollectErrorV,
        >((Seq::empty(), excl)),
{
}

/// Law: a directory with neither a configuration file nor a `.git` directory
/// contributes no task of its own, yet its children are traversed with
/// everything unchanged.
pub proof fn lemma_transparent_traversal(
    ttid: Seq<char>,
    node: DirNode,
    dir: Seq<char>,
    sup: Option<DionysiusConfigV>,
    excl: Seq<Seq<char>>,
    cli: CliTaskConfig,
)
    requires
        node.config is None,
        !node.has_git_dir,
        !excl.contains(dir),
        cli.search_hidden || !starts_with_char(node.name@, '.'),
        wf_tree(node),
    ensures
        spec_collect(ttid, node, dir, sup, excl, cli) == spec_collect_children(
            ttid,
            node.children@,
            0,
            dir,
            sup,
            excl,
            cli,
        ),
        spec_collect(ttid, node, dir, sup, excl, cli) matches Ok(out) ==> forall|i: int|
            0 <= i < out.0.len() ==> task_root(#[trigger] out.0[i]) != dir,
{
    if spec_collect(ttid, node, dir, sup, excl, cli) is Ok {
        let out = spec_collect(ttid, node, dir, sup, excl, cli)->Ok_0;
        lemma_collect_children_ok(ttid, node.children@, 0, dir, sup, excl, cli);
        assert forall|i: int| 0 <= i < out.0.len() implies task_root(#[trigger] out.0[i])
            != dir by {
            let c = choose|c: int|
                0 <= c < node.children@.len() && desc_or_self(
                    task_root(out.0[i]),
                    spec_join_path(dir, node.children@[c].name@),
                ) && name_ok(node.children@[c]);
            lemma_desc_prefix(task_root(out.0[i]), spec_join_path(dir, node.children@[c].name@));
        }
    }
}

/// Law: resolving an assets record against a parent's heritage record takes
/// the parent's recursion policy exactly when the local one is `inherit`,
/// and never touches any other field.
pub proof fn lemma_inheritance_algebra(
    this: crate::git::GitInheritableConfigV,
    sup: crate::git::GitInheritableConfigV,
)
    ensures
        ({
            let r = crate::git::spec_git_inh_inherit(this, Some(sup));
            &&& r.on_recursion == if this.on_recursion == Some(OnRecursion::Inherit) {
                sup.on_recursion
            } else {
                this.on_recursion
            }
            &&& r.trigger_by == this.trigger_by
            &&& r.on_unsave == this.on_unsave
            &&& r.ignore_child == this.ignore_child
        }),
{
}

/// The effective configuration a directory resolves to, as the engine
/// computes it: the raw or built-in configuration, completed where needed,
/// then resolved against the parent's effective configuration.
pub open spec fn spec_effective_config(
    node: DirNode,
    sup: Option<DionysiusConfigV>,
) -> DionysiusConfigV {
    let raw = match node.config {
        Some(c) => c@,
        None => crate::config::spec_git_default_dio(),
    };
    let cfg = if crate::config::spec_dio_is_complete(raw) {
        raw
    } else {
        crate::config::spec_dio_completion(raw)->Ok_0
    };
    crate::task::spec_dio_inherit(cfg, sup)
}

/// Law: at a directory that carries a configuration or a git directory and
/// that the run reaches, every section whose policy registers puts the
/// directory into the parent's exclude list, and every section whose policy
/// creates puts a task of its kind at the directory.
pub proof fn lemma_creating_section_yields_task(
    ttid: Seq<char>,
    node: DirNode,
    dir: Seq<char>,
    sup: Option<DionysiusConfigV>,
    excl: Seq<Seq<char>>,
    cli: CliTaskConfig,
)
    requires
        spec_collect(ttid, node, dir, sup, excl, cli) is Ok,
        !excl.contains(dir),
        cli.search_hidden || !starts_with_char(node.name@, '.'),
        node.config is Some || node.has_git_dir,
        match node.config {
            Some(c) => config_variants_match(c@),
            None => true,
        },
    ensures
        ({
            let eff = spec_effective_config(node, sup);
            let pols = crate::task::spec_dir_policies(eff, ttid)->Ok_0;
            let out = spec_collect(ttid, node, dir, sup, excl, cli)->Ok_0;
            &&& ((pols.0.0 || pols.1.0 || pols.2.0) ==> out.1.contains(dir))
            &&& (pols.0.1 ==> exists|i: int|
                0 <= i < out.0.len() && task_kind(#[trigger] out.0[i]) == 0 && task_root(out.0[i])
                    == dir)
            &&& (pols.1.1 ==> exists|i: int|
                0 <= i < out.0.len() && task_kind(#[trigger] out.0[i]) == 1 && task_root(out.0[i])
                    == dir)
            &&& (pols.2.1 ==> exists|i: int|
                0 <= i < out.0.len() && task_kind(#[trigger] out.0[i]) == 2 && task_root(out.0[i])
                    == dir)
        }),
{
    let eff = spec_effective_config(node, sup);
    let raw = match node.config {
        Some(c) => c@,
        None => crate::config::spec_git_default_dio(),
    };
    let cfg = if crate::config::spec_dio_is_complete(raw) {
        raw
    } else {
        crate::config::spec_dio_completion(raw)->Ok_0
    };
    if !crate::config::spec_dio_is_complete(raw) {
        lemma_completion_variants(raw);
    }
    lemma_inherit_variants(cfg, sup);
    let pols = crate::task::spec_dir_policies(eff, ttid)->Ok_0;
    let out = spec_collect(ttid, node, dir, sup, excl, cli)->Ok_0;
    let excl1 = if pols.0.0 {
        excl.push(dir)
    } else {
        excl
    };
    let excl2 = if pols.1.0 {
        excl1.push(dir)
    } else {
        excl1
    };
    let excl3 = if pols.2.0 {
        excl2.push(dir)
    } else {
        excl2
    };
    if pols.0.0 || pols.1.0 || pols.2.0 {
        assert(excl3.contains(dir)) by {
            if pols.2.0 {
                assert(excl3.last() == dir);
            } else if pols.1.0 {
                assert(excl2.last() == dir);
            } else {
                assert(excl1.last() == dir);
            }
        }
    }
    if pols.0.1 || pols.1.1 || pols.2.1 {
        let sub = spec_collect_children(
            ttid,
            node.children@,
            0,
            dir,
            Some(eff),
            Seq::empty(),
            cli,
        )->Ok_0;
        let cli_pats = cli.exclude_patterns.deep_view();
        let gi = node.gitignore.deep_view();
        let ts0: Seq<TaskV> = if pols.0.1 {
            seq![crate::task::spec_task_for_section(eff.trigger->0, dir, sub.1, cli_pats, gi)->Ok_0]
        } else {
            Seq::empty()
        };
        let ts1: Seq<TaskV> = if pols.1.1 {
            seq![crate::task::spec_task_for_section(eff.git->0, dir, sub.1, cli_pats, gi)->Ok_0]
        } else {
            Seq::empty()
        };
        let ts2: Seq<TaskV> = if pols.2.1 {
            seq![crate::task::spec_task_for_section(eff.borg->0, dir, sub.1, cli_pats, gi)->Ok_0]
        } else {
            Seq::empty()
        };
        assert(out.0 == sub.0 + ts0 + ts1 + ts2);
        let n = sub.0.len() as int;
        if pols.0.1 {
            assert(out.0[n] == ts0[0]);
            assert(task_kind(out.0[n]) == 0 && task_root(out.0[n]) == dir);
        }
        if pols.1.1 {
            assert(out.0[n + ts0.len()] == ts1[0]);
            assert(task_kind(out.0[n + ts0.len()]) == 1 && task_root(out.0[n + ts0.len()])
                == dir);
        }
        if pols.2.1 {
            assert(out.0[n + ts0.len() + ts1.len()] == ts2[0]);
            assert(task_kind(out.0[n + ts0.len() + ts1.len()]) == 2 && task_root(
                out.0[n + ts0.len() + ts1.len()],
            ) == dir);
        }
    }
}

/// The recursion policy a section's assets record carries, if any.
pub open spec fn section_assets_policy(s: PushTaskConfigV) -> Option<OnRecursion> {
    crate::config::spec_assets_on_recursion(s)
}

/// The recursion policy a section's heritage record carries, if any.
pub open spec fn section_heritage_policy(s: PushTaskConfigV) -> Option<OnRecursion> {
    match s {
        PushTaskConfigV::Trigger(t) => match t.heritage {
            Some(h) => h.on_recursion,
            None => None,
        },
        PushTaskConfigV::Git(g) => match g.heritage {
            Some(h) => h.on_recursion,
            None => None,
        },
        PushTaskConfigV::Borg(b) => match b.heritage {
            Some(h) => h.on_recursion,
            None => None,
        },
    }
}

/// No record of the section carries an unresolved `inherit` policy.
pub open spec fn section_resolved(s: PushTaskConfigV) -> bool {
    section_assets_policy(s) != Some(OnRecursion::Inherit) && section_heritage_policy(s) != Some(
        OnRecursion::Inherit,
    )
}

/// No record of any present section carries an unresolved `inherit` policy.
pub open spec fn dio_resolved(c: DionysiusConfigV) -> bool {
    &&& (c.trigger matches Some(s) ==> section_resolved(s))
    &&& (c.git matches Some(s) ==> section_resolved(s))
    &&& (c.borg matches Some(s) ==> section_resolved(s))
}

/// Law: resolving any configuration against a resolved parent (or against no
/// parent at all) leaves no `inherit` policy behind: an `inherit` in the
/// effective configuration would be an internal invariant violation, and the
/// resolver cannot produce one.
pub proof fn lemma_effective_never_inherit(
    cfg: DionysiusConfigV,
    sup: Option<DionysiusConfigV>,
)
    requires
        match sup {
            Some(s) => dio_resolved(s),
            None => true,
        },
    ensures
        dio_resolved(crate::task::spec_dio_inherit(cfg, sup)),
{
}

/// Law: a trigger run visits every handler section, whatever its
/// `trigger_by` list says.
pub proof fn lemma_trigger_bypasses_filter(sec: PushTaskConfigV)
    ensures
        crate::task::spec_eligible(sec, "trigger"@),
{
}

/// The children's share of the collection law, walking the siblings from
/// position `from` and threading the shared exclude list.
pub proof fn lemma_collect_children_ok(
    ttid: Seq<char>,
    nodes: Seq<DirNode>,
    from: int,
    dir: Seq<char>,
    sup: Option<DionysiusConfigV>,
    excl: Seq<Seq<char>>,
    cli: CliTaskConfig,
)
    requires
        wf_children_from(nodes, from),
        0 <= from,
        spec_collect_children(ttid, nodes, from, dir, sup, excl, cli) is Ok,
    ensures
        ({
            let out = spec_collect_children(ttid, nodes, from, dir, sup, excl, cli)->Ok_0;
            &&& tasks_under_children(out.0, nodes, from, dir)
            &&& tasks_excl_ok(out.0)
            &&& tasks_distinct(out.0)
            &&& excl_extended(excl, out.1)
            &&& excl_additions_under_children(excl, out.1, nodes, from, dir)
        }),
    decreases nodes, 0int, nodes.len() - from,
{
    let out = spec_collect_children(ttid, nodes, from, dir, sup, excl, cli)->Ok_0;
    if from >= nodes.len() {
        assert(out.1.subrange(0, excl.len() as int) =~= excl);
    } else {
        let jd = spec_join_path(dir, nodes[from].name@);
        let first = spec_collect(ttid, nodes[from], jd, sup, excl, cli)->Ok_0;
        lemma_collect_ok(ttid, nodes[from], jd, sup, excl, cli);
        let rest = spec_collect_children(ttid, nodes, from + 1, dir, sup, first.1, cli)->Ok_0;
        lemma_collect_children_ok(ttid, nodes, from + 1, dir, sup, first.1, cli);
        assert(out.0 == first.0 + rest.0);
        assert(out.1 == rest.1);
        // the old entries stand unchanged in front
        assert forall|k: int| 0 <= k < excl.len() implies rest.1[k] == excl[k] by {
            assert(rest.1.subrange(0, first.1.len() as int)[k] == rest.1[k]);
            assert(first.1.subrange(0, excl.len() as int)[k] == first.1[k]);
        }
        assert(rest.1.subrange(0, excl.len() as int) =~= excl);
        // every task sits under one of the siblings
        assert forall|i: int| 0 <= i < out.0.len() implies exists|c: int|
            from <= c < nodes.len() && desc_or_self(
                task_root(#[trigger] out.0[i]),
                spec_join_path(dir, nodes[c].name@),
            ) && name_ok(nodes[c]) by {
            if i < first.0.len() {
                assert(out.0[i] == first.0[i]);
                assert(desc_or_self(task_root(out.0[i]), spec_join_path(dir, nodes[from].name@))
                    && name_ok(nodes[from]));
            } else {
                assert(out.0[i] == rest.0[i - first.0.len()]);
                let c = choose|c: int|
                    from + 1 <= c < nodes.len() && desc_or_self(
                        task_root(rest.0[i - first.0.len()]),
                        spec_join_path(dir, nodes[c].name@),
                    ) && name_ok(nodes[c]);
                assert(from <= c < nodes.len() && desc_or_self(
                    task_root(out.0[i]),
                    spec_join_path(dir, nodes[c].name@),
                ) && name_ok(nodes[c]));
            }
        }
        // exclude paths of each task
        assert forall|i: int| 0 <= i < out.0.len() implies excl_ok(#[trigger] out.0[i]) by {
            if i < first.0.len() {
                assert(out.0[i] == first.0[i]);
            } else {
                assert(out.0[i] == rest.0[i - first.0.len()]);
            }
        }
        // no two tasks of one handler share a root
        assert forall|i: int, j: int|
            #![trigger out.0[i], out.0[j]]
            0 <= i < j < out.0.len() && task_kind(out.0[i]) == task_kind(out.0[j]) implies task_root(
            out.0[i],
        ) != task_root(out.0[j]) by {
            let n = first.0.len();
            if i < n && j < n {
                assert(out.0[i] == first.0[i] && out.0[j] == first.0[j]);
            } else if i >= n && j >= n {
                assert(out.0[i] == rest.0[i - n] && out.0[j] == rest.0[j - n]);
            } else {
                assert(out.0[i] == first.0[i] && out.0[j] == rest.0[j - n]);
                let c = choose|c: int|
                    from + 1 <= c < nodes.len() && desc_or_self(
                        task_root(rest.0[j - n]),
                        spec_join_path(dir, nodes[c].name@),
                    ) && name_ok(nodes[c]);
                assert(desc_or_self(task_root(out.0[i]), jd));
                lemma_sibling_disjoint(
                    dir,
                    nodes[from].name@,
                    nodes[c].name@,
                    task_root(out.0[i]),
                );
            }
        }
        // added exclude entries sit under one of the siblings
        assert forall|k: int| excl.len() <= k < out.1.len() implies exists|c: int|
            from <= c < nodes.len() && desc_or_self(
                #[trigger] out.1[k],
                spec_join_path(dir, nodes[c].name@),
            ) && name_ok(nodes[c]) by {
            if k < first.1.len() {
                assert(rest.1.subrange(0, first.1.len() as int)[k] == rest.1[k]);
                assert(out.1[k] == first.1[k]);
                assert(desc_or_self(first.1[k], jd) && name_ok(nodes[from]));
            } else {
                let c = choose|c: int|
                    from + 1 <= c < nodes.len() && desc_or_self(
                        rest.1[k],
                        spec_join_path(dir, nodes[c].name@),
                    ) && name_ok(nodes[c]);
                assert(from <= c < nodes.len() && desc_or_self(
                    out.1[k],
                    spec_join_path(dir, nodes[c].name@),
                ) && name_ok(nodes[c]));
            }
        }
    }
}

} // verus!
