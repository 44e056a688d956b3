//! The materialization semantics of a scaffold plan over a filesystem,
//! modeled as a map from relative paths to nodes, together with the laws
//! that make `integrate` safe to re-run: existing paths are never touched,
//! a second run changes nothing and performs zero writes, and a fresh run
//! creates every planned path with the planned contents.

use vstd::prelude::*;
use crate::plan::{StepView, step_path, spec_plan};
use crate::templates::{
    spec_placeholder_key,
    spec_build_driver,
    spec_web_host_page,
    spec_toolchain_config,
    spec_entry_source,
};
use crate::text::replace_all;

verus! {

/// What a path holds in the filesystem model.
pub enum NodeView {
    /// A directory.
    Dir,
    /// A file with the given text contents.
    File(Seq<char>),
}

/// A filesystem, as the scaffolder sees it: relative paths mapped to nodes.
pub type FsView = Map<Seq<char>, NodeView>;

/// The node a step creates when its path is absent.
pub open spec fn step_node(step: StepView) -> NodeView {
    match step {
        StepView::Dir(p) => NodeView::Dir,
        StepView::File(p, c) => NodeView::File(c),
    }
}

/// One materialization step applied to a filesystem: if the step's path
/// already exists the filesystem is left untouched, whatever the path
/// holds; otherwise the step's node is created.
pub open spec fn apply_step(fs: FsView, step: StepView) -> FsView {
    if fs.dom().contains(step_path(step)) {
        fs
    } else {
        fs.insert(step_path(step), step_node(step))
    }
}

/// A whole plan applied to a filesystem, step by step, in plan order.
pub open spec fn apply_plan(fs: FsView, plan: Seq<StepView>) -> FsView
    decreases plan.len(),
{
    if plan.len() == 0 {
        fs
    } else {
        apply_plan(apply_step(fs, plan[0]), plan.skip(1))
    }
}

/// How many steps of the plan actually create something when applied to
/// this filesystem (the others find their path present and do nothing).
pub open spec fn writes_count(fs: FsView, plan: Seq<StepView>) -> nat
    decreases plan.len(),
{
    if plan.len() == 0 {
        0
    } else {
        (if fs.dom().contains(step_path(plan[0])) {
            0nat
        } else {
            1nat
        }) + writes_count(apply_step(fs, plan[0]), plan.skip(1))
    }
}

/// A path that exists before a plan runs still exists afterwards and holds
/// exactly what it held before: materialization never overwrites.
pub proof fn lemma_apply_plan_preserves_existing(fs: FsView, plan: Seq<StepView>, p: Seq<char>)
    requires
        fs.dom().contains(p),
    ensures
        apply_plan(fs, plan).dom().contains(p),
        apply_plan(fs, plan)[p] == fs[p],
    decreases plan.len(),
{
    if plan.len() > 0 {
        lemma_apply_plan_preserves_existing(apply_step(fs, plan[0]), plan.skip(1), p);
    }
}

/// After a plan runs, the path of each of its steps exists.
pub proof fn lemma_apply_plan_covers(fs: FsView, plan: Seq<StepView>, i: int)
    requires
        0 <= i < plan.len(),
    ensures
        apply_plan(fs, plan).dom().contains(step_path(plan[i])),
    decreases plan.len(),
{
    if i == 0 {
        lemma_apply_plan_preserves_existing(apply_step(fs, plan[0]), plan.skip(1), step_path(
            plan[0],
        ));
    } else {
        lemma_apply_plan_covers(apply_step(fs, plan[0]), plan.skip(1), i - 1);
    }
}

/// A plan whose every step finds its path present changes nothing.
pub proof fn lemma_no_writes_no_change(fs: FsView, plan: Seq<StepView>)
    requires
        writes_count(fs, plan) == 0,
    ensures
        apply_plan(fs, plan) == fs,
    decreases plan.len(),
{
    if plan.len() > 0 {
        assert(fs.dom().contains(step_path(plan[0])));
        lemma_no_writes_no_change(fs, plan.skip(1));
    }
}

/// A second back-to-back run of the same plan performs zero writes: every
/// step finds the path that the first run ensured.
pub proof fn lemma_second_run_writes_nothing(fs: FsView, plan: Seq<StepView>)
    ensures
        writes_count(apply_plan(fs, plan), plan) == 0,
    decreases plan.len(),
{
    if plan.len() > 0 {
        let fs1 = apply_step(fs, plan[0]);
        let done = apply_plan(fs, plan);
        lemma_apply_plan_preserves_existing(fs1, plan.skip(1), step_path(plan[0]));
        assert(done.dom().contains(step_path(plan[0])));
        assert(apply_step(done, plan[0]) == done);
        lemma_second_run_writes_nothing(fs1, plan.skip(1));
    }
}

/// Materialization is idempotent: running a plan twice in sequence yields
/// the same filesystem as running it once.
pub proof fn lemma_apply_plan_idempotent(fs: FsView, plan: Seq<StepView>)
    ensures
        apply_plan(apply_plan(fs, plan), plan) == apply_plan(fs, plan),
{
    lemma_second_run_writes_nothing(fs, plan);
    lemma_no_writes_no_change(apply_plan(fs, plan), plan);
}

/// A plan run `n` times in sequence.
pub open spec fn apply_plan_times(fs: FsView, plan: Seq<StepView>, n: nat) -> FsView
    decreases n,
{
    if n == 0 {
        fs
    } else {
        apply_plan_times(apply_plan(fs, plan), plan, (n - 1) as nat)
    }
}

/// Running a plan any number of times (at least once) yields the same
/// filesystem as running it once.
pub proof fn lemma_apply_plan_times(fs: FsView, plan: Seq<StepView>, n: nat)
    requires
        n >= 1,
    ensures
        apply_plan_times(fs, plan, n) == apply_plan(fs, plan),
    decreases n,
{
    if n > 1 {
        lemma_apply_plan_times(apply_plan(fs, plan), plan, (n - 1) as nat);
        lemma_apply_plan_idempotent(fs, plan);
    } else {
        assert(apply_plan_times(apply_plan(fs, plan), plan, 0) == apply_plan(fs, plan));
    }
}

/// A step whose path is absent beforehand, and is not the path of any
/// earlier step, creates exactly its node.
pub proof fn lemma_fresh_step_content(fs: FsView, plan: Seq<StepView>, i: int)
    requires
        0 <= i < plan.len(),
        !fs.dom().contains(step_path(plan[i])),
        forall|j: int| 0 <= j < i ==> step_path(plan[j]) != step_path(plan[i]),
    ensures
        apply_plan(fs, plan).dom().contains(step_path(plan[i])),
        apply_plan(fs, plan)[step_path(plan[i])] == step_node(plan[i]),
    decreases plan.len(),
{
    let fs1 = apply_step(fs, plan[0]);
    if i == 0 {
        lemma_apply_plan_preserves_existing(fs1, plan.skip(1), step_path(plan[0]));
    } else {
        assert(step_path(plan[0]) != step_path(plan[i]));
        assert(!fs1.dom().contains(step_path(plan[i])));
        assert forall|j: int| 0 <= j < i - 1 implies step_path(#[trigger] plan.skip(1)[j])
            != step_path(plan.skip(1)[i - 1]) by {
            assert(plan.skip(1)[j] == plan[j + 1]);
        }
        lemma_fresh_step_content(fs1, plan.skip(1), i - 1);
    }
}

/// In a directory holding none of the planned paths, the canonical plan
/// creates all of them: the three directories, the build driver and the
/// toolchain configuration with their literal payloads, and the host page
/// with its placeholder resolved to the project name.
pub proof fn lemma_integrate_fresh_contents(fs: FsView, name: Seq<char>)
    requires
        !fs.dom().contains("Assets"@),
        !fs.dom().contains("Makefile"@),
        !fs.dom().contains("html"@),
        !fs.dom().contains("html/index.html"@),
        !fs.dom().contains(".cargo"@),
        !fs.dom().contains(".cargo/config.toml"@),
    ensures
        apply_plan(fs, spec_plan(name))["Assets"@] == NodeView::Dir,
        apply_plan(fs, spec_plan(name))["html"@] == NodeView::Dir,
        apply_plan(fs, spec_plan(name))[".cargo"@] == NodeView::Dir,
        apply_plan(fs, spec_plan(name))["Makefile"@] == NodeView::File(spec_build_driver()),
        apply_plan(fs, spec_plan(name))["html/index.html"@] == NodeView::File(
            replace_all(spec_web_host_page(), spec_placeholder_key(), name),
        ),
        apply_plan(fs, spec_plan(name))[".cargo/config.toml"@] == NodeView::File(
            spec_toolchain_config(),
        ),
{
    reveal_strlit("Assets");
    reveal_strlit("Makefile");
    reveal_strlit("html");
    reveal_strlit("html/index.html");
    reveal_strlit(".cargo");
    reveal_strlit(".cargo/config.toml");
    let plan = spec_plan(name);
    assert(step_path(plan[0]) == "Assets"@);
    assert(step_path(plan[1]) == "Makefile"@);
    assert(step_path(plan[2]) == "html"@);
    assert(step_path(plan[3]) == "html/index.html"@);
    assert(step_path(plan[4]) == ".cargo"@);
    assert(step_path(plan[5]) == ".cargo/config.toml"@);
    assert("Assets"@.len() == 6 && "Makefile"@.len() == 8 && "html"@.len() == 4
        && "html/index.html"@.len() == 15 && ".cargo"@.len() == 6
        && ".cargo/config.toml"@.len() == 18);
    assert("Assets"@[0] == 'A' && ".cargo"@[0] == '.');
    lemma_fresh_step_content(fs, plan, 0);
    lemma_fresh_step_content(fs, plan, 1);
    lemma_fresh_step_content(fs, plan, 2);
    lemma_fresh_step_content(fs, plan, 3);
    lemma_fresh_step_content(fs, plan, 4);
    lemma_fresh_step_content(fs, plan, 5);
}

/// After `new` succeeds — the entry source written over the skeleton's stub
/// and the canonical plan materialized — the project directory holds at
/// least `src/main.rs` with the entry-source payload, `Makefile`,
/// `html/index.html`, `.cargo/config.toml`, and the `Assets` directory.
pub proof fn lemma_new_project_layout(fs: FsView, name: Seq<char>)
    ensures
        apply_plan(
            fs.insert("src/main.rs"@, NodeView::File(spec_entry_source())),
            spec_plan(name),
        ).dom().contains("src/main.rs"@),
        apply_plan(
            fs.insert("src/main.rs"@, NodeView::File(spec_entry_source())),
            spec_plan(name),
        )["src/main.rs"@] == NodeView::File(spec_entry_source()),
        apply_plan(
            fs.insert("src/main.rs"@, NodeView::File(spec_entry_source())),
            spec_plan(name),
        ).dom().contains("Makefile"@),
        apply_plan(
            fs.insert("src/main.rs"@, NodeView::File(spec_entry_source())),
            spec_plan(name),
        ).dom().contains("html/index.html"@),
        apply_plan(
            fs.insert("src/main.rs"@, NodeView::File(spec_entry_source())),
            spec_plan(name),
        ).dom().contains(".cargo/config.toml"@),
        apply_plan(
            fs.insert("src/main.rs"@, NodeView::File(spec_entry_source())),
            spec_plan(name),
        ).dom().contains("Assets"@),
{
    let fs1 = fs.insert("src/main.rs"@, NodeView::File(spec_entry_source()));
    let plan = spec_plan(name);
    lemma_apply_plan_preserves_existing(fs1, plan, "src/main.rs"@);
    lemma_apply_plan_covers(fs1, plan, 0);
    lemma_apply_plan_covers(fs1, plan, 1);
    lemma_apply_plan_covers(fs1, plan, 3);
    lemma_apply_plan_covers(fs1, plan, 5);
}

} // verus!
