//! An executable, in-memory workspace on which a scaffold plan can be
//! materialized. Its behaviour is proved equal to the filesystem model of
//! `store`, so the laws proved there — never overwriting, idempotence, a
//! second run performing zero writes — hold of it, and tests can observe
//! them on concrete runs.

use vstd::prelude::*;
use crate::plan::{PlanStep, step_path, plan_view};
use crate::store::{NodeView, FsView, apply_step, apply_plan, writes_count};
use crate::text::{chars_eq, clone_chars};

verus! {

/// What a path holds in the in-memory workspace.
pub enum Node {
    /// A directory.
    Dir,
    /// A file with the given text contents.
    File(Vec<char>),
}

impl View for Node {
    type V = NodeView;

    open spec fn view(&self) -> NodeView {
        match self {
            Node::Dir => NodeView::Dir,
            Node::File(c) => NodeView::File(c@),
        }
    }
}

/// The path-to-node map that a list of entries denotes; a later entry for
/// the same path wins.
pub closed spec fn entries_map(s: Seq<(Vec<char>, Node)>) -> FsView
    decreases s.len(),
{
    if s.len() == 0 {
        Map::empty()
    } else {
        entries_map(s.drop_last()).insert(s.last().0@, s.last().1@)
    }
}

/// An in-memory workspace: a flat collection of paths and the nodes they
/// hold, viewed as a filesystem model.
pub struct MemFs {
    entries: Vec<(Vec<char>, Node)>,
}

impl View for MemFs {
    type V = FsView;

    closed spec fn view(&self) -> FsView {
        entries_map(self.entries@)
    }
}

/// A path that no entry at an index of `[k, s.len())` names is looked up
/// entirely within the first `k` entries.
proof fn lemma_entries_map_prefix(s: Seq<(Vec<char>, Node)>, q: Seq<char>, k: int)
    requires
        0 <= k <= s.len(),
        forall|j: int| k <= j < s.len() ==> (#[trigger] s[j]).0@ != q,
    ensures
        entries_map(s).dom().contains(q) == entries_map(s.take(k)).dom().contains(q),
        entries_map(s).dom().contains(q) ==> entries_map(s)[q] == entries_map(s.take(k))[q],
    decreases s.len() - k,
{
    if k == s.len() {
        assert(s.take(k) =~= s);
    } else {
        assert(s.take(s.len() as int - 1) =~= s.drop_last());
        assert(s[s.len() - 1] == s.last());
        lemma_entries_map_prefix(s.drop_last(), q, k);
        assert(s.drop_last().take(k) =~= s.take(k));
    }
}

impl MemFs {
    /// An empty workspace.
    pub fn new() -> (fs: MemFs)
        ensures
            fs@ == Map::<Seq<char>, NodeView>::empty(),
    {
        MemFs { entries: Vec::new() }
    }

    /// Place a node at a path, replacing whatever the path held.
    pub fn put(&mut self, path: Vec<char>, node: Node)
        ensures
            final(self)@ == old(self)@.insert(path@, node@),
    {
        let ghost s0 = self.entries@;
        let ghost e = (path@, node@);
        self.entries.push((path, node));
        proof {
            assert(self.entries@.drop_last() =~= s0);
        }
    }

    /// Look a path up: the node it holds, or nothing when it is absent.
    pub fn get(&self, path: &Vec<char>) -> (r: Option<&Node>)
        ensures
            match r {
                Option::Some(n) => self@.dom().contains(path@) && self@[path@] == n@,
                Option::None => !self@.dom().contains(path@),
            },
    {
        let mut k: usize = self.entries.len();
        while k > 0
            invariant
                k <= self.entries@.len(),
                forall|j: int|
                    k <= j < self.entries@.len() ==> (#[trigger] self.entries@[j]).0@ != path@,
            decreases k,
        {
            k -= 1;
            if chars_eq(&self.entries[k].0, path) {
                proof {
                    lemma_entries_map_prefix(self.entries@, path@, k as int + 1);
                    let pre = self.entries@.take(k as int + 1);
                    assert(pre.drop_last() =~= self.entries@.take(k as int));
                    assert(pre.last() == self.entries@[k as int]);
                }
                return Some(&self.entries[k].1);
            }
        }
        proof {
            lemma_entries_map_prefix(self.entries@, path@, 0);
            assert(self.entries@.take(0) =~= Seq::<(Vec<char>, Node)>::empty());
        }
        None
    }

    /// Whether a path exists in the workspace.
    pub fn has(&self, path: &Vec<char>) -> (r: bool)
        ensures
            r == self@.dom().contains(path@),
    {
        self.get(path).is_some()
    }

    /// Materialize one step: create the step's node only when its path does
    /// not exist yet. Returns whether anything was created.
    pub fn apply_one(&mut self, step: &PlanStep) -> (wrote: bool)
        ensures
            final(self)@ == apply_step(old(self)@, step@),
            wrote == !old(self)@.dom().contains(step_path(step@)),
    {
        match step {
            PlanStep::Dir(p) => {
                if self.has(p) {
                    false
                } else {
                    self.put(clone_chars(p), Node::Dir);
                    true
                }
            },
            PlanStep::File(p, c) => {
                if self.has(p) {
                    false
                } else {
                    self.put(clone_chars(p), Node::File(clone_chars(c)));
                    true
                }
            },
        }
    }

    /// Materialize a whole plan, in plan order. Returns how many steps
    /// actually created something; the laws of `store` make a second run
    /// of the same plan return zero.
    pub fn materialize(&mut self, plan: &Vec<PlanStep>) -> (writes: usize)
        ensures
            final(self)@ == apply_plan(old(self)@, plan_view(plan@)),
            writes == writes_count(old(self)@, plan_view(plan@)),
    {
        let ghost fs0 = self@;
        let ghost pv = plan_view(plan@);
        let mut writes: usize = 0;
        let mut i: usize = 0;
        proof {
            assert(pv.skip(0) =~= pv);
        }
        while i < plan.len()
            invariant
                i <= plan@.len(),
                writes <= i,
                pv == plan_view(plan@),
                pv.len() == plan@.len(),
                apply_plan(fs0, pv) == apply_plan(self@, pv.skip(i as int)),
                writes_count(fs0, pv) == writes + writes_count(self@, pv.skip(i as int)),
            decreases plan@.len() - i,
        {
            let ghost fs_before = self@;
            let step = &plan[i];
            proof {
                assert(pv[i as int] == plan@[i as int]@);
                assert(pv.skip(i as int)[0] == pv[i as int]);
                assert(pv.skip(i as int).skip(1) =~= pv.skip(i as int + 1));
            }
            let wrote = self.apply_one(step);
            if wrote {
                writes += 1;
            }
            i += 1;
        }
        proof {
            assert(pv.skip(plan@.len() as int) =~= Seq::<crate::plan::StepView>::empty());
        }
        writes
    }
}

} // verus!
