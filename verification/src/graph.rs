//! What the daemon reads of its dependency graph, and the slot that holds the
//! graph in use.

use crate::text::str_eq;
use std::sync::Arc;
use vstd::prelude::*;

verus! {

/// What is known of a context.
#[derive(Clone, Copy, Debug, PartialEq, Eq, Structural)]
pub enum ContextState {
    /// It was never scanned.
    Cold,
    /// Its files are known.
    Warm,
    /// Its files were known and may have changed.
    Stale,
}

/// A compilation that the graph knows.
#[derive(Clone, Debug)]
pub struct GraphContext {
    /// Its key.
    pub key: String,
    /// What is known of it.
    pub state: ContextState,
    /// Key of the artifact that it led to.
    pub artifact_key: Option<String>,
}

/// A dependency graph.
#[derive(Clone, Debug)]
pub struct DepGraph {
    /// The compilations that it knows.
    pub contexts: Vec<GraphContext>,
    /// The number of files that it knows.
    pub file_count: u64,
}

/// How many contexts are in a state.
pub open spec fn in_state(s: Seq<GraphContext>, state: ContextState) -> nat
    decreases s.len(),
{
    if s.len() == 0 {
        0
    } else {
        in_state(s.drop_last(), state) + if s.last().state == state {
            1nat
        } else {
            0
        }
    }
}

/// How many contexts led to an artifact.
pub open spec fn keyed(s: Seq<GraphContext>) -> nat
    decreases s.len(),
{
    if s.len() == 0 {
        0
    } else {
        keyed(s.drop_last()) + if s.last().artifact_key is Some {
            1nat
        } else {
            0
        }
    }
}

/// Whether a context was scanned.
pub open spec fn scanned(s: Seq<GraphContext>, key: Seq<char>) -> bool {
    exists|i: int|
        0 <= i < s.len() && (#[trigger] s[i]).key@ == key && s[i].state != ContextState::Cold
}

proof fn states_add_up(s: Seq<GraphContext>)
    ensures
        in_state(s, ContextState::Cold) + in_state(s, ContextState::Warm) + in_state(
            s,
            ContextState::Stale,
        ) == s.len(),
        keyed(s) <= s.len(),
    decreases s.len(),
{
    if s.len() > 0 {
        states_add_up(s.drop_last());
    }
}

/// Every context is in one of the three states.
pub proof fn contexts_are_counted_once(s: Seq<GraphContext>)
    ensures
        in_state(s, ContextState::Cold) + in_state(s, ContextState::Warm) + in_state(
            s,
            ContextState::Stale,
        ) == s.len(),
{
    states_add_up(s);
}

impl DepGraph {
    /// A graph that knows nothing.
    pub fn new() -> (g: Self)
        ensures
            g.contexts@.len() == 0,
            g.file_count == 0,
    {
        DepGraph { contexts: Vec::new(), file_count: 0 }
    }

    /// Whether a compilation with this key was never scanned.
    pub fn is_cold(&self, key: &str) -> (r: bool)
        ensures
            r == !scanned(self.contexts@, key@),
    {
        let mut i: usize = 0;
        while i < self.contexts.len()
            invariant
                i <= self.contexts@.len(),
                forall|j: int|
                    0 <= j < i ==> !((#[trigger] self.contexts@[j]).key@ == key@
                        && self.contexts@[j].state != ContextState::Cold),
            decreases self.contexts@.len() - i,
        {
            if str_eq(self.contexts[i].key.as_str(), key) && self.contexts[i].state
                != ContextState::Cold {
                return false;
            }
            i = i + 1;
        }
        true
    }

    /// The number of cold, warm and stale contexts.
    pub fn state_breakdown(&self) -> (r: (usize, usize, usize))
        ensures
            r.0 == in_state(self.contexts@, ContextState::Cold),
            r.1 == in_state(self.contexts@, ContextState::Warm),
            r.2 == in_state(self.contexts@, ContextState::Stale),
    {
        let mut cold: usize = 0;
        let mut warm: usize = 0;
        let mut stale: usize = 0;
        let mut i: usize = 0;
        let ghost s = self.contexts@;
        assert(s.take(0) =~= Seq::empty());
        while i < self.contexts.len()
            invariant
                i <= self.contexts@.len(),
                s == self.contexts@,
                cold == in_state(s.take(i as int), ContextState::Cold),
                warm == in_state(s.take(i as int), ContextState::Warm),
                stale == in_state(s.take(i as int), ContextState::Stale),
                cold + warm + stale == i,
            decreases self.contexts@.len() - i,
        {
            assert(s.take(i + 1).drop_last() =~= s.take(i as int));
            match self.contexts[i].state {
                ContextState::Cold => {
                    cold = cold + 1;
                },
                ContextState::Warm => {
                    warm = warm + 1;
                },
                ContextState::Stale => {
                    stale = stale + 1;
                },
            }
            i = i + 1;
        }
        assert(s.take(s.len() as int) =~= s);
        (cold, warm, stale)
    }

    /// The number of contexts that led to an artifact.
    pub fn contexts_with_artifact_key(&self) -> (r: usize)
        ensures
            r == keyed(self.contexts@),
    {
        let mut n: usize = 0;
        let mut i: usize = 0;
        let ghost s = self.contexts@;
        assert(s.take(0) =~= Seq::empty());
        while i < self.contexts.len()
            invariant
                i <= self.contexts@.len(),
                s == self.contexts@,
                n == keyed(s.take(i as int)),
                n <= i,
            decreases self.contexts@.len() - i,
        {
            assert(s.take(i + 1).drop_last() =~= s.take(i as int));
            if self.contexts[i].artifact_key.is_some() {
                n = n + 1;
            }
            i = i + 1;
        }
        assert(s.take(s.len() as int) =~= s);
        n
    }
}

/// A context after the artifact of a key was found to be gone.
pub open spec fn without_artifact(c: GraphContext, key: Seq<char>) -> GraphContext {
    if c.artifact_key matches Some(k) && k@ == key {
        GraphContext { artifact_key: None, ..c }
    } else {
        c
    }
}

/// How many contexts lead to the artifact of a key.
pub open spec fn leading_to(s: Seq<GraphContext>, key: Seq<char>) -> nat
    decreases s.len(),
{
    if s.len() == 0 {
        0
    } else {
        leading_to(s.drop_last(), key) + if s.last().artifact_key matches Some(k) && k@ == key {
            1nat
        } else {
            0
        }
    }
}

/// The contexts after the artifact of a key was found to be gone.
pub open spec fn all_without_artifact(s: Seq<GraphContext>, key: Seq<char>) -> Seq<GraphContext> {
    s.map_values(|c: GraphContext| without_artifact(c, key))
}

/// No context leads to an artifact that was found to be gone.
pub proof fn gone_artifacts_are_forgotten(s: Seq<GraphContext>, key: Seq<char>)
    ensures
        leading_to(all_without_artifact(s, key), key) == 0,
    decreases s.len(),
{
    if s.len() > 0 {
        gone_artifacts_are_forgotten(s.drop_last(), key);
        assert(all_without_artifact(s, key).drop_last() =~= all_without_artifact(
            s.drop_last(),
            key,
        ));
    }
}

/// Forgets the artifact of a key, which is gone; says how many contexts led to
/// it.
pub fn invalidate_artifact_key(g: &DepGraph, key: &str) -> (r: (DepGraph, usize))
    ensures
        r.0.contexts@ == all_without_artifact(g.contexts@, key@),
        r.0.file_count == g.file_count,
        r.1 == leading_to(g.contexts@, key@),
{
    let ghost s = g.contexts@;
    let mut contexts: Vec<GraphContext> = Vec::new();
    let mut cleared: usize = 0;
    let mut i: usize = 0;
    assert(s.take(0) =~= Seq::empty());
    while i < g.contexts.len()
        invariant
            i <= g.contexts@.len(),
            s == g.contexts@,
            contexts@.len() == i,
            cleared <= i,
            forall|j: int| 0 <= j < i ==> contexts@[j] == without_artifact(s[j], key@),
            cleared == leading_to(s.take(i as int), key@),
        decreases g.contexts@.len() - i,
    {
        assert(s.take(i + 1).drop_last() =~= s.take(i as int));
        let c = &g.contexts[i];
        let artifact_key = match &c.artifact_key {
            Some(k) => if str_eq(k.as_str(), key) {
                cleared = cleared + 1;
                None
            } else {
                Some(k.clone())
            },
            None => None,
        };
        contexts.push(GraphContext { key: c.key.clone(), state: c.state, artifact_key });
        i = i + 1;
    }
    assert(s.take(s.len() as int) =~= s);
    assert(contexts@ =~= all_without_artifact(s, key@));
    (DepGraph { contexts, file_count: g.file_count }, cleared)
}

/// The graph in use, which can be replaced as a whole.
#[verifier::external_body]
#[derive(Debug)]
pub struct GraphSlot {
    inner: arc_swap::ArcSwap<DepGraph>,
}

/// The graph that a slot holds.
pub uninterp spec fn slot_graph(slot: GraphSlot) -> DepGraph;

/// `ArcSwap::from_pointee`: a slot that holds the given graph.
#[verifier::external_body]
pub(crate) fn new_slot(graph: DepGraph) -> (slot: GraphSlot)
    ensures
        slot_graph(slot) == graph,
{
    GraphSlot { inner: arc_swap::ArcSwap::from_pointee(graph) }
}

/// `ArcSwap::store`: afterwards the slot holds the given graph.
#[verifier::external_body]
pub(crate) fn store_graph(slot: &mut GraphSlot, graph: DepGraph)
    ensures
        slot_graph(*final(slot)) == graph,
{
    slot.inner.store(Arc::new(graph));
}

/// `ArcSwap::load_full`: the graph that the slot holds.
#[verifier::external_body]
pub(crate) fn load_graph(slot: &GraphSlot) -> (graph: Arc<DepGraph>)
    ensures
        *graph == slot_graph(*slot),
{
    slot.inner.load_full()
}

/// Forgets, in the graph in use, the artifact of a key, which is gone; says how
/// many contexts led to it.
pub fn invalidate_in_slot(slot: &mut GraphSlot, key: &str) -> (cleared: usize)
    ensures
        slot_graph(*final(slot)).contexts@ == all_without_artifact(
            slot_graph(*old(slot)).contexts@,
            key@,
        ),
        slot_graph(*final(slot)).file_count == slot_graph(*old(slot)).file_count,
        cleared == leading_to(slot_graph(*old(slot)).contexts@, key@),
{
    let g = load_graph(slot);
    let (next, cleared) = invalidate_artifact_key(&*g, key);
    store_graph(slot, next);
    cleared
}

/// What is told of a graph's contexts is told of each of them: one more context
/// is one more in its own state and in no other, and one more with an artifact
/// exactly where it has one.
pub proof fn one_more_context_is_told(s: Seq<GraphContext>, c: GraphContext, state: ContextState)
    ensures
        in_state(s.push(c), state) == in_state(s, state) + if c.state == state { 1int } else { 0 },
        keyed(s.push(c)) == keyed(s) + if c.artifact_key is Some { 1int } else { 0 },
        in_state(Seq::empty(), state) == 0,
        keyed(Seq::empty()) == 0,
{
    assert(s.push(c).drop_last() =~= s);
}

/// Forgetting an artifact forgets it for the contexts that led to it and for no
/// other: those keep their artifact, and all keep their keys and states. The
/// number that is told is the number of contexts that lost one.
pub proof fn only_the_gone_artifact_is_forgotten(
    g: &DepGraph,
    key: &str,
    r: (DepGraph, usize),
    i: int,
)
    requires
        call_ensures(invalidate_artifact_key, (g, key), r),
        0 <= i < g.contexts@.len(),
    ensures
        r.0.contexts@.len() == g.contexts@.len(),
        r.0.file_count == g.file_count,
        r.0.contexts@[i].key == g.contexts@[i].key,
        r.0.contexts@[i].state == g.contexts@[i].state,
        g.contexts@[i].artifact_key is Some && g.contexts@[i].artifact_key->0@ == key@
            ==> r.0.contexts@[i].artifact_key is None,
        g.contexts@[i].artifact_key is None || g.contexts@[i].artifact_key->0@ != key@
            ==> r.0.contexts@[i].artifact_key == g.contexts@[i].artifact_key,
        keyed(g.contexts@) == keyed(r.0.contexts@) + r.1,
{
    losses_add_up(g.contexts@, key@);
}

proof fn losses_add_up(s: Seq<GraphContext>, key: Seq<char>)
    ensures
        keyed(s) == keyed(all_without_artifact(s, key)) + leading_to(s, key),
    decreases s.len(),
{
    let a = all_without_artifact(s, key);
    if s.len() > 0 {
        losses_add_up(s.drop_last(), key);
        assert(a.drop_last() =~= all_without_artifact(s.drop_last(), key));
        assert(a.last() == without_artifact(s.last(), key));
    } else {
        assert(a =~= Seq::empty());
    }
}

/// A context is cold unless one of its key was scanned.
pub proof fn unknown_contexts_are_cold(g: &DepGraph, key: &str, r: bool, i: int)
    requires
        call_ensures(DepGraph::is_cold, (g, key), r),
    ensures
        (forall|k: int| 0 <= k < g.contexts@.len() ==> (#[trigger] g.contexts@[k]).key@ != key@)
            ==> r,
        0 <= i < g.contexts@.len() && g.contexts@[i].key@ == key@ && !(g.contexts@[i].state is Cold)
            ==> !r,
        !r ==> exists|k: int|
            0 <= k < g.contexts@.len() && (#[trigger] g.contexts@[k]).key@ == key@
                && !(g.contexts@[k].state is Cold),
{
}

} // verus!
