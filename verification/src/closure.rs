//! The closure walker: every derivation that a root is built from, directly
//! or through others, each fetched once.
//!
//! The walker does not query the build graph itself. It decides which
//! reference is queried next, and takes the description that came back; the
//! caller runs the queries.
use vstd::prelude::*;
use vstd::hash_set::StringHashSet;

use crate::error::QueryError;
use crate::nix::{entry_names, Drv, DrvView};
use crate::query::{get_derivation, get_derivations, spec_derivation, spec_derivations, Query};

verus! {

/// A reference to a derivation, as a value.
pub type Reference = Seq<char>;

/// The value of a list of derivations, each with its reference.
pub open spec fn drvs_model(drvs: Seq<(String, Drv)>) -> Seq<(Reference, DrvView)> {
    drvs.map_values(|entry: (String, Drv)| (entry.0@, entry.1.model()))
}

/// The references of a list of derivations, in order.
pub open spec fn keys(drvs: Seq<(Reference, DrvView)>) -> Seq<Reference> {
    entry_names(drvs)
}

/// The input references of a list of derivations: those of the first, then
/// those of the second, and so on.
pub open spec fn edges_of(drvs: Seq<(Reference, DrvView)>) -> Seq<Reference>
    decreases drvs.len(),
{
    if drvs.len() == 0 {
        Seq::empty()
    } else {
        edges_of(drvs.drop_last()) + drvs.last().1.input_references()
    }
}

/// Every reference that a walk from `seeds` has seen once it holds the
/// descriptions `fetched`, in the order in which it saw them.
pub open spec fn discovered(seeds: Seq<Reference>, fetched: Seq<(Reference, DrvView)>) -> Seq<
    Reference,
> {
    seeds + edges_of(fetched)
}

/// The references of a list without repetition: each where it occurs first.
pub open spec fn first_occurrences(references: Seq<Reference>) -> Seq<Reference>
    decreases references.len(),
{
    if references.len() == 0 {
        Seq::empty()
    } else {
        let earlier = first_occurrences(references.drop_last());
        if earlier.contains(references.last()) {
            earlier
        } else {
            earlier.push(references.last())
        }
    }
}

/// `next` is the first of the references `seen` that is not among `known`.
pub open spec fn is_first_new(seen: Seq<Reference>, known: Seq<Reference>, next: Reference) -> bool {
    &&& !known.contains(next)
    &&& exists|j: int|
        0 <= j < seen.len() && #[trigger] seen[j] == next && forall|k: int|
            0 <= k < j ==> known.contains(#[trigger] seen[k])
}

/// `fetched` can be the descriptions that a walk from `seeds` holds, with
/// `pending` the reference it asks for next: no reference is asked for twice,
/// and each was seen before it was asked for.
pub open spec fn is_walk(
    seeds: Seq<Reference>,
    fetched: Seq<(Reference, DrvView)>,
    pending: Reference,
) -> bool {
    let asked = keys(fetched).push(pending);
    &&& asked.no_duplicates()
    &&& forall|k: int|
        0 <= k < asked.len() ==> discovered(seeds, fetched.take(k)).contains(#[trigger] asked[k])
}

/// `closure` is the closure of `seeds`: the derivations reachable from the
/// seeds, each once, in the order in which a walk meets them.
pub open spec fn is_closure(seeds: Seq<Reference>, closure: Seq<(Reference, DrvView)>) -> bool {
    &&& keys(closure).no_duplicates()
    &&& forall|k: int|
        0 <= k < closure.len() ==> discovered(seeds, closure.take(k)).contains(
            #[trigger] keys(closure)[k],
        )
    &&& forall|j: int|
        0 <= j < discovered(seeds, closure).len() ==> keys(closure).contains(
            #[trigger] discovered(seeds, closure)[j],
        )
}

/// The input references of a derivation, from the entries of its
/// `input_drvs`.
pub open spec fn input_references_of(inputs: Seq<(String, Vec<String>)>) -> Seq<Reference> {
    inputs.map_values(|entry: (String, Vec<String>)| entry.0@)
}

/// The graph has each of the descriptions under its reference.
pub open spec fn describes(
    graph: Map<Reference, DrvView>,
    fetched: Seq<(Reference, DrvView)>,
) -> bool {
    forall|i: int|
        0 <= i < fetched.len() ==> graph.contains_key((#[trigger] fetched[i]).0)
            && graph[fetched[i].0] == fetched[i].1
}

/// The graph that a list of descriptions makes up: each description under
/// its reference.
pub open spec fn graph_of(fetched: Seq<(Reference, DrvView)>) -> Map<Reference, DrvView>
    decreases fetched.len(),
{
    if fetched.len() == 0 {
        Map::empty()
    } else {
        graph_of(fetched.drop_last()).insert(fetched.last().0, fetched.last().1)
    }
}

/// `target` is reached from `seeds` in at most `steps` steps along the input
/// references of the derivations of `graph`.
pub open spec fn reachable_within(
    seeds: Seq<Reference>,
    graph: Map<Reference, DrvView>,
    target: Reference,
    steps: nat,
) -> bool
    decreases steps,
{
    if steps == 0 {
        seeds.contains(target)
    } else {
        ||| reachable_within(seeds, graph, target, (steps - 1) as nat)
        ||| exists|from: Reference|
            #[trigger] graph.contains_key(from) && reachable_within(
                seeds,
                graph,
                from,
                (steps - 1) as nat,
            ) && graph[from].input_references().contains(target)
    }
}

/// `target` is reached from `seeds` along the input references of the
/// derivations of `graph`: it is a seed, or a derivation that is reached
/// names it.
pub open spec fn reachable(
    seeds: Seq<Reference>,
    graph: Map<Reference, DrvView>,
    target: Reference,
) -> bool {
    exists|steps: nat| reachable_within(seeds, graph, target, steps)
}

/// The input references of each derivation of a list are among the edges of
/// the list.
pub proof fn lemma_edges_contain_inputs(drvs: Seq<(Reference, DrvView)>, i: int, target: Reference)
    requires
        0 <= i < drvs.len(),
        drvs[i].1.input_references().contains(target),
    ensures
        edges_of(drvs).contains(target),
    decreases drvs.len(),
{
    broadcast use vstd::seq_lib::lemma_seq_concat_contains_all_elements;

    if i < drvs.len() - 1 {
        lemma_edges_contain_inputs(drvs.drop_last(), i, target);
    }
}

/// Each edge of a list of derivations is an input reference of one of them.
pub proof fn lemma_edges_come_from_inputs(drvs: Seq<(Reference, DrvView)>, target: Reference)
        -> (i: int)
    requires
        edges_of(drvs).contains(target),
    ensures
        0 <= i < drvs.len(),
        drvs[i].1.input_references().contains(target),
    decreases drvs.len(),
{
    broadcast use vstd::seq_lib::lemma_seq_concat_contains_all_elements;

    if drvs.len() == 0 {
        0
    } else if drvs.last().1.input_references().contains(target) {
        drvs.len() - 1
    } else {
        lemma_edges_come_from_inputs(drvs.drop_last(), target)
    }
}

/// The list of first occurrences holds no reference twice, and holds the
/// references of the list it is made from.
pub proof fn lemma_first_occurrences(references: Seq<Reference>)
    ensures
        first_occurrences(references).no_duplicates(),
        first_occurrences(references).len() <= references.len(),
        forall|r: Reference| #[trigger]
            first_occurrences(references).contains(r) <==> references.contains(r),
    decreases references.len(),
{
    if references.len() > 0 {
        let shorter = references.drop_last();
        let earlier = first_occurrences(shorter);
        lemma_first_occurrences(shorter);
        assert forall|r: Reference| #[trigger]
            first_occurrences(references).contains(r) <==> references.contains(r) by {
            if references.contains(r) {
                let j = choose|j: int| 0 <= j < references.len() && references[j] == r;
                if j < shorter.len() {
                    assert(shorter[j] == r);
                    assert(earlier.contains(r));
                }
                if !earlier.contains(references.last()) {
                    assert(earlier.push(references.last())[earlier.len() as int]
                        == references.last());
                    if earlier.contains(r) {
                        let m = choose|m: int| 0 <= m < earlier.len() && earlier[m] == r;
                        assert(earlier.push(references.last())[m] == r);
                    }
                }
            }
            if first_occurrences(references).contains(r) {
                let m = choose|m: int|
                    0 <= m < first_occurrences(references).len() && first_occurrences(
                        references,
                    )[m] == r;
                if m < earlier.len() {
                    assert(earlier[m] == r);
                    assert(earlier.contains(r));
                    assert(shorter.contains(r));
                    let j = choose|j: int| 0 <= j < shorter.len() && shorter[j] == r;
                    assert(references[j] == r);
                } else {
                    assert(r == references.last());
                    assert(references[references.len() - 1] == r);
                }
            }
        }
    }
}

/// In the list of first occurrences each reference is the first of the
/// list it is made from that is not among those before it.
pub proof fn lemma_first_occurrences_order(references: Seq<Reference>, i: int)
    requires
        0 <= i < first_occurrences(references).len(),
    ensures
        is_first_new(
            references,
            first_occurrences(references).take(i),
            first_occurrences(references)[i],
        ),
    decreases references.len(),
{
    let all = first_occurrences(references);
    let shorter = references.drop_last();
    let earlier = first_occurrences(shorter);
    lemma_first_occurrences(references);
    lemma_first_occurrences(shorter);
    assert(!all.take(i).contains(all[i])) by {
        if all.take(i).contains(all[i]) {
            let m = choose|m: int| 0 <= m < i && all.take(i)[m] == all[i];
            assert(all[m] == all[i]);
        }
    }
    if i < earlier.len() {
        lemma_first_occurrences_order(shorter, i);
        assert(all.take(i) =~= earlier.take(i));
        assert(all[i] == earlier[i]);
        let j = choose|j: int|
            0 <= j < shorter.len() && #[trigger] shorter[j] == earlier[i] && forall|k: int|
                0 <= k < j ==> earlier.take(i).contains(#[trigger] shorter[k]);
        assert(references[j] == all[i]);
        assert forall|k: int| 0 <= k < j implies all.take(i).contains(
            #[trigger] references[k],
        ) by {
            assert(shorter[k] == references[k]);
        }
    } else {
        let j = references.len() - 1;
        assert(all =~= earlier.push(references.last()));
        assert(all.take(i) =~= earlier);
        assert(references[j] == all[i]);
        assert forall|k: int| 0 <= k < j implies all.take(i).contains(
            #[trigger] references[k],
        ) by {
            assert(shorter[k] == references[k]);
            assert(shorter.contains(references[k]));
        }
    }
}

/// A list of descriptions without a reference twice is described by the
/// graph that it makes up.
pub proof fn lemma_graph_of_describes(fetched: Seq<(Reference, DrvView)>)
    requires
        keys(fetched).no_duplicates(),
    ensures
        describes(graph_of(fetched), fetched),
        forall|r: Reference| #[trigger] graph_of(fetched).contains_key(r) <==> keys(fetched).contains(r),
    decreases fetched.len(),
{
    if fetched.len() > 0 {
        let shorter = fetched.drop_last();
        assert(keys(shorter) =~= keys(fetched).drop_last());
        lemma_graph_of_describes(shorter);
        assert forall|r: Reference| #[trigger]
            graph_of(fetched).contains_key(r) <==> keys(fetched).contains(r) by {
            if keys(fetched).contains(r) {
                let i = choose|i: int| 0 <= i < keys(fetched).len() && keys(fetched)[i] == r;
                if i < shorter.len() {
                    assert(keys(shorter)[i] == r);
                }
            }
            if keys(shorter).contains(r) {
                let i = choose|i: int| 0 <= i < keys(shorter).len() && keys(shorter)[i] == r;
                assert(keys(fetched)[i] == r);
            }
            assert(keys(fetched)[fetched.len() - 1] == fetched.last().0);
        }
        assert forall|i: int| 0 <= i < fetched.len() implies graph_of(fetched).contains_key(
            (#[trigger] fetched[i]).0,
        ) && graph_of(fetched)[fetched[i].0] == fetched[i].1 by {
            if i < shorter.len() {
                assert(shorter[i] == fetched[i]);
                assert(keys(fetched)[i] == fetched[i].0);
                assert(keys(fetched)[fetched.len() - 1] == fetched.last().0);
            }
        }
    }
}

/// Every key of a closure is reached from the seeds.
pub proof fn lemma_closure_key_reachable(
    seeds: Seq<Reference>,
    closure: Seq<(Reference, DrvView)>,
    graph: Map<Reference, DrvView>,
    k: int,
)
    requires
        is_closure(seeds, closure),
        describes(graph, closure),
        0 <= k < closure.len(),
    ensures
        reachable(seeds, graph, closure[k].0),
    decreases k,
{
    broadcast use vstd::seq_lib::lemma_seq_concat_contains_all_elements;

    let key = closure[k].0;
    assert(keys(closure)[k] == key);
    assert(discovered(seeds, closure.take(k)).contains(key));
    if seeds.contains(key) {
        assert(reachable_within(seeds, graph, key, 0));
    } else {
        assert(edges_of(closure.take(k)).contains(key));
        let i = lemma_edges_come_from_inputs(closure.take(k), key);
        assert(closure.take(k)[i] == closure[i]);
        lemma_closure_key_reachable(seeds, closure, graph, i);
        let steps = choose|steps: nat| reachable_within(seeds, graph, closure[i].0, steps);
        assert(graph.contains_key(closure[i].0));
        assert(reachable_within(seeds, graph, key, steps + 1));
    }
}

/// What is reached from the seeds of a closure is a key of the closure.
pub proof fn lemma_reachable_is_closure_key(
    seeds: Seq<Reference>,
    closure: Seq<(Reference, DrvView)>,
    graph: Map<Reference, DrvView>,
    target: Reference,
    steps: nat,
)
    requires
        is_closure(seeds, closure),
        describes(graph, closure),
        reachable_within(seeds, graph, target, steps),
    ensures
        keys(closure).contains(target),
    decreases steps,
{
    broadcast use vstd::seq_lib::lemma_seq_concat_contains_all_elements;

    let seen = discovered(seeds, closure);
    if seeds.contains(target) {
        assert(seen.contains(target));
        let j = choose|j: int| 0 <= j < seen.len() && seen[j] == target;
        assert(keys(closure).contains(seen[j]));
    } else if reachable_within(seeds, graph, target, (steps - 1) as nat) {
        lemma_reachable_is_closure_key(seeds, closure, graph, target, (steps - 1) as nat);
    } else {
        let from = choose|from: Reference|
            #[trigger] graph.contains_key(from) && reachable_within(
                seeds,
                graph,
                from,
                (steps - 1) as nat,
            ) && graph[from].input_references().contains(target);
        lemma_reachable_is_closure_key(seeds, closure, graph, from, (steps - 1) as nat);
        let i = choose|i: int| 0 <= i < keys(closure).len() && keys(closure)[i] == from;
        assert(closure[i].0 == from);
        lemma_edges_contain_inputs(closure, i, target);
        assert(seen.contains(target));
        let j = choose|j: int| 0 <= j < seen.len() && seen[j] == target;
        assert(keys(closure).contains(seen[j]));
    }
}

/// The keys of a closure are the references that are reached from its seeds
/// in the graph that was walked, each once: a walk fetches as many
/// descriptions as there are distinct references to reach, however many
/// derivations name the same one.
pub proof fn lemma_closure_is_reachable_set(
    seeds: Seq<Reference>,
    closure: Seq<(Reference, DrvView)>,
    graph: Map<Reference, DrvView>,
)
    requires
        is_closure(seeds, closure),
        describes(graph, closure),
    ensures
        keys(closure).no_duplicates(),
        forall|target: Reference|
            keys(closure).contains(target) <==> #[trigger] reachable(seeds, graph, target),
        Set::new(|target: Reference| reachable(seeds, graph, target)).finite(),
        Set::new(|target: Reference| reachable(seeds, graph, target)).len() == closure.len(),
{
    assert forall|target: Reference|
        keys(closure).contains(target) <==> #[trigger] reachable(seeds, graph, target) by {
        if keys(closure).contains(target) {
            let k = choose|k: int| 0 <= k < keys(closure).len() && keys(closure)[k] == target;
            lemma_closure_key_reachable(seeds, closure, graph, k);
        }
        if reachable(seeds, graph, target) {
            let steps = choose|steps: nat| reachable_within(seeds, graph, target, steps);
            lemma_reachable_is_closure_key(seeds, closure, graph, target, steps);
        }
    }
    let reached = Set::new(|target: Reference| reachable(seeds, graph, target));
    assert(reached =~= keys(closure).to_set());
    keys(closure).unique_seq_to_set();
}

/// The keys of a closure are the references that are reached from its seeds
/// in the graph that the closure itself makes up.
pub proof fn lemma_closure_is_its_reachable_set(
    seeds: Seq<Reference>,
    closure: Seq<(Reference, DrvView)>,
)
    requires
        is_closure(seeds, closure),
    ensures
        forall|target: Reference|
            keys(closure).contains(target) <==> #[trigger] reachable(
                seeds,
                graph_of(closure),
                target,
            ),
{
    lemma_graph_of_describes(closure);
    lemma_closure_is_reachable_set(seeds, closure, graph_of(closure));
}

/// A walk in progress: it has asked for the description of one derivation
/// and awaits it.
pub struct ClosureWalker {
    seeds: Ghost<Seq<Reference>>,
    worklist: Vec<String>,
    seen: StringHashSet,
    fetched: Vec<(String, Drv)>,
}

/// What a walk does next.
pub enum WalkStep {
    /// The description of the walker's reference is to be fetched, and handed
    /// to the walker.
    Fetch(ClosureWalker),
    /// The walk is over: this is the closure.
    Done(Vec<(String, Drv)>),
    /// The walk has failed, and has no result.
    Abort(QueryError),
}

/// `next` is what a walk from `seeds` does once it holds the descriptions
/// `fetched`: it asks for the first reference seen that it has no description
/// of, or, if there is none, ends with `fetched` as the closure.
pub open spec fn is_next_step(
    next: WalkStep,
    seeds: Seq<Reference>,
    fetched: Seq<(Reference, DrvView)>,
) -> bool {
    match next {
        WalkStep::Fetch(walker) => {
            &&& walker.wf()
            &&& walker.seeds() == seeds
            &&& walker.fetched() == fetched
            &&& is_first_new(discovered(seeds, fetched), keys(fetched), walker.pending())
        },
        WalkStep::Done(closure) => {
            &&& drvs_model(closure@) == fetched
            &&& is_closure(seeds, fetched)
        },
        WalkStep::Abort(_) => false,
    }
}

/// Adds to the worklist the input references that it has not seen.
fn enqueue(
    worklist: &mut Vec<String>,
    seen: &mut StringHashSet,
    inputs: &Vec<(String, Vec<String>)>,
    Ghost(before): Ghost<Seq<Reference>>,
)
    requires
        old(worklist).deep_view() == first_occurrences(before),
        forall|r: Reference|
            old(seen)@.contains(r) <==> #[trigger] old(worklist).deep_view().contains(r),
    ensures
        final(worklist).deep_view() == first_occurrences(before + input_references_of(inputs@)),
        forall|r: Reference|
            final(seen)@.contains(r) <==> #[trigger] final(worklist).deep_view().contains(r),
        old(worklist)@.len() <= final(worklist)@.len(),
        final(worklist)@.take(old(worklist)@.len() as int) == old(worklist)@,
{
    let ghost references = input_references_of(inputs@);
    let ghost start = worklist@;
    let mut i: usize = 0;
    while i < inputs.len()
        invariant
            i <= inputs.len(),
            references == input_references_of(inputs@),
            worklist.deep_view() == first_occurrences(before + references.take(i as int)),
            forall|r: Reference|
                seen@.contains(r) <==> #[trigger] worklist.deep_view().contains(r),
            start.len() <= worklist@.len(),
            worklist@.take(start.len() as int) == start,
        decreases inputs.len() - i,
    {
        let reference = &inputs[i].0;
        let ghost listed = worklist.deep_view();
        proof {
            let longer = before + references.take(i + 1);
            assert(longer.drop_last() =~= before + references.take(i as int));
        }
        if !seen.contains(reference.as_str()) {
            seen.insert(reference.clone());
            worklist.push(reference.clone());
            proof {
                assert(worklist.deep_view() =~= listed.push(reference@));
                assert forall|r: Reference|
                    seen@.contains(r) <==> #[trigger] worklist.deep_view().contains(r) by {
                    if listed.contains(r) {
                        let m = choose|m: int| 0 <= m < listed.len() && listed[m] == r;
                        assert(listed.push(reference@)[m] == r);
                    }
                    assert(listed.push(reference@)[listed.len() as int] == reference@);
                }
            }
        }
        i += 1;
    }
    proof {
        assert(references.take(i as int) =~= references);
    }
}

impl ClosureWalker {
    /// The references that the root is built from directly.
    pub closed spec fn seeds(&self) -> Seq<Reference> {
        self.seeds@
    }

    /// The descriptions fetched so far, each with its reference, in the
    /// order in which they were fetched.
    pub closed spec fn fetched(&self) -> Seq<(Reference, DrvView)> {
        drvs_model(self.fetched@)
    }

    /// The reference whose description the walker awaits.
    pub closed spec fn pending(&self) -> Reference {
        self.worklist@[self.fetched@.len() as int]@
    }

    /// The walker is one that this module made.
    pub closed spec fn wf(&self) -> bool {
        let fetched = drvs_model(self.fetched@);
        let listed = self.worklist.deep_view();
        &&& listed == first_occurrences(discovered(self.seeds@, fetched))
        &&& forall|r: Reference| self.seen@.contains(r) <==> #[trigger] listed.contains(r)
        &&& fetched.len() < listed.len()
        &&& keys(fetched) == listed.take(fetched.len() as int)
        &&& forall|k: int|
            0 <= k <= fetched.len() ==> discovered(self.seeds@, fetched.take(k)).contains(
                #[trigger] listed[k],
            )
    }

    /// In every state of a walk, no reference has been asked for twice, and
    /// each was seen in a description, or among the seeds, before it was
    /// asked for.
    pub proof fn lemma_walk(self)
        requires
            self.wf(),
        ensures
            is_walk(self.seeds(), self.fetched(), self.pending()),
    {
        let fetched = drvs_model(self.fetched@);
        let listed = self.worklist.deep_view();
        let asked = keys(fetched).push(self.pending());
        lemma_first_occurrences(discovered(self.seeds@, fetched));
        assert(asked =~= listed.take(fetched.len() as int + 1));
        assert forall|k: int| 0 <= k < asked.len() implies discovered(
            self.seeds(),
            self.fetched().take(k),
        ).contains(#[trigger] asked[k]) by {
            assert(asked[k] == listed[k]);
        }
    }

    /// Goes on with the walk: asks for the next reference on the worklist,
    /// or ends.
    fn advance(
        Ghost(seeds): Ghost<Seq<Reference>>,
        worklist: Vec<String>,
        seen: StringHashSet,
        fetched: Vec<(String, Drv)>,
    ) -> (next: WalkStep)
        requires
            worklist.deep_view() == first_occurrences(discovered(seeds, drvs_model(fetched@))),
            forall|r: Reference|
                seen@.contains(r) <==> #[trigger] worklist.deep_view().contains(r),
            fetched@.len() <= worklist@.len(),
            keys(drvs_model(fetched@)) == worklist.deep_view().take(fetched@.len() as int),
            forall|k: int|
                0 <= k < fetched@.len() ==> discovered(seeds, drvs_model(fetched@).take(k)).contains(
                    #[trigger] worklist.deep_view()[k],
                ),
        ensures
            is_next_step(next, seeds, drvs_model(fetched@)),
    {
        let ghost model = drvs_model(fetched@);
        let ghost listed = worklist.deep_view();
        let ghost seen_all = discovered(seeds, model);
        proof {
            lemma_first_occurrences(seen_all);
        }
        if fetched.len() < worklist.len() {
            let ghost n = fetched@.len() as int;
            proof {
                lemma_first_occurrences_order(seen_all, n);
                assert(model.take(n) =~= model);
            }
            let walker = ClosureWalker { seeds: Ghost(seeds), worklist, seen, fetched };
            WalkStep::Fetch(walker)
        } else {
            proof {
                assert(listed.take(model.len() as int) =~= listed);
                assert forall|k: int| 0 <= k < model.len() implies discovered(
                    seeds,
                    model.take(k),
                ).contains(#[trigger] keys(model)[k]) by {
                    assert(keys(model)[k] == listed[k]);
                }
                assert forall|j: int| 0 <= j < seen_all.len() implies keys(model).contains(
                    #[trigger] seen_all[j],
                ) by {
                    assert(seen_all.contains(seen_all[j]));
                }
            }
            WalkStep::Done(fetched)
        }
    }

    /// Starts the walk of what the derivations `roots` are built from. The
    /// roots themselves are not part of the walk.
    pub fn start(roots: &Vec<(String, Drv)>) -> (next: WalkStep)
        ensures
            is_next_step(next, edges_of(drvs_model(roots@)), Seq::empty()),
            edges_of(drvs_model(roots@)).len() == 0 ==> (next matches WalkStep::Done(closure)
                && closure@.len() == 0),
    {
        let ghost model = drvs_model(roots@);
        let mut worklist: Vec<String> = Vec::new();
        let mut seen: StringHashSet = StringHashSet::new();
        let mut i: usize = 0;
        while i < roots.len()
            invariant
                i <= roots.len(),
                model == drvs_model(roots@),
                worklist.deep_view() == first_occurrences(edges_of(model.take(i as int))),
                forall|r: Reference|
                    seen@.contains(r) <==> #[trigger] worklist.deep_view().contains(r),
            decreases roots.len() - i,
        {
            proof {
                assert(model.take(i + 1).drop_last() =~= model.take(i as int));
                assert(model[i as int].1.input_references() =~= input_references_of(
                    roots@[i as int].1.input_drvs@,
                ));
            }
            enqueue(
                &mut worklist,
                &mut seen,
                &roots[i].1.input_drvs,
                Ghost(edges_of(model.take(i as int))),
            );
            i += 1;
        }
        let ghost seeds = edges_of(model);
        let fetched: Vec<(String, Drv)> = Vec::new();
        proof {
            assert(model.take(i as int) =~= model);
            assert(drvs_model(fetched@) =~= Seq::empty());
            assert(keys(drvs_model(fetched@)) =~= worklist.deep_view().take(0));
            lemma_first_occurrences(seeds);
        }
        Self::advance(Ghost(seeds), worklist, seen, fetched)
    }

    /// Starts the walk from the output of the query for the root. Output that
    /// does not describe derivations ends the walk without a result.
    pub fn begin(output: Vec<u8>) -> (next: WalkStep)
        ensures
            match spec_derivations(output@) {
                Ok(roots) => is_next_step(next, edges_of(roots), Seq::empty()),
                Err(error) => next == WalkStep::Abort(error),
            },
    {
        match get_derivations(output) {
            Ok(roots) => Self::start(&roots),
            Err(error) => WalkStep::Abort(error),
        }
    }

    /// The reference whose description the walker awaits.
    pub fn reference(&self) -> (reference: &String)
        requires
            self.wf(),
        ensures
            reference@ == self.pending(),
    {
        &self.worklist[self.fetched.len()]
    }

    /// The query to run now. What a walk asks for is never an expression.
    pub fn query(&self) -> (query: Query)
        requires
            self.wf(),
        ensures
            query.reference@ == self.pending(),
            !query.as_expression,
    {
        Query::dependency(self.reference().clone())
    }

    /// The number of queries that the walk has asked for, the one it awaits
    /// included.
    pub fn fetches(&self) -> (count: usize)
        requires
            self.wf(),
        ensures
            count == self.fetched().len() + 1,
    {
        let listed = self.worklist.len();
        assert(self.fetched@.len() < listed) by {
            assert(self.worklist.deep_view().len() == self.worklist@.len());
        }
        self.fetched.len() + 1
    }

    /// Takes the output of the query that the walker awaits, and says what
    /// the walk does next. Output that does not describe one derivation ends
    /// the walk without a result.
    pub fn answer(self, output: Vec<u8>) -> (next: WalkStep)
        requires
            self.wf(),
        ensures
            match spec_derivation(output@) {
                Ok(node) => is_next_step(
                    next,
                    self.seeds(),
                    self.fetched().push((self.pending(), node)),
                ),
                Err(error) => next == WalkStep::Abort(error),
            },
    {
        let response = get_derivation(output);
        self.step(response)
    }

    /// Takes the answer to the query that the walker awaits, and says what
    /// the walk does next. A failed query ends the walk without a result.
    pub fn step(self, response: Result<Drv, QueryError>) -> (next: WalkStep)
        requires
            self.wf(),
        ensures
            match response {
                Ok(node) => is_next_step(
                    next,
                    self.seeds(),
                    self.fetched().push((self.pending(), node.model())),
                ),
                Err(error) => next == WalkStep::Abort(error),
            },
    {
        match response {
            Err(error) => WalkStep::Abort(error),
            Ok(node) => {
                let ClosureWalker { seeds, mut worklist, mut seen, mut fetched } = self;
                let ghost seeds = seeds@;
                let ghost before = drvs_model(fetched@);
                let ghost listed = worklist.deep_view();
                let ghost n = fetched@.len() as int;
                let ghost inputs = node.model().input_references();
                proof {
                    assert(inputs =~= input_references_of(node.input_drvs@));
                }
                enqueue(
                    &mut worklist,
                    &mut seen,
                    &node.input_drvs,
                    Ghost(discovered(seeds, before)),
                );
                let reference = worklist[fetched.len()].clone();
                fetched.push((reference, node));
                proof {
                    let after = drvs_model(fetched@);
                    assert(after =~= before.push((listed[n], node.model())));
                    assert(after.drop_last() =~= before);
                    assert(discovered(seeds, after) =~= discovered(seeds, before) + inputs);
                    assert(worklist.deep_view().take(listed.len() as int) =~= listed) by {
                        assert(worklist@.take(listed.len() as int) == self.worklist@);
                        assert forall|k: int| 0 <= k < listed.len() implies worklist.deep_view()[k]
                            == listed[k] by {
                            assert(worklist@.take(listed.len() as int)[k] == worklist@[k]);
                        }
                    }
                    assert(keys(after) =~= worklist.deep_view().take(n + 1)) by {
                        assert(keys(before) == listed.take(n));
                        assert forall|k: int| 0 <= k < n + 1 implies keys(after)[k]
                            == worklist.deep_view()[k] by {
                            assert(worklist.deep_view().take(listed.len() as int)[k]
                                == worklist.deep_view()[k]);
                            if k < n {
                                assert(keys(before)[k] == listed.take(n)[k]);
                            }
                        }
                    }
                    assert forall|k: int| 0 <= k < n + 1 implies discovered(
                        seeds,
                        after.take(k),
                    ).contains(#[trigger] worklist.deep_view()[k]) by {
                        assert(after.take(k) =~= before.take(k));
                        assert(worklist.deep_view().take(listed.len() as int)[k]
                            == worklist.deep_view()[k]);
                        assert(discovered(seeds, before.take(k)).contains(listed[k]));
                    }
                }
                Self::advance(Ghost(seeds), worklist, seen, fetched)
            },
        }
    }
}

} // verus!
