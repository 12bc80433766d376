//! Event dispatch over a propagation chain.
//!
//! The dispatcher walks the externally supplied chain from target to root and
//! invokes the registered listeners of each node in registration order. The
//! host reports, per invocation, the two independently settable signals:
//! propagation-cancelled is recorded but node-local and non-terminal (the
//! remaining listeners at the node and the remaining nodes still run), while
//! default-prevented is chain-terminal (no further listener anywhere runs).
//! A failed invocation is contained: it is recorded, its signals are ignored,
//! and dispatch continues.

use vstd::prelude::*;
use crate::events::EventKind;
use crate::registry::{ListenerRegistry, NODE_ID_LIMIT};

verus! {

/// What a single listener invocation reported back from the host.
#[derive(Clone, Copy, Debug, PartialEq, Eq, Structural)]
pub enum ListenerOutcome {
    /// The listener ran; the host's two per-invocation signals.
    Completed { stop_propagation: bool, prevent_default: bool },
    /// The invocation failed; it is reported and contained, and no signal of
    /// it is read.
    Failed,
}

/// The pair of flags threaded through one dispatch call, reset at its start.
#[derive(Clone, Copy, Debug, PartialEq, Eq, Structural)]
pub struct EventState {
    pub propagation_stopped: bool,
    pub default_prevented: bool,
}

/// One attempted listener invocation: which callback ran at which node.
#[derive(Clone, Copy, Debug, PartialEq, Eq, Structural)]
pub struct Invocation {
    pub node: u64,
    pub callback: u64,
}

/// What one dispatch call produced: the attempted invocations, in order, and
/// the final flags.
pub struct DispatchResult {
    pub invoked: Vec<Invocation>,
    pub state: EventState,
}

/// The mathematical state of a dispatch walk in progress.
pub struct DispatchTrace {
    pub invoked: Seq<Invocation>,
    pub state: EventState,
}

/// The outcome consumed by the i-th invocation; invocations beyond the given
/// outcomes are treated as completed without signals.
pub open spec fn outcome_at(outcomes: Seq<ListenerOutcome>, i: int) -> ListenerOutcome {
    if 0 <= i < outcomes.len() {
        outcomes[i]
    } else {
        ListenerOutcome::Completed { stop_propagation: false, prevent_default: false }
    }
}

/// `oc` reports default-prevented.
pub open spec fn is_prevent(oc: ListenerOutcome) -> bool {
    match oc {
        ListenerOutcome::Completed { prevent_default, .. } => prevent_default,
        ListenerOutcome::Failed => false,
    }
}

/// `oc` reports propagation-cancelled.
pub open spec fn is_stop(oc: ListenerOutcome) -> bool {
    match oc {
        ListenerOutcome::Completed { stop_propagation, .. } => stop_propagation,
        ListenerOutcome::Failed => false,
    }
}

/// Record one invocation and fold its outcome into the flags.
pub open spec fn apply_outcome(
    t: DispatchTrace,
    node: u64,
    callback: u64,
    oc: ListenerOutcome,
) -> DispatchTrace {
    let invoked = t.invoked.push(Invocation { node, callback });
    match oc {
        ListenerOutcome::Failed => DispatchTrace { invoked, state: t.state },
        ListenerOutcome::Completed { stop_propagation, prevent_default } => DispatchTrace {
            invoked,
            state: EventState {
                propagation_stopped: t.state.propagation_stopped || stop_propagation,
                default_prevented: t.state.default_prevented || prevent_default,
            },
        },
    }
}

/// Invoke the listeners of one node in order, stopping only when
/// default-prevented is set.
pub open spec fn run_listeners(
    node: u64,
    cbs: Seq<u64>,
    outcomes: Seq<ListenerOutcome>,
    t: DispatchTrace,
) -> DispatchTrace
    decreases cbs.len(),
{
    if cbs.len() == 0 || t.state.default_prevented {
        t
    } else {
        let t2 = apply_outcome(t, node, cbs[0], outcome_at(outcomes, t.invoked.len() as int));
        run_listeners(node, cbs.subrange(1, cbs.len() as int), outcomes, t2)
    }
}

/// Walk the chain from target to root, stopping only when default-prevented
/// is set.
pub open spec fn run_chain(
    chain: Seq<u64>,
    kind: EventKind,
    reg: ListenerRegistry,
    outcomes: Seq<ListenerOutcome>,
    t: DispatchTrace,
) -> DispatchTrace
    decreases chain.len(),
{
    if chain.len() == 0 || t.state.default_prevented {
        t
    } else {
        let t2 = run_listeners(chain[0], reg.spec_listeners(chain[0], kind), outcomes, t);
        run_chain(chain.subrange(1, chain.len() as int), kind, reg, outcomes, t2)
    }
}

/// The state at the start of a dispatch call: no invocations, flags reset.
pub open spec fn initial_trace() -> DispatchTrace {
    DispatchTrace {
        invoked: Seq::empty(),
        state: EventState { propagation_stopped: false, default_prevented: false },
    }
}

/// The complete dispatch of one event over one chain, given the outcome that
/// each invocation in turn reports.
pub open spec fn spec_dispatch(
    chain: Seq<u64>,
    kind: EventKind,
    reg: ListenerRegistry,
    outcomes: Seq<ListenerOutcome>,
) -> DispatchTrace {
    run_chain(chain, kind, reg, outcomes, initial_trace())
}

/// Dispatch an event of kind `kind` over `chain` (target first), reading the
/// listener lists from `reg`. The i-th attempted invocation consumes
/// `outcomes[i]`; outcomes beyond the end of the vector count as completed
/// without signals.
pub fn dispatch(
    chain: &Vec<u64>,
    kind: EventKind,
    reg: &ListenerRegistry,
    outcomes: &Vec<ListenerOutcome>,
) -> (r: DispatchResult)
    requires
        forall|i: int| 0 <= i < chain@.len() ==> chain@[i] < NODE_ID_LIMIT,
    ensures
        r.invoked@ == spec_dispatch(chain@, kind, *reg, outcomes@).invoked,
        r.state == spec_dispatch(chain@, kind, *reg, outcomes@).state,
{
    let ghost target = spec_dispatch(chain@, kind, *reg, outcomes@);
    let mut invoked: Vec<Invocation> = Vec::new();
    let mut state = EventState { propagation_stopped: false, default_prevented: false };
    let mut i: usize = 0;
    proof {
        assert(chain@.subrange(0, chain@.len() as int) =~= chain@);
    }
    while i < chain.len() && !state.default_prevented
        invariant
            i <= chain@.len(),
            forall|ii: int| 0 <= ii < chain@.len() ==> chain@[ii] < NODE_ID_LIMIT,
            run_chain(
                chain@.subrange(i as int, chain@.len() as int),
                kind,
                *reg,
                outcomes@,
                DispatchTrace { invoked: invoked@, state },
            ) == target,
        decreases chain@.len() - i,
    {
        let node = chain[i];
        let cbs = reg.listeners_of(node, kind);
        proof {
            let suffix = chain@.subrange(i as int, chain@.len() as int);
            assert(suffix[0] == chain@[i as int]);
            assert(suffix.subrange(1, suffix.len() as int) =~= chain@.subrange(
                i as int + 1,
                chain@.len() as int,
            ));
            assert(cbs@.subrange(0, cbs@.len() as int) =~= cbs@);
        }
        let mut j: usize = 0;
        while j < cbs.len() && !state.default_prevented
            invariant
                j <= cbs@.len(),
                cbs@ == reg.spec_listeners(node, kind),
                run_chain(
                    chain@.subrange(i as int + 1, chain@.len() as int),
                    kind,
                    *reg,
                    outcomes@,
                    run_listeners(
                        node,
                        cbs@.subrange(j as int, cbs@.len() as int),
                        outcomes@,
                        DispatchTrace { invoked: invoked@, state },
                    ),
                ) == target,
            decreases cbs@.len() - j,
        {
            let oc = if invoked.len() < outcomes.len() {
                outcomes[invoked.len()]
            } else {
                ListenerOutcome::Completed { stop_propagation: false, prevent_default: false }
            };
            proof {
                let rest = cbs@.subrange(j as int, cbs@.len() as int);
                assert(rest[0] == cbs@[j as int]);
                assert(rest.subrange(1, rest.len() as int) =~= cbs@.subrange(
                    j as int + 1,
                    cbs@.len() as int,
                ));
                assert(oc == outcome_at(outcomes@, invoked@.len() as int));
            }
            invoked.push(Invocation { node, callback: cbs[j] });
            match oc {
                ListenerOutcome::Completed { stop_propagation, prevent_default } => {
                    if stop_propagation {
                        state.propagation_stopped = true;
                    }
                    if prevent_default {
                        state.default_prevented = true;
                    }
                },
                ListenerOutcome::Failed => {},
            }
            j += 1;
        }
        i += 1;
    }
    proof {
        if i == chain@.len() && !state.default_prevented {
            assert(chain@.subrange(i as int, chain@.len() as int) =~= Seq::<u64>::empty());
        }
    }
    DispatchResult { invoked, state }
}

/// No invocation before the n-th reports default-prevented.
pub open spec fn no_prevent_before(outcomes: Seq<ListenerOutcome>, n: int) -> bool {
    forall|i: int| 0 <= i < n ==> !is_prevent(#[trigger] outcome_at(outcomes, i))
}

proof fn lemma_run_listeners_sync(
    node: u64,
    cbs: Seq<u64>,
    outcomes: Seq<ListenerOutcome>,
    t: DispatchTrace,
)
    requires
        !t.state.default_prevented,
        no_prevent_before(outcomes, t.invoked.len() as int),
    ensures
        ({
            let r = run_listeners(node, cbs, outcomes, t);
            &&& r.invoked.len() >= t.invoked.len()
            &&& (!r.state.default_prevented ==> no_prevent_before(
                outcomes,
                r.invoked.len() as int,
            ))
            &&& (r.state.default_prevented ==> r.invoked.len() > t.invoked.len() && is_prevent(
                outcome_at(outcomes, r.invoked.len() as int - 1),
            ) && no_prevent_before(outcomes, r.invoked.len() as int - 1))
        }),
    decreases cbs.len(),
{
    if cbs.len() == 0 {
    } else {
        let oc = outcome_at(outcomes, t.invoked.len() as int);
        let t2 = apply_outcome(t, node, cbs[0], oc);
        if is_prevent(oc) {
            assert(t2.state.default_prevented);
            assert(run_listeners(node, cbs.subrange(1, cbs.len() as int), outcomes, t2) == t2);
        } else {
            assert(!t2.state.default_prevented);
            assert(no_prevent_before(outcomes, t2.invoked.len() as int));
            lemma_run_listeners_sync(node, cbs.subrange(1, cbs.len() as int), outcomes, t2);
        }
    }
}

proof fn lemma_run_chain_sync(
    chain: Seq<u64>,
    kind: EventKind,
    reg: ListenerRegistry,
    outcomes: Seq<ListenerOutcome>,
    t: DispatchTrace,
)
    requires
        !t.state.default_prevented,
        no_prevent_before(outcomes, t.invoked.len() as int),
    ensures
        ({
            let r = run_chain(chain, kind, reg, outcomes, t);
            &&& r.invoked.len() >= t.invoked.len()
            &&& (!r.state.default_prevented ==> no_prevent_before(
                outcomes,
                r.invoked.len() as int,
            ))
            &&& (r.state.default_prevented ==> r.invoked.len() > t.invoked.len() && is_prevent(
                outcome_at(outcomes, r.invoked.len() as int - 1),
            ) && no_prevent_before(outcomes, r.invoked.len() as int - 1))
        }),
    decreases chain.len(),
{
    if chain.len() == 0 {
    } else {
        let t2 = run_listeners(chain[0], reg.spec_listeners(chain[0], kind), outcomes, t);
        lemma_run_listeners_sync(chain[0], reg.spec_listeners(chain[0], kind), outcomes, t);
        if t2.state.default_prevented {
            assert(run_chain(chain.subrange(1, chain.len() as int), kind, reg, outcomes, t2)
                == t2);
        } else {
            lemma_run_chain_sync(chain.subrange(1, chain.len() as int), kind, reg, outcomes, t2);
        }
    }
}

/// Default-prevented is chain-terminal: once the invocation at position `i`
/// reports it, the walk ends with that invocation — no listener at the same
/// node and no listener at any later node in the chain is invoked.
pub proof fn lemma_prevent_default_is_terminal(
    chain: Seq<u64>,
    kind: EventKind,
    reg: ListenerRegistry,
    outcomes: Seq<ListenerOutcome>,
    i: int,
)
    requires
        0 <= i,
        is_prevent(outcome_at(outcomes, i)),
        i < spec_dispatch(chain, kind, reg, outcomes).invoked.len(),
    ensures
        spec_dispatch(chain, kind, reg, outcomes).invoked.len() == i + 1,
        spec_dispatch(chain, kind, reg, outcomes).state.default_prevented,
{
    let r = spec_dispatch(chain, kind, reg, outcomes);
    lemma_run_chain_sync(chain, kind, reg, outcomes, initial_trace());
    if !r.state.default_prevented {
        assert(!is_prevent(outcome_at(outcomes, i)));
    }
}

/// The invocations of one node's listener list, in registration order.
pub open spec fn node_invocations(node: u64, cbs: Seq<u64>) -> Seq<Invocation> {
    Seq::new(cbs.len(), |i: int| Invocation { node, callback: cbs[i] })
}

/// Every listener of every node of the chain, in chain order and registration
/// order.
pub open spec fn all_invocations(
    chain: Seq<u64>,
    kind: EventKind,
    reg: ListenerRegistry,
) -> Seq<Invocation>
    decreases chain.len(),
{
    if chain.len() == 0 {
        Seq::empty()
    } else {
        node_invocations(chain[0], reg.spec_listeners(chain[0], kind)) + all_invocations(
            chain.subrange(1, chain.len() as int),
            kind,
            reg,
        )
    }
}

proof fn lemma_run_listeners_complete(
    node: u64,
    cbs: Seq<u64>,
    outcomes: Seq<ListenerOutcome>,
    t: DispatchTrace,
)
    requires
        !t.state.default_prevented,
        forall|i: int| !is_prevent(#[trigger] outcome_at(outcomes, i)),
    ensures
        run_listeners(node, cbs, outcomes, t).invoked == t.invoked + node_invocations(node, cbs),
        !run_listeners(node, cbs, outcomes, t).state.default_prevented,
    decreases cbs.len(),
{
    if cbs.len() == 0 {
        assert(t.invoked + node_invocations(node, cbs) =~= t.invoked);
    } else {
        let oc = outcome_at(outcomes, t.invoked.len() as int);
        let t2 = apply_outcome(t, node, cbs[0], oc);
        assert(!t2.state.default_prevented);
        let rest = cbs.subrange(1, cbs.len() as int);
        lemma_run_listeners_complete(node, rest, outcomes, t2);
        assert(t.invoked + node_invocations(node, cbs) =~= t2.invoked + node_invocations(
            node,
            rest,
        ));
    }
}

proof fn lemma_run_chain_complete(
    chain: Seq<u64>,
    kind: EventKind,
    reg: ListenerRegistry,
    outcomes: Seq<ListenerOutcome>,
    t: DispatchTrace,
)
    requires
        !t.state.default_prevented,
        forall|i: int| !is_prevent(#[trigger] outcome_at(outcomes, i)),
    ensures
        run_chain(chain, kind, reg, outcomes, t).invoked == t.invoked + all_invocations(
            chain,
            kind,
            reg,
        ),
        !run_chain(chain, kind, reg, outcomes, t).state.default_prevented,
    decreases chain.len(),
{
    if chain.len() == 0 {
        assert(t.invoked + all_invocations(chain, kind, reg) =~= t.invoked);
    } else {
        let cbs = reg.spec_listeners(chain[0], kind);
        let t2 = run_listeners(chain[0], cbs, outcomes, t);
        lemma_run_listeners_complete(chain[0], cbs, outcomes, t);
        let rest = chain.subrange(1, chain.len() as int);
        lemma_run_chain_complete(rest, kind, reg, outcomes, t2);
        assert(t.invoked + all_invocations(chain, kind, reg) =~= t2.invoked + all_invocations(
            rest,
            kind,
            reg,
        ));
    }
}

proof fn lemma_run_listeners_stop_flag(
    node: u64,
    cbs: Seq<u64>,
    outcomes: Seq<ListenerOutcome>,
    t: DispatchTrace,
)
    ensures
        ({
            let r = run_listeners(node, cbs, outcomes, t);
            &&& r.invoked.len() >= t.invoked.len()
            &&& (r.state.propagation_stopped <==> t.state.propagation_stopped || exists|i: int|
                t.invoked.len() <= i < r.invoked.len() && is_stop(#[trigger] outcome_at(
                    outcomes,
                    i,
                )))
        }),
    decreases cbs.len(),
{
    if cbs.len() == 0 || t.state.default_prevented {
    } else {
        let oc = outcome_at(outcomes, t.invoked.len() as int);
        let t2 = apply_outcome(t, node, cbs[0], oc);
        assert(t2.state.propagation_stopped <==> t.state.propagation_stopped || is_stop(oc));
        lemma_run_listeners_stop_flag(node, cbs.subrange(1, cbs.len() as int), outcomes, t2);
        let r = run_listeners(node, cbs, outcomes, t);
        if r.state.propagation_stopped && !t.state.propagation_stopped {
            if is_stop(oc) {
                assert(t.invoked.len() <= t.invoked.len() < r.invoked.len() && is_stop(
                    outcome_at(outcomes, t.invoked.len() as int),
                ));
            }
        }
    }
}

proof fn lemma_run_chain_stop_flag(
    chain: Seq<u64>,
    kind: EventKind,
    reg: ListenerRegistry,
    outcomes: Seq<ListenerOutcome>,
    t: DispatchTrace,
)
    ensures
        ({
            let r = run_chain(chain, kind, reg, outcomes, t);
            &&& r.invoked.len() >= t.invoked.len()
            &&& (r.state.propagation_stopped <==> t.state.propagation_stopped || exists|i: int|
                t.invoked.len() <= i < r.invoked.len() && is_stop(#[trigger] outcome_at(
                    outcomes,
                    i,
                )))
        }),
    decreases chain.len(),
{
    if chain.len() == 0 || t.state.default_prevented {
    } else {
        let t2 = run_listeners(chain[0], reg.spec_listeners(chain[0], kind), outcomes, t);
        lemma_run_listeners_stop_flag(chain[0], reg.spec_listeners(chain[0], kind), outcomes, t);
        lemma_run_chain_stop_flag(chain.subrange(1, chain.len() as int), kind, reg, outcomes, t2);
    }
}

proof fn lemma_run_listeners_prefix(
    node: u64,
    cbs: Seq<u64>,
    outcomes: Seq<ListenerOutcome>,
    t: DispatchTrace,
)
    ensures
        ({
            let r = run_listeners(node, cbs, outcomes, t);
            &&& t.invoked.len() <= r.invoked.len() <= t.invoked.len() + cbs.len()
            &&& r.invoked == t.invoked + node_invocations(node, cbs).take(
                r.invoked.len() - t.invoked.len(),
            )
            &&& (!r.state.default_prevented ==> r.invoked.len() == t.invoked.len() + cbs.len())
        }),
    decreases cbs.len(),
{
    let r = run_listeners(node, cbs, outcomes, t);
    if cbs.len() == 0 || t.state.default_prevented {
        assert(t.invoked + node_invocations(node, cbs).take(0) =~= t.invoked);
    } else {
        let oc = outcome_at(outcomes, t.invoked.len() as int);
        let t2 = apply_outcome(t, node, cbs[0], oc);
        let rest = cbs.subrange(1, cbs.len() as int);
        lemma_run_listeners_prefix(node, rest, outcomes, t2);
        let k2 = r.invoked.len() - t2.invoked.len();
        assert(t.invoked + node_invocations(node, cbs).take(k2 + 1) =~= t2.invoked
            + node_invocations(node, rest).take(k2));
    }
}

proof fn lemma_run_chain_prefix(
    chain: Seq<u64>,
    kind: EventKind,
    reg: ListenerRegistry,
    outcomes: Seq<ListenerOutcome>,
    t: DispatchTrace,
)
    ensures
        ({
            let r = run_chain(chain, kind, reg, outcomes, t);
            &&& t.invoked.len() <= r.invoked.len() <= t.invoked.len() + all_invocations(
                chain,
                kind,
                reg,
            ).len()
            &&& r.invoked == t.invoked + all_invocations(chain, kind, reg).take(
                r.invoked.len() - t.invoked.len(),
            )
        }),
    decreases chain.len(),
{
    let r = run_chain(chain, kind, reg, outcomes, t);
    if chain.len() == 0 || t.state.default_prevented {
        assert(t.invoked + all_invocations(chain, kind, reg).take(0) =~= t.invoked);
    } else {
        let cbs = reg.spec_listeners(chain[0], kind);
        let t2 = run_listeners(chain[0], cbs, outcomes, t);
        lemma_run_listeners_prefix(chain[0], cbs, outcomes, t);
        let rest = chain.subrange(1, chain.len() as int);
        if t2.state.default_prevented {
            assert(run_chain(rest, kind, reg, outcomes, t2) == t2);
            assert(t.invoked + all_invocations(chain, kind, reg).take(
                r.invoked.len() - t.invoked.len(),
            ) =~= t.invoked + node_invocations(chain[0], cbs).take(
                r.invoked.len() - t.invoked.len(),
            ));
        } else {
            lemma_run_chain_prefix(rest, kind, reg, outcomes, t2);
            let k2 = r.invoked.len() - t2.invoked.len();
            assert(node_invocations(chain[0], cbs).take(cbs.len() as int) =~= node_invocations(
                chain[0],
                cbs,
            ));
            assert(t.invoked + all_invocations(chain, kind, reg).take(cbs.len() + k2)
                =~= t2.invoked + all_invocations(rest, kind, reg).take(k2));
        }
    }
}

/// The dispatcher never reorders and never skips ahead: what it invokes is a
/// prefix of the chain's full listener sequence, so which listener is invoked
/// i-th depends only on the chain and the registry, never on the outcomes of
/// invocations still to come.
pub proof fn lemma_dispatch_invokes_a_prefix(
    chain: Seq<u64>,
    kind: EventKind,
    reg: ListenerRegistry,
    outcomes: Seq<ListenerOutcome>,
)
    ensures
        spec_dispatch(chain, kind, reg, outcomes).invoked.len() <= all_invocations(
            chain,
            kind,
            reg,
        ).len(),
        spec_dispatch(chain, kind, reg, outcomes).invoked == all_invocations(
            chain,
            kind,
            reg,
        ).take(spec_dispatch(chain, kind, reg, outcomes).invoked.len() as int),
{
    lemma_run_chain_prefix(chain, kind, reg, outcomes, initial_trace());
    let r = spec_dispatch(chain, kind, reg, outcomes);
    assert(initial_trace().invoked + all_invocations(chain, kind, reg).take(
        r.invoked.len() as int,
    ) =~= all_invocations(chain, kind, reg).take(r.invoked.len() as int));
}

/// The propagation-stopped flag is a faithful record: it is set after a
/// dispatch exactly when some invocation reported propagation-cancelled.
pub proof fn lemma_propagation_stopped_records_signals(
    chain: Seq<u64>,
    kind: EventKind,
    reg: ListenerRegistry,
    outcomes: Seq<ListenerOutcome>,
)
    ensures
        spec_dispatch(chain, kind, reg, outcomes).state.propagation_stopped <==> exists|i: int|
            0 <= i < spec_dispatch(chain, kind, reg, outcomes).invoked.len() && is_stop(
                #[trigger] outcome_at(outcomes, i),
            ),
{
    lemma_run_chain_stop_flag(chain, kind, reg, outcomes, initial_trace());
}

/// Propagation-cancelled is non-terminal: when no invocation reports
/// default-prevented, dispatch is exhaustive — every listener of every node
/// in the chain is invoked, in chain order and registration order, however
/// the propagation-stopped signals fall.
pub proof fn lemma_dispatch_exhaustive_without_prevent(
    chain: Seq<u64>,
    kind: EventKind,
    reg: ListenerRegistry,
    outcomes: Seq<ListenerOutcome>,
)
    requires
        forall|i: int| !is_prevent(#[trigger] outcome_at(outcomes, i)),
    ensures
        spec_dispatch(chain, kind, reg, outcomes).invoked == all_invocations(chain, kind, reg),
        !spec_dispatch(chain, kind, reg, outcomes).state.default_prevented,
{
    lemma_run_chain_complete(chain, kind, reg, outcomes, initial_trace());
    assert(initial_trace().invoked + all_invocations(chain, kind, reg) =~= all_invocations(
        chain,
        kind,
        reg,
    ));
}

} // verus!
