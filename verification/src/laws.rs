//! The laws the bridge keeps, stated over the spec functions the
//! public contracts use and proved once and for all: the call boundary
//! refuses a wrong arity before anything else and a bad argument before
//! any effect; a resolved handle is stable; a pending handle is
//! promoted at most once and consumes its finished load exactly once;
//! and request identifiers of one kind come out consecutive.
use vstd::prelude::*;
use crate::extract::extract_ok;
use crate::extract::spec_extract_err;
use crate::handle::AssetState;
use crate::handle::use_step;
use crate::ledger::AssetLedger;
use crate::registry::Registry;
use crate::value::CallError;
use crate::value::Extracted;
use crate::value::ParamKind;
use crate::value::Value;

verus! {

/// A call with an argument count other than the declared arity is
/// always answered with `ArityMismatch` naming both counts, and never
/// reaches a handler: no handler identifier leaves the registry.
pub proof fn lemma_wrong_arity_never_reaches_handler(
    params: Seq<ParamKind>,
    args: Seq<Value>,
    handler: u64,
    r: Result<(u64, Vec<Extracted>), CallError>,
)
    requires
        Registry::exact_call_result(params, args, handler, r),
        args.len() != params.len(),
    ensures
        r == Err::<(u64, Vec<Extracted>), CallError>(
            CallError::ArityMismatch { expected: params.len() as usize, got: args.len() as usize },
        ),
        !(r is Ok),
{
}

/// With the declared arity met but some argument failing extraction,
/// the call is refused: the answer is the typed error of the first
/// failing position, so no handler identifier leaves the registry and
/// no effect of the handler can occur.
pub proof fn lemma_bad_argument_stops_call(
    params: Seq<ParamKind>,
    args: Seq<Value>,
    handler: u64,
    r: Result<(u64, Vec<Extracted>), CallError>,
    bad: int,
)
    requires
        Registry::exact_call_result(params, args, handler, r),
        args.len() == params.len(),
        0 <= bad < args.len(),
        !extract_ok(args[bad], params[bad]),
    ensures
        !(r is Ok),
        exists|i: int|
            {
                &&& 0 <= i <= bad
                &&& !extract_ok(#[trigger] args[i], params[i])
                &&& forall|j: int| 0 <= j < i ==> extract_ok(#[trigger] args[j], params[j])
                &&& r == Err::<(u64, Vec<Extracted>), CallError>(
                    spec_extract_err(args[i], params[i], i as usize),
                )
            },
{
    assert(!(forall|i: int| 0 <= i < args.len() ==> extract_ok(#[trigger] args[i], params[i])));
    let i = choose|i: int|
        {
            &&& 0 <= i < args.len()
            &&& !extract_ok(#[trigger] args[i], params[i])
            &&& forall|j: int| 0 <= j < i ==> extract_ok(#[trigger] args[j], params[j])
            &&& r == Err::<(u64, Vec<Extracted>), CallError>(
                spec_extract_err(args[i], params[i], i as usize),
            )
        };
    assert(i <= bad);
}

/// Iterated uses of one handle against a fixed ledger table: the pair
/// (handle state, table of finished loads) after `n` uses.
pub open spec fn use_steps<T>(s: AssetState<T>, table: Map<u64, T>, n: nat) -> (
    AssetState<T>,
    Map<u64, T>,
)
    decreases n,
{
    if n == 0 {
        (s, table)
    } else {
        let prev = use_steps(s, table, (n - 1) as nat);
        let step = use_step(prev.0, prev.1);
        (step.1, step.2)
    }
}

/// A resolved handle is stable: any number of further uses leaves the
/// state and the table exactly as they are, and each such use hands out
/// the same resource without consulting the table.
pub proof fn lemma_resolved_use_idempotent<T>(res: T, table: Map<u64, T>, n: nat)
    ensures
        use_steps(AssetState::Loaded(res), table, n) == (AssetState::<T>::Loaded(res), table),
        use_step(AssetState::Loaded(res), table).0 == Some(res),
    decreases n,
{
    if n > 0 {
        lemma_resolved_use_idempotent(res, table, (n - 1) as nat);
    }
}

/// A pending handle whose load has not finished stays pending: any
/// number of uses does nothing to the handle or to the table.
pub proof fn lemma_pending_unresolved_is_noop<T>(id: u64, table: Map<u64, T>, n: nat)
    requires
        !table.contains_key(id),
    ensures
        use_steps(AssetState::Loading(id), table, n) == (AssetState::<T>::Loading(id), table),
    decreases n,
{
    if n > 0 {
        lemma_pending_unresolved_is_noop(id, table, (n - 1) as nat);
    }
}

/// Promotion happens at most once and consumes the finished load
/// exactly once: however many times a handle pending on `id` is used
/// once the load has finished, the first use promotes it, every later
/// use sees the resolved state, and the table entry for `id` is removed
/// by that first use and never again.
pub proof fn lemma_promotion_at_most_once<T>(id: u64, table: Map<u64, T>, n: nat)
    requires
        n >= 1,
        table.contains_key(id),
    ensures
        use_steps(AssetState::Loading(id), table, n) == (
            AssetState::<T>::Loaded(table[id]),
            table.remove(id),
        ),
    decreases n,
{
    if n > 1 {
        lemma_promotion_at_most_once(id, table, (n - 1) as nat);
    } else {
        assert(use_steps(AssetState::<T>::Loading(id), table, 0nat) == (
            AssetState::<T>::Loading(id),
            table,
        ));
    }
}

/// Request identifiers of one asset kind are strictly monotone with no
/// gaps and no reuse: two requests made one after the other receive
/// identifiers `n` and exactly `n + 1`, and the first queue entry the
/// second request adds sits right behind the first.
pub proof fn lemma_request_ids_consecutive<T>(
    l0: AssetLedger<T>,
    l1: AssetLedger<T>,
    l2: AssetLedger<T>,
    path_a: Seq<char>,
    path_b: Seq<char>,
    id_a: u64,
    id_b: u64,
)
    requires
        AssetLedger::requested(l0, l1, path_a, id_a),
        AssetLedger::requested(l1, l2, path_b, id_b),
    ensures
        id_b == id_a + 1,
        l2.pending() == l0.pending().push((id_a, path_a)).push((id_b, path_b)),
{
}

} // verus!
