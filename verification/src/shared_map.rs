//! The concurrent per-symbol tables (`dashmap::DashMap`) and what the engine
//! relies on of them: a lookup, an insert and a removal by key.

use vstd::prelude::*;
use crate::services::strategy::HftSymbolState;
use crate::services::strategy::HybridGateState;

verus! {

#[verifier::external_type_specification]
#[verifier::external_body]
#[verifier::reject_recursive_types(K)]
#[verifier::reject_recursive_types(V)]
#[verifier::reject_recursive_types(S)]
pub struct ExDashMap<K, V, S>(dashmap::DashMap<K, V, S>);

/// A concurrent table from symbol to a number.
pub type SymbolTable = dashmap::DashMap<String, i64>;

/// The entries a table of per-symbol numbers holds.
pub uninterp spec fn table_entries(m: SymbolTable) -> Map<Seq<char>, i64>;

/// `DashMap::new`: a table with no entries.
#[verifier::external_body]
pub(crate) fn table_new() -> (m: SymbolTable)
    ensures
        table_entries(m) == (Map::<Seq<char>, i64>::empty()),
{
    dashmap::DashMap::new()
}

/// `DashMap::get`: the number stored under `key`, where there is one. The
/// table is left as it was.
#[verifier::external_body]
pub(crate) fn table_get(m: &SymbolTable, key: &str) -> (r: Option<i64>)
    ensures
        r == if table_entries(*m).contains_key(key@) {
            Some(table_entries(*m)[key@])
        } else {
            None::<i64>
        },
{
    match m.get(key) {
        Some(entry) => Some(*entry.value()),
        None => None,
    }
}

/// `DashMap::insert`: afterwards `key` maps to `value`, every other entry is
/// as before.
#[verifier::external_body]
pub(crate) fn table_insert(m: &mut SymbolTable, key: &str, value: i64)
    ensures
        table_entries(*final(m)) == table_entries(*old(m)).insert(key@, value),
{
    m.insert(key.to_string(), value);
}

/// `DashMap::remove`: afterwards `key` has no entry, every other entry is as
/// before.
#[verifier::external_body]
pub(crate) fn table_remove(m: &mut SymbolTable, key: &str)
    ensures
        table_entries(*final(m)) == table_entries(*old(m)).remove(key@),
{
    m.remove(key);
}

/// A concurrent table from symbol to the state of its momentum evaluator.
pub type MomentumTable = dashmap::DashMap<String, HftSymbolState>;

/// The entries a table of momentum states holds.
pub uninterp spec fn momentum_entries(m: MomentumTable) -> Map<Seq<char>, HftSymbolState>;

/// `DashMap::new`: a table with no entries.
#[verifier::external_body]
pub(crate) fn momentum_new() -> (m: MomentumTable)
    ensures
        momentum_entries(m) == (Map::<Seq<char>, HftSymbolState>::empty()),
{
    dashmap::DashMap::new()
}

/// `DashMap::remove`: hands out the state stored under `key`, where there
/// is one; afterwards `key` has no entry, every other entry is as before.
#[verifier::external_body]
pub(crate) fn momentum_take(m: &mut MomentumTable, key: &str) -> (r: Option<HftSymbolState>)
    ensures
        momentum_entries(*final(m)) == momentum_entries(*old(m)).remove(key@),
        r == if momentum_entries(*old(m)).contains_key(key@) {
            Some(momentum_entries(*old(m))[key@])
        } else {
            None::<HftSymbolState>
        },
{
    match m.remove(key) {
        Some((_, state)) => Some(state),
        None => None,
    }
}

/// `DashMap::insert`: afterwards `key` maps to `state`, every other entry
/// is as before.
#[verifier::external_body]
pub(crate) fn momentum_put(m: &mut MomentumTable, key: &str, state: HftSymbolState)
    ensures
        momentum_entries(*final(m)) == momentum_entries(*old(m)).insert(key@, state),
{
    m.insert(key.to_string(), state);
}

/// A concurrent table from symbol to the state of its hybrid gate.
pub type GateTable = dashmap::DashMap<String, HybridGateState>;

/// The entries a table of hybrid gates holds.
pub uninterp spec fn gate_entries(m: GateTable) -> Map<Seq<char>, HybridGateState>;

/// `DashMap::new`: a table with no entries.
#[verifier::external_body]
pub(crate) fn gate_new() -> (m: GateTable)
    ensures
        gate_entries(m) == (Map::<Seq<char>, HybridGateState>::empty()),
{
    dashmap::DashMap::new()
}

/// `DashMap::remove`: hands out the hybrid gate stored under `key`, where
/// there is one; afterwards `key` has no entry, every other entry is as before.
#[verifier::external_body]
pub(crate) fn gate_take(m: &mut GateTable, key: &str) -> (r: Option<HybridGateState>)
    ensures
        gate_entries(*final(m)) == gate_entries(*old(m)).remove(key@),
        r == if gate_entries(*old(m)).contains_key(key@) {
            Some(gate_entries(*old(m))[key@])
        } else {
            None::<HybridGateState>
        },
{
    match m.remove(key) {
        Some((_, gate)) => Some(gate),
        None => None,
    }
}

/// `DashMap::insert`: afterwards `key` maps to `gate`, every other entry is
/// as before.
#[verifier::external_body]
pub(crate) fn gate_put(m: &mut GateTable, key: &str, gate: HybridGateState)
    ensures
        gate_entries(*final(m)) == gate_entries(*old(m)).insert(key@, gate),
{
    m.insert(key.to_string(), gate);
}

/// `DashMap::get`: whether the hybrid gate stored under `key` is allowed,
/// and the quotes its cooldown has left; `None` where none is stored. The
/// table is left as it was.
#[verifier::external_body]
pub(crate) fn gate_peek(m: &GateTable, key: &str) -> (r: Option<(bool, usize)>)
    ensures
        r == if gate_entries(*m).contains_key(key@) {
            Some(
                (
                    gate_entries(*m)[key@].allowed,
                    gate_entries(*m)[key@].cooldown_quotes_remaining,
                ),
            )
        } else {
            None::<(bool, usize)>
        },
{
    match m.get(key) {
        Some(entry) => Some((entry.value().allowed, entry.value().cooldown_quotes_remaining)),
        None => None,
    }
}

} // verus!
