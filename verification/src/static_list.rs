//! Lists of constants: telling them from other lists, and turning them into
//! sets.

use vstd::prelude::*;
use vstd::pervasive::unreached;
use std::sync::Arc;
use crate::expressions::{NodeKind, PhysicalExpr};
use crate::scalar::{ScalarData, ScalarValue};
use crate::scalar_set::ScalarSet;

verus! {

/// The constant behind the member at `i`, where that member is a constant or
/// a cast of a constant.
pub open spec fn static_at(list: Seq<Arc<dyn PhysicalExpr>>, i: int) -> Option<ScalarValue> {
    list[i].kind_spec().static_value()
}

/// Every member of the list is a constant or a cast of a constant.
pub open spec fn all_static(list: Seq<Arc<dyn PhysicalExpr>>) -> bool {
    forall|i: int| 0 <= i < list.len() ==> (#[trigger] static_at(list, i)) is Some
}

/// The keys of the constants behind the first `n` members.
pub open spec fn static_keys_upto(list: Seq<Arc<dyn PhysicalExpr>>, n: int) -> Set<ScalarData> {
    Set::new(
        |k: ScalarData|
            exists|i: int|
                0 <= i < n && (#[trigger] static_at(list, i) matches Some(v) && v@.key() == k),
    )
}

/// The keys of the constants behind the members of a list.
pub open spec fn static_keys(list: Seq<Arc<dyn PhysicalExpr>>) -> Set<ScalarData> {
    static_keys_upto(list, list.len() as int)
}

/// Whether every member of the list is a constant or a cast of a constant.
/// Looks at the shape of each node and evaluates none.
pub fn check_all_static_filter_expr(list: &[Arc<dyn PhysicalExpr>]) -> (r: bool)
    ensures
        r == all_static(list@),
{
    let mut i: usize = 0;
    while i < list.len()
        invariant
            i <= list.len(),
            forall|j: int| 0 <= j < i ==> (#[trigger] static_at(list@, j)) is Some,
        decreases list.len() - i,
    {
        let is_static = match list[i].kind() {
            NodeKind::Cast(operand) => operand.is_some(),
            NodeKind::Literal(_) => true,
            NodeKind::Other => false,
        };
        if !is_static {
            assert(static_at(list@, i as int) is None);
            return false;
        }
        i += 1;
    }
    true
}

/// The set of the constants behind the members of a list. A cast gives the
/// constant under it, as it stands before the cast.
pub fn cast_static_filter_to_set(list: &[Arc<dyn PhysicalExpr>]) -> (r: ScalarSet)
    requires
        all_static(list@),
    ensures
        r@ == static_keys(list@),
{
    let mut set = ScalarSet::with_capacity(list.len());
    let mut i: usize = 0;
    assert(set@ =~= static_keys_upto(list@, 0));
    while i < list.len()
        invariant
            i <= list.len(),
            all_static(list@),
            set@ == static_keys_upto(list@, i as int),
        decreases list.len() - i,
    {
        assert(static_at(list@, i as int) is Some);
        let value = match list[i].kind() {
            NodeKind::Cast(Some(v)) => v,
            NodeKind::Literal(v) => v,
            _ => unreached(),
        };
        let ghost key = value@.key();
        assert(static_at(list@, i as int) == Some(value));
        set = set.insert(value);
        proof {
            let now = static_keys_upto(list@, i as int);
            let next = static_keys_upto(list@, i + 1);
            assert forall|k: ScalarData| next.contains(k) == now.insert(key).contains(k) by {
                if now.contains(k) {
                    let j = choose|j: int|
                        0 <= j < i && (#[trigger] static_at(list@, j) matches Some(v) && v@.key()
                            == k);
                    assert(0 <= j < i + 1);
                }
            }
            assert(next =~= now.insert(key));
        }
        i += 1;
    }
    set
}

} // verus!
