//! Calls to the home automation hub's services: an entity `light.kitchen` is switched
//! through the services of its domain, `light`.

use vstd::prelude::*;

verus! {

/// Whether `d` is the domain of `entity_id`: the text before its first `.`, or all of it
/// where it has none.
pub open spec fn is_domain_of(d: Seq<char>, entity_id: Seq<char>) -> bool {
    &&& d.len() <= entity_id.len()
    &&& d == entity_id.subrange(0, d.len() as int)
    &&& forall|i: int| 0 <= i < d.len() ==> d[i] != '.'
    &&& (d.len() == entity_id.len() || entity_id[d.len() as int] == '.')
}

/// The service domain of an entity.
pub fn service_domain(entity_id: &str) -> (r: String)
    ensures
        is_domain_of(r@, entity_id@),
{
    let n = entity_id.unicode_len();
    let mut i: usize = 0;
    while i < n
        invariant
            n == entity_id@.len(),
            i <= n,
            forall|j: int| 0 <= j < i ==> entity_id@[j] != '.',
        ensures
            i <= n,
            forall|j: int| 0 <= j < i ==> entity_id@[j] != '.',
            i == n || entity_id@[i as int] == '.',
        decreases n - i,
    {
        if entity_id.get_char(i) == '.' {
            break;
        }
        i = i + 1;
    }
    let r = String::from_str(entity_id.substring_char(0, i));
    assert(r@.len() == i);
    r
}

pub open spec fn turn_on_name() -> Seq<char> {
    seq!['t', 'u', 'r', 'n', '_', 'o', 'n']
}

pub open spec fn turn_off_name() -> Seq<char> {
    seq!['t', 'u', 'r', 'n', '_', 'o', 'f', 'f']
}

/// The service that switches an entity on or off.
pub fn switch_service(on: bool) -> (r: &'static str)
    ensures
        r@ == (if on {
            turn_on_name()
        } else {
            turn_off_name()
        }),
{
    proof {
        reveal_strlit("turn_on");
        reveal_strlit("turn_off");
    }
    if on {
        "turn_on"
    } else {
        "turn_off"
    }
}

} // verus!
