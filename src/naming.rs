//! Entity names: every entity of a house is named `<Name>-House-<id>`.

use vstd::prelude::*;

use crate::text::{decimal, decimal_text};

verus! {

pub open spec fn house_marker() -> Seq<char> {
    seq!['-', 'H', 'o', 'u', 's', 'e', '-']
}

/// The name of entity `base` of house `house_id`.
pub open spec fn house_entity_name(base: Seq<char>, house_id: nat) -> Seq<char> {
    base + house_marker() + decimal(house_id)
}

/// The name of the house's host entity.
pub open spec fn host_name(house_id: nat) -> Seq<char> {
    seq!['H', 'o', 'u', 's', 'e', '-'] + decimal(house_id)
}

/// Names entity `base` of house `house_id`.
pub fn entity_name(base: &str, house_id: u32) -> (r: String)
    ensures
        r@ == house_entity_name(base@, house_id as nat),
{
    proof {
        reveal_strlit("-House-");
        assert("-House-"@ =~= house_marker());
    }
    let digits = decimal_text(house_id as u64);
    let r = String::from_str(base).concat("-House-").concat(digits.as_str());
    r
}

/// Names the host entity of house `house_id`.
pub fn house_name(house_id: u32) -> (r: String)
    ensures
        r@ == host_name(house_id as nat),
{
    proof {
        reveal_strlit("House-");
        assert("House-"@ =~= seq!['H', 'o', 'u', 's', 'e', '-']);
    }
    let digits = decimal_text(house_id as u64);
    String::from_str("House-").concat(digits.as_str())
}

} // verus!
