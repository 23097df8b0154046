//! Lists of records on the boundary.
//!
//! The records themselves belong to the storage engine and reach the bridge as
//! text, one JSON value each. The bridge only frames them as one JSON array.

use vstd::prelude::*;
use vstd::string::*;

verus! {

/// The items of `items`, separated by commas.
pub open spec fn comma_separated(items: Seq<Seq<char>>) -> Seq<char>
    decreases items.len(),
{
    if items.len() == 0 {
        Seq::empty()
    } else if items.len() == 1 {
        items[0]
    } else {
        comma_separated(items.drop_last()) + ","@ + items.last()
    }
}

/// The compact JSON array whose elements are the JSON values `items`.
pub open spec fn json_array(items: Seq<Seq<char>>) -> Seq<char> {
    "["@ + comma_separated(items) + "]"@
}

/// Frames the JSON values `items` as one compact JSON array, in their order.
pub fn json_list(items: &Vec<String>) -> (text: String)
    ensures
        text@ == json_array(items.deep_view()),
{
    let ghost all = items.deep_view();
    let mut text = "[".to_owned();
    let mut i: usize = 0;
    while i < items.len()
        invariant
            i <= items.len(),
            all == items.deep_view(),
            text@ == "["@ + comma_separated(all.take(i as int)),
        decreases items.len() - i,
    {
        proof {
            assert(all.take(i + 1).drop_last() == all.take(i as int));
            assert(all.take(i + 1).last() == items[i as int]@);
        }
        if i > 0 {
            text.append(",");
        }
        text.append(items[i].as_str());
        i += 1;
    }
    proof {
        assert(all.take(i as int) == all);
    }
    text.append("]");
    text
}

} // verus!
