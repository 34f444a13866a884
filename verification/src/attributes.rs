//! The attribute set: the ordered sequence of key/value string pairs
//! that each transition emits. The host hands it to its external
//! attribute ledger, which replaces whatever it previously stored for
//! the asset.

use vstd::prelude::*;

verus! {

/// One key/value pair of an emitted attribute set.
#[derive(Debug)]
pub struct Attribute {
    pub key: String,
    pub value: String,
}

impl View for Attribute {
    type V = (Seq<char>, Seq<char>);

    open spec fn view(&self) -> (Seq<char>, Seq<char>) {
        (self.key@, self.value@)
    }
}

/// The key/value pairs of an attribute sequence, as character
/// sequences. Contracts over emitted attribute sets are stated in
/// terms of this view.
pub open spec fn entries(attrs: Seq<Attribute>) -> Seq<(Seq<char>, Seq<char>)> {
    attrs.map_values(|a: Attribute| a@)
}

/// Appends one attribute to a set under construction.
pub fn push_attr(attrs: &mut Vec<Attribute>, key: &str, value: String)
    ensures
        entries(final(attrs)@) == entries(old(attrs)@).push((key@, value@)),
{
    let k = key.to_owned();
    attrs.push(Attribute { key: k, value });
    proof {
        assert(entries(attrs@) =~= entries(old(attrs)@).push((key@, value@)));
    }
}

} // verus!
