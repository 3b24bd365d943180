//! Order of stored C strings.
use vstd::prelude::*;

use std::cmp::Ordering;

use vstd::std_specs::cmp::PartialOrdSpecImpl;

use crate::types::cstring::{lex_sign, StaticCString};

verus! {

/// Lexicographic order of byte strings: the first differing byte decides, and a proper
/// prefix comes first.
pub open spec fn lex_order(a: Seq<u8>, b: Seq<u8>) -> Ordering {
    let s = lex_sign(a, b);
    if s < 0 {
        Ordering::Less
    } else if s == 0 {
        Ordering::Equal
    } else {
        Ordering::Greater
    }
}

impl<const N: usize> PartialOrd for StaticCString<N> {
    fn partial_cmp(&self, other: &Self) -> (r: Option<Ordering>) {
        let s = self.compare_sign(other);
        if s < 0 {
            Some(Ordering::Less)
        } else if s == 0 {
            Some(Ordering::Equal)
        } else {
            Some(Ordering::Greater)
        }
    }
}

impl<const N: usize> PartialOrdSpecImpl for StaticCString<N> {
    open spec fn obeys_partial_cmp_spec() -> bool {
        true
    }

    open spec fn partial_cmp_spec(&self, other: &Self) -> Option<Ordering> {
        Some(lex_order(self@, other@))
    }
}

} // verus!
