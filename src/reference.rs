use vstd::prelude::*;

use crate::niche::Niche;

verus! {

/// A reference is stored as an `Option` of itself, whose `None` is the null address.
impl<'a, T> Niche for &'a T {
    type Output = Option<&'a T>;

    open spec fn niche() -> Option<&'a T> {
        None
    }

    open spec fn is_niche(value: Option<&'a T>) -> bool {
        value is None
    }

    open spec fn stored(value: &'a T) -> Option<&'a T> {
        Some(value)
    }

    open spec fn recovered(value: Option<&'a T>) -> &'a T {
        value->0
    }

    open spec fn valid(value: &'a T) -> bool {
        true
    }

    proof fn lemma_niche_is_none() {
    }

    proof fn lemma_round_trip(value: &'a T) {
    }

    fn none() -> (r: Option<&'a T>) {
        None
    }

    fn is_none(value: &Option<&'a T>) -> (r: bool) {
        value.is_none()
    }

    fn into_some(value: &'a T) -> (r: Option<&'a T>) {
        Some(value)
    }

    fn from_some(value: Option<&'a T>) -> (r: &'a T) {
        value.unwrap()
    }
}

} // verus!
