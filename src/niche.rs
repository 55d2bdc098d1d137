use vstd::prelude::*;

verus! {

/// A type implements `Niche` when its stored form has a bit pattern that stands for no value.
/// That pattern encodes the `None` state of a `ControlledOption`.
pub trait Niche: Sized {
    /// The type that holds both the niche and the stored form of every value of `Self`.
    type Output;

    /// The niche: the stored value that stands for absence.
    spec fn niche() -> Self::Output;

    /// Whether a stored value is the niche.
    spec fn is_niche(value: Self::Output) -> bool;

    /// The stored form of a present value.
    spec fn stored(value: Self) -> Self::Output;

    /// The value that a stored form other than the niche stands for.
    spec fn recovered(value: Self::Output) -> Self;

    /// Whether `value` meets the invariant of `Self`. Every value that exists at run time does.
    spec fn valid(value: Self) -> bool;

    /// The niche reads back as absent.
    proof fn lemma_niche_is_none()
        ensures
            Self::is_niche(Self::niche()),
    ;

    /// The stored form of a valid value is never the niche, and reads back as the same value.
    proof fn lemma_round_trip(value: Self)
        requires
            Self::valid(value),
        ensures
            !Self::is_niche(Self::stored(value)),
            Self::recovered(Self::stored(value)) == value,
    ;

    /// Returns the niche. Every call gives the same value.
    fn none() -> (r: Self::Output)
        ensures
            r == Self::niche(),
            Self::is_niche(r),
    ;

    /// Returns whether `value` is the niche.
    fn is_none(value: &Self::Output) -> (r: bool)
        ensures
            r == Self::is_niche(*value),
    ;

    /// Turns a present value into its stored form, which is never the niche and reads back as
    /// the same value.
    fn into_some(value: Self) -> (r: Self::Output)
        ensures
            Self::valid(value),
            r == Self::stored(value),
            !Self::is_niche(r),
            Self::recovered(r) == value,
    ;

    /// Turns a stored form other than the niche back into the value it stands for.
    fn from_some(value: Self::Output) -> (r: Self)
        requires
            !Self::is_niche(value),
        ensures
            r == Self::recovered(value),
    ;
}

} // verus!
