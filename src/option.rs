use vstd::prelude::*;

use crate::niche::Niche;

verus! {

/// An optional value that holds no discriminant: whether it is `None` is read from the niche of
/// its stored value.
pub struct ControlledOption<T: Niche> {
    value: T::Output,
}

impl<T: Niche> ControlledOption<T> {
    /// The stored value, as the wrapped type's `Niche` implementation encodes it.
    pub closed spec fn output(self) -> T::Output {
        self.value
    }

    /// The option in the `None` state.
    pub closed spec fn spec_none() -> Self {
        ControlledOption { value: T::niche() }
    }

    /// The option in the `Some` state that holds `value`.
    pub closed spec fn spec_some(value: T) -> Self {
        ControlledOption { value: T::stored(value) }
    }

    /// The option that stands for a plain optional value.
    pub open spec fn spec_from_option(value: Option<T>) -> Self {
        match value {
            Some(v) => Self::spec_some(v),
            None => Self::spec_none(),
        }
    }

    /// The plain optional value that this option stands for.
    pub open spec fn view(self) -> Option<T> {
        if T::is_niche(self.output()) {
            None
        } else {
            Some(T::recovered(self.output()))
        }
    }

    /// Creates a new `None` instance for this option.
    pub fn none() -> (r: ControlledOption<T>)
        ensures
            r == Self::spec_none(),
            r.output() == T::niche(),
            r@ == None::<T>,
    {
        let value = T::none();
        ControlledOption { value }
    }

    /// Creates a new `Some` instance for this option.
    pub fn some(value: T) -> (r: ControlledOption<T>)
        ensures
            r == Self::spec_some(value),
            r.output() == T::stored(value),
            r@ == Some(value),
    {
        let value = T::into_some(value);
        ControlledOption { value }
    }

    /// Returns `true` if the option is a `None` value.
    pub fn is_none(&self) -> (r: bool)
        ensures
            r == self@.is_none(),
    {
        T::is_none(&self.value)
    }

    /// Returns `true` if the option is a `Some` value.
    pub fn is_some(&self) -> (r: bool)
        ensures
            r == self@.is_some(),
    {
        !T::is_none(&self.value)
    }

    /// Transforms an `Option` into a `ControlledOption`.
    pub fn from_option(value: Option<T>) -> (r: ControlledOption<T>)
        ensures
            r == Self::spec_from_option(value),
            r@ == value,
    {
        match value {
            Some(v) => ControlledOption::some(v),
            None => ControlledOption::none(),
        }
    }

    /// Transforms a `ControlledOption` into an `Option`.
    pub fn into_option(self) -> (r: Option<T>)
        ensures
            r == self@,
    {
        if T::is_none(&self.value) {
            None
        } else {
            Some(T::from_some(self.value))
        }
    }

    /// The stored value, as the wrapped type's `Niche` implementation encodes it.
    pub fn as_output(&self) -> (r: &T::Output)
        ensures
            *r == self.output(),
    {
        &self.value
    }
}

/// Converting a plain optional value into a `ControlledOption` and reading it back gives the same
/// value: a present value comes back unchanged, and absence comes back as absence.
pub proof fn lemma_option_round_trip<T: Niche>(value: Option<T>)
    requires
        value matches Some(v) ==> T::valid(v),
    ensures
        ControlledOption::<T>::spec_from_option(value)@ == value,
{
    match value {
        Some(v) => T::lemma_round_trip(v),
        None => T::lemma_niche_is_none(),
    }
}

impl<T: Niche> Default for ControlledOption<T> {
    /// The default option is `None`.
    fn default() -> (r: ControlledOption<T>)
        ensures
            r == Self::spec_none(),
            r@ == None::<T>,
    {
        ControlledOption::none()
    }
}

impl<T: Niche> From<T> for ControlledOption<T> {
    fn from(value: T) -> (r: ControlledOption<T>)
        ensures
            r@ == Some(value),
    {
        ControlledOption::some(value)
    }
}

impl<T: Niche> vstd::std_specs::convert::FromSpecImpl<T> for ControlledOption<T> {
    open spec fn obeys_from_spec() -> bool {
        true
    }

    open spec fn from_spec(v: T) -> ControlledOption<T> {
        Self::spec_some(v)
    }
}

impl<T: Niche> From<Option<T>> for ControlledOption<T> {
    fn from(value: Option<T>) -> (r: ControlledOption<T>)
        ensures
            r@ == value,
    {
        ControlledOption::from_option(value)
    }
}

impl<T: Niche> vstd::std_specs::convert::FromSpecImpl<Option<T>> for ControlledOption<T> {
    open spec fn obeys_from_spec() -> bool {
        true
    }

    open spec fn from_spec(v: Option<T>) -> ControlledOption<T> {
        Self::spec_from_option(v)
    }
}

impl<T: Niche> From<ControlledOption<T>> for Option<T> {
    fn from(value: ControlledOption<T>) -> (r: Option<T>)
        ensures
            r == value@,
    {
        value.into_option()
    }
}

impl<T: Niche> vstd::std_specs::convert::FromSpecImpl<ControlledOption<T>> for Option<T> {
    open spec fn obeys_from_spec() -> bool {
        true
    }

    open spec fn from_spec(v: ControlledOption<T>) -> Option<T> {
        v@
    }
}

impl<T: Niche> Clone for ControlledOption<T> where T::Output: Clone {
    fn clone(&self) -> (r: ControlledOption<T>) {
        ControlledOption { value: self.value.clone() }
    }
}

/// Two options are equal where their stored values are.
impl<T: Niche> PartialEq for ControlledOption<T> where T::Output: PartialEq {
    fn eq(&self, other: &ControlledOption<T>) -> (r: bool) {
        self.value.eq(&other.value)
    }
}

impl<T: Niche> vstd::std_specs::cmp::PartialEqSpecImpl for ControlledOption<T> where T::Output: PartialEq {
    open spec fn obeys_eq_spec() -> bool {
        <T::Output as vstd::std_specs::cmp::PartialEqSpec>::obeys_eq_spec()
    }

    open spec fn eq_spec(&self, other: &ControlledOption<T>) -> bool {
        <T::Output as vstd::std_specs::cmp::PartialEqSpec>::eq_spec(&self.output(), &other.output())
    }
}

impl<T: Niche> Eq for ControlledOption<T> where T::Output: Eq {

}

/// Options are ordered as their stored values are.
impl<T: Niche> PartialOrd for ControlledOption<T> where T::Output: PartialOrd {
    fn partial_cmp(&self, other: &ControlledOption<T>) -> (r: Option<std::cmp::Ordering>) {
        self.value.partial_cmp(&other.value)
    }
}

impl<T: Niche> vstd::std_specs::cmp::PartialOrdSpecImpl for ControlledOption<T> where T::Output: PartialOrd {
    open spec fn obeys_partial_cmp_spec() -> bool {
        <T::Output as vstd::std_specs::cmp::PartialOrdSpec>::obeys_partial_cmp_spec()
    }

    open spec fn partial_cmp_spec(&self, other: &ControlledOption<T>) -> Option<std::cmp::Ordering> {
        <T::Output as vstd::std_specs::cmp::PartialOrdSpec>::partial_cmp_spec(
            &self.output(),
            &other.output(),
        )
    }
}

} // verus!
