use vstd::prelude::*;

use crate::niche::Niche;

verus! {

/// Writes the niche of `F` into the stored form of a record's niche field.
pub fn fill_struct_field_with_none<F: Niche>(field: &mut F::Output)
    ensures
        *final(field) == F::niche(),
        F::is_niche(*final(field)),
{
    *field = F::none();
}

/// Returns whether the stored form of a record's niche field is the niche of `F`.
pub fn struct_field_is_none<F: Niche>(field: &F::Output) -> (r: bool)
    ensures
        r == F::is_niche(*field),
{
    F::is_none(field)
}

/// The stored form of a record whose niche field has type `F`, with the record's other fields
/// held together as `R`. In the `None` state only the niche field holds a value: the other
/// fields hold nothing and are never read.
pub struct RecordStorage<F: Niche, R> {
    niche: F::Output,
    rest: Option<R>,
}

impl<F: Niche, R> RecordStorage<F, R> {
    #[verifier::type_invariant]
    spec fn inv(self) -> bool {
        F::is_niche(self.niche) || self.rest is Some
    }

    /// The stored form of the niche field.
    pub closed spec fn niche_output(self) -> F::Output {
        self.niche
    }

    /// The other fields, or `None` where they hold nothing.
    pub closed spec fn others(self) -> Option<R> {
        self.rest
    }

    /// Whether this storage stands for no record.
    pub open spec fn spec_is_none(self) -> bool {
        F::is_niche(self.niche_output())
    }

    /// Storage in the `None` state: the niche field holds the niche of `F`, and the other
    /// fields hold nothing.
    pub fn none() -> (r: Self)
        ensures
            r.niche_output() == F::niche(),
            r.others() is None,
            r.spec_is_none(),
    {
        let niche = F::none();
        RecordStorage { niche, rest: None }
    }

    /// Storage of the record whose niche field is `field` and whose other fields are `others`.
    pub fn some(field: F, others: R) -> (r: Self)
        ensures
            r.niche_output() == F::stored(field),
            r.others() == Some(others),
            !r.spec_is_none(),
            F::recovered(r.niche_output()) == field,
    {
        let niche = F::into_some(field);
        RecordStorage { niche, rest: Some(others) }
    }

    /// Returns whether this storage stands for no record. Only the niche field is read.
    pub fn is_none(&self) -> (r: bool)
        ensures
            r == self.spec_is_none(),
    {
        struct_field_is_none::<F>(&self.niche)
    }

    /// Splits storage that stands for a record into its niche field and its other fields.
    pub fn into_parts(self) -> (r: (F, R))
        requires
            !self.spec_is_none(),
        ensures
            r.0 == F::recovered(self.niche_output()),
            Some(r.1) == self.others(),
    {
        proof {
            use_type_invariant(&self);
        }
        let RecordStorage { niche, rest } = self;
        let field = F::from_some(niche);
        (field, rest.unwrap())
    }

    /// The stored form of the niche field.
    pub fn niche_field(&self) -> (r: &F::Output)
        ensures
            *r == self.niche_output(),
    {
        &self.niche
    }

    /// The other fields, or `None` where they hold nothing.
    pub fn other_fields(&self) -> (r: &Option<R>)
        ensures
            *r == self.others(),
    {
        &self.rest
    }
}

} // verus!
