use vstd::prelude::*;

verus! {

/// A field of a record, as the derivation of `Niche` reads it.
pub struct FieldDecl {
    /// The field's name; empty for a positional field.
    pub name: String,
    /// The field's type, as source text.
    pub ty: String,
    /// The paths of the field's attributes, as source text.
    pub attrs: Vec<String>,
}

/// The fields of a record.
pub enum RecordFields {
    Named(Vec<FieldDecl>),
    Positional(Vec<FieldDecl>),
    Unit,
}

/// How the derived implementation reaches the niche field.
#[derive(Debug, PartialEq, Eq)]
pub enum FieldMember {
    Named(String),
    Index(usize),
}

/// The niche field of a record: its position among the fields, and how it is reached.
#[derive(Debug, PartialEq, Eq)]
pub struct NicheField {
    pub index: usize,
    pub member: FieldMember,
}

/// Why `Niche` cannot be derived for a type.
#[derive(Clone, Copy, Debug, PartialEq, Eq, Structural)]
pub enum DeriveError {
    /// The type is not a struct.
    NotAStruct,
    /// The record has no fields.
    EmptyRecord,
    /// No field carries the niche marker.
    MissingNicheMarker,
    /// More than one field carries the niche marker.
    MultipleNicheMarkers,
}

/// The attribute that marks the niche field.
pub open spec fn is_niche_marker(path: Seq<char>) -> bool {
    path == seq!['n', 'i', 'c', 'h', 'e']
}

/// Whether a field carries the niche marker.
pub open spec fn is_marked(field: FieldDecl) -> bool {
    exists|k: int| 0 <= k < field.attrs@.len() && is_niche_marker(#[trigger] field.attrs@[k]@)
}

/// Field `i` carries the niche marker and no other field does.
pub open spec fn only_marked(fields: Seq<FieldDecl>, i: int) -> bool {
    &&& 0 <= i < fields.len()
    &&& is_marked(fields[i])
    &&& forall|j: int| 0 <= j < fields.len() && j != i ==> !is_marked(#[trigger] fields[j])
}

/// Two distinct fields carry the niche marker.
pub open spec fn marked_twice(fields: Seq<FieldDecl>) -> bool {
    exists|i: int, j: int|
        0 <= i < j < fields.len() && is_marked(#[trigger] fields[i]) && is_marked(#[trigger] fields[j])
}

/// No field carries the niche marker.
pub open spec fn unmarked(fields: Seq<FieldDecl>) -> bool {
    forall|j: int| 0 <= j < fields.len() ==> !is_marked(#[trigger] fields[j])
}

/// The outcome of choosing the niche field among `fields`.
pub open spec fn selection(fields: Seq<FieldDecl>) -> Result<int, DeriveError> {
    if fields.len() == 0 {
        Err(DeriveError::EmptyRecord)
    } else if unmarked(fields) {
        Err(DeriveError::MissingNicheMarker)
    } else if marked_twice(fields) {
        Err(DeriveError::MultipleNicheMarkers)
    } else {
        Ok(choose|i: int| only_marked(fields, i))
    }
}

/// Returns whether a field carries the niche marker.
pub fn field_is_niche(field: &FieldDecl) -> (r: bool)
    ensures
        r == is_marked(*field),
{
    let marker = "niche".to_owned();
    proof {
        reveal_strlit("niche");
        assert(marker@ =~= seq!['n', 'i', 'c', 'h', 'e']);
    }
    let mut k: usize = 0;
    while k < field.attrs.len()
        invariant
            k <= field.attrs@.len(),
            is_niche_marker(marker@),
            forall|m: int| 0 <= m < k ==> !is_niche_marker(#[trigger] field.attrs@[m]@),
        decreases field.attrs@.len() - k,
    {
        if field.attrs[k] == marker {
            return true;
        }
        k = k + 1;
    }
    false
}

/// A field marked as the niche is the only marked field: the choice among such fields is that
/// one.
proof fn lemma_only_marked_unique(fields: Seq<FieldDecl>, i: int)
    requires
        only_marked(fields, i),
    ensures
        !unmarked(fields),
        !marked_twice(fields),
        selection(fields) == Ok::<int, DeriveError>(i),
{
    assert(!unmarked(fields)) by {
        assert(is_marked(fields[i]));
    }
    assert(only_marked(fields, i));
    let c = choose|c: int| only_marked(fields, c);
    if c != i {
        assert(!is_marked(fields[c]));
    }
}

/// Chooses the niche field among a record's fields: the one field that carries the niche
/// marker. A record with no fields, with no marked field or with two marked fields is refused.
pub fn select_niche_field(fields: &Vec<FieldDecl>) -> (r: Result<usize, DeriveError>)
    ensures
        match r {
            Ok(i) => selection(fields@) == Ok::<int, DeriveError>(i as int),
            Err(e) => selection(fields@) == Err::<int, DeriveError>(e),
        },
        r matches Ok(i) ==> only_marked(fields@, i as int),
{
    if fields.len() == 0 {
        return Err(DeriveError::EmptyRecord);
    }
    let mut found: Option<usize> = None;
    let mut j: usize = 0;
    while j < fields.len()
        invariant
            j <= fields@.len(),
            found is None ==> forall|m: int| 0 <= m < j ==> !is_marked(#[trigger] fields@[m]),
            found matches Some(k) ==> {
                &&& k < j
                &&& is_marked(fields@[k as int])
                &&& forall|m: int| 0 <= m < j && m != k ==> !is_marked(#[trigger] fields@[m])
            },
        decreases fields@.len() - j,
    {
        if field_is_niche(&fields[j]) {
            if let Some(k) = found {
                proof {
                    assert(is_marked(fields@[k as int]) && is_marked(fields@[j as int]));
                    assert(marked_twice(fields@));
                    assert(!unmarked(fields@)) by {
                        assert(is_marked(fields@[j as int]));
                    }
                }
                return Err(DeriveError::MultipleNicheMarkers);
            }
            found = Some(j);
        }
        j = j + 1;
    }
    match found {
        None => Err(DeriveError::MissingNicheMarker),
        Some(k) => {
            proof {
                lemma_only_marked_unique(fields@, k as int);
            }
            Ok(k)
        },
    }
}

/// Finds the niche field of a record and says how the derived implementation reaches it: by
/// name in a record with named fields, by position in one with positional fields.
pub fn niche_member(fields: &RecordFields) -> (r: Result<NicheField, DeriveError>)
    ensures
        match fields {
            RecordFields::Named(fs) => match selection(fs@) {
                Ok(i) => r == Ok::<NicheField, DeriveError>(
                    NicheField { index: i as usize, member: FieldMember::Named(fs@[i].name) },
                ),
                Err(e) => r == Err::<NicheField, DeriveError>(e),
            },
            RecordFields::Positional(fs) => match selection(fs@) {
                Ok(i) => r == Ok::<NicheField, DeriveError>(
                    NicheField { index: i as usize, member: FieldMember::Index(i as usize) },
                ),
                Err(e) => r == Err::<NicheField, DeriveError>(e),
            },
            RecordFields::Unit => r == Err::<NicheField, DeriveError>(DeriveError::EmptyRecord),
        },
{
    match fields {
        RecordFields::Named(fs) => match select_niche_field(fs) {
            Ok(i) => Ok(NicheField { index: i, member: FieldMember::Named(fs[i].name.clone()) }),
            Err(e) => Err(e),
        },
        RecordFields::Positional(fs) => match select_niche_field(fs) {
            Ok(i) => Ok(NicheField { index: i, member: FieldMember::Index(i) }),
            Err(e) => Err(e),
        },
        RecordFields::Unit => Err(DeriveError::EmptyRecord),
    }
}

impl DeriveError {
    /// The text of the message with which the derivation fails.
    pub open spec fn spec_message(self) -> &'static str {
        match self {
            DeriveError::NotAStruct => "#[derive(Niche)] is only supported on struct types",
            DeriveError::EmptyRecord => "cannot select a niche field in an empty record",
            DeriveError::MissingNicheMarker => "no field marked as the niche field",
            DeriveError::MultipleNicheMarkers => "more than one field marked as the niche field",
        }
    }

    /// The message with which the derivation fails.
    pub fn message(&self) -> (r: &'static str)
        ensures
            r == self.spec_message(),
    {
        match self {
            DeriveError::NotAStruct => "#[derive(Niche)] is only supported on struct types",
            DeriveError::EmptyRecord => "cannot select a niche field in an empty record",
            DeriveError::MissingNicheMarker => "no field marked as the niche field",
            DeriveError::MultipleNicheMarkers => "more than one field marked as the niche field",
        }
    }
}

} // verus!
