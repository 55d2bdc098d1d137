use controlled_option::derive::{
    niche_member, select_niche_field, DeriveError, FieldDecl, FieldMember, NicheField, RecordFields,
};
use controlled_option::nonzero::{NonZeroI8, NonZeroU32, NonZeroU64};
use controlled_option::record::{fill_struct_field_with_none, struct_field_is_none, RecordStorage};
use controlled_option::{ControlledOption, Niche};

#[test]
fn can_option_references() {
    let none = ControlledOption::<&u32>::none();
    assert!(none.is_none());
    // `None` references are represented by the null address.
    assert_eq!(<&u32>::none(), None);

    let value = 75;
    let some = ControlledOption::some(&value);
    assert!(some.is_some());
    // `Some` references are represented by themselves.
    assert_eq!(<&u32>::from_some(Some(&value)), &value);
    assert_eq!(<&u32>::into_some(&value), Some(&value));
}

#[test]
fn can_option_nonzeros() {
    let none = ControlledOption::from(NonZeroU32::new(0));
    assert!(none.is_none());
    // `None` non-zero values are represented by 0.
    assert_eq!(NonZeroU32::none(), 0);

    let some = ControlledOption::from(NonZeroU32::new(75));
    assert!(some.is_some());
    // `Some` non-zero values are represented by themselves.
    assert_eq!(NonZeroU32::from_some(75), NonZeroU32::new(75).unwrap());
}

// A struct with two fields that have niche values available. The second field is the niche of
// the struct as a whole. The `Niche` implementation is the one that the derivation emits.

#[derive(Clone, Copy, Debug, PartialEq)]
struct TestStruct {
    a: NonZeroU32,
    b: NonZeroU32,
}

impl TestStruct {
    fn new(a: u32, b: u32) -> TestStruct {
        TestStruct {
            a: NonZeroU32::new(a).unwrap(),
            b: NonZeroU32::new(b).unwrap(),
        }
    }
}

impl Niche for TestStruct {
    type Output = RecordStorage<NonZeroU32, (NonZeroU32,)>;

    fn niche() -> Self::Output {
        RecordStorage::none()
    }

    fn is_niche(value: Self::Output) -> bool {
        value.is_none()
    }

    fn stored(value: Self) -> Self::Output {
        Self::into_some(value)
    }

    fn recovered(value: Self::Output) -> Self {
        Self::from_some(value)
    }

    fn valid(_value: Self) -> bool {
        true
    }

    fn lemma_niche_is_none() {}

    fn lemma_round_trip(_value: Self) {}

    fn none() -> Self::Output {
        RecordStorage::none()
    }

    fn is_none(value: &Self::Output) -> bool {
        value.is_none()
    }

    fn into_some(value: Self) -> Self::Output {
        RecordStorage::some(value.b, (value.a,))
    }

    fn from_some(value: Self::Output) -> Self {
        let (b, (a,)) = value.into_parts();
        TestStruct { a, b }
    }
}

#[derive(Debug)]
struct TestStructRepr {
    a: Option<u32>,
    b: u32,
}

fn struct_repr(option: &ControlledOption<TestStruct>) -> TestStructRepr {
    let storage = option.as_output();
    TestStructRepr {
        a: storage.other_fields().map(|others| others.0.get()),
        b: *storage.niche_field(),
    }
}

#[test]
fn can_option_structs() {
    let none = ControlledOption::<TestStruct>::none();
    assert!(none.is_none());
    let none_repr = struct_repr(&none);
    assert_eq!(none_repr.b, 0);

    let value = TestStruct::new(75, 125);
    let some = ControlledOption::some(value);
    assert!(some.is_some());
    let some_repr = struct_repr(&some);
    assert_eq!(some_repr.a, Some(75));
    assert_eq!(some_repr.b, 125);
}

// Same as above, but with a tuple struct.

#[derive(Clone, Copy, Debug, PartialEq)]
struct TestTupleStruct(NonZeroU32, NonZeroU32);

impl TestTupleStruct {
    fn new(a: u32, b: u32) -> TestTupleStruct {
        TestTupleStruct(NonZeroU32::new(a).unwrap(), NonZeroU32::new(b).unwrap())
    }
}

impl Niche for TestTupleStruct {
    type Output = RecordStorage<NonZeroU32, (NonZeroU32,)>;

    fn niche() -> Self::Output {
        RecordStorage::none()
    }

    fn is_niche(value: Self::Output) -> bool {
        value.is_none()
    }

    fn stored(value: Self) -> Self::Output {
        Self::into_some(value)
    }

    fn recovered(value: Self::Output) -> Self {
        Self::from_some(value)
    }

    fn valid(_value: Self) -> bool {
        true
    }

    fn lemma_niche_is_none() {}

    fn lemma_round_trip(_value: Self) {}

    fn none() -> Self::Output {
        RecordStorage::none()
    }

    fn is_none(value: &Self::Output) -> bool {
        value.is_none()
    }

    fn into_some(value: Self) -> Self::Output {
        RecordStorage::some(value.1, (value.0,))
    }

    fn from_some(value: Self::Output) -> Self {
        let (field_1, (field_0,)) = value.into_parts();
        TestTupleStruct(field_0, field_1)
    }
}

#[derive(Debug)]
struct TestTupleStructRepr(Option<u32>, u32);

fn tuple_repr(option: &ControlledOption<TestTupleStruct>) -> TestTupleStructRepr {
    let storage = option.as_output();
    TestTupleStructRepr(
        storage.other_fields().map(|others| others.0.get()),
        *storage.niche_field(),
    )
}

#[test]
fn can_option_tuple_structs() {
    let none = ControlledOption::<TestTupleStruct>::none();
    assert!(none.is_none());
    let none_repr = tuple_repr(&none);
    assert_eq!(none_repr.1, 0);

    let value = TestTupleStruct::new(75, 125);
    let some = ControlledOption::some(value);
    assert!(some.is_some());
    let some_repr = tuple_repr(&some);
    assert_eq!(some_repr.0, Some(75));
    assert_eq!(some_repr.1, 125);
}

#[test]
fn record_none_reads_back_as_none() {
    let none = ControlledOption::<TestStruct>::none();
    assert_eq!(none.into_option(), None);
    let storage = <TestStruct as Niche>::none();
    assert!(storage.other_fields().is_none());
    assert!(<TestStruct as Niche>::is_none(&storage));
}

#[test]
fn record_round_trips_through_wrapper() {
    let value = TestStruct::new(75, 125);
    assert_eq!(ControlledOption::some(value).into_option(), Some(value));
    let value = TestTupleStruct::new(75, 125);
    assert_eq!(ControlledOption::from_option(Some(value)).into_option(), Some(value));
    assert_eq!(ControlledOption::<TestTupleStruct>::from_option(None).into_option(), None);
}

#[test]
fn wrapper_round_trips_plain_options() {
    let seven = NonZeroU64::new(7).unwrap();
    assert_eq!(ControlledOption::from_option(Some(seven)).into_option(), Some(seven));
    assert_eq!(ControlledOption::<NonZeroU64>::from_option(None).into_option(), None);
    let from_value: ControlledOption<NonZeroU64> = ControlledOption::from(seven);
    assert_eq!(from_value.into_option(), Some(seven));
}

#[test]
fn present_values_are_never_the_niche() {
    let v = NonZeroI8::new(-128).unwrap();
    let stored = NonZeroI8::into_some(v);
    assert_eq!(stored, -128);
    assert!(!NonZeroI8::is_none(&stored));
    assert_eq!(NonZeroI8::from_some(stored), v);
    assert!(NonZeroI8::is_none(&NonZeroI8::none()));
    assert_eq!(NonZeroU64::into_some(NonZeroU64::new(u64::MAX).unwrap()), u64::MAX);
}

#[test]
fn non_zero_constructor_refuses_zero() {
    assert!(NonZeroU32::new(0).is_none());
    assert!(NonZeroI8::new(0).is_none());
    assert_eq!(NonZeroU32::new(75).unwrap().get(), 75);
}

#[test]
fn default_option_is_none() {
    let d: ControlledOption<NonZeroU32> = Default::default();
    assert!(d.is_none());
    assert!(!d.is_some());
}

#[test]
fn options_compare_by_stored_value() {
    let a = ControlledOption::some(NonZeroU32::new(5).unwrap());
    let b = ControlledOption::some(NonZeroU32::new(5).unwrap());
    let c = ControlledOption::some(NonZeroU32::new(9).unwrap());
    let n = ControlledOption::<NonZeroU32>::none();
    assert!(a == b);
    assert!(a != c);
    assert!(n < a);
    assert!(a < c);
    assert_eq!(a.clone().into_option(), Some(NonZeroU32::new(5).unwrap()));
    assert_eq!(*n.as_output(), 0);
}

#[test]
fn field_helpers_write_and_read_the_niche() {
    let mut field: u32 = 42;
    assert!(!struct_field_is_none::<NonZeroU32>(&field));
    fill_struct_field_with_none::<NonZeroU32>(&mut field);
    assert_eq!(field, 0);
    assert!(struct_field_is_none::<NonZeroU32>(&field));
}

fn field(name: &str, ty: &str, attrs: &[&str]) -> FieldDecl {
    FieldDecl {
        name: name.to_string(),
        ty: ty.to_string(),
        attrs: attrs.iter().map(|a| a.to_string()).collect(),
    }
}

#[test]
fn selects_the_marked_field() {
    let fields = vec![
        field("a", "NonZeroU32", &["doc"]),
        field("b", "NonZeroU32", &["allow", "niche"]),
    ];
    assert_eq!(select_niche_field(&fields), Ok(1));
    assert_eq!(
        niche_member(&RecordFields::Named(fields)),
        Ok(NicheField { index: 1, member: FieldMember::Named("b".to_string()) })
    );
    let positional = vec![field("", "NonZeroU32", &[]), field("", "NonZeroU32", &["niche"])];
    assert_eq!(niche_member(&RecordFields::Positional(positional)), Ok(NicheField { index: 1, member: FieldMember::Index(1) }));
}

#[test]
fn refuses_empty_records() {
    assert_eq!(select_niche_field(&vec![]), Err(DeriveError::EmptyRecord));
    assert_eq!(niche_member(&RecordFields::Unit), Err(DeriveError::EmptyRecord));
    assert_eq!(
        niche_member(&RecordFields::Named(vec![])),
        Err(DeriveError::EmptyRecord)
    );
    assert_eq!(
        DeriveError::EmptyRecord.message(),
        "cannot select a niche field in an empty record"
    );
}

#[test]
fn refuses_records_without_marker() {
    let fields = vec![field("a", "u32", &["nichex"]), field("b", "u32", &["my::niche"])];
    assert_eq!(select_niche_field(&fields), Err(DeriveError::MissingNicheMarker));
    assert_eq!(
        DeriveError::MissingNicheMarker.message(),
        "no field marked as the niche field"
    );
}

#[test]
fn refuses_records_with_two_markers() {
    let fields = vec![
        field("a", "u32", &["niche"]),
        field("b", "u32", &[]),
        field("c", "u32", &["niche"]),
    ];
    assert_eq!(select_niche_field(&fields), Err(DeriveError::MultipleNicheMarkers));
    assert_eq!(
        niche_member(&RecordFields::Positional(fields)),
        Err(DeriveError::MultipleNicheMarkers)
    );
}

#[test]
fn converts_into_plain_option() {
    let x = NonZeroU32::new(75).unwrap();
    let some: Option<NonZeroU32> = ControlledOption::some(x).into();
    assert_eq!(some, Some(x));
    let none: Option<NonZeroU32> = ControlledOption::<NonZeroU32>::none().into();
    assert_eq!(none, None);
}
