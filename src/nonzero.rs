use vstd::prelude::*;

use crate::niche::Niche;

verus! {

/// A `i8` that is never zero. Zero is its niche.
#[derive(Clone, Copy, Debug, PartialEq, Eq)]
pub struct NonZeroI8 {
    value: i8,
}

impl NonZeroI8 {
    #[verifier::type_invariant]
    spec fn inv(self) -> bool {
        self.value != 0
    }

    /// The integer that this value holds.
    pub closed spec fn view(self) -> i8 {
        self.value
    }

    /// Returns the non-zero value `n`, or `None` where `n` is zero.
    pub fn new(n: i8) -> (r: Option<NonZeroI8>)
        ensures
            r.is_some() == (n != 0),
            r matches Some(z) ==> z@ == n,
    {
        if n == 0 {
            None
        } else {
            Some(NonZeroI8 { value: n })
        }
    }

    /// Returns the integer that this value holds, which is not zero.
    pub fn get(self) -> (r: i8)
        ensures
            r == self@,
            r != 0,
    {
        proof {
            use_type_invariant(&self);
        }
        self.value
    }
}

impl Niche for NonZeroI8 {
    type Output = i8;

    open spec fn niche() -> i8 {
        0
    }

    open spec fn is_niche(value: i8) -> bool {
        value == 0
    }

    open spec fn stored(value: NonZeroI8) -> i8 {
        value@
    }

    closed spec fn recovered(value: i8) -> NonZeroI8 {
        NonZeroI8 { value }
    }

    closed spec fn valid(value: NonZeroI8) -> bool {
        value.value != 0
    }

    proof fn lemma_niche_is_none() {
    }

    proof fn lemma_round_trip(value: NonZeroI8) {
    }

    fn none() -> (r: i8) {
        0
    }

    fn is_none(value: &i8) -> (r: bool) {
        *value == 0
    }

    fn into_some(value: NonZeroI8) -> (r: i8) {
        proof {
            use_type_invariant(&value);
        }
        value.get()
    }

    fn from_some(value: i8) -> (r: NonZeroI8)
        ensures
            r@ == value,
    {
        NonZeroI8 { value }
    }
}

/// A `i16` that is never zero. Zero is its niche.
#[derive(Clone, Copy, Debug, PartialEq, Eq)]
pub struct NonZeroI16 {
    value: i16,
}

impl NonZeroI16 {
    #[verifier::type_invariant]
    spec fn inv(self) -> bool {
        self.value != 0
    }

    /// The integer that this value holds.
    pub closed spec fn view(self) -> i16 {
        self.value
    }

    /// Returns the non-zero value `n`, or `None` where `n` is zero.
    pub fn new(n: i16) -> (r: Option<NonZeroI16>)
        ensures
            r.is_some() == (n != 0),
            r matches Some(z) ==> z@ == n,
    {
        if n == 0 {
            None
        } else {
            Some(NonZeroI16 { value: n })
        }
    }

    /// Returns the integer that this value holds, which is not zero.
    pub fn get(self) -> (r: i16)
        ensures
            r == self@,
            r != 0,
    {
        proof {
            use_type_invariant(&self);
        }
        self.value
    }
}

impl Niche for NonZeroI16 {
    type Output = i16;

    open spec fn niche() -> i16 {
        0
    }

    open spec fn is_niche(value: i16) -> bool {
        value == 0
    }

    open spec fn stored(value: NonZeroI16) -> i16 {
        value@
    }

    closed spec fn recovered(value: i16) -> NonZeroI16 {
        NonZeroI16 { value }
    }

    closed spec fn valid(value: NonZeroI16) -> bool {
        value.value != 0
    }

    proof fn lemma_niche_is_none() {
    }

    proof fn lemma_round_trip(value: NonZeroI16) {
    }

    fn none() -> (r: i16) {
        0
    }

    fn is_none(value: &i16) -> (r: bool) {
        *value == 0
    }

    fn into_some(value: NonZeroI16) -> (r: i16) {
        proof {
            use_type_invariant(&value);
        }
        value.get()
    }

    fn from_some(value: i16) -> (r: NonZeroI16)
        ensures
            r@ == value,
    {
        NonZeroI16 { value }
    }
}

/// A `i32` that is never zero. Zero is its niche.
#[derive(Clone, Copy, Debug, PartialEq, Eq)]
pub struct NonZeroI32 {
    value: i32,
}

impl NonZeroI32 {
    #[verifier::type_invariant]
    spec fn inv(self) -> bool {
        self.value != 0
    }

    /// The integer that this value holds.
    pub closed spec fn view(self) -> i32 {
        self.value
    }

    /// Returns the non-zero value `n`, or `None` where `n` is zero.
    pub fn new(n: i32) -> (r: Option<NonZeroI32>)
        ensures
            r.is_some() == (n != 0),
            r matches Some(z) ==> z@ == n,
    {
        if n == 0 {
            None
        } else {
            Some(NonZeroI32 { value: n })
        }
    }

    /// Returns the integer that this value holds, which is not zero.
    pub fn get(self) -> (r: i32)
        ensures
            r == self@,
            r != 0,
    {
        proof {
            use_type_invariant(&self);
        }
        self.value
    }
}

impl Niche for NonZeroI32 {
    type Output = i32;

    open spec fn niche() -> i32 {
        0
    }

    open spec fn is_niche(value: i32) -> bool {
        value == 0
    }

    open spec fn stored(value: NonZeroI32) -> i32 {
        value@
    }

    closed spec fn recovered(value: i32) -> NonZeroI32 {
        NonZeroI32 { value }
    }

    closed spec fn valid(value: NonZeroI32) -> bool {
        value.value != 0
    }

    proof fn lemma_niche_is_none() {
    }

    proof fn lemma_round_trip(value: NonZeroI32) {
    }

    fn none() -> (r: i32) {
        0
    }

    fn is_none(value: &i32) -> (r: bool) {
        *value == 0
    }

    fn into_some(value: NonZeroI32) -> (r: i32) {
        proof {
            use_type_invariant(&value);
        }
        value.get()
    }

    fn from_some(value: i32) -> (r: NonZeroI32)
        ensures
            r@ == value,
    {
        NonZeroI32 { value }
    }
}

/// A `i64` that is never zero. Zero is its niche.
#[derive(Clone, Copy, Debug, PartialEq, Eq)]
pub struct NonZeroI64 {
    value: i64,
}

impl NonZeroI64 {
    #[verifier::type_invariant]
    spec fn inv(self) -> bool {
        self.value != 0
    }

    /// The integer that this value holds.
    pub closed spec fn view(self) -> i64 {
        self.value
    }

    /// Returns the non-zero value `n`, or `None` where `n` is zero.
    pub fn new(n: i64) -> (r: Option<NonZeroI64>)
        ensures
            r.is_some() == (n != 0),
            r matches Some(z) ==> z@ == n,
    {
        if n == 0 {
            None
        } else {
            Some(NonZeroI64 { value: n })
        }
    }

    /// Returns the integer that this value holds, which is not zero.
    pub fn get(self) -> (r: i64)
        ensures
            r == self@,
            r != 0,
    {
        proof {
            use_type_invariant(&self);
        }
        self.value
    }
}

impl Niche for NonZeroI64 {
    type Output = i64;

    open spec fn niche() -> i64 {
        0
    }

    open spec fn is_niche(value: i64) -> bool {
        value == 0
    }

    open spec fn stored(value: NonZeroI64) -> i64 {
        value@
    }

    closed spec fn recovered(value: i64) -> NonZeroI64 {
        NonZeroI64 { value }
    }

    closed spec fn valid(value: NonZeroI64) -> bool {
        value.value != 0
    }

    proof fn lemma_niche_is_none() {
    }

    proof fn lemma_round_trip(value: NonZeroI64) {
    }

    fn none() -> (r: i64) {
        0
    }

    fn is_none(value: &i64) -> (r: bool) {
        *value == 0
    }

    fn into_some(value: NonZeroI64) -> (r: i64) {
        proof {
            use_type_invariant(&value);
        }
        value.get()
    }

    fn from_some(value: i64) -> (r: NonZeroI64)
        ensures
            r@ == value,
    {
        NonZeroI64 { value }
    }
}

/// A `isize` that is never zero. Zero is its niche.
#[derive(Clone, Copy, Debug, PartialEq, Eq)]
pub struct NonZeroIsize {
    value: isize,
}

impl NonZeroIsize {
    #[verifier::type_invariant]
    spec fn inv(self) -> bool {
        self.value != 0
    }

    /// The integer that this value holds.
    pub closed spec fn view(self) -> isize {
        self.value
    }

    /// Returns the non-zero value `n`, or `None` where `n` is zero.
    pub fn new(n: isize) -> (r: Option<NonZeroIsize>)
        ensures
            r.is_some() == (n != 0),
            r matches Some(z) ==> z@ == n,
    {
        if n == 0 {
            None
        } else {
            Some(NonZeroIsize { value: n })
        }
    }

    /// Returns the integer that this value holds, which is not zero.
    pub fn get(self) -> (r: isize)
        ensures
            r == self@,
            r != 0,
    {
        proof {
            use_type_invariant(&self);
        }
        self.value
    }
}

impl Niche for NonZeroIsize {
    type Output = isize;

    open spec fn niche() -> isize {
        0
    }

    open spec fn is_niche(value: isize) -> bool {
        value == 0
    }

    open spec fn stored(value: NonZeroIsize) -> isize {
        value@
    }

    closed spec fn recovered(value: isize) -> NonZeroIsize {
        NonZeroIsize { value }
    }

    closed spec fn valid(value: NonZeroIsize) -> bool {
        value.value != 0
    }

    proof fn lemma_niche_is_none() {
    }

    proof fn lemma_round_trip(value: NonZeroIsize) {
    }

    fn none() -> (r: isize) {
        0
    }

    fn is_none(value: &isize) -> (r: bool) {
        *value == 0
    }

    fn into_some(value: NonZeroIsize) -> (r: isize) {
        proof {
            use_type_invariant(&value);
        }
        value.get()
    }

    fn from_some(value: isize) -> (r: NonZeroIsize)
        ensures
            r@ == value,
    {
        NonZeroIsize { value }
    }
}

/// A `u8` that is never zero. Zero is its niche.
#[derive(Clone, Copy, Debug, PartialEq, Eq)]
pub struct NonZeroU8 {
    value: u8,
}

impl NonZeroU8 {
    #[verifier::type_invariant]
    spec fn inv(self) -> bool {
        self.value != 0
    }

    /// The integer that this value holds.
    pub closed spec fn view(self) -> u8 {
        self.value
    }

    /// Returns the non-zero value `n`, or `None` where `n` is zero.
    pub fn new(n: u8) -> (r: Option<NonZeroU8>)
        ensures
            r.is_some() == (n != 0),
            r matches Some(z) ==> z@ == n,
    {
        if n == 0 {
            None
        } else {
            Some(NonZeroU8 { value: n })
        }
    }

    /// Returns the integer that this value holds, which is not zero.
    pub fn get(self) -> (r: u8)
        ensures
            r == self@,
            r != 0,
    {
        proof {
            use_type_invariant(&self);
        }
        self.value
    }
}

impl Niche for NonZeroU8 {
    type Output = u8;

    open spec fn niche() -> u8 {
        0
    }

    open spec fn is_niche(value: u8) -> bool {
        value == 0
    }

    open spec fn stored(value: NonZeroU8) -> u8 {
        value@
    }

    closed spec fn recovered(value: u8) -> NonZeroU8 {
        NonZeroU8 { value }
    }

    closed spec fn valid(value: NonZeroU8) -> bool {
        value.value != 0
    }

    proof fn lemma_niche_is_none() {
    }

    proof fn lemma_round_trip(value: NonZeroU8) {
    }

    fn none() -> (r: u8) {
        0
    }

    fn is_none(value: &u8) -> (r: bool) {
        *value == 0
    }

    fn into_some(value: NonZeroU8) -> (r: u8) {
        proof {
            use_type_invariant(&value);
        }
        value.get()
    }

    fn from_some(value: u8) -> (r: NonZeroU8)
        ensures
            r@ == value,
    {
        NonZeroU8 { value }
    }
}

/// A `u16` that is never zero. Zero is its niche.
#[derive(Clone, Copy, Debug, PartialEq, Eq)]
pub struct NonZeroU16 {
    value: u16,
}

impl NonZeroU16 {
    #[verifier::type_invariant]
    spec fn inv(self) -> bool {
        self.value != 0
    }

    /// The integer that this value holds.
    pub closed spec fn view(self) -> u16 {
        self.value
    }

    /// Returns the non-zero value `n`, or `None` where `n` is zero.
    pub fn new(n: u16) -> (r: Option<NonZeroU16>)
        ensures
            r.is_some() == (n != 0),
            r matches Some(z) ==> z@ == n,
    {
        if n == 0 {
            None
        } else {
            Some(NonZeroU16 { value: n })
        }
    }

    /// Returns the integer that this value holds, which is not zero.
    pub fn get(self) -> (r: u16)
        ensures
            r == self@,
            r != 0,
    {
        proof {
            use_type_invariant(&self);
        }
        self.value
    }
}

impl Niche for NonZeroU16 {
    type Output = u16;

    open spec fn niche() -> u16 {
        0
    }

    open spec fn is_niche(value: u16) -> bool {
        value == 0
    }

    open spec fn stored(value: NonZeroU16) -> u16 {
        value@
    }

    closed spec fn recovered(value: u16) -> NonZeroU16 {
        NonZeroU16 { value }
    }

    closed spec fn valid(value: NonZeroU16) -> bool {
        value.value != 0
    }

    proof fn lemma_niche_is_none() {
    }

    proof fn lemma_round_trip(value: NonZeroU16) {
    }

    fn none() -> (r: u16) {
        0
    }

    fn is_none(value: &u16) -> (r: bool) {
        *value == 0
    }

    fn into_some(value: NonZeroU16) -> (r: u16) {
        proof {
            use_type_invariant(&value);
        }
        value.get()
    }

    fn from_some(value: u16) -> (r: NonZeroU16)
        ensures
            r@ == value,
    {
        NonZeroU16 { value }
    }
}

/// A `u32` that is never zero. Zero is its niche.
#[derive(Clone, Copy, Debug, PartialEq, Eq)]
pub struct NonZeroU32 {
    value: u32,
}

impl NonZeroU32 {
    #[verifier::type_invariant]
    spec fn inv(self) -> bool {
        self.value != 0
    }

    /// The integer that this value holds.
    pub closed spec fn view(self) -> u32 {
        self.value
    }

    /// Returns the non-zero value `n`, or `None` where `n` is zero.
    pub fn new(n: u32) -> (r: Option<NonZeroU32>)
        ensures
            r.is_some() == (n != 0),
            r matches Some(z) ==> z@ == n,
    {
        if n == 0 {
            None
        } else {
            Some(NonZeroU32 { value: n })
        }
    }

    /// Returns the integer that this value holds, which is not zero.
    pub fn get(self) -> (r: u32)
        ensures
            r == self@,
            r != 0,
    {
        proof {
            use_type_invariant(&self);
        }
        self.value
    }
}

impl Niche for NonZeroU32 {
    type Output = u32;

    open spec fn niche() -> u32 {
        0
    }

    open spec fn is_niche(value: u32) -> bool {
        value == 0
    }

    open spec fn stored(value: NonZeroU32) -> u32 {
        value@
    }

    closed spec fn recovered(value: u32) -> NonZeroU32 {
        NonZeroU32 { value }
    }

    closed spec fn valid(value: NonZeroU32) -> bool {
        value.value != 0
    }

    proof fn lemma_niche_is_none() {
    }

    proof fn lemma_round_trip(value: NonZeroU32) {
    }

    fn none() -> (r: u32) {
        0
    }

    fn is_none(value: &u32) -> (r: bool) {
        *value == 0
    }

    fn into_some(value: NonZeroU32) -> (r: u32) {
        proof {
            use_type_invariant(&value);
        }
        value.get()
    }

    fn from_some(value: u32) -> (r: NonZeroU32)
        ensures
            r@ == value,
    {
        NonZeroU32 { value }
    }
}

/// A `u64` that is never zero. Zero is its niche.
#[derive(Clone, Copy, Debug, PartialEq, Eq)]
pub struct NonZeroU64 {
    value: u64,
}

impl NonZeroU64 {
    #[verifier::type_invariant]
    spec fn inv(self) -> bool {
        self.value != 0
    }

    /// The integer that this value holds.
    pub closed spec fn view(self) -> u64 {
        self.value
    }

    /// Returns the non-zero value `n`, or `None` where `n` is zero.
    pub fn new(n: u64) -> (r: Option<NonZeroU64>)
        ensures
            r.is_some() == (n != 0),
            r matches Some(z) ==> z@ == n,
    {
        if n == 0 {
            None
        } else {
            Some(NonZeroU64 { value: n })
        }
    }

    /// Returns the integer that this value holds, which is not zero.
    pub fn get(self) -> (r: u64)
        ensures
            r == self@,
            r != 0,
    {
        proof {
            use_type_invariant(&self);
        }
        self.value
    }
}

impl Niche for NonZeroU64 {
    type Output = u64;

    open spec fn niche() -> u64 {
        0
    }

    open spec fn is_niche(value: u64) -> bool {
        value == 0
    }

    open spec fn stored(value: NonZeroU64) -> u64 {
        value@
    }

    closed spec fn recovered(value: u64) -> NonZeroU64 {
        NonZeroU64 { value }
    }

    closed spec fn valid(value: NonZeroU64) -> bool {
        value.value != 0
    }

    proof fn lemma_niche_is_none() {
    }

    proof fn lemma_round_trip(value: NonZeroU64) {
    }

    fn none() -> (r: u64) {
        0
    }

    fn is_none(value: &u64) -> (r: bool) {
        *value == 0
    }

    fn into_some(value: NonZeroU64) -> (r: u64) {
        proof {
            use_type_invariant(&value);
        }
        value.get()
    }

    fn from_some(value: u64) -> (r: NonZeroU64)
        ensures
            r@ == value,
    {
        NonZeroU64 { value }
    }
}

/// A `usize` that is never zero. Zero is its niche.
#[derive(Clone, Copy, Debug, PartialEq, Eq)]
pub struct NonZeroUsize {
    value: usize,
}

impl NonZeroUsize {
    #[verifier::type_invariant]
    spec fn inv(self) -> bool {
        self.value != 0
    }

    /// The integer that this value holds.
    pub closed spec fn view(self) -> usize {
        self.value
    }

    /// Returns the non-zero value `n`, or `None` where `n` is zero.
    pub fn new(n: usize) -> (r: Option<NonZeroUsize>)
        ensures
            r.is_some() == (n != 0),
            r matches Some(z) ==> z@ == n,
    {
        if n == 0 {
            None
        } else {
            Some(NonZeroUsize { value: n })
        }
    }

    /// Returns the integer that this value holds, which is not zero.
    pub fn get(self) -> (r: usize)
        ensures
            r == self@,
            r != 0,
    {
        proof {
            use_type_invariant(&self);
        }
        self.value
    }
}

impl Niche for NonZeroUsize {
    type Output = usize;

    open spec fn niche() -> usize {
        0
    }

    open spec fn is_niche(value: usize) -> bool {
        value == 0
    }

    open spec fn stored(value: NonZeroUsize) -> usize {
        value@
    }

    closed spec fn recovered(value: usize) -> NonZeroUsize {
        NonZeroUsize { value }
    }

    closed spec fn valid(value: NonZeroUsize) -> bool {
        value.value != 0
    }

    proof fn lemma_niche_is_none() {
    }

    proof fn lemma_round_trip(value: NonZeroUsize) {
    }

    fn none() -> (r: usize) {
        0
    }

    fn is_none(value: &usize) -> (r: bool) {
        *value == 0
    }

    fn into_some(value: NonZeroUsize) -> (r: usize) {
        proof {
            use_type_invariant(&value);
        }
        value.get()
    }

    fn from_some(value: usize) -> (r: NonZeroUsize)
        ensures
            r@ == value,
    {
        NonZeroUsize { value }
    }
}

} // verus!
