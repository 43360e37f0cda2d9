//! The value-conversion contract used at every call across the boundary.

use vstd::prelude::*;

verus! {

/// A type that has a flat representation allowed to cross the boundary.
pub trait RIType {
    /// The flat, copyable representation of `Self` at the boundary.
    type FFIType;
}

/// Something that can be created from a ffi value.
///
/// An implementation may assume that the value it is given was produced by
/// the matching [`IntoFFIValue`] implementation of the same type; it is a pure
/// reconstruction, with no side effects.
pub trait FromFFIValue: Sized + RIType {
    /// The value of `Self` that the ffi value `arg` stands for.
    spec fn from_ffi_spec(arg: Self::FFIType) -> Self;

    /// Create `Self` from the given ffi value.
    fn from_ffi_value(arg: Self::FFIType) -> (r: Self)
        ensures
            r == Self::from_ffi_spec(arg),
    ;
}

/// Something that can be converted into a ffi value.
pub trait IntoFFIValue: RIType {
    /// The owned rust type that is stored with the ffi value in a
    /// [`WrappedFFIValue`]. If no owned value is required, `()` is used.
    type Owned;

    /// The ffi value that stands for `self`.
    spec fn into_ffi_spec(&self) -> Self::FFIType;

    /// Convert `self` into a [`WrappedFFIValue`].
    fn into_ffi_value(&self) -> (r: WrappedFFIValue<Self::FFIType, Self::Owned>)
        ensures
            r.value() == self.into_ffi_spec(),
    ;
}

/// Represents a wrapped ffi value.
///
/// It is either the ffi value itself, or the ffi value plus an owned value
/// whose storage the ffi value may point into. Bundling the two keeps the
/// owned value alive for as long as the ffi value is read.
pub enum WrappedFFIValue<T, O> {
    Wrapped(T),
    WrappedAndOwned(T, O),
}

impl<T, O> WrappedFFIValue<T, O> {
    /// The ffi value held by the carrier, whichever variant it is.
    pub open spec fn value(&self) -> T {
        match self {
            WrappedFFIValue::Wrapped(data) => *data,
            WrappedFFIValue::WrappedAndOwned(data, _) => *data,
        }
    }
}

impl<T: Copy, O> WrappedFFIValue<T, O> {
    /// Returns the wrapped ffi value.
    pub fn get(&self) -> (r: T)
        ensures
            r == self.value(),
    {
        match self {
            WrappedFFIValue::Wrapped(data) => *data,
            WrappedFFIValue::WrappedAndOwned(data, _) => *data,
        }
    }
}

impl<T, O> From<T> for WrappedFFIValue<T, O> {
    fn from(val: T) -> (r: Self)
        ensures
            r == WrappedFFIValue::<T, O>::Wrapped(val),
    {
        WrappedFFIValue::Wrapped(val)
    }
}

impl<T, O> vstd::std_specs::convert::FromSpecImpl<T> for WrappedFFIValue<T, O> {
    open spec fn obeys_from_spec() -> bool {
        true
    }

    open spec fn from_spec(val: T) -> Self {
        WrappedFFIValue::Wrapped(val)
    }
}

impl<T, O> From<(T, O)> for WrappedFFIValue<T, O> {
    fn from(val: (T, O)) -> (r: Self)
        ensures
            r == WrappedFFIValue::WrappedAndOwned(val.0, val.1),
    {
        WrappedFFIValue::WrappedAndOwned(val.0, val.1)
    }
}

impl<T, O> vstd::std_specs::convert::FromSpecImpl<(T, O)> for WrappedFFIValue<T, O> {
    open spec fn obeys_from_spec() -> bool {
        true
    }

    open spec fn from_spec(val: (T, O)) -> Self {
        WrappedFFIValue::WrappedAndOwned(val.0, val.1)
    }
}

/// `WrappedFFIValue::from(v).get() == v` and
/// `WrappedFFIValue::from((v, o)).get() == v`: the carrier hands back the ffi
/// value it was built from, whatever owned value travels with it.
pub proof fn lemma_carrier_identity<T, O>(v: T, o: O)
    ensures
        <WrappedFFIValue<T, O> as vstd::std_specs::convert::FromSpec<T>>::from_spec(v).value()
            == v,
        <WrappedFFIValue<T, O> as vstd::std_specs::convert::FromSpec<(T, O)>>::from_spec(
            (v, o),
        ).value() == v,
{
}

impl RIType for u32 {
    type FFIType = u32;
}

impl FromFFIValue for u32 {
    open spec fn from_ffi_spec(arg: u32) -> u32 {
        arg
    }

    fn from_ffi_value(arg: u32) -> (r: u32) {
        arg
    }
}

impl IntoFFIValue for u32 {
    type Owned = ();

    open spec fn into_ffi_spec(&self) -> u32 {
        *self
    }

    fn into_ffi_value(&self) -> (r: WrappedFFIValue<u32, ()>) {
        WrappedFFIValue::Wrapped(*self)
    }
}

impl RIType for i32 {
    type FFIType = i32;
}

impl FromFFIValue for i32 {
    open spec fn from_ffi_spec(arg: i32) -> i32 {
        arg
    }

    fn from_ffi_value(arg: i32) -> (r: i32) {
        arg
    }
}

impl IntoFFIValue for i32 {
    type Owned = ();

    open spec fn into_ffi_spec(&self) -> i32 {
        *self
    }

    fn into_ffi_value(&self) -> (r: WrappedFFIValue<i32, ()>) {
        WrappedFFIValue::Wrapped(*self)
    }
}

impl RIType for u64 {
    type FFIType = u64;
}

impl FromFFIValue for u64 {
    open spec fn from_ffi_spec(arg: u64) -> u64 {
        arg
    }

    fn from_ffi_value(arg: u64) -> (r: u64) {
        arg
    }
}

impl IntoFFIValue for u64 {
    type Owned = ();

    open spec fn into_ffi_spec(&self) -> u64 {
        *self
    }

    fn into_ffi_value(&self) -> (r: WrappedFFIValue<u64, ()>) {
        WrappedFFIValue::Wrapped(*self)
    }
}

impl RIType for i64 {
    type FFIType = i64;
}

impl FromFFIValue for i64 {
    open spec fn from_ffi_spec(arg: i64) -> i64 {
        arg
    }

    fn from_ffi_value(arg: i64) -> (r: i64) {
        arg
    }
}

impl IntoFFIValue for i64 {
    type Owned = ();

    open spec fn into_ffi_spec(&self) -> i64 {
        *self
    }

    fn into_ffi_value(&self) -> (r: WrappedFFIValue<i64, ()>) {
        WrappedFFIValue::Wrapped(*self)
    }
}

/// A `bool` crosses the boundary as a byte: `1` for `true`, `0` for `false`.
impl RIType for bool {
    type FFIType = u8;
}

impl FromFFIValue for bool {
    open spec fn from_ffi_spec(arg: u8) -> bool {
        arg == 1
    }

    fn from_ffi_value(arg: u8) -> (r: bool) {
        arg == 1
    }
}

impl IntoFFIValue for bool {
    type Owned = ();

    open spec fn into_ffi_spec(&self) -> u8 {
        if *self {
            1
        } else {
            0
        }
    }

    fn into_ffi_value(&self) -> (r: WrappedFFIValue<u8, ()>) {
        let v: u8 = if *self {
            1
        } else {
            0
        };
        WrappedFFIValue::Wrapped(v)
    }
}

/// `x` survives the trip through its ffi value: reconstructing from the value
/// that `into_ffi_value` produced gives `x` back.
pub open spec fn round_trips<V: FromFFIValue + IntoFFIValue>(x: V) -> bool {
    V::from_ffi_spec(x.into_ffi_spec()) == x
}

/// Every value of each type of this crate that converts in both directions
/// comes back unchanged from `from_ffi_value(into_ffi_value(x).get())`.
pub proof fn lemma_round_trip(a: u32, b: i32, c: u64, d: i64, e: bool)
    ensures
        round_trips(a),
        round_trips(b),
        round_trips(c),
        round_trips(d),
        round_trips(e),
{
}

} // verus!
