//! Uniform locations: values the external API reports as a non-negative
//! `i32`, with `-1` reserved for "symbol not found". The location is stored
//! shifted up by one inside a [`Name`], so `Option<UniformLocation<T>>`
//! stays the size of a `u32` and absence costs no tag bits.
//!
//! The phantom parameter records the uniform's value type, so a location
//! resolved for one type cannot be fed a value of another.

use core::marker::PhantomData;
use vstd::prelude::*;
use crate::name::Name;

verus! {

/// The location of a uniform variable of type `T` inside a linked program.
pub struct UniformLocation<T>(Name, PhantomData<T>);

impl<T> View for UniformLocation<T> {
    type V = i32;

    closed spec fn view(&self) -> i32 {
        (self.0@ - 1) as i32
    }
}

impl<T> UniformLocation<T> {
    #[verifier::type_invariant]
    closed spec fn wf(&self) -> bool {
        1 <= self.0@ <= 0x8000_0000u32
    }

    /// Wraps a raw location the external API reported for a symbol lookup.
    /// `None` exactly for a lookup miss: per-symbol misses are non-fatal,
    /// and a consumer must check for absence before use.
    pub fn from_raw(loc: i32) -> (r: Option<Self>)
        ensures
            r is Some <==> loc >= 0,
            r matches Some(u) ==> u@ == loc,
    {
        if loc >= 0 {
            let shifted: u32 = loc as u32 + 1;
            match Name::new(shifted) {
                Some(n) => Some(UniformLocation(n, PhantomData)),
                None => None,
            }
        } else {
            None
        }
    }

    /// The raw location, for value-upload calls into the external API.
    pub fn as_i32(&self) -> (r: i32)
        ensures
            r == self@,
            r >= 0,
    {
        proof {
            use_type_invariant(self);
        }
        let v: u32 = self.0.get();
        (v - 1) as i32
    }
}

/// How a caller hands a matrix to a value-upload call: either row-major or
/// column-major storage, which decides whether the external API must
/// transpose.
pub enum MajorAxis {
    Row,
    Column,
}

impl MajorAxis {
    /// The transpose flag the external API expects alongside a matrix of
    /// this storage order: its true tag for row-major data, its false tag
    /// for column-major data.
    pub open spec fn spec_should_transpose(&self) -> u8 {
        match *self {
            MajorAxis::Row => 1,
            MajorAxis::Column => 0,
        }
    }

    /// The transpose flag, for matrix-upload calls.
    pub fn should_transpose(&self) -> (r: u8)
        ensures
            r == self.spec_should_transpose(),
    {
        match *self {
            MajorAxis::Row => 1,
            MajorAxis::Column => 0,
        }
    }
}

/// A matrix reference that knows its storage order.
pub trait MatrixRef<T>: Sized {
    /// The storage order of this reference.
    spec fn spec_major_axis() -> MajorAxis;

    /// The wrapped matrix.
    spec fn spec_inner(self) -> T;

    /// The storage order of this reference.
    fn major_axis() -> (r: MajorAxis)
        ensures
            r == Self::spec_major_axis(),
    ;

    /// Unwraps the matrix for the upload call.
    fn into_inner(self) -> (r: T)
        ensures
            r == self.spec_inner(),
    ;
}

/// A matrix stored row-major.
pub struct RowMatrixRef<T>(pub T);

impl<T> MatrixRef<T> for RowMatrixRef<T> {
    closed spec fn spec_major_axis() -> MajorAxis {
        MajorAxis::Row
    }

    closed spec fn spec_inner(self) -> T {
        self.0
    }

    fn major_axis() -> (r: MajorAxis)
        ensures
            r == Self::spec_major_axis(),
    {
        MajorAxis::Row
    }

    fn into_inner(self) -> (r: T)
        ensures
            r == self.spec_inner(),
    {
        self.0
    }
}

/// A matrix stored column-major.
pub struct ColMatrixRef<T>(pub T);

impl<T> MatrixRef<T> for ColMatrixRef<T> {
    closed spec fn spec_major_axis() -> MajorAxis {
        MajorAxis::Column
    }

    closed spec fn spec_inner(self) -> T {
        self.0
    }

    fn major_axis() -> (r: MajorAxis)
        ensures
            r == Self::spec_major_axis(),
    {
        MajorAxis::Column
    }

    fn into_inner(self) -> (r: T)
        ensures
            r == self.spec_inner(),
    {
        self.0
    }
}

} // verus!
