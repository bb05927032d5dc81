//! Object names: strictly positive 32-bit identifiers for live objects
//! inside an external graphics context. Zero is reserved to encode absence,
//! so `Option<Name>` costs no extra tag bits.

use vstd::prelude::*;

verus! {

/// A non-nullable object name. The wrapped value is never zero.
///
/// The field is a `core::num::NonZeroU32`, which carries the niche that
/// makes `Option<Name>` the size of a `u32`. Verus cannot see inside that
/// std type, so the struct is opaque and its two accessors are trusted.
#[verifier::external_body]
pub struct Name {
    raw: core::num::NonZeroU32,
}

/// The `u32` held by a `Name`, as the two trusted wrappers below describe it.
pub uninterp spec fn name_value(n: Name) -> u32;

impl View for Name {
    type V = u32;

    open spec fn view(&self) -> u32 {
        name_value(*self)
    }
}

impl Name {
    /// Wraps a raw name reported by the external context; zero encodes
    /// allocation failure and yields `None`.
    ///
    /// Relies on `core::num::NonZeroU32::new`: `Some` exactly when the
    /// argument is not zero, holding that argument.
    #[verifier::external_body]
    pub fn new(name: u32) -> (r: Option<Self>)
        ensures
            r is Some <==> name != 0,
            r matches Some(n) ==> name_value(n) == name,
    {
        match core::num::NonZeroU32::new(name) {
            Some(raw) => Some(Name { raw }),
            None => None,
        }
    }

    /// The raw value, for handing back to the external context.
    ///
    /// Relies on `core::num::NonZeroU32::get`: returns the held value,
    /// which the type guarantees is never zero.
    #[verifier::external_body]
    pub fn get(&self) -> (r: u32)
        ensures
            r == name_value(*self),
            r != 0,
    {
        self.raw.get()
    }
}

} // verus!
