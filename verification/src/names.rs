//! Move-only ownership guards around [`Name`], one nominal type per kind of
//! object, so a texture name cannot be passed where a buffer name is
//! expected.
//!
//! Each guard exclusively owns one name. Ownership transfers on move and a
//! guard is consumed exactly once, by `into_raw`, which hands the raw value
//! back for the matching external destroy call. This crate chooses the
//! explicit-consume discipline over a destructor: every release is visible
//! at its call site, and the type system rules out a second one.

use vstd::prelude::*;
use crate::name::Name;

verus! {

/// Names a buffer object owned by the external context.
pub struct BufferName(Name);

impl View for BufferName {
    type V = u32;

    closed spec fn view(&self) -> u32 {
        self.0@
    }
}

impl BufferName {
    /// Wraps a raw buffer name reported by the external context; zero
    /// encodes allocation failure and yields `None`.
    pub fn new(name: u32) -> (r: Option<Self>)
        ensures
            r is Some <==> name != 0,
            r matches Some(b) ==> b@ == name,
    {
        match Name::new(name) {
            Some(n) => Some(BufferName(n)),
            None => None,
        }
    }

    /// The raw value, for binding calls.
    pub fn as_u32(&self) -> (r: u32)
        ensures
            r == self@,
            r != 0,
    {
        self.0.get()
    }

    /// Consumes the guard and releases the raw name for the matching
    /// external destroy call. The only way out of ownership.
    pub fn into_raw(self) -> (r: u32)
        ensures
            r == self@,
            r != 0,
    {
        self.0.get()
    }
}

/// Names a framebuffer object owned by the external context.
pub struct FramebufferName(Name);

impl View for FramebufferName {
    type V = u32;

    closed spec fn view(&self) -> u32 {
        self.0@
    }
}

impl FramebufferName {
    /// Wraps a raw framebuffer name reported by the external context.
    pub fn new(name: u32) -> (r: Option<Self>)
        ensures
            r is Some <==> name != 0,
            r matches Some(f) ==> f@ == name,
    {
        match Name::new(name) {
            Some(n) => Some(FramebufferName(n)),
            None => None,
        }
    }

    /// The raw value, for binding calls.
    pub fn as_u32(&self) -> (r: u32)
        ensures
            r == self@,
            r != 0,
    {
        self.0.get()
    }

    /// Consumes the guard and releases the raw name.
    pub fn into_raw(self) -> (r: u32)
        ensures
            r == self@,
            r != 0,
    {
        self.0.get()
    }
}

/// Names a texture object owned by the external context.
pub struct TextureName(Name);

impl View for TextureName {
    type V = u32;

    closed spec fn view(&self) -> u32 {
        self.0@
    }
}

impl TextureName {
    /// Wraps a raw texture name reported by the external context.
    pub fn new(name: u32) -> (r: Option<Self>)
        ensures
            r is Some <==> name != 0,
            r matches Some(t) ==> t@ == name,
    {
        match Name::new(name) {
            Some(n) => Some(TextureName(n)),
            None => None,
        }
    }

    /// The raw value, for binding calls.
    pub fn as_u32(&self) -> (r: u32)
        ensures
            r == self@,
            r != 0,
    {
        self.0.get()
    }

    /// Consumes the guard and releases the raw name.
    pub fn into_raw(self) -> (r: u32)
        ensures
            r == self@,
            r != 0,
    {
        self.0.get()
    }
}

/// Names a vertex array object owned by the external context.
pub struct VertexArrayName(Name);

impl View for VertexArrayName {
    type V = u32;

    closed spec fn view(&self) -> u32 {
        self.0@
    }
}

impl VertexArrayName {
    /// Wraps a raw vertex array name reported by the external context.
    pub fn new(name: u32) -> (r: Option<Self>)
        ensures
            r is Some <==> name != 0,
            r matches Some(v) ==> v@ == name,
    {
        match Name::new(name) {
            Some(n) => Some(VertexArrayName(n)),
            None => None,
        }
    }

    /// The raw value, for binding calls.
    pub fn as_u32(&self) -> (r: u32)
        ensures
            r == self@,
            r != 0,
    {
        self.0.get()
    }

    /// Consumes the guard and releases the raw name.
    pub fn into_raw(self) -> (r: u32)
        ensures
            r == self@,
            r != 0,
    {
        self.0.get()
    }
}

/// The default framebuffer, which the external context always names zero.
pub struct DefaultFramebufferName();

impl DefaultFramebufferName {
    /// The raw value of the default framebuffer.
    pub fn as_u32(&self) -> (r: u32)
        ensures
            r == 0,
    {
        0
    }
}

/// Either the default framebuffer or an allocated one; binding calls accept
/// both.
pub trait MaybeDefaultFramebufferName {
    /// The raw value this name stands for.
    spec fn spec_u32(&self) -> u32;

    /// The raw value, for binding calls.
    fn as_u32(&self) -> (r: u32)
        ensures
            r == self.spec_u32(),
    ;
}

impl MaybeDefaultFramebufferName for DefaultFramebufferName {
    closed spec fn spec_u32(&self) -> u32 {
        0
    }

    fn as_u32(&self) -> (r: u32)
        ensures
            r == self.spec_u32(),
    {
        0
    }
}

impl MaybeDefaultFramebufferName for FramebufferName {
    closed spec fn spec_u32(&self) -> u32 {
        self@
    }

    fn as_u32(&self) -> (r: u32)
        ensures
            r == self.spec_u32(),
    {
        self.0.get()
    }
}

} // verus!
