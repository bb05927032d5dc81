//! Type-state program objects. A program is always in exactly one of two
//! states, `Unlinked` or `Linked`; a link attempt consumes the value and
//! returns a new one whose tag records the outcome, and the underlying
//! name is preserved and re-used across relinks, so externally held
//! references stay stable.
//!
//! The external API performs the actual link; what it reported arrives
//! here as a [`LinkOutcome`]. A program only ever reaches `Linked` when
//! both shader stages handed to the attempt were independently compiled
//! and the external link succeeded.

use vstd::prelude::*;
use crate::name::Name;
use crate::shader::CompiledShaderName;
use crate::shader::ShaderObject;
use crate::shader::padded_log;

verus! {

/// What the external API reported for one link attempt: success, or
/// failure together with the diagnostic log it handed back.
pub enum LinkOutcome {
    Success,
    Failure(String),
}

/// Names a program object owned by the external context.
pub struct ProgramName(Name);

impl View for ProgramName {
    type V = u32;

    closed spec fn view(&self) -> u32 {
        self.0@
    }
}

impl ProgramName {
    /// Wraps a raw program name reported by the external context; zero
    /// encodes creation failure and yields `None`.
    pub fn new(name: u32) -> (r: Option<Self>)
        ensures
            r is Some <==> name != 0,
            r matches Some(p) ==> p@ == name,
    {
        match Name::new(name) {
            Some(n) => Some(ProgramName(n)),
            None => None,
        }
    }

    /// The raw value, for calls into the external API.
    pub fn as_u32(&self) -> (r: u32)
        ensures
            r == self@,
            r != 0,
    {
        self.0.get()
    }

    /// Consumes the guard and releases the raw name for the matching
    /// external destroy call.
    pub fn into_raw(self) -> (r: u32)
        ensures
            r == self@,
            r != 0,
    {
        self.0.get()
    }

    /// Applies the outcome of a link attempt against compiled shaders —
    /// only compiled names can even be handed in. On success the same name
    /// moves into the linked state; on failure it is handed back unchanged
    /// together with a non-empty log.
    #[allow(unused_variables)]
    pub fn link(self, shaders: &[&CompiledShaderName], outcome: LinkOutcome) -> (r: Result<
        LinkedProgramName,
        (ProgramName, String),
    >)
        ensures
            r is Ok <==> outcome is Success,
            r matches Ok(l) ==> l@ == self@ && l.spec_inner() == self,
            r matches Err((p, log)) ==> p == self && log@ == padded_log(outcome->Failure_0@)
                && log@.len() > 0,
    {
        match outcome {
            LinkOutcome::Success => Ok(LinkedProgramName(self)),
            LinkOutcome::Failure(log) => Err((self, pad_link_log(log))),
        }
    }
}

/// A program name whose last link attempt succeeded.
pub struct LinkedProgramName(ProgramName);

impl View for LinkedProgramName {
    type V = u32;

    closed spec fn view(&self) -> u32 {
        self.0@
    }
}

impl LinkedProgramName {
    /// The program name this linked name wraps.
    pub closed spec fn spec_inner(&self) -> ProgramName {
        self.0
    }

    /// The raw value, for use and query calls into the external API.
    pub fn as_u32(&self) -> (r: u32)
        ensures
            r == self@,
            r != 0,
    {
        self.0.as_u32()
    }

    /// Permanently discards the linked state, for re-use of the name.
    pub fn into_program_name(self) -> (r: ProgramName)
        ensures
            r == self.spec_inner(),
            r@ == self@,
    {
        self.0
    }
}

/// Replaces an empty failure log by the stand-in message.
fn pad_link_log(log: String) -> (r: String)
    ensures
        r@ == padded_log(log@),
        r@.len() > 0,
{
    if log.as_str().is_empty() {
        let msg = "the external API reported failure with an empty log".to_owned();
        proof {
            reveal_strlit("the external API reported failure with an empty log");
        }
        msg
    } else {
        proof {
            reveal_strlit("the external API reported failure with an empty log");
        }
        log
    }
}

/// A program object in one of its two observable states. The tag records
/// whether the last link attempt succeeded; the name inside never changes.
pub enum Program {
    Unlinked(ProgramName),
    Linked(ProgramName),
}

impl Program {
    /// The name this object wraps, whatever its state.
    pub open spec fn spec_name(&self) -> ProgramName {
        match *self {
            Program::Unlinked(n) => n,
            Program::Linked(n) => n,
        }
    }

    /// The raw handle this object wraps, whatever its state.
    pub open spec fn spec_handle(&self) -> u32 {
        self.spec_name()@
    }

    /// Whether the last link attempt succeeded.
    pub open spec fn is_linked(&self) -> bool {
        self matches Program::Linked(_)
    }

    /// The retrievable handle: stable across every transition.
    pub fn handle(&self) -> (r: u32)
        ensures
            r == self.spec_handle(),
    {
        match self {
            Program::Unlinked(n) => n.as_u32(),
            Program::Linked(n) => n.as_u32(),
        }
    }

    /// Whether this object is in the linked state.
    pub fn linked(&self) -> (r: bool)
        ensures
            r == self.is_linked(),
    {
        match self {
            Program::Unlinked(_) => false,
            Program::Linked(_) => true,
        }
    }

    /// The state after applying one link attempt: the same name, tagged
    /// `Linked` exactly when both stages were compiled and the external
    /// link succeeded.
    pub open spec fn spec_apply_link(self, vert_ok: bool, frag_ok: bool, success: bool) -> Program {
        if vert_ok && frag_ok && success {
            Program::Linked(self.spec_name())
        } else {
            Program::Unlinked(self.spec_name())
        }
    }

    /// Applies the outcome of a link attempt against the two shader stages
    /// as they stood at call time. The result is `Linked` if and only if
    /// both stages were independently compiled and the external link
    /// succeeded; the handle is kept either way, and a reported failure
    /// always surfaces a non-empty log.
    pub fn link(self, vert: &ShaderObject, frag: &ShaderObject, outcome: LinkOutcome) -> (r: (
        Program,
        Option<String>,
    ))
        ensures
            r.0 == self.spec_apply_link(
                vert.is_compiled(),
                frag.is_compiled(),
                outcome is Success,
            ),
            r.0.spec_handle() == self.spec_handle(),
            r.0.is_linked() <==> vert.is_compiled() && frag.is_compiled() && outcome is Success,
            outcome matches LinkOutcome::Failure(log) ==> r.1 matches Some(l) && l@ == padded_log(
                log@,
            ) && l@.len() > 0,
            outcome is Success ==> r.1 is None,
    {
        let name = match self {
            Program::Unlinked(n) => n,
            Program::Linked(n) => n,
        };
        match outcome {
            LinkOutcome::Success => {
                if vert.compiled() && frag.compiled() {
                    (Program::Linked(name), None)
                } else {
                    (Program::Unlinked(name), None)
                }
            },
            LinkOutcome::Failure(log) => (Program::Unlinked(name), Some(pad_link_log(log))),
        }
    }

    /// Consumes the object and releases the raw name for the matching
    /// external destroy call.
    pub fn into_raw(self) -> (r: u32)
        ensures
            r == self.spec_handle(),
            r != 0,
    {
        match self {
            Program::Unlinked(n) => n.into_raw(),
            Program::Linked(n) => n.into_raw(),
        }
    }
}

/// The one program binding slot the external context offers; at most one
/// program is in use at a time, and only a linked one can be bound.
pub struct ProgramSlot {
    bound: Option<u32>,
}

impl ProgramSlot {
    /// The handle of the program currently recorded as bound.
    pub closed spec fn spec_bound(&self) -> Option<u32> {
        self.bound
    }

    /// A slot with nothing bound.
    pub fn new() -> (r: ProgramSlot)
        ensures
            r.spec_bound() is None,
    {
        ProgramSlot { bound: None }
    }

    /// Records a linked program as bound, pairing the external use call,
    /// and hands back a token naming what is now bound.
    pub fn bind(&mut self, program: &LinkedProgramName) -> (r: BoundProgramName)
        ensures
            final(self).spec_bound() == Some(program@),
            r@ == program@,
    {
        let handle = program.as_u32();
        self.bound = Some(handle);
        BoundProgramName { handle }
    }
}

/// Evidence of which program a [`ProgramSlot`] bound.
#[must_use]
pub struct BoundProgramName {
    handle: u32,
}

impl View for BoundProgramName {
    type V = u32;

    closed spec fn view(&self) -> u32 {
        self.handle
    }
}

impl BoundProgramName {
    /// The raw value of the program this token names.
    pub fn as_u32(&self) -> (r: u32)
        ensures
            r == self@,
    {
        self.handle
    }
}

} // verus!
