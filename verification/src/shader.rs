//! Type-state shader objects. A shader is always in exactly one of two
//! states, `Uncompiled` or `Compiled`; a compile attempt consumes the value
//! and returns a new one whose tag records the outcome, while the
//! underlying name is preserved, so nothing external ever observes a
//! half-transitioned shader or a replaced handle.
//!
//! The external API performs the actual compilation; what it reported —
//! success, or failure with a diagnostic log — arrives here as a
//! [`CompileOutcome`], and every state change is a pure function of the
//! previous state and that outcome.

use vstd::prelude::*;
use crate::name::Name;

verus! {

/// What the external API reported for one compile attempt: success, or
/// failure together with the diagnostic log it handed back (which may be
/// empty; the transition below substitutes a stand-in message so a failure
/// is never silent).
pub enum CompileOutcome {
    Success,
    Failure(String),
}

/// Names a shader object owned by the external context.
pub struct ShaderName(Name);

impl View for ShaderName {
    type V = u32;

    closed spec fn view(&self) -> u32 {
        self.0@
    }
}

impl ShaderName {
    /// Wraps a raw shader name reported by the external context; zero
    /// encodes creation failure and yields `None`.
    pub fn new(name: u32) -> (r: Option<Self>)
        ensures
            r is Some <==> name != 0,
            r matches Some(s) ==> s@ == name,
    {
        match Name::new(name) {
            Some(n) => Some(ShaderName(n)),
            None => None,
        }
    }

    /// The raw value, for calls into the external API.
    pub fn as_u32(&self) -> (r: u32)
        ensures
            r == self@,
            r != 0,
    {
        self.0.get()
    }

    /// Consumes the guard and releases the raw name for the matching
    /// external destroy call.
    pub fn into_raw(self) -> (r: u32)
        ensures
            r == self@,
            r != 0,
    {
        self.0.get()
    }

    /// Applies the outcome of a compile attempt on this shader. On success
    /// the same name moves into the compiled state; on failure it is handed
    /// back unchanged together with a non-empty log.
    pub fn compile(self, outcome: CompileOutcome) -> (r: Result<
        CompiledShaderName,
        (ShaderName, String),
    >)
        ensures
            r is Ok <==> outcome is Success,
            r matches Ok(c) ==> c@ == self@ && c.spec_inner() == self,
            r matches Err((s, log)) ==> s == self && log@ == padded_log(
                outcome->Failure_0@,
            ) && log@.len() > 0,
    {
        match outcome {
            CompileOutcome::Success => Ok(CompiledShaderName(self)),
            CompileOutcome::Failure(log) => Err((self, pad_log(log))),
        }
    }
}

/// A shader name whose last compile attempt succeeded.
pub struct CompiledShaderName(ShaderName);

impl View for CompiledShaderName {
    type V = u32;

    closed spec fn view(&self) -> u32 {
        self.0@
    }
}

impl CompiledShaderName {
    /// The shader name this compiled name wraps.
    pub closed spec fn spec_inner(&self) -> ShaderName {
        self.0
    }

    /// The raw value, for attach calls into the external API.
    pub fn as_u32(&self) -> (r: u32)
        ensures
            r == self@,
            r != 0,
    {
        self.0.as_u32()
    }

    /// Temporarily discards the compiled state.
    pub fn as_shader_name(&self) -> (r: &ShaderName)
        ensures
            r@ == self@,
    {
        &self.0
    }

    /// Permanently discards the compiled state, for re-use of the name.
    pub fn into_shader_name(self) -> (r: ShaderName)
        ensures
            r == self.spec_inner(),
            r@ == self@,
    {
        self.0
    }
}

/// The message that stands in for a failure log the external API left
/// empty, so that a recorded failure always carries a diagnostic.
pub open spec fn spec_empty_log_message() -> Seq<char> {
    "the external API reported failure with an empty log"@
}

/// The diagnostic recorded for a failed attempt whose reported log was
/// `log`: the log itself when it says anything, else the stand-in message.
pub open spec fn padded_log(log: Seq<char>) -> Seq<char> {
    if log.len() == 0 {
        spec_empty_log_message()
    } else {
        log
    }
}

/// Replaces an empty failure log by the stand-in message.
fn pad_log(log: String) -> (r: String)
    ensures
        r@ == padded_log(log@),
        r@.len() > 0,
{
    if log.as_str().is_empty() {
        let msg = "the external API reported failure with an empty log".to_owned();
        proof {
            reveal_strlit("the external API reported failure with an empty log");
        }
        msg
    } else {
        proof {
            reveal_strlit("the external API reported failure with an empty log");
        }
        log
    }
}

/// A shader object in one of its two observable states. The tag always
/// matches the outcome of the last compile attempt; the name inside never
/// changes.
pub enum ShaderObject {
    Uncompiled(ShaderName),
    Compiled(ShaderName),
}

impl ShaderObject {
    /// The name this object wraps, whatever its state.
    pub open spec fn spec_name(&self) -> ShaderName {
        match *self {
            ShaderObject::Uncompiled(n) => n,
            ShaderObject::Compiled(n) => n,
        }
    }

    /// The raw handle this object wraps, whatever its state.
    pub open spec fn spec_handle(&self) -> u32 {
        self.spec_name()@
    }

    /// Whether the last compile attempt succeeded.
    pub open spec fn is_compiled(&self) -> bool {
        self matches ShaderObject::Compiled(_)
    }

    /// The retrievable handle: stable across every transition.
    pub fn handle(&self) -> (r: u32)
        ensures
            r == self.spec_handle(),
    {
        match self {
            ShaderObject::Uncompiled(n) => n.as_u32(),
            ShaderObject::Compiled(n) => n.as_u32(),
        }
    }

    /// Whether this object is in the compiled state.
    pub fn compiled(&self) -> (r: bool)
        ensures
            r == self.is_compiled(),
    {
        match self {
            ShaderObject::Uncompiled(_) => false,
            ShaderObject::Compiled(_) => true,
        }
    }

    /// The state after applying one compile attempt with the given
    /// success: the same name, tagged by the outcome.
    pub open spec fn spec_apply_compile(self, success: bool) -> ShaderObject {
        if success {
            ShaderObject::Compiled(self.spec_name())
        } else {
            ShaderObject::Uncompiled(self.spec_name())
        }
    }

    /// Applies the outcome of a compile attempt. The object is consumed
    /// and replaced — never observably in between — the handle is kept,
    /// the new tag records the outcome, and a failure always surfaces a
    /// non-empty log.
    pub fn apply_compile(self, outcome: CompileOutcome) -> (r: (ShaderObject, Option<String>))
        ensures
            r.0 == self.spec_apply_compile(outcome is Success),
            r.0.spec_handle() == self.spec_handle(),
            r.0.is_compiled() <==> outcome is Success,
            outcome is Success ==> r.1 is None,
            outcome matches CompileOutcome::Failure(log) ==> r.1 matches Some(l) && l@
                == padded_log(log@) && l@.len() > 0,
    {
        let name = match self {
            ShaderObject::Uncompiled(n) => n,
            ShaderObject::Compiled(n) => n,
        };
        match name.compile(outcome) {
            Ok(compiled) => (ShaderObject::Compiled(compiled.into_shader_name()), None),
            Err((name, log)) => (ShaderObject::Uncompiled(name), Some(log)),
        }
    }
}

/// The state after a whole sequence of compile attempts, applied in order.
pub open spec fn spec_apply_compiles(s: ShaderObject, outcomes: Seq<bool>) -> ShaderObject
    decreases outcomes.len(),
{
    if outcomes.len() == 0 {
        s
    } else {
        spec_apply_compiles(s.spec_apply_compile(outcomes[0]), outcomes.skip(1))
    }
}

/// For every sequence of compile attempts on a shader, the object remains
/// exactly one of its two states, its retrievable handle never changes,
/// and after at least one attempt the tag matches the last outcome.
pub proof fn lemma_compile_sequence(s: ShaderObject, outcomes: Seq<bool>)
    ensures
        spec_apply_compiles(s, outcomes).spec_handle() == s.spec_handle(),
        spec_apply_compiles(s, outcomes).spec_name() == s.spec_name(),
        outcomes.len() > 0 ==> (spec_apply_compiles(s, outcomes).is_compiled() <==> outcomes.last()),
    decreases outcomes.len(),
{
    if outcomes.len() > 0 {
        lemma_compile_sequence(s.spec_apply_compile(outcomes[0]), outcomes.skip(1));
        if outcomes.len() == 1 {
            assert(outcomes.skip(1).len() == 0);
        } else {
            assert(outcomes.skip(1).last() == outcomes.last());
        }
    }
}

/// Compiling is idempotent: applying the same outcome to the result of
/// applying it once changes nothing more. In particular a second identical
/// successful compile of an already-compiled shader yields the compiled
/// state with the same handle, with no externally observable change.
pub proof fn lemma_compile_idempotent(s: ShaderObject, success: bool)
    ensures
        s.spec_apply_compile(success).spec_apply_compile(success) == s.spec_apply_compile(success),
{
}

} // verus!
