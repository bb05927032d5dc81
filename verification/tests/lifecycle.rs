//! The handle allocator and the type-state shader and program objects.

use glw::context::Context;
use glw::name::Name;
use glw::names::BufferName;
use glw::names::DefaultFramebufferName;
use glw::names::FramebufferName;
use glw::names::MaybeDefaultFramebufferName;
use glw::program::LinkOutcome;
use glw::program::Program;
use glw::program::ProgramName;
use glw::program::ProgramSlot;
use glw::shader::CompileOutcome;
use glw::shader::ShaderName;
use glw::shader::ShaderObject;

#[test]
fn zero_is_never_a_name() {
    assert!(Name::new(0).is_none());
    assert!(BufferName::new(0).is_none());
    let n = Name::new(7).unwrap();
    assert_eq!(n.get(), 7);
}

#[test]
fn guards_release_what_they_wrap() {
    let b = BufferName::new(9).unwrap();
    assert_eq!(b.as_u32(), 9);
    assert_eq!(b.into_raw(), 9);
}

#[test]
fn fresh_context_allocates_strictly_increasing_nonzero_names() {
    let mut ctx = Context::new();
    let a = ctx.allocate().unwrap().get();
    let b = ctx.allocate().unwrap().get();
    let c = ctx.allocate().unwrap().get();
    assert_eq!((a, b, c), (1, 2, 3));
    assert!(a != 0 && b != 0 && c != 0);
    assert!(a < b && b < c);
}

#[test]
fn released_names_stop_being_live() {
    let mut ctx = Context::new();
    let a = ctx.allocate().unwrap().get();
    let b = ctx.allocate().unwrap().get();
    assert!(ctx.is_live(a) && ctx.is_live(b));
    ctx.release(a);
    assert!(!ctx.is_live(a));
    assert!(ctx.is_live(b));
}

#[test]
fn compile_failure_keeps_the_handle_and_reports_a_log() {
    let shader = ShaderObject::Uncompiled(ShaderName::new(5).unwrap());
    let before = shader.handle();
    let (shader, log) = shader.apply_compile(CompileOutcome::Failure(String::from(
        "error: expected identifier",
    )));
    assert_eq!(shader.handle(), before);
    assert!(!shader.compiled());
    let log = log.unwrap();
    assert!(!log.is_empty());
    assert!(log.contains("error"));
}

#[test]
fn compile_failure_with_an_empty_log_still_reports_one() {
    let shader = ShaderObject::Uncompiled(ShaderName::new(5).unwrap());
    let (_, log) = shader.apply_compile(CompileOutcome::Failure(String::new()));
    assert!(!log.unwrap().is_empty());
}

#[test]
fn recompiling_a_compiled_shader_is_idempotent() {
    let shader = ShaderObject::Uncompiled(ShaderName::new(4).unwrap());
    let (shader, _) = shader.apply_compile(CompileOutcome::Success);
    assert!(shader.compiled());
    let handle = shader.handle();
    let (shader, log) = shader.apply_compile(CompileOutcome::Success);
    assert!(shader.compiled());
    assert_eq!(shader.handle(), handle);
    assert!(log.is_none());
}

#[test]
fn link_needs_both_stages_compiled() {
    let vert = ShaderObject::Uncompiled(ShaderName::new(1).unwrap());
    let (frag, _) = ShaderObject::Uncompiled(ShaderName::new(2).unwrap())
        .apply_compile(CompileOutcome::Success);

    // One stage uncompiled: even a successful link outcome does not reach
    // Linked.
    let program = Program::Unlinked(ProgramName::new(3).unwrap());
    let (program, _) = program.link(&vert, &frag, LinkOutcome::Success);
    assert!(!program.linked());
    assert_eq!(program.handle(), 3);

    // Both compiled and the link succeeded: Linked, same handle.
    let (vert, _) = vert.apply_compile(CompileOutcome::Success);
    let (program, log) = program.link(&vert, &frag, LinkOutcome::Success);
    assert!(program.linked());
    assert_eq!(program.handle(), 3);
    assert!(log.is_none());

    // A failed relink degrades the tag, keeps the handle, and surfaces a
    // non-empty log.
    let (program, log) = program.link(&vert, &frag, LinkOutcome::Failure(String::new()));
    assert!(!program.linked());
    assert_eq!(program.handle(), 3);
    assert!(!log.unwrap().is_empty());
}

#[test]
fn typed_link_hands_the_name_back_on_failure() {
    let vert = ShaderName::new(1).unwrap().compile(CompileOutcome::Success).ok().unwrap();
    let frag = ShaderName::new(2).unwrap().compile(CompileOutcome::Success).ok().unwrap();
    let program = ProgramName::new(3).unwrap();
    let shaders = [&vert, &frag];
    match program.link(&shaders, LinkOutcome::Failure(String::from("error: mismatch"))) {
        Ok(_) => panic!("a failed link must not produce a linked name"),
        Err((program, log)) => {
            assert_eq!(program.as_u32(), 3);
            assert!(log.contains("error"));
            let linked = program.link(&shaders, LinkOutcome::Success).ok().unwrap();
            assert_eq!(linked.as_u32(), 3);
        }
    }
}

#[test]
fn default_framebuffer_is_zero_and_real_ones_are_not() {
    let default = DefaultFramebufferName();
    assert_eq!(MaybeDefaultFramebufferName::as_u32(&default), 0);
    let f = FramebufferName::new(6).unwrap();
    assert_eq!(MaybeDefaultFramebufferName::as_u32(&f), 6);
}

#[test]
fn binding_records_the_linked_program() {
    let linked = ProgramName::new(8).unwrap().link(&[], LinkOutcome::Success).ok().unwrap();
    let mut slot = ProgramSlot::new();
    let bound = slot.bind(&linked);
    assert_eq!(bound.as_u32(), 8);
}
