//! The hot-reload controller driven by a stand-in compiler front end, the
//! way an embedder drives it from real external-API calls. The stand-in
//! accepts a source exactly when it declares a main entry point, the
//! shape every real driver accepts for these sources.

use glw::program::LinkOutcome;
use glw::program::ProgramName;
use glw::reload::ChunkRendererChanges;
use glw::reload::ReloadController;
use glw::reload::ShaderStage;
use glw::reload::WatchRegistry;
use glw::shader::CompileOutcome;
use glw::shader::ShaderName;

fn stand_in_compile(source: &str) -> CompileOutcome {
    if source.contains("void main") {
        CompileOutcome::Success
    } else {
        CompileOutcome::Failure(format!("0:1: error: no entry point in {:?}", source))
    }
}

fn controller() -> ReloadController {
    ReloadController::new(
        ShaderName::new(1).unwrap(),
        ShaderName::new(2).unwrap(),
        ProgramName::new(3).unwrap(),
    )
}

const VERT: &str = "#version 400\nvoid main(){}";
const FRAG: &str = "#version 400\nout vec4 c; void main(){c=vec4(1);}";

#[test]
fn valid_pair_compiles_and_links() {
    let mut r = controller();
    assert_eq!(r.live_program(), None);

    let log = r.apply_compile(ShaderStage::Vertex, stand_in_compile(VERT));
    assert!(log.is_none());
    let log = r.apply_compile(ShaderStage::Fragment, stand_in_compile(FRAG));
    assert!(log.is_none());

    assert!(r.should_link(true));
    assert!(!r.should_link(false));

    let log = r.apply_link(LinkOutcome::Success);
    assert!(log.is_none());
    assert_eq!(r.live_program(), Some(3));
}

#[test]
fn typo_degrades_the_stage_and_reports_an_error() {
    let mut r = controller();
    r.apply_compile(ShaderStage::Vertex, stand_in_compile(VERT));
    r.apply_compile(ShaderStage::Fragment, stand_in_compile(FRAG));
    r.apply_link(LinkOutcome::Success);

    let typo = "#version 400\nviod main(){}";
    let log = r.apply_compile(ShaderStage::Vertex, stand_in_compile(typo));
    let log = log.unwrap();
    assert!(!log.is_empty());
    assert!(log.contains("error"));
    assert!(!r.should_link(true));
}

#[test]
fn failed_reload_keeps_the_live_program() {
    let mut r = controller();
    r.apply_compile(ShaderStage::Vertex, stand_in_compile(VERT));
    r.apply_compile(ShaderStage::Fragment, stand_in_compile(FRAG));
    r.apply_link(LinkOutcome::Success);
    let live_before = r.live_program();

    // The reloaded file is invalid: the stage degrades, no link is
    // attempted, and the live handle is exactly what it was.
    let log = r.apply_compile(ShaderStage::Vertex, stand_in_compile("viod main(){}"));
    assert!(log.is_some());
    assert_eq!(r.live_program(), live_before);

    // Fixing the source swaps seamlessly, onto the same handle.
    let log = r.apply_compile(ShaderStage::Vertex, stand_in_compile(VERT));
    assert!(log.is_none());
    assert!(r.should_link(true));
    r.apply_link(LinkOutcome::Success);
    assert_eq!(r.live_program(), live_before);
}

#[test]
fn failed_link_keeps_the_live_program() {
    let mut r = controller();
    r.apply_compile(ShaderStage::Vertex, stand_in_compile(VERT));
    r.apply_compile(ShaderStage::Fragment, stand_in_compile(FRAG));
    r.apply_link(LinkOutcome::Success);

    let log = r.apply_link(LinkOutcome::Failure(String::from("error: varying mismatch")));
    assert!(log.unwrap().contains("error"));
    assert_eq!(r.live_program(), Some(3));
    assert_eq!(r.program_handle(), 3);
}

#[test]
fn live_program_stays_none_until_a_link_succeeds() {
    let mut r = controller();
    r.apply_compile(ShaderStage::Vertex, stand_in_compile(VERT));
    assert_eq!(r.live_program(), None);
    r.apply_compile(ShaderStage::Fragment, stand_in_compile(FRAG));
    assert_eq!(r.live_program(), None);
    r.apply_link(LinkOutcome::Failure(String::from("error")));
    assert_eq!(r.live_program(), None);
}

#[test]
fn handles_survive_every_transition() {
    let mut r = controller();
    assert_eq!((r.vertex_handle(), r.fragment_handle(), r.program_handle()), (1, 2, 3));
    r.apply_compile(ShaderStage::Vertex, stand_in_compile("nope"));
    r.apply_compile(ShaderStage::Fragment, stand_in_compile(FRAG));
    r.apply_link(LinkOutcome::Failure(String::new()));
    assert_eq!((r.vertex_handle(), r.fragment_handle(), r.program_handle()), (1, 2, 3));
}

#[test]
fn dirty_flag_is_consumed_exactly_once_per_write() {
    let mut reg = WatchRegistry::new();
    let i = reg.watch(String::from("assets/chunk_renderer.vert"));
    assert_eq!(reg.len(), 1);

    // Registered clean: nothing to consume yet.
    assert!(!reg.take_dirty(i));

    // One write burst: the flag reads true exactly once.
    assert!(reg.mark_dirty(&String::from("assets/chunk_renderer.vert")));
    assert!(reg.take_dirty(i));
    assert!(!reg.take_dirty(i));
}

#[test]
fn watcher_writes_to_unknown_paths_are_reported() {
    let mut reg = WatchRegistry::new();
    reg.watch(String::from("assets/a.vert"));
    assert!(!reg.mark_dirty(&String::from("assets/b.frag")));
}

#[test]
fn watching_a_path_twice_reuses_the_entry() {
    let mut reg = WatchRegistry::new();
    let i = reg.watch(String::from("assets/a.vert"));
    let j = reg.watch(String::from("assets/a.vert"));
    assert_eq!(i, j);
    assert_eq!(reg.len(), 1);
}

#[test]
fn both_stages_dirty_in_one_tick_still_link_once() {
    let mut reg = WatchRegistry::new();
    let vi = reg.watch(String::from("assets/chunk_renderer.vert"));
    let fi = reg.watch(String::from("assets/chunk_renderer.frag"));
    reg.mark_dirty(&String::from("assets/chunk_renderer.vert"));
    reg.mark_dirty(&String::from("assets/chunk_renderer.frag"));

    let mut r = controller();
    let mut changes = ChunkRendererChanges::new();
    changes.vert = reg.take_dirty(vi);
    changes.frag = reg.take_dirty(fi);
    assert!(changes.vert && changes.frag);

    // Both stages recompile before the single link attempt.
    if changes.vert {
        r.apply_compile(ShaderStage::Vertex, stand_in_compile(VERT));
    }
    if changes.frag {
        r.apply_compile(ShaderStage::Fragment, stand_in_compile(FRAG));
    }
    let mut links = 0;
    if r.should_link(changes.vert || changes.frag) {
        r.apply_link(LinkOutcome::Success);
        links += 1;
    }
    assert_eq!(links, 1);
    assert_eq!(r.live_program(), Some(3));
}

#[test]
fn changes_snapshots() {
    let none = ChunkRendererChanges::new();
    assert!(!none.vert && !none.frag && !none.dirt && !none.stone);
    let all = ChunkRendererChanges::all();
    assert!(all.vert && all.frag && all.dirt && all.stone);
}
