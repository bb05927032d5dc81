//! The hot-reload controller: watched assets with consumer-cleared dirty
//! flags, and the recompile-relink cycle over the type-state shader and
//! program objects.
//!
//! A background watcher only ever sets a flag; the consumer clears it with
//! one test-and-clear per tick. When a source changed, the stage is
//! recompiled; a link is attempted only once both stages are compiled; and
//! the live program handle — what draw calls use — is replaced only after
//! a link attempt fully succeeds, so a failed reload leaves the previous
//! working program in place. If re-reading a changed file fails, the tick
//! is skipped with the flag already cleared: stale-but-working beats a
//! retry storm, and the next write marks the flag again.

use vstd::prelude::*;
use crate::program::LinkOutcome;
use crate::program::Program;
use crate::program::ProgramName;
use crate::shader::CompileOutcome;
use crate::shader::ShaderName;
use crate::shader::ShaderObject;
use crate::shader::padded_log;

verus! {

/// A filesystem path paired with the dirty flag its watcher sets.
pub struct WatchedAsset {
    /// The watched path.
    pub path: String,
    /// Set by the watcher on a write; cleared only by the consumer.
    pub dirty: bool,
}

/// Whether some entry watches `path`.
pub open spec fn spec_has_path(s: Seq<WatchedAsset>, path: Seq<char>) -> bool {
    exists|j: int| 0 <= j < s.len() && s[j].path@ == path
}

/// The registry after a watcher reported a write to `path`: every entry
/// for that path is marked dirty, everything else is untouched.
pub open spec fn spec_mark_dirty(s: Seq<WatchedAsset>, path: Seq<char>) -> Seq<WatchedAsset> {
    s.map(
        |j: int, a: WatchedAsset|
            (WatchedAsset { path: a.path, dirty: a.dirty || a.path@ == path }),
    )
}

/// The registry after the consumer's test-and-clear on entry `i`, paired
/// with the flag it read.
pub open spec fn spec_take_dirty(s: Seq<WatchedAsset>, i: int) -> (Seq<WatchedAsset>, bool) {
    (s.update(i, (WatchedAsset { path: s[i].path, dirty: false })), s[i].dirty)
}

/// The process-lifetime registry of watched assets. Entries are created on
/// first query for a path and never removed.
pub struct WatchRegistry {
    assets: Vec<WatchedAsset>,
}

impl WatchRegistry {
    /// The registered entries, in registration order.
    pub closed spec fn spec_assets(&self) -> Seq<WatchedAsset> {
        self.assets@
    }

    /// An empty registry.
    pub fn new() -> (r: WatchRegistry)
        ensures
            r.spec_assets() == Seq::<WatchedAsset>::empty(),
    {
        WatchRegistry { assets: Vec::new() }
    }

    /// The number of registered entries.
    pub fn len(&self) -> (r: usize)
        ensures
            r == self.spec_assets().len(),
    {
        self.assets.len()
    }

    /// The index watching `path`, registering it clean on first query.
    pub fn watch(&mut self, path: String) -> (i: usize)
        ensures
            i < final(self).spec_assets().len(),
            final(self).spec_assets()[i as int].path@ == path@,
            spec_has_path(old(self).spec_assets(), path@) ==> *final(self) == *old(self),
            !spec_has_path(old(self).spec_assets(), path@) ==> {
                &&& final(self).spec_assets().len() == old(self).spec_assets().len() + 1
                &&& final(self).spec_assets().last().path@ == path@
                &&& final(self).spec_assets().last().dirty == false
                &&& final(self).spec_assets().drop_last() == old(self).spec_assets()
                &&& i == old(self).spec_assets().len()
            },
    {
        let mut j: usize = 0;
        while j < self.assets.len()
            invariant
                self == old(self),
                j <= self.assets.len(),
                forall|k: int| 0 <= k < j ==> self.spec_assets()[k].path@ != path@,
            decreases self.assets.len() - j,
        {
            if self.assets[j].path == path {
                return j;
            }
            j = j + 1;
        }
        let i = self.assets.len();
        self.assets.push(WatchedAsset { path, dirty: false });
        proof {
            assert(final(self).spec_assets().drop_last() =~= old(self).spec_assets());
        }
        i
    }

    /// Records a watcher-reported write: marks every entry for `path`
    /// dirty and says whether any entry watches it. The watcher never
    /// clears a flag.
    pub fn mark_dirty(&mut self, path: &String) -> (found: bool)
        ensures
            final(self).spec_assets() == spec_mark_dirty(old(self).spec_assets(), path@),
            found == spec_has_path(old(self).spec_assets(), path@),
    {
        let mut found = false;
        let mut j: usize = 0;
        let ghost marked = spec_mark_dirty(old(self).spec_assets(), path@);
        while j < self.assets.len()
            invariant
                self.assets@.len() == old(self).spec_assets().len(),
                marked == spec_mark_dirty(old(self).spec_assets(), path@),
                marked.len() == old(self).spec_assets().len(),
                j <= self.assets.len(),
                forall|k: int| 0 <= k < j ==> self.spec_assets()[k] == marked[k],
                forall|k: int|
                    j <= k < self.assets@.len() ==> self.spec_assets()[k] == old(
                        self,
                    ).spec_assets()[k],
                found == exists|k: int|
                    0 <= k < j && old(self).spec_assets()[k].path@ == path@,
            decreases self.assets.len() - j,
        {
            let ghost a = self.spec_assets()[j as int];
            proof {
                assert(a == old(self).spec_assets()[j as int]);
                assert(marked[j as int] == (WatchedAsset {
                    path: a.path,
                    dirty: a.dirty || a.path@ == path@,
                }));
            }
            if self.assets[j].path == *path {
                let p = self.assets[j].path.clone();
                self.assets.set(j, WatchedAsset { path: p, dirty: true });
                found = true;
                proof {
                    assert(old(self).spec_assets()[j as int].path@ == path@);
                }
            } else {
                proof {
                    assert(old(self).spec_assets()[j as int].path@ != path@);
                }
            }
            j = j + 1;
        }
        proof {
            assert(final(self).spec_assets() =~= marked);
        }
        found
    }

    /// The consumer's atomic test-and-clear for one tick: reads entry
    /// `i`'s flag and resets it, leaving everything else untouched.
    pub fn take_dirty(&mut self, i: usize) -> (was: bool)
        requires
            i < old(self).spec_assets().len(),
        ensures
            final(self).spec_assets() == spec_take_dirty(old(self).spec_assets(), i as int).0,
            was == spec_take_dirty(old(self).spec_assets(), i as int).1,
            final(self).spec_assets()[i as int].dirty == false,
    {
        let was = self.assets[i].dirty;
        let p = self.assets[i].path.clone();
        self.assets.set(i, WatchedAsset { path: p, dirty: false });
        proof {
            assert(final(self).spec_assets() =~= spec_take_dirty(
                old(self).spec_assets(),
                i as int,
            ).0);
        }
        was
    }
}

/// A write burst is consumed exactly once: after the watcher marks a
/// watched path and the consumer test-and-clears its entry, the flag read
/// is true; a second test-and-clear reads false and changes nothing.
pub proof fn lemma_dirty_consumed_once(s: Seq<WatchedAsset>, path: Seq<char>, i: int)
    requires
        0 <= i < s.len(),
        s[i].path@ == path,
    ensures
        ({
            let marked = spec_mark_dirty(s, path);
            let first = spec_take_dirty(marked, i);
            let second = spec_take_dirty(first.0, i);
            first.1 == true && second.1 == false && second.0 == first.0
        }),
{
    let marked = spec_mark_dirty(s, path);
    let first = spec_take_dirty(marked, i);
    let second = spec_take_dirty(first.0, i);
    assert(second.0 =~= first.0);
}

/// The two shader stages a program pairs.
#[derive(Clone, Copy, PartialEq, Eq, Structural)]
pub enum ShaderStage {
    Vertex,
    Fragment,
}

/// The per-tick dirty-flag snapshot the chunk renderer consumes: its two
/// shader sources and its two texture layers.
pub struct ChunkRendererChanges {
    pub vert: bool,
    pub frag: bool,
    pub dirt: bool,
    pub stone: bool,
}

impl ChunkRendererChanges {
    /// Nothing changed.
    pub fn new() -> (r: Self)
        ensures
            !r.vert && !r.frag && !r.dirt && !r.stone,
    {
        ChunkRendererChanges { vert: false, frag: false, dirt: false, stone: false }
    }

    /// Everything changed: the snapshot for the very first tick, which
    /// loads every asset.
    pub fn all() -> (r: Self)
        ensures
            r.vert && r.frag && r.dirt && r.stone,
    {
        ChunkRendererChanges { vert: true, frag: true, dirt: true, stone: true }
    }
}

/// The controller for one program and its two shader stages. It owns the
/// type-state objects and the live program handle, and applies the
/// outcomes the external API reported for each step of a reload tick.
pub struct ReloadController {
    vertex_shader: ShaderObject,
    fragment_shader: ShaderObject,
    program: Program,
    live_program: Option<u32>,
}

impl ReloadController {
    /// The vertex stage as it stands.
    pub closed spec fn spec_vertex(&self) -> ShaderObject {
        self.vertex_shader
    }

    /// The fragment stage as it stands.
    pub closed spec fn spec_fragment(&self) -> ShaderObject {
        self.fragment_shader
    }

    /// The stage selected by `stage`.
    pub open spec fn spec_shader(&self, stage: ShaderStage) -> ShaderObject {
        match stage {
            ShaderStage::Vertex => self.spec_vertex(),
            ShaderStage::Fragment => self.spec_fragment(),
        }
    }

    /// The program object as it stands.
    pub closed spec fn spec_program(&self) -> Program {
        self.program
    }

    /// The handle draw calls use, once a link has fully succeeded.
    pub closed spec fn spec_live(&self) -> Option<u32> {
        self.live_program
    }

    /// The live handle, when set, is the program's handle — which never
    /// changes — so the live handle can never move from one value to
    /// another.
    pub open spec fn wf(&self) -> bool {
        self.spec_live() matches Some(h) ==> h == self.spec_program().spec_handle()
    }

    /// A controller over freshly created objects: nothing compiled,
    /// nothing linked, nothing live.
    pub fn new(vertex: ShaderName, fragment: ShaderName, program: ProgramName) -> (r: Self)
        ensures
            r.wf(),
            r.spec_vertex() == ShaderObject::Uncompiled(vertex),
            r.spec_fragment() == ShaderObject::Uncompiled(fragment),
            r.spec_program() == Program::Unlinked(program),
            r.spec_live() is None,
    {
        ReloadController {
            vertex_shader: ShaderObject::Uncompiled(vertex),
            fragment_shader: ShaderObject::Uncompiled(fragment),
            program: Program::Unlinked(program),
            live_program: None,
        }
    }

    /// The vertex stage's retrievable handle.
    pub fn vertex_handle(&self) -> (r: u32)
        ensures
            r == self.spec_vertex().spec_handle(),
    {
        self.vertex_shader.handle()
    }

    /// The fragment stage's retrievable handle.
    pub fn fragment_handle(&self) -> (r: u32)
        ensures
            r == self.spec_fragment().spec_handle(),
    {
        self.fragment_shader.handle()
    }

    /// The program's retrievable handle.
    pub fn program_handle(&self) -> (r: u32)
        ensures
            r == self.spec_program().spec_handle(),
    {
        self.program.handle()
    }

    /// The handle draw calls use; `None` until the first fully successful
    /// link.
    pub fn live_program(&self) -> (r: Option<u32>)
        ensures
            r == self.spec_live(),
    {
        self.live_program
    }

    /// Applies the outcome the external API reported for recompiling one
    /// stage. Only that stage changes — by the type-state transition — and
    /// the program, the other stage, and above all the live handle stay
    /// untouched; a failure surfaces its non-empty log.
    pub fn apply_compile(&mut self, stage: ShaderStage, outcome: CompileOutcome) -> (log: Option<
        String,
    >)
        ensures
            old(self).wf() ==> final(self).wf(),
            final(self).spec_shader(stage) == old(self).spec_shader(stage).spec_apply_compile(
                outcome is Success,
            ),
            final(self).spec_shader(stage).spec_handle() == old(self).spec_shader(
                stage,
            ).spec_handle(),
            stage is Vertex ==> final(self).spec_fragment() == old(self).spec_fragment(),
            stage is Fragment ==> final(self).spec_vertex() == old(self).spec_vertex(),
            final(self).spec_program() == old(self).spec_program(),
            final(self).spec_live() == old(self).spec_live(),
            outcome is Success ==> log is None,
            outcome matches CompileOutcome::Failure(l) ==> log matches Some(m) && m@ == padded_log(
                l@,
            ) && m@.len() > 0,
    {
        match stage {
            ShaderStage::Vertex => {
                let mut shader = ShaderObject::Uncompiled(placeholder_shader_name());
                core::mem::swap(&mut shader, &mut self.vertex_shader);
                let (shader, log) = shader.apply_compile(outcome);
                self.vertex_shader = shader;
                log
            },
            ShaderStage::Fragment => {
                let mut shader = ShaderObject::Uncompiled(placeholder_shader_name());
                core::mem::swap(&mut shader, &mut self.fragment_shader);
                let (shader, log) = shader.apply_compile(outcome);
                self.fragment_shader = shader;
                log
            },
        }
    }

    /// Whether this tick should attempt a link: some source changed and
    /// both stages are independently compiled, so that a pair of dirty
    /// sources is recompiled before the one link attempt.
    pub fn should_link(&self, source_changed: bool) -> (r: bool)
        ensures
            r == (source_changed && self.spec_vertex().is_compiled()
                && self.spec_fragment().is_compiled()),
    {
        source_changed && self.vertex_shader.compiled() && self.fragment_shader.compiled()
    }

    /// Applies the outcome the external API reported for a link attempt.
    /// The program transitions to `Linked` exactly when both stages stood
    /// compiled and the link succeeded; only then is the live handle
    /// replaced — and since the program's handle never changes, a live
    /// handle never moves: once set it keeps its value forever.
    pub fn apply_link(&mut self, outcome: LinkOutcome) -> (log: Option<String>)
        ensures
            old(self).wf() ==> final(self).wf(),
            final(self).spec_vertex() == old(self).spec_vertex(),
            final(self).spec_fragment() == old(self).spec_fragment(),
            final(self).spec_program() == old(self).spec_program().spec_apply_link(
                old(self).spec_vertex().is_compiled(),
                old(self).spec_fragment().is_compiled(),
                outcome is Success,
            ),
            final(self).spec_program().spec_handle() == old(self).spec_program().spec_handle(),
            final(self).spec_program().is_linked() <==> old(self).spec_vertex().is_compiled()
                && old(self).spec_fragment().is_compiled() && outcome is Success,
            final(self).spec_program().is_linked() ==> final(self).spec_live() == Some(
                old(self).spec_program().spec_handle(),
            ),
            !final(self).spec_program().is_linked() ==> final(self).spec_live() == old(
                self,
            ).spec_live(),
            old(self).wf() && old(self).spec_live() is Some ==> final(self).spec_live() == old(
                self,
            ).spec_live(),
            outcome is Success ==> log is None,
            outcome matches LinkOutcome::Failure(l) ==> log matches Some(m) && m@ == padded_log(l@)
                && m@.len() > 0,
    {
        let mut program = Program::Unlinked(placeholder_program_name());
        core::mem::swap(&mut program, &mut self.program);
        let (program, log) = program.link(&self.vertex_shader, &self.fragment_shader, outcome);
        if program.linked() {
            self.live_program = Some(program.handle());
        }
        self.program = program;
        log
    }
}

/// One whole reload cycle — recompiling both stages with their outcomes,
/// then applying one link outcome against the result — never changes the
/// program's handle, and it ends `Linked` exactly when both recompiles
/// and the link succeeded.
pub proof fn lemma_reload_cycle(
    vert: ShaderObject,
    frag: ShaderObject,
    program: Program,
    vert_ok: bool,
    frag_ok: bool,
    link_ok: bool,
)
    ensures
        ({
            let vert2 = vert.spec_apply_compile(vert_ok);
            let frag2 = frag.spec_apply_compile(frag_ok);
            let program2 = program.spec_apply_link(
                vert2.is_compiled(),
                frag2.is_compiled(),
                link_ok,
            );
            &&& program2.spec_handle() == program.spec_handle()
            &&& vert2.spec_handle() == vert.spec_handle()
            &&& frag2.spec_handle() == frag.spec_handle()
            &&& (program2.is_linked() <==> vert_ok && frag_ok && link_ok)
        }),
{
}

/// A throwaway name that momentarily fills a controller slot while the
/// real object moves through a consuming transition; it never escapes.
fn placeholder_shader_name() -> ShaderName {
    match ShaderName::new(1) {
        Some(n) => n,
        None => vstd::pervasive::unreached(),
    }
}

/// A throwaway name that momentarily fills a controller slot while the
/// real object moves through a consuming transition; it never escapes.
fn placeholder_program_name() -> ProgramName {
    match ProgramName::new(1) {
        Some(n) => n,
        None => vstd::pervasive::unreached(),
    }
}

} // verus!
