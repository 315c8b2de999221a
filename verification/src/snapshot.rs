//! The snapshot writer: the freeze stage as an explicit machine. The
//! embedder reads the bundle text, replays it with a module-loader shim
//! in a fresh snapshotting engine, optionally reloads the compiler
//! payload, runs the designated entry module, and persists the
//! serialized heap at a deterministic path.
//!
//! A missing or unreadable bundle fails the step before any engine
//! action is asked for.
use vstd::prelude::*;

use vstd::string::StringExecFns;
use vstd::utf8::decode_utf8;
use vstd::utf8::valid_utf8;

use crate::config::require_call_source;
use crate::config::snapshot_output_path;
use crate::config::spec_require_call_source;
use crate::config::spec_snapshot_output_path;
use crate::driver::ExecOutcome;
use crate::driver::exec_outcome_view;
use crate::errors::DriverError;
use crate::errors::DriverErrorView;
use crate::errors::opt_error_view;
use crate::state::TSState;
use crate::text::string_from_utf8;

verus! {

/// Where a snapshot session stands.
#[derive(Clone, Copy, Debug, PartialEq, Eq, Structural)]
pub enum SnapshotPhase {
    ReadBundle,
    LoadShim,
    ExecBundle,
    LoadCompiler,
    Require,
    TakeSnapshot,
    Persist,
    Done,
    Failed,
}

/// One action the embedder must perform for the snapshot stage.
pub enum SnapshotAction {
    /// Read the bundle file's raw bytes.
    ReadBundle { path: String },
    /// Evaluate `source` as a top-level program called `name` in the
    /// snapshotting engine.
    Execute { name: String, source: String },
    /// Serialize the engine's heap and hand the bytes over.
    TakeSnapshot,
    /// Write the held image to the output path.
    Persist { path: String },
    /// Nothing is left to do.
    Finish,
}

/// Mathematical image of a [`SnapshotWriter`].
pub struct SnapshotWriterView {
    pub phase: SnapshotPhase,
    pub bundle_path: Seq<char>,
    pub shim_source: Seq<char>,
    pub compiler_source: Option<Seq<char>>,
    pub entry_module: Seq<char>,
    pub output_path: Seq<char>,
    pub bundle_source: Option<Seq<char>>,
    pub image: Option<Seq<u8>>,
}

impl SnapshotWriterView {
    /// Each phase holds what its action needs.
    pub open spec fn wf(self) -> bool {
        &&& ((self.phase is LoadShim || self.phase is ExecBundle) ==> self.bundle_source is Some)
        &&& (self.phase is LoadCompiler ==> self.compiler_source is Some)
        &&& (self.phase is Persist ==> self.image is Some)
    }

    /// This view, failed.
    pub open spec fn failed(self) -> SnapshotWriterView {
        SnapshotWriterView { phase: SnapshotPhase::Failed, ..self }
    }
}

/// The resource name a script failure in the given phase is reported
/// under.
pub open spec fn spec_snapshot_resource(v: SnapshotWriterView) -> Seq<char> {
    match v.phase {
        SnapshotPhase::LoadShim => "amd_runtime.js"@,
        SnapshotPhase::ExecBundle => v.bundle_path,
        SnapshotPhase::LoadCompiler => "typescript.js"@,
        SnapshotPhase::Require => "anon"@,
        _ => Seq::<char>::empty(),
    }
}

/// The phase after a successfully executed script.
pub open spec fn spec_snapshot_next_phase(v: SnapshotWriterView) -> SnapshotPhase {
    match v.phase {
        SnapshotPhase::LoadShim => SnapshotPhase::ExecBundle,
        SnapshotPhase::ExecBundle => if v.compiler_source is Some {
            SnapshotPhase::LoadCompiler
        } else {
            SnapshotPhase::Require
        },
        SnapshotPhase::LoadCompiler => SnapshotPhase::Require,
        SnapshotPhase::Require => SnapshotPhase::TakeSnapshot,
        _ => v.phase,
    }
}

/// The writer after the bundle bytes arrive (or fail to).
pub open spec fn spec_supply_bundle(v: SnapshotWriterView, bytes: Option<Seq<u8>>) -> SnapshotWriterView {
    match bytes {
        None => v.failed(),
        Some(bs) => if valid_utf8(bs) {
            SnapshotWriterView {
                phase: SnapshotPhase::LoadShim,
                bundle_source: Some(decode_utf8(bs)),
                ..v
            }
        } else {
            v.failed()
        },
    }
}

/// The error reported for the bundle bytes (or their absence).
pub open spec fn spec_supply_bundle_error(v: SnapshotWriterView, bytes: Option<Seq<u8>>) -> Option<
    DriverErrorView,
> {
    match bytes {
        None => Some(DriverErrorView::IoFailure { path: v.bundle_path }),
        Some(bs) => if valid_utf8(bs) {
            None
        } else {
            Some(DriverErrorView::IoFailure { path: v.bundle_path })
        },
    }
}

/// The writer after a script outcome.
pub open spec fn spec_note_exec(v: SnapshotWriterView, om: Option<Seq<char>>) -> SnapshotWriterView {
    match om {
        None => SnapshotWriterView { phase: spec_snapshot_next_phase(v), ..v },
        Some(m) => v.failed(),
    }
}

/// The error reported for a script outcome.
pub open spec fn spec_note_exec_error(v: SnapshotWriterView, om: Option<Seq<char>>) -> Option<
    DriverErrorView,
> {
    match om {
        None => None,
        Some(m) => Some(
            DriverErrorView::ScriptFailure { resource: spec_snapshot_resource(v), message: m },
        ),
    }
}

/// The writer after the serialized heap arrives: the bytes are held in
/// owned storage until they are persisted.
pub open spec fn spec_supply_image(v: SnapshotWriterView, bytes: Seq<u8>) -> SnapshotWriterView {
    SnapshotWriterView { phase: SnapshotPhase::Persist, image: Some(bytes), ..v }
}

/// The writer after the persist outcome.
pub open spec fn spec_note_persist(v: SnapshotWriterView, ok: bool) -> SnapshotWriterView {
    if ok {
        SnapshotWriterView { phase: SnapshotPhase::Done, ..v }
    } else {
        v.failed()
    }
}

/// The error reported for the persist outcome.
pub open spec fn spec_note_persist_error(v: SnapshotWriterView, ok: bool) -> Option<
    DriverErrorView,
> {
    if ok {
        None
    } else {
        Some(DriverErrorView::IoFailure { path: v.output_path })
    }
}

/// Drives one snapshot session.
pub struct SnapshotWriter {
    phase: SnapshotPhase,
    bundle_path: String,
    shim_source: String,
    compiler_source: Option<String>,
    entry_module: String,
    output_path: String,
    bundle_source: Option<String>,
    image: Option<Vec<u8>>,
}

impl View for SnapshotWriter {
    type V = SnapshotWriterView;

    closed spec fn view(&self) -> SnapshotWriterView {
        SnapshotWriterView {
            phase: self.phase,
            bundle_path: self.bundle_path@,
            shim_source: self.shim_source@,
            compiler_source: match self.compiler_source {
                Some(ref s) => Some(s@),
                None => None,
            },
            entry_module: self.entry_module@,
            output_path: self.output_path@,
            bundle_source: match self.bundle_source {
                Some(ref s) => Some(s@),
                None => None,
            },
            image: match self.image {
                Some(ref v) => Some(v@),
                None => None,
            },
        }
    }
}

impl SnapshotWriter {
    /// A fresh snapshot session over the given bundle file and
    /// module-loader shim. A compiler payload, when given, is reloaded
    /// into the frozen environment for self-hosting snapshots. The entry
    /// module is the one whose file the supplied compile state recorded
    /// last; a state that recorded nothing is refused.
    pub fn new(
        bundle_path: String,
        out_dir: &str,
        variable_name: &str,
        shim_source: String,
        compiler_source: Option<String>,
        state: &TSState,
    ) -> (r: Result<SnapshotWriter, DriverError>)
        ensures
            match r {
                Ok(w) => state@.written_files.len() > 0 && w@ == (SnapshotWriterView {
                    phase: SnapshotPhase::ReadBundle,
                    bundle_path: bundle_path@,
                    shim_source: shim_source@,
                    compiler_source: match compiler_source {
                        Some(s) => Some(s@),
                        None => None::<Seq<char>>,
                    },
                    entry_module: state@.written_files.last().module_name,
                    output_path: spec_snapshot_output_path(out_dir@, variable_name@),
                    bundle_source: None::<Seq<char>>,
                    image: None::<Seq<u8>>,
                }) && w@.wf(),
                Err(e) => state@.written_files.len() == 0 && e is NoWrittenFiles,
            },
    {
        let entry_module = match state.entry_module_name() {
            Ok(m) => m,
            Err(e) => {
                return Err(e);
            },
        };
        let output_path = snapshot_output_path(out_dir, variable_name);
        Ok(
            SnapshotWriter {
                phase: SnapshotPhase::ReadBundle,
                bundle_path,
                shim_source,
                compiler_source,
                entry_module,
                output_path,
                bundle_source: None,
                image: None,
            },
        )
    }

    /// The next action the embedder must perform.
    pub fn next_action(&self) -> (a: SnapshotAction)
        requires
            self@.wf(),
        ensures
            self@.phase is ReadBundle ==> (a matches SnapshotAction::ReadBundle { path } && path@
                == self@.bundle_path),
            self@.phase is LoadShim ==> (a matches SnapshotAction::Execute { name, source }
                && name@ == "amd_runtime.js"@ && source@ == self@.shim_source),
            self@.phase is ExecBundle ==> (a matches SnapshotAction::Execute { name, source }
                && name@ == self@.bundle_path && Some(source@) == self@.bundle_source),
            self@.phase is LoadCompiler ==> (a matches SnapshotAction::Execute { name, source }
                && name@ == "typescript.js"@ && Some(source@) == self@.compiler_source),
            self@.phase is Require ==> (a matches SnapshotAction::Execute { name, source } && name@
                == "anon"@ && source@ == spec_require_call_source(self@.entry_module)),
            self@.phase is TakeSnapshot ==> a is TakeSnapshot,
            self@.phase is Persist ==> (a matches SnapshotAction::Persist { path } && path@
                == self@.output_path),
            self@.phase is Done || self@.phase is Failed ==> a is Finish,
    {
        match self.phase {
            SnapshotPhase::ReadBundle => SnapshotAction::ReadBundle {
                path: self.bundle_path.clone(),
            },
            SnapshotPhase::LoadShim => SnapshotAction::Execute {
                name: String::from_str("amd_runtime.js"),
                source: self.shim_source.clone(),
            },
            SnapshotPhase::ExecBundle => SnapshotAction::Execute {
                name: self.bundle_path.clone(),
                source: match &self.bundle_source {
                    Some(s) => s.clone(),
                    None => String::new(),
                },
            },
            SnapshotPhase::LoadCompiler => SnapshotAction::Execute {
                name: String::from_str("typescript.js"),
                source: match &self.compiler_source {
                    Some(s) => s.clone(),
                    None => String::new(),
                },
            },
            SnapshotPhase::Require => SnapshotAction::Execute {
                name: String::from_str("anon"),
                source: require_call_source(self.entry_module.as_str()),
            },
            SnapshotPhase::TakeSnapshot => SnapshotAction::TakeSnapshot,
            SnapshotPhase::Persist => SnapshotAction::Persist { path: self.output_path.clone() },
            SnapshotPhase::Done => SnapshotAction::Finish,
            SnapshotPhase::Failed => SnapshotAction::Finish,
        }
    }

    /// Accepts the bundle file's bytes, or their absence. Absent or
    /// non-UTF-8 bytes fail the step with the offending path, before any
    /// engine action is asked for.
    pub fn supply_bundle(&mut self, bytes: Option<Vec<u8>>) -> (r: Option<DriverError>)
        requires
            old(self)@.phase is ReadBundle,
        ensures
            final(self)@ == spec_supply_bundle(old(self)@, match bytes {
                Some(v) => Some(v@),
                None => None::<Seq<u8>>,
            }),
            opt_error_view(r) == spec_supply_bundle_error(old(self)@, match bytes {
                Some(v) => Some(v@),
                None => None::<Seq<u8>>,
            }),
            final(self)@.wf(),
    {
        match bytes {
            None => {
                self.phase = SnapshotPhase::Failed;
                Some(DriverError::IoFailure { path: self.bundle_path.clone() })
            },
            Some(v) => {
                match string_from_utf8(v) {
                    Some(text) => {
                        self.bundle_source = Some(text);
                        self.phase = SnapshotPhase::LoadShim;
                        None
                    },
                    None => {
                        self.phase = SnapshotPhase::Failed;
                        Some(DriverError::IoFailure { path: self.bundle_path.clone() })
                    },
                }
            },
        }
    }

    /// Records a script outcome. Success advances the stage order; a
    /// script failure ends the session, named after the script that
    /// failed.
    pub fn note_exec(&mut self, outcome: &ExecOutcome) -> (r: Option<DriverError>)
        requires
            old(self)@.wf(),
            old(self)@.phase is LoadShim || old(self)@.phase is ExecBundle || old(
                self,
            )@.phase is LoadCompiler || old(self)@.phase is Require,
        ensures
            final(self)@ == spec_note_exec(old(self)@, exec_outcome_view(outcome)),
            opt_error_view(r) == spec_note_exec_error(old(self)@, exec_outcome_view(outcome)),
            final(self)@.wf(),
    {
        match outcome {
            ExecOutcome::Succeeded => {
                self.phase = match self.phase {
                    SnapshotPhase::LoadShim => SnapshotPhase::ExecBundle,
                    SnapshotPhase::ExecBundle => match &self.compiler_source {
                        Some(_) => SnapshotPhase::LoadCompiler,
                        None => SnapshotPhase::Require,
                    },
                    SnapshotPhase::LoadCompiler => SnapshotPhase::Require,
                    SnapshotPhase::Require => SnapshotPhase::TakeSnapshot,
                    _ => self.phase,
                };
                None
            },
            ExecOutcome::Failed { message } => {
                let resource = match self.phase {
                    SnapshotPhase::LoadShim => String::from_str("amd_runtime.js"),
                    SnapshotPhase::ExecBundle => self.bundle_path.clone(),
                    SnapshotPhase::LoadCompiler => String::from_str("typescript.js"),
                    SnapshotPhase::Require => String::from_str("anon"),
                    _ => String::new(),
                };
                self.phase = SnapshotPhase::Failed;
                Some(DriverError::ScriptFailure { resource, message: message.clone() })
            },
        }
    }

    /// Accepts the serialized heap: the raw bytes are copied into owned
    /// storage here, before any further engine call could invalidate
    /// them.
    pub fn supply_image(&mut self, image: Vec<u8>)
        requires
            old(self)@.phase is TakeSnapshot,
        ensures
            final(self)@ == spec_supply_image(old(self)@, image@),
            final(self)@.wf(),
    {
        self.image = Some(image);
        self.phase = SnapshotPhase::Persist;
    }

    /// Records the persist outcome.
    pub fn note_persist(&mut self, ok: bool) -> (r: Option<DriverError>)
        requires
            old(self)@.phase is Persist,
        ensures
            final(self)@ == spec_note_persist(old(self)@, ok),
            opt_error_view(r) == spec_note_persist_error(old(self)@, ok),
            final(self)@.wf(),
    {
        if ok {
            self.phase = SnapshotPhase::Done;
            None
        } else {
            self.phase = SnapshotPhase::Failed;
            Some(DriverError::IoFailure { path: self.output_path.clone() })
        }
    }

    /// The held image bytes.
    pub fn image_bytes(&self) -> (r: &Vec<u8>)
        requires
            self@.phase is Persist || self@.phase is Done,
            self@.image is Some,
        ensures
            Some(r@) == self@.image,
    {
        match &self.image {
            Some(v) => v,
            None => vstd::pervasive::unreached(),
        }
    }

    /// The path the image is persisted at.
    pub fn output_path(&self) -> (r: &String)
        ensures
            r@ == self@.output_path,
    {
        &self.output_path
    }

    /// Whether the session finished successfully.
    pub fn is_done(&self) -> (r: bool)
        ensures
            r == (self@.phase is Done),
    {
        self.phase == SnapshotPhase::Done
    }

    /// Whether the session failed.
    pub fn is_failed(&self) -> (r: bool)
        ensures
            r == (self@.phase is Failed),
    {
        self.phase == SnapshotPhase::Failed
    }
}

/// One reported event of a snapshot session, as its view.
pub enum SnapshotEventView {
    BundleRead(Option<Seq<u8>>),
    Exec(Option<Seq<char>>),
    ImageTaken(Seq<u8>),
    Persisted(bool),
}

/// The writer after one event.
pub open spec fn spec_snapshot_step(v: SnapshotWriterView, ev: SnapshotEventView) -> SnapshotWriterView {
    match ev {
        SnapshotEventView::BundleRead(ob) => if v.phase is ReadBundle {
            spec_supply_bundle(v, ob)
        } else {
            v
        },
        SnapshotEventView::Exec(om) => if v.phase is LoadShim || v.phase is ExecBundle
            || v.phase is LoadCompiler || v.phase is Require {
            spec_note_exec(v, om)
        } else {
            v
        },
        SnapshotEventView::ImageTaken(bs) => if v.phase is TakeSnapshot {
            spec_supply_image(v, bs)
        } else {
            v
        },
        SnapshotEventView::Persisted(ok) => if v.phase is Persist {
            spec_note_persist(v, ok)
        } else {
            v
        },
    }
}

/// The writer after a whole event sequence, first to last.
pub open spec fn spec_run_snapshot(v: SnapshotWriterView, evs: Seq<SnapshotEventView>) -> SnapshotWriterView
    decreases evs.len(),
{
    if evs.len() == 0 {
        v
    } else {
        spec_run_snapshot(spec_snapshot_step(v, evs[0]), evs.drop_first())
    }
}

/// Writing a snapshot is deterministic: two sessions that start from
/// equal inputs and see equal engine outcomes hold equal state
/// throughout — in particular they persist byte-for-byte equal images
/// at equal output paths.
pub proof fn lemma_write_snapshot_deterministic(
    v1: SnapshotWriterView,
    v2: SnapshotWriterView,
    evs1: Seq<SnapshotEventView>,
    evs2: Seq<SnapshotEventView>,
)
    requires
        v1 == v2,
        evs1 == evs2,
    ensures
        spec_run_snapshot(v1, evs1) == spec_run_snapshot(v2, evs2),
        spec_run_snapshot(v1, evs1).image == spec_run_snapshot(v2, evs2).image,
        spec_run_snapshot(v1, evs1).output_path == spec_run_snapshot(v2, evs2).output_path,
{
}

} // verus!
