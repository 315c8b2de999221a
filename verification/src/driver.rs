//! The compile driver: one compile session as an explicit machine. The
//! embedder creates a cold engine, then repeatedly asks for the next
//! action, performs it against the engine, and reports the outcome. The
//! fixed order is: load the compiler payload, load the bootstrap
//! program, install the op dispatcher, evaluate the entry call.
use vstd::prelude::*;

use vstd::string::StringExecFns;

use crate::config::spec_bootstrap_call_source;
use crate::config::bootstrap_call_source;
use crate::errors::DriverError;

verus! {

/// What the embedder reports after performing one engine action: the
/// script completed, or it threw with the given message.
pub enum ExecOutcome {
    Succeeded,
    Failed { message: String },
}

/// The view of an outcome: nothing on success, the message on failure.
pub open spec fn exec_outcome_view(o: &ExecOutcome) -> Option<Seq<char>> {
    match o {
        ExecOutcome::Succeeded => None,
        ExecOutcome::Failed { message } => Some(message@),
    }
}

/// One action the embedder must perform against its engine.
pub enum EngineAction {
    /// Evaluate `source` as a top-level program called `name`.
    Execute { name: String, source: String },
    /// Install the op dispatcher bound to the session's compile state.
    InstallDispatch,
    /// Nothing is left to do.
    Finish,
}

/// Where a compile session stands.
#[derive(Clone, Copy, Debug, PartialEq, Eq, Structural)]
pub enum CompilePhase {
    LoadCompiler,
    LoadBootstrap,
    InstallDispatch,
    Invoke,
    Done,
    Failed,
}

/// The phase after a successfully performed action.
pub open spec fn spec_next_phase(p: CompilePhase) -> CompilePhase {
    match p {
        CompilePhase::LoadCompiler => CompilePhase::LoadBootstrap,
        CompilePhase::LoadBootstrap => CompilePhase::InstallDispatch,
        CompilePhase::InstallDispatch => CompilePhase::Invoke,
        CompilePhase::Invoke => CompilePhase::Done,
        CompilePhase::Done => CompilePhase::Done,
        CompilePhase::Failed => CompilePhase::Failed,
    }
}

/// The resource name a script failure in the given phase is reported
/// under.
pub open spec fn spec_phase_resource(p: CompilePhase) -> Seq<char> {
    match p {
        CompilePhase::LoadCompiler => "assets/typescript.js"@,
        CompilePhase::LoadBootstrap => "compiler_main.js"@,
        CompilePhase::InstallDispatch => "compiler_main.js"@,
        CompilePhase::Invoke => "<anon>"@,
        CompilePhase::Done => Seq::<char>::empty(),
        CompilePhase::Failed => Seq::<char>::empty(),
    }
}

/// Mathematical image of a [`CompileDriver`].
pub struct CompileDriverView {
    pub phase: CompilePhase,
    pub compiler_source: Seq<char>,
    pub bootstrap_source: Seq<char>,
    pub call_source: Seq<char>,
}

/// Drives one compile session: holds the texts to load and the single
/// entry call built from the session's arguments.
pub struct CompileDriver {
    phase: CompilePhase,
    compiler_source: String,
    bootstrap_source: String,
    call_source: String,
}

impl View for CompileDriver {
    type V = CompileDriverView;

    closed spec fn view(&self) -> CompileDriverView {
        CompileDriverView {
            phase: self.phase,
            compiler_source: self.compiler_source@,
            bootstrap_source: self.bootstrap_source@,
            call_source: self.call_source@,
        }
    }
}

impl CompileDriver {
    /// A fresh session over the given compiler payload and bootstrap
    /// program, compiling `root_names` under `config_json` with the
    /// given platform constants.
    pub fn new(
        compiler_source: String,
        bootstrap_source: String,
        config_json: &str,
        root_names: &Vec<String>,
        os: &str,
        arch: &str,
    ) -> (r: CompileDriver)
        ensures
            r@.phase == CompilePhase::LoadCompiler,
            r@.compiler_source == compiler_source@,
            r@.bootstrap_source == bootstrap_source@,
            r@.call_source == spec_bootstrap_call_source(
                config_json@,
                root_names.deep_view(),
                os@,
                arch@,
            ),
    {
        let call_source = bootstrap_call_source(config_json, root_names, os, arch);
        CompileDriver { phase: CompilePhase::LoadCompiler, compiler_source, bootstrap_source, call_source }
    }

    /// The next action the embedder must perform.
    pub fn next_action(&self) -> (a: EngineAction)
        ensures
            self@.phase is LoadCompiler ==> (a matches EngineAction::Execute { name, source }
                && name@ == "assets/typescript.js"@ && source@ == self@.compiler_source),
            self@.phase is LoadBootstrap ==> (a matches EngineAction::Execute { name, source }
                && name@ == "compiler_main.js"@ && source@ == self@.bootstrap_source),
            self@.phase is InstallDispatch ==> a is InstallDispatch,
            self@.phase is Invoke ==> (a matches EngineAction::Execute { name, source } && name@
                == "<anon>"@ && source@ == self@.call_source),
            self@.phase is Done || self@.phase is Failed ==> a is Finish,
    {
        match self.phase {
            CompilePhase::LoadCompiler => EngineAction::Execute {
                name: String::from_str("assets/typescript.js"),
                source: self.compiler_source.clone(),
            },
            CompilePhase::LoadBootstrap => EngineAction::Execute {
                name: String::from_str("compiler_main.js"),
                source: self.bootstrap_source.clone(),
            },
            CompilePhase::InstallDispatch => EngineAction::InstallDispatch,
            CompilePhase::Invoke => EngineAction::Execute {
                name: String::from_str("<anon>"),
                source: self.call_source.clone(),
            },
            CompilePhase::Done => EngineAction::Finish,
            CompilePhase::Failed => EngineAction::Finish,
        }
    }

    /// Records the outcome of the action last asked for. Success
    /// advances the fixed order; a script failure ends the session and
    /// is returned, named after the script that failed.
    pub fn step(&mut self, outcome: &ExecOutcome) -> (r: Option<DriverError>)
        requires
            !(old(self)@.phase is Done),
            !(old(self)@.phase is Failed),
        ensures
            final(self)@.compiler_source == old(self)@.compiler_source,
            final(self)@.bootstrap_source == old(self)@.bootstrap_source,
            final(self)@.call_source == old(self)@.call_source,
            exec_outcome_view(outcome) is None ==> r is None && final(self)@.phase
                == spec_next_phase(old(self)@.phase),
            exec_outcome_view(outcome) matches Some(m) ==> final(self)@.phase is Failed && (
            r matches Some(e) && e@ == (crate::errors::DriverErrorView::ScriptFailure {
                resource: spec_phase_resource(old(self)@.phase),
                message: m,
            })),
    {
        match outcome {
            ExecOutcome::Succeeded => {
                self.phase = match self.phase {
                    CompilePhase::LoadCompiler => CompilePhase::LoadBootstrap,
                    CompilePhase::LoadBootstrap => CompilePhase::InstallDispatch,
                    CompilePhase::InstallDispatch => CompilePhase::Invoke,
                    CompilePhase::Invoke => CompilePhase::Done,
                    CompilePhase::Done => CompilePhase::Done,
                    CompilePhase::Failed => CompilePhase::Failed,
                };
                None
            },
            ExecOutcome::Failed { message } => {
                let resource = match self.phase {
                    CompilePhase::LoadCompiler => String::from_str("assets/typescript.js"),
                    CompilePhase::LoadBootstrap => String::from_str("compiler_main.js"),
                    CompilePhase::InstallDispatch => String::from_str("compiler_main.js"),
                    CompilePhase::Invoke => String::from_str("<anon>"),
                    CompilePhase::Done => String::new(),
                    CompilePhase::Failed => String::new(),
                };
                self.phase = CompilePhase::Failed;
                Some(DriverError::ScriptFailure { resource, message: message.clone() })
            },
        }
    }

    /// Whether the session finished successfully.
    pub fn is_done(&self) -> (r: bool)
        ensures
            r == (self@.phase is Done),
    {
        self.phase == CompilePhase::Done
    }

    /// Whether the session failed.
    pub fn is_failed(&self) -> (r: bool)
        ensures
            r == (self@.phase is Failed),
    {
        self.phase == CompilePhase::Failed
    }
}

} // verus!
