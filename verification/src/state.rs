//! Shared compile state: the record that accumulates the effects of one
//! compilation session as the compiler reports them through ops.
use vstd::prelude::*;

use crate::errors::DriverError;

verus! {

/// One output file the compiler reported as emitted:
/// destination url, the module that owns it, and the produced text.
#[derive(Debug, Clone)]
pub struct WrittenFile {
    pub url: String,
    pub module_name: String,
    pub source_code: String,
}

/// Mathematical image of a [`WrittenFile`].
pub struct WrittenFileView {
    pub url: Seq<char>,
    pub module_name: Seq<char>,
    pub source_code: Seq<char>,
}

impl View for WrittenFile {
    type V = WrittenFileView;

    open spec fn view(&self) -> WrittenFileView {
        WrittenFileView { url: self.url@, module_name: self.module_name@, source_code: self.source_code@ }
    }
}

/// Terminal diagnostics and metadata the compiler reports with its exit op.
#[derive(Debug, Clone)]
pub struct EmitResult {
    pub emit_skipped: bool,
    pub diagnostics: Vec<String>,
}

/// Mathematical image of an [`EmitResult`].
pub struct EmitResultView {
    pub emit_skipped: bool,
    pub diagnostics: Seq<Seq<char>>,
}

impl View for EmitResult {
    type V = EmitResultView;

    open spec fn view(&self) -> EmitResultView {
        EmitResultView {
            emit_skipped: self.emit_skipped,
            diagnostics: Seq::new(self.diagnostics@.len(), |i: int| self.diagnostics@[i]@),
        }
    }
}

/// The view of an optional emit result.
pub open spec fn opt_emit_view(e: Option<EmitResult>) -> Option<EmitResultView> {
    match e {
        Some(r) => Some(r@),
        None => None,
    }
}

/// State shared between the driving thread and the dispatch handler for
/// one compile session. Written files are append-only; their order is the
/// emission order, and the last entry designates the entry module of the
/// snapshot stage.
#[derive(Debug)]
pub struct TSState {
    bundle: bool,
    exit_code: i32,
    emit_result: Option<EmitResult>,
    written_files: Vec<WrittenFile>,
}

/// Mathematical image of a [`TSState`].
pub struct TSStateView {
    pub bundle: bool,
    pub exit_code: int,
    pub emit_result: Option<EmitResultView>,
    pub written_files: Seq<WrittenFileView>,
}

impl View for TSState {
    type V = TSStateView;

    closed spec fn view(&self) -> TSStateView {
        TSStateView {
            bundle: self.bundle,
            exit_code: self.exit_code as int,
            emit_result: match self.emit_result {
                Some(e) => Some(e@),
                None => None,
            },
            written_files: Seq::new(self.written_files@.len(), |i: int| self.written_files@[i]@),
        }
    }
}

impl TSState {
    /// A fresh session state: success exit code, nothing emitted yet.
    pub fn new(bundle: bool) -> (r: TSState)
        ensures
            r@.bundle == bundle,
            r@.exit_code == 0,
            r@.emit_result is None,
            r@.written_files == Seq::<WrittenFileView>::empty(),
    {
        let r = TSState { bundle, exit_code: 0, emit_result: None, written_files: Vec::new() };
        proof {
            assert(r@.written_files =~= Seq::<WrittenFileView>::empty());
        }
        r
    }

    /// Appends one emitted-file record, preserving the order of the calls.
    pub fn record_written_file(&mut self, f: WrittenFile)
        ensures
            final(self)@.written_files == old(self)@.written_files.push(f@),
            final(self)@.bundle == old(self)@.bundle,
            final(self)@.exit_code == old(self)@.exit_code,
            final(self)@.emit_result == old(self)@.emit_result,
    {
        let ghost gf = f@;
        self.written_files.push(f);
        proof {
            assert(self@.written_files =~= old(self)@.written_files.push(gf));
        }
    }

    /// Stores the terminal status the compiler reported.
    pub fn set_exit(&mut self, code: i32, emit: Option<EmitResult>)
        ensures
            final(self)@.exit_code == code as int,
            final(self)@.emit_result == (match emit {
                Some(e) => Some(e@),
                None => None::<EmitResultView>,
            }),
            final(self)@.bundle == old(self)@.bundle,
            final(self)@.written_files == old(self)@.written_files,
    {
        self.exit_code = code;
        self.emit_result = emit;
        proof {
            assert(self@.written_files =~= old(self)@.written_files);
        }
    }

    /// Whether this session targets a single concatenated bundle file.
    pub fn bundle(&self) -> (r: bool)
        ensures
            r == self@.bundle,
    {
        self.bundle
    }

    /// The terminal status code; zero means success.
    pub fn exit_code(&self) -> (r: i32)
        ensures
            r as int == self@.exit_code,
    {
        self.exit_code
    }

    /// The diagnostics stored by the exit op, if any were reported.
    pub fn emit_result(&self) -> (r: &Option<EmitResult>)
        ensures
            self@.emit_result == (match r {
                Some(e) => Some(e@),
                None => None::<EmitResultView>,
            }),
    {
        &self.emit_result
    }

    /// How many emitted-file records have accumulated.
    pub fn written_file_count(&self) -> (r: usize)
        ensures
            r == self@.written_files.len(),
    {
        self.written_files.len()
    }

    /// The `i`-th emitted-file record, in emission order.
    pub fn written_file(&self, i: usize) -> (r: &WrittenFile)
        requires
            i < self@.written_files.len(),
        ensures
            r@ == self@.written_files[i as int],
    {
        &self.written_files[i]
    }

    /// The designated entry module of the snapshot stage: the module that
    /// owns the file emitted last. Fails exactly when nothing was emitted.
    pub fn entry_module_name(&self) -> (r: Result<String, DriverError>)
        ensures
            match r {
                Ok(name) => self@.written_files.len() > 0 && name@ == self@.written_files.last().module_name,
                Err(e) => self@.written_files.len() == 0 && e is NoWrittenFiles,
            },
    {
        let n = self.written_files.len();
        if n == 0 {
            Err(DriverError::NoWrittenFiles)
        } else {
            Ok(self.written_files[n - 1].module_name.clone())
        }
    }
}

} // verus!
