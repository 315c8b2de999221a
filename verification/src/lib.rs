//! Host side of a sandboxed script-execution pipeline: it prepares the
//! JSON-encoded arguments for a compiler running inside a script engine,
//! decodes the binary op requests that the compiled code sends back,
//! accumulates their effects in a shared compile state, and drives the
//! two-stage compile-then-freeze lifecycle as explicit state machines.
//!
//! The script engine itself (creation, script evaluation, heap
//! serialization) is an outside component: the machines here emit the
//! actions an embedder must perform and consume the outcomes it reports.

pub mod assets;
pub mod config;
pub mod driver;
pub mod errors;
pub mod json;
pub mod ops;
pub mod proto;
pub mod snapshot;
pub mod state;
pub mod text;

pub use assets::get_asset;
pub use assets::spec_get_asset;
pub use assets::lemma_asset_resolution_pure;
pub use errors::DriverError;
pub use state::EmitResult;
pub use state::EmitResultView;
pub use state::TSState;
pub use state::TSStateView;
pub use state::WrittenFile;
pub use state::WrittenFileView;
