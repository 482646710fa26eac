//! Job orchestration and pipeline-execution engine for a proof-generation
//! service.
//!
//! The crate holds the verified core of the service: the job registry with
//! its forward-only status state machine (`job`), the caller-supplied
//! pipeline input (`input`), the per-job scoped working directory and its
//! named artifacts (`workdir`), the multi-stage pipeline state machine with
//! its failure semantics (`pipeline`), and the dispatcher that bounds how
//! many pipelines execute at once (`dispatch`).
//!
//! Everything that touches the outside world - the HTTP surface, process
//! spawning, filesystem and client plumbing - lives outside this crate and
//! drives the engine through the events and actions defined here.

pub mod dispatch;
pub mod input;
pub mod job;
pub mod pipeline;
pub mod workdir;

pub use dispatch::AppState;
pub use dispatch::Dispatcher;
pub use input::Cairo0CompiledProgram;
pub use input::Cairo0ProverInput;
pub use job::JobRecord;
pub use job::JobStatus;
pub use job::JobStore;
pub use workdir::ArtifactKind;
pub use workdir::Workdir;
