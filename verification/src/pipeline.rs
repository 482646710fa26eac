//! The multi-stage pipeline for one job, as a state machine.
//!
//! One job's pipeline runs through a fixed order of steps: write the input
//! artifacts, run the external trace generator (stage A), derive the
//! parameter file from the public input, run the external prover (stage B).
//! The hosting layer performs each step in the real world and reports its
//! outcome as an [`Event`]; the engine decides what follows and hands back
//! an [`Action`]. Any failed step ends the pipeline at once: later stages
//! never run, and the job fails with a diagnostic message.
//!
//! There is, deliberately, no per-stage timeout and no cancellation path: a
//! stage process that never exits keeps its job `Running` and its execution
//! slot held indefinitely. A host that wants an upper bound can enforce one
//! itself and report the kill as a failed stage outcome.

use crate::input::Cairo0ProverInput;
use crate::workdir::ArtifactKind;
use crate::workdir::Workdir;
use crate::workdir::artifact_name;
use vstd::prelude::*;
use vstd::string::StringExecFns;

verus! {

/// The two external stages of the pipeline.
#[derive(Clone, Copy, PartialEq, Eq, Structural, Debug)]
pub enum Stage {
    /// Stage A: the external execution-trace generator.
    TraceGeneration,
    /// Stage B: the external prover.
    ProofGeneration,
}

/// How an external stage process ended.
#[derive(Clone, Copy, PartialEq, Eq, Structural, Debug)]
pub enum StageOutcome {
    /// The process exited with this code; 0 is success.
    Exited(i32),
    /// The process could not be spawned, or its exit status could not be
    /// obtained.
    SpawnFailed,
}

/// Only a clean exit counts as success; any other outcome, including a
/// failure to spawn, is a hard failure of the stage.
pub open spec fn outcome_ok(o: StageOutcome) -> bool {
    o == StageOutcome::Exited(0i32)
}

/// Everything that can abort a job's pipeline.
#[derive(Clone, Copy, PartialEq, Eq, Structural, Debug)]
pub enum PipelineError {
    /// The working directory could not be allocated; fatal before the job
    /// record exists, and reported synchronously to the submitter.
    WorkdirAllocationFailed,
    /// The program or its input could not be converted to the artifact
    /// format; aborts before any stage runs.
    SerializationFailed,
    /// The stage's external process could not be spawned or exited
    /// non-zero; aborts the pipeline.
    StageExecutionFailed(Stage),
    /// The parameter file could not be derived because the public-input
    /// artifact is missing or malformed; aborts the pipeline.
    ConfigMissing,
}

/// The diagnostic text of each error, the only diagnostic surface a caller
/// ever sees.
pub open spec fn diagnostic_view(e: PipelineError) -> Seq<char> {
    match e {
        PipelineError::WorkdirAllocationFailed => "failed to allocate a working directory"@,
        PipelineError::SerializationFailed => "failed to serialize the program input into its artifact"@,
        PipelineError::StageExecutionFailed(Stage::TraceGeneration) => "trace generation did not exit successfully"@,
        PipelineError::StageExecutionFailed(Stage::ProofGeneration) => "proof generation did not exit successfully"@,
        PipelineError::ConfigMissing => "public-input artifact missing or malformed; cannot derive prover parameters"@,
    }
}

impl PipelineError {
    /// Returns the error's diagnostic message; it is never empty.
    pub fn diagnostic(&self) -> (r: String)
        ensures
            r@ == diagnostic_view(*self),
            r@.len() > 0,
    {
        match self {
            PipelineError::WorkdirAllocationFailed => {
                proof {
                    reveal_strlit("failed to allocate a working directory");
                }
                String::from_str("failed to allocate a working directory")
            },
            PipelineError::SerializationFailed => {
                proof {
                    reveal_strlit("failed to serialize the program input into its artifact");
                }
                String::from_str("failed to serialize the program input into its artifact")
            },
            PipelineError::StageExecutionFailed(Stage::TraceGeneration) => {
                proof {
                    reveal_strlit("trace generation did not exit successfully");
                }
                String::from_str("trace generation did not exit successfully")
            },
            PipelineError::StageExecutionFailed(Stage::ProofGeneration) => {
                proof {
                    reveal_strlit("proof generation did not exit successfully");
                }
                String::from_str("proof generation did not exit successfully")
            },
            PipelineError::ConfigMissing => {
                proof {
                    reveal_strlit(
                        "public-input artifact missing or malformed; cannot derive prover parameters",
                    );
                }
                String::from_str(
                    "public-input artifact missing or malformed; cannot derive prover parameters",
                )
            },
        }
    }
}

/// Where a job's pipeline stands.
#[derive(Clone, Copy, PartialEq, Eq, Structural, Debug)]
pub enum Phase {
    /// Registered, waiting for an execution slot.
    Pending,
    /// The input artifacts are being written.
    WritingInputs,
    /// Stage A, the trace generator, is running.
    RunningStageA,
    /// The parameter file is being derived from the public input.
    DerivingParams,
    /// Stage B, the prover, is running.
    RunningStageB,
    /// The pipeline is over; the job holds a terminal status.
    Done,
}

/// The outcome of the step the hosting layer just performed.
#[derive(Clone, Copy, PartialEq, Eq, Structural, Debug)]
pub enum Event {
    /// Whether writing the input artifacts succeeded.
    InputsWritten(bool),
    /// How the stage A process ended.
    StageAFinished(StageOutcome),
    /// Whether the parameter file was derived and written.
    ParamsReady(bool),
    /// How the stage B process ended.
    StageBFinished(StageOutcome),
}

/// What the hosting layer is to do next. Argument vectors carried here are
/// the exact command lines of the external stages.
pub enum Action {
    /// Serialize the program and its input into the working directory's
    /// input artifacts, then report [`Event::InputsWritten`].
    WriteInputs,
    /// Run the external trace generator with exactly these arguments, then
    /// report [`Event::StageAFinished`].
    RunStageA(Vec<String>),
    /// Read the public-input artifact, derive the parameter file through
    /// [`derive_params`], write it, then report [`Event::ParamsReady`].
    DeriveParams,
    /// Run the external prover with exactly these arguments, then report
    /// [`Event::StageBFinished`].
    RunStageB(Vec<String>),
    /// The pipeline is over; nothing is left to do.
    Finished,
}

/// One job's pipeline: the job it belongs to, the immutable input, the
/// working directory, and where the pipeline stands.
pub struct PipelineRun {
    pub job_id: u64,
    pub input: Cairo0ProverInput,
    pub workdir: Workdir,
    pub phase: Phase,
}

/// Which event each phase is waiting for: the protocol between the engine
/// and the hosting layer. No event is expected in `Pending` (the run has no
/// slot yet) or in `Done` (the pipeline is over).
pub open spec fn expects(phase: Phase, event: Event) -> bool {
    match (phase, event) {
        (Phase::WritingInputs, Event::InputsWritten(_)) => true,
        (Phase::RunningStageA, Event::StageAFinished(_)) => true,
        (Phase::DerivingParams, Event::ParamsReady(_)) => true,
        (Phase::RunningStageB, Event::StageBFinished(_)) => true,
        _ => false,
    }
}

/// Whether the reported step succeeded.
pub open spec fn event_ok(event: Event) -> bool {
    match event {
        Event::InputsWritten(ok) => ok,
        Event::StageAFinished(o) => outcome_ok(o),
        Event::ParamsReady(ok) => ok,
        Event::StageBFinished(o) => outcome_ok(o),
    }
}

/// The phase that follows: the next step of the fixed order on success,
/// `Done` on any failure.
pub open spec fn next_phase(phase: Phase, event: Event) -> Phase
    recommends
        expects(phase, event),
{
    if !event_ok(event) {
        Phase::Done
    } else {
        match phase {
            Phase::WritingInputs => Phase::RunningStageA,
            Phase::RunningStageA => Phase::DerivingParams,
            Phase::DerivingParams => Phase::RunningStageB,
            Phase::RunningStageB => Phase::Done,
            _ => phase,
        }
    }
}

/// The error a failed event stands for, used for the job's diagnostic.
pub open spec fn error_of(phase: Phase, event: Event) -> PipelineError
    recommends
        expects(phase, event),
        !event_ok(event),
{
    match phase {
        Phase::WritingInputs => PipelineError::SerializationFailed,
        Phase::RunningStageA => PipelineError::StageExecutionFailed(Stage::TraceGeneration),
        Phase::DerivingParams => PipelineError::ConfigMissing,
        _ => PipelineError::StageExecutionFailed(Stage::ProofGeneration),
    }
}

/// The message a completed job carries: it names the working directory so
/// the proof artifact can be retrieved from it.
pub open spec fn completed_note(root: Seq<char>) -> Seq<char> {
    "proof artifact ready in "@ + root
}

/// Builds the completion message for a job whose directory is `root`.
pub fn completed_message(root: &String) -> (r: String)
    ensures
        r@ == completed_note(root@),
        r@.len() > 0,
{
    proof {
        reveal_strlit("proof artifact ready in ");
    }
    String::from_str("proof artifact ready in ").concat(root.as_str())
}

/// The exact command line of stage A, the external trace generator: trace
/// and memory output paths, the execution layout, the proof-mode flag, the
/// public- and private-input output paths, the serialized program input,
/// and - positional, last - the program artifact.
pub open spec fn stage_a_argv(w: Workdir, layout: Seq<char>) -> Seq<Seq<char>> {
    seq![
        "--trace_file"@,
        w.path_view(ArtifactKind::Trace),
        "--memory_file"@,
        w.path_view(ArtifactKind::Memory),
        "--layout"@,
        layout,
        "--proof_mode"@,
        "--air_public_input"@,
        w.path_view(ArtifactKind::PublicInput),
        "--air_private_input"@,
        w.path_view(ArtifactKind::PrivateInput),
        "--program_input"@,
        w.path_view(ArtifactKind::Input),
        w.path_view(ArtifactKind::Program),
    ]
}

/// The exact command line of stage B, the external prover: proof output
/// path, private- and public-input paths, the fixed prover configuration
/// file, the derived parameter file, and the annotation-generation flag.
pub open spec fn stage_b_argv(w: Workdir, prover_config: Seq<char>) -> Seq<Seq<char>> {
    seq![
        "--out_file"@,
        w.path_view(ArtifactKind::Proof),
        "--private_input_file"@,
        w.path_view(ArtifactKind::PrivateInput),
        "--public_input_file"@,
        w.path_view(ArtifactKind::PublicInput),
        "--prover_config_file"@,
        prover_config,
        "--parameter_file"@,
        w.path_view(ArtifactKind::Parameters),
        "--generate_annotations"@,
    ]
}

/// The views of the strings in `v`.
pub open spec fn views_of(v: Seq<String>) -> Seq<Seq<char>> {
    v.map_values(|s: String| s@)
}

/// Builds stage A's command line for directory `w` and execution layout
/// `layout`.
pub fn stage_a_args(w: &Workdir, layout: &String) -> (r: Vec<String>)
    ensures
        views_of(r@) == stage_a_argv(*w, layout@),
{
    let mut r: Vec<String> = Vec::new();
    r.push(String::from_str("--trace_file"));
    r.push(w.path_of(ArtifactKind::Trace));
    r.push(String::from_str("--memory_file"));
    r.push(w.path_of(ArtifactKind::Memory));
    r.push(String::from_str("--layout"));
    r.push(layout.clone());
    r.push(String::from_str("--proof_mode"));
    r.push(String::from_str("--air_public_input"));
    r.push(w.path_of(ArtifactKind::PublicInput));
    r.push(String::from_str("--air_private_input"));
    r.push(w.path_of(ArtifactKind::PrivateInput));
    r.push(String::from_str("--program_input"));
    r.push(w.path_of(ArtifactKind::Input));
    r.push(w.path_of(ArtifactKind::Program));
    proof {
        assert(views_of(r@) =~= stage_a_argv(*w, layout@));
    }
    r
}

/// Builds stage B's command line for directory `w` and the fixed prover
/// configuration file at `prover_config`.
pub fn stage_b_args(w: &Workdir, prover_config: &String) -> (r: Vec<String>)
    ensures
        views_of(r@) == stage_b_argv(*w, prover_config@),
{
    let mut r: Vec<String> = Vec::new();
    r.push(String::from_str("--out_file"));
    r.push(w.path_of(ArtifactKind::Proof));
    r.push(String::from_str("--private_input_file"));
    r.push(w.path_of(ArtifactKind::PrivateInput));
    r.push(String::from_str("--public_input_file"));
    r.push(w.path_of(ArtifactKind::PublicInput));
    r.push(String::from_str("--prover_config_file"));
    r.push(prover_config.clone());
    r.push(String::from_str("--parameter_file"));
    r.push(w.path_of(ArtifactKind::Parameters));
    r.push(String::from_str("--generate_annotations"));
    proof {
        assert(views_of(r@) =~= stage_b_argv(*w, prover_config@));
    }
    r
}

/// Stages run strictly sequentially, and a failed stage A ends the
/// pipeline: the event is a failure, the run moves straight to `Done` with
/// the trace-generation diagnostic, and `Done` expects no further event -
/// so stage B is never invoked after stage A fails.
pub proof fn lemma_stage_a_failure_blocks_stage_b(o: StageOutcome)
    requires
        !outcome_ok(o),
    ensures
        !event_ok(Event::StageAFinished(o)),
        next_phase(Phase::RunningStageA, Event::StageAFinished(o)) == Phase::Done,
        error_of(Phase::RunningStageA, Event::StageAFinished(o))
            == PipelineError::StageExecutionFailed(Stage::TraceGeneration),
        forall|e: Event| !expects(Phase::Done, e),
{
}

/// Whether these bytes are a well-formed JSON document, as the JSON parser
/// decides it; a function of the bytes alone.
pub uninterp spec fn json_wf(b: Seq<u8>) -> bool;

/// Relies on serde_json::from_slice::<serde_json::Value>: it accepts exactly
/// the well-formed JSON documents, and whether it accepts depends on the
/// bytes alone.
#[verifier::external_body]
fn json_valid(b: &[u8]) -> (r: bool)
    ensures
        r == json_wf(b@),
{
    serde_json::from_slice::<serde_json::Value>(b).is_ok()
}

/// Derives the stage B parameter file from the public-input artifact
/// produced by stage A: a pure transformation, with no external process.
///
/// The artifact must be present and well-formed JSON; its statement
/// parameters are then carried forward as the parameter file. A missing or
/// malformed artifact aborts the pipeline with `ConfigMissing`.
pub fn derive_params(public_input: Option<&Vec<u8>>) -> (r: Result<Vec<u8>, PipelineError>)
    ensures
        match public_input {
            None => r == Err::<Vec<u8>, PipelineError>(PipelineError::ConfigMissing),
            Some(b) => if json_wf(b@) {
                r matches Ok(p) && p@ == b@
            } else {
                r == Err::<Vec<u8>, PipelineError>(PipelineError::ConfigMissing)
            },
        },
{
    match public_input {
        None => Err(PipelineError::ConfigMissing),
        Some(b) => {
            if json_valid(b.as_slice()) {
                let mut p: Vec<u8> = Vec::new();
                let mut i: usize = 0;
                while i < b.len()
                    invariant
                        i <= b.len(),
                        p@ =~= b@.subrange(0, i as int),
                    decreases b.len() - i,
                {
                    p.push(b[i]);
                    i = i + 1;
                }
                proof {
                    assert(p@ =~= b@);
                }
                Ok(p)
            } else {
                Err(PipelineError::ConfigMissing)
            }
        },
    }
}

} // verus!
