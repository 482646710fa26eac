use prover::dispatch::Dispatcher;
use prover::input::Cairo0CompiledProgram;
use prover::input::Cairo0ProverInput;
use prover::job::JobStatus;
use prover::job::JobStore;
use prover::pipeline::Action;
use prover::pipeline::Event;
use prover::pipeline::Phase;
use prover::pipeline::PipelineError;
use prover::pipeline::PipelineRun;
use prover::pipeline::Stage;
use prover::pipeline::StageOutcome;
use prover::pipeline::completed_message;
use prover::pipeline::derive_params;
use prover::pipeline::stage_a_args;
use prover::pipeline::stage_b_args;
use prover::workdir::ArtifactKind;
use prover::workdir::Workdir;
use prover::AppState;

fn sample_input(layout: &str) -> Cairo0ProverInput {
    Cairo0ProverInput {
        program: Cairo0CompiledProgram {
            attributes: Vec::new(),
            builtins: vec!["output".to_string()],
            compiler_version: "0.13.1".to_string(),
            data: vec!["0x480680017fff8000".to_string()],
            debug_info: "null".to_string(),
            hints: "{}".to_string(),
            identifiers: "{}".to_string(),
            main_scope: "__main__".to_string(),
            prime: "0x800000000000011000000000000000000000000000000000000000000000001".to_string(),
            reference_manager: "{}".to_string(),
        },
        program_input: "{\"fibonacci_claim_index\": 10}".to_string(),
        layout: layout.to_string(),
    }
}

fn start_job(
    d: &mut Dispatcher,
    store: &mut JobStore,
    layout: &str,
    root: &str,
) -> (u64, PipelineRun) {
    let w = Workdir::new(root.to_string());
    let (id, mut run) = d.submit(store, sample_input(layout), w);
    assert!(d.try_start(store, &mut run));
    (id, run)
}

fn drive_to_completion(d: &mut Dispatcher, store: &mut JobStore, run: &mut PipelineRun) {
    let a = d.step(store, run, Event::InputsWritten(true));
    assert!(matches!(a, Action::RunStageA(_)));
    let a = d.step(store, run, Event::StageAFinished(StageOutcome::Exited(0)));
    assert!(matches!(a, Action::DeriveParams));
    let a = d.step(store, run, Event::ParamsReady(true));
    assert!(matches!(a, Action::RunStageB(_)));
    let a = d.step(store, run, Event::StageBFinished(StageOutcome::Exited(0)));
    assert!(matches!(a, Action::Finished));
}

#[test]
fn create_returns_distinct_increasing_ids() {
    let mut store = JobStore::new();
    let id1 = store.create();
    let id2 = store.create();
    let id3 = store.create();
    assert_eq!(id1, 1);
    assert_eq!(id2, 2);
    assert_eq!(id3, 3);
    assert!(id1 < id2 && id2 < id3);
    assert_ne!(id1, id2);
}

#[test]
fn fresh_job_reads_queued() {
    let mut store = JobStore::new();
    let id = store.create();
    let rec = store.get(id).expect("created job must be readable");
    assert_eq!(rec.status, JobStatus::Queued);
    assert!(rec.message.is_none());
}

#[test]
fn get_unknown_id_is_none() {
    let mut store = JobStore::new();
    assert!(store.get(1).is_none());
    assert!(store.get(0).is_none());
    store.create();
    assert!(store.get(2).is_none());
}

#[test]
fn update_unknown_id_is_a_no_op() {
    let mut store = JobStore::new();
    let id = store.create();
    store.update(99, JobStatus::Failed, Some("bogus".to_string()));
    store.update(0, JobStatus::Completed, None);
    let rec = store.get(id).expect("existing job still there");
    assert_eq!(rec.status, JobStatus::Queued);
    assert!(rec.message.is_none());
    assert_eq!(store.len(), 1);
    assert!(store.get(99).is_none());
}

#[test]
fn status_lifecycle_is_forward_only() {
    let mut store = JobStore::new();
    let mut d = Dispatcher::new(1, "cpu_air_prover_config.json".to_string());
    let (id, mut run) = start_job(&mut d, &mut store, "small", "/tmp/work/job1");
    assert_eq!(store.get(id).unwrap().status, JobStatus::Running);
    drive_to_completion(&mut d, &mut store, &mut run);
    assert_eq!(store.get(id).unwrap().status, JobStatus::Completed);
    // the pipeline is over; nothing transitions the job again, so repeated
    // polls keep observing the same terminal status
    assert_eq!(store.get(id).unwrap().status, JobStatus::Completed);
    assert_eq!(run.phase, Phase::Done);
}

#[test]
fn stage_a_failure_blocks_stage_b() {
    let mut store = JobStore::new();
    let mut d = Dispatcher::new(1, "cfg.json".to_string());
    let (id, mut run) = start_job(&mut d, &mut store, "small", "/tmp/work/job1");
    let a = d.step(&mut store, &mut run, Event::InputsWritten(true));
    assert!(matches!(a, Action::RunStageA(_)));
    let a = d.step(
        &mut store,
        &mut run,
        Event::StageAFinished(StageOutcome::Exited(1)),
    );
    // the pipeline ends at once: stage B is never handed out
    assert!(matches!(a, Action::Finished));
    assert_eq!(run.phase, Phase::Done);
    assert_eq!(store.get(id).unwrap().status, JobStatus::Failed);
}

#[test]
fn spawn_failure_counts_as_stage_failure() {
    let mut store = JobStore::new();
    let mut d = Dispatcher::new(1, "cfg.json".to_string());
    let (id, mut run) = start_job(&mut d, &mut store, "small", "/tmp/work/job1");
    d.step(&mut store, &mut run, Event::InputsWritten(true));
    let a = d.step(
        &mut store,
        &mut run,
        Event::StageAFinished(StageOutcome::SpawnFailed),
    );
    assert!(matches!(a, Action::Finished));
    assert_eq!(store.get(id).unwrap().status, JobStatus::Failed);
}

#[test]
fn both_stages_succeeding_completes_with_proof_artifact() {
    let mut store = JobStore::new();
    let mut d = Dispatcher::new(1, "cfg.json".to_string());
    let (id, mut run) = start_job(&mut d, &mut store, "small", "/tmp/work/job1");
    drive_to_completion(&mut d, &mut store, &mut run);
    assert_eq!(store.get(id).unwrap().status, JobStatus::Completed);
    assert!(run.workdir.has_proof);
    assert_eq!(
        run.workdir.path_of(ArtifactKind::Proof),
        "/tmp/work/job1/proof.json"
    );
    // the proof is promoted to retrievable, so the directory must be kept
    assert!(run.workdir.promoted);
    assert!(!run.workdir.may_clean());
}

#[test]
fn concurrency_bound_holds_during_a_burst() {
    let mut store = JobStore::new();
    let bound: usize = 2;
    let mut d = Dispatcher::new(bound, "cfg.json".to_string());
    // a burst of 5 simultaneous submissions: all are registered at once
    let mut runs: Vec<PipelineRun> = Vec::new();
    for i in 0..5u64 {
        let w = Workdir::new(format!("/tmp/work/job{}", i + 1));
        let (id, run) = d.submit(&mut store, sample_input("small"), w);
        assert_eq!(id, i + 1);
        assert_eq!(store.get(id).unwrap().status, JobStatus::Queued);
        runs.push(run);
    }
    // only `bound` of them get an execution slot
    let mut started = 0usize;
    for run in runs.iter_mut() {
        if d.try_start(&mut store, run) {
            started += 1;
        }
    }
    assert_eq!(started, bound);
    // finishing one pipeline frees its slot for exactly one more
    let mut first = runs.remove(0);
    assert_eq!(first.phase, Phase::WritingInputs);
    drive_to_completion(&mut d, &mut store, &mut first);
    let mut admitted = 0usize;
    for run in runs.iter_mut() {
        if run.phase == Phase::Pending && d.try_start(&mut store, run) {
            admitted += 1;
        }
    }
    assert_eq!(admitted, 1);
}

#[test]
fn submit_small_layout_scenario() {
    let mut store = JobStore::new();
    let mut d = Dispatcher::new(1, "cpu_air_prover_config.json".to_string());
    let w = Workdir::new("/tmp/work/job1".to_string());
    // job id 1 is returned immediately, before anything executed
    let (id, mut run) = d.submit(&mut store, sample_input("small"), w);
    assert_eq!(id, 1);
    // poll: Queued
    assert_eq!(store.get(id).unwrap().status, JobStatus::Queued);
    // dispatch: Running
    assert!(d.try_start(&mut store, &mut run));
    assert_eq!(store.get(id).unwrap().status, JobStatus::Running);
    // both stages succeed: Completed, message naming the working directory
    drive_to_completion(&mut d, &mut store, &mut run);
    let rec = store.get(id).unwrap();
    assert_eq!(rec.status, JobStatus::Completed);
    let message = rec.message.expect("completed job carries a message");
    assert!(message.contains("/tmp/work/job1"));
    assert_eq!(message, "proof artifact ready in /tmp/work/job1");
}

#[test]
fn failing_stage_a_scenario() {
    let mut store = JobStore::new();
    let mut d = Dispatcher::new(1, "cfg.json".to_string());
    let (id, mut run) = start_job(&mut d, &mut store, "small", "/tmp/work/job1");
    d.step(&mut store, &mut run, Event::InputsWritten(true));
    // a malformed program artifact makes the trace generator exit non-zero
    d.step(
        &mut store,
        &mut run,
        Event::StageAFinished(StageOutcome::Exited(1)),
    );
    let rec = store.get(id).unwrap();
    assert_eq!(rec.status, JobStatus::Failed);
    let message = rec.message.expect("failed job carries a diagnostic");
    assert!(!message.is_empty());
    assert_eq!(message, "trace generation did not exit successfully");
    // no parameter file and no proof artifact were produced
    assert!(!run.workdir.has_parameters);
    assert!(!run.workdir.has_proof);
    // nothing was promoted, so the directory may be cleaned up
    assert!(run.workdir.may_clean());
}

#[test]
fn serialization_failure_aborts_before_any_stage() {
    let mut store = JobStore::new();
    let mut d = Dispatcher::new(1, "cfg.json".to_string());
    let (id, mut run) = start_job(&mut d, &mut store, "small", "/tmp/work/job1");
    let a = d.step(&mut store, &mut run, Event::InputsWritten(false));
    assert!(matches!(a, Action::Finished));
    let rec = store.get(id).unwrap();
    assert_eq!(rec.status, JobStatus::Failed);
    assert_eq!(
        rec.message.unwrap(),
        "failed to serialize the program input into its artifact"
    );
    assert!(!run.workdir.has_trace);
}

#[test]
fn params_failure_aborts_before_stage_b() {
    let mut store = JobStore::new();
    let mut d = Dispatcher::new(1, "cfg.json".to_string());
    let (id, mut run) = start_job(&mut d, &mut store, "small", "/tmp/work/job1");
    d.step(&mut store, &mut run, Event::InputsWritten(true));
    d.step(
        &mut store,
        &mut run,
        Event::StageAFinished(StageOutcome::Exited(0)),
    );
    let a = d.step(&mut store, &mut run, Event::ParamsReady(false));
    assert!(matches!(a, Action::Finished));
    let rec = store.get(id).unwrap();
    assert_eq!(rec.status, JobStatus::Failed);
    assert_eq!(
        rec.message.unwrap(),
        "public-input artifact missing or malformed; cannot derive prover parameters"
    );
}

#[test]
fn stage_b_failure_fails_the_job() {
    let mut store = JobStore::new();
    let mut d = Dispatcher::new(1, "cfg.json".to_string());
    let (id, mut run) = start_job(&mut d, &mut store, "small", "/tmp/work/job1");
    d.step(&mut store, &mut run, Event::InputsWritten(true));
    d.step(
        &mut store,
        &mut run,
        Event::StageAFinished(StageOutcome::Exited(0)),
    );
    d.step(&mut store, &mut run, Event::ParamsReady(true));
    let a = d.step(
        &mut store,
        &mut run,
        Event::StageBFinished(StageOutcome::Exited(137)),
    );
    assert!(matches!(a, Action::Finished));
    let rec = store.get(id).unwrap();
    assert_eq!(rec.status, JobStatus::Failed);
    assert_eq!(
        rec.message.unwrap(),
        "proof generation did not exit successfully"
    );
    assert!(!run.workdir.has_proof);
}

#[test]
fn stage_a_command_line_is_exact() {
    let w = Workdir::new("/tmp/wd".to_string());
    let args = stage_a_args(&w, &"small".to_string());
    let expected: Vec<String> = [
        "--trace_file",
        "/tmp/wd/trace.bin",
        "--memory_file",
        "/tmp/wd/memory.bin",
        "--layout",
        "small",
        "--proof_mode",
        "--air_public_input",
        "/tmp/wd/air_public_input.json",
        "--air_private_input",
        "/tmp/wd/air_private_input.json",
        "--program_input",
        "/tmp/wd/program_input.json",
        "/tmp/wd/program.json",
    ]
    .iter()
    .map(|a| a.to_string())
    .collect();
    assert_eq!(args, expected);
}

#[test]
fn stage_b_command_line_is_exact() {
    let w = Workdir::new("/tmp/wd".to_string());
    let args = stage_b_args(&w, &"/etc/prover/cpu_air_prover_config.json".to_string());
    let expected: Vec<String> = [
        "--out_file",
        "/tmp/wd/proof.json",
        "--private_input_file",
        "/tmp/wd/air_private_input.json",
        "--public_input_file",
        "/tmp/wd/air_public_input.json",
        "--prover_config_file",
        "/etc/prover/cpu_air_prover_config.json",
        "--parameter_file",
        "/tmp/wd/cpu_air_params.json",
        "--generate_annotations",
    ]
    .iter()
    .map(|a| a.to_string())
    .collect();
    assert_eq!(args, expected);
}

#[test]
fn derive_params_requires_a_present_artifact() {
    match derive_params(None) {
        Err(PipelineError::ConfigMissing) => {}
        _ => panic!("a missing public-input artifact must be ConfigMissing"),
    }
}

#[test]
fn derive_params_rejects_malformed_public_input() {
    let malformed: Vec<u8> = b"{\"n_steps\": ".to_vec();
    match derive_params(Some(&malformed)) {
        Err(PipelineError::ConfigMissing) => {}
        _ => panic!("a malformed public-input artifact must be ConfigMissing"),
    }
}

#[test]
fn derive_params_accepts_well_formed_public_input() {
    let public_input: Vec<u8> = b"{\"n_steps\": 16384, \"layout\": \"small\"}".to_vec();
    let params = derive_params(Some(&public_input)).expect("well-formed JSON must derive");
    assert_eq!(params, public_input);
}

#[test]
fn diagnostics_are_nonempty_and_exact() {
    assert_eq!(
        PipelineError::WorkdirAllocationFailed.diagnostic(),
        "failed to allocate a working directory"
    );
    assert_eq!(
        PipelineError::SerializationFailed.diagnostic(),
        "failed to serialize the program input into its artifact"
    );
    assert_eq!(
        PipelineError::StageExecutionFailed(Stage::TraceGeneration).diagnostic(),
        "trace generation did not exit successfully"
    );
    assert_eq!(
        PipelineError::StageExecutionFailed(Stage::ProofGeneration).diagnostic(),
        "proof generation did not exit successfully"
    );
    assert!(!PipelineError::ConfigMissing.diagnostic().is_empty());
}

#[test]
fn status_text_and_messages() {
    assert_eq!(JobStatus::Queued.as_text(), "Queued");
    assert_eq!(JobStatus::Running.as_text(), "Running");
    assert_eq!(JobStatus::Completed.as_text(), "Completed");
    assert_eq!(JobStatus::Failed.as_text(), "Failed");
    assert_eq!(
        completed_message(&"/tmp/wd".to_string()),
        "proof artifact ready in /tmp/wd"
    );
}

#[test]
fn app_state_starts_empty_and_idle() {
    let mut state = AppState::new(4, "cfg.json".to_string());
    assert_eq!(state.job_store.len(), 0);
    assert!(state.job_store.get(1).is_none());
    let w = Workdir::new("/tmp/work/job1".to_string());
    let (id, _run) = state
        .dispatcher
        .submit(&mut state.job_store, sample_input("small"), w);
    assert_eq!(id, 1);
}
