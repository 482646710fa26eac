//! The dispatcher: admits jobs, bounds how many pipelines execute at once,
//! and drives each job from `Queued` through the pipeline to a terminal
//! status.
//!
//! Submission registers the job immediately - it never waits on running
//! pipelines. Execution then takes one of a fixed number of slots:
//! [`Dispatcher::try_start`] admits a pipeline only while a slot is free,
//! and [`Dispatcher::step`] gives the slot back the moment the pipeline is
//! over, whatever its outcome, so a failed job never starves the pool.
//! Every operation moves job statuses only along the forward transitions of
//! [`advances`].

use crate::input::Cairo0ProverInput;
use crate::job::JobRecord;
use crate::job::JobStatus;
use crate::job::JobStore;
use crate::job::advances;
use crate::pipeline::Action;
use crate::pipeline::Event;
use crate::pipeline::Phase;
use crate::pipeline::PipelineError;
use crate::pipeline::PipelineRun;
use crate::pipeline::Stage;
use crate::pipeline::StageOutcome;
use crate::pipeline::completed_message;
use crate::pipeline::completed_note;
use crate::pipeline::diagnostic_view;
use crate::pipeline::error_of;
use crate::pipeline::event_ok;
use crate::pipeline::expects;
use crate::pipeline::next_phase;
use crate::pipeline::stage_a_args;
use crate::pipeline::stage_a_argv;
use crate::pipeline::stage_b_args;
use crate::pipeline::stage_b_argv;
use crate::pipeline::views_of;
use crate::workdir::ArtifactKind;
use crate::workdir::Workdir;
use vstd::prelude::*;

verus! {

/// Bounds and tracks concurrent pipeline execution. The fixed prover
/// configuration file handed to stage B is part of the dispatcher's
/// configuration.
pub struct Dispatcher {
    bound: usize,
    active: usize,
    prover_config: String,
}

impl Dispatcher {
    /// The configured pool size: how many pipelines may execute at once.
    pub closed spec fn pool_bound(self) -> int {
        self.bound as int
    }

    /// How many pipelines hold an execution slot right now.
    pub closed spec fn executing(self) -> int {
        self.active as int
    }

    /// Path of the fixed, externally supplied prover configuration file.
    pub closed spec fn config_view(self) -> Seq<char> {
        self.prover_config@
    }

    /// Well-formedness: the pool has at least one slot, and no more slots
    /// are held than the pool has.
    pub closed spec fn wf(self) -> bool {
        1 <= self.pool_bound() && self.executing() <= self.pool_bound()
    }

    /// A dispatcher for a pool of `bound` slots, none of them held yet.
    pub fn new(bound: usize, prover_config: String) -> (d: Dispatcher)
        requires
            bound >= 1,
        ensures
            d.wf(),
            d.pool_bound() == bound,
            d.executing() == 0,
            d.config_view() == prover_config@,
    {
        Dispatcher { bound, active: 0, prover_config }
    }

    /// How many execution slots are held right now.
    pub fn slots_in_use(&self) -> (n: usize)
        ensures
            n == self.executing(),
    {
        self.active
    }

    /// The configured pool size.
    pub fn pool_size(&self) -> (n: usize)
        ensures
            n == self.pool_bound(),
    {
        self.bound
    }

    /// Registers a job for `input` in the already-allocated directory
    /// `workdir` and returns its fresh identifier together with the
    /// pipeline run that will drive it.
    ///
    /// Registration always succeeds immediately, however many pipelines are
    /// executing: the record is in the store, `Queued`, when the call
    /// returns, and no existing record changes.
    pub fn submit(&self, store: &mut JobStore, input: Cairo0ProverInput, workdir: Workdir) -> (r: (
        u64,
        PipelineRun,
    ))
        requires
            old(store)@.len() < u64::MAX,
        ensures
            r.0 == old(store)@.len() + 1,
            final(store)@ =~= old(store)@.push(JobRecord::queued()),
            final(store).job(r.0) == JobRecord::queued(),
            forall|j: u64| #![auto]
                old(store).has_job(j) ==> final(store).job(j) == old(store).job(j),
            forall|j: u64| #![auto]
                old(store).has_job(j) ==> advances(
                    old(store).job(j).status,
                    final(store).job(j).status,
                ),
            r.1 == (PipelineRun { job_id: r.0, input, workdir, phase: Phase::Pending }),
    {
        let id = store.create();
        let run = PipelineRun { job_id: id, input, workdir, phase: Phase::Pending };
        (id, run)
    }

    /// Tries to take an execution slot for a registered, still pending run.
    /// Succeeds exactly while fewer pipelines execute than the pool allows;
    /// on success the job becomes `Running` and the run starts writing its
    /// input artifacts. On refusal nothing changes, and the caller tries
    /// again once a slot is given back.
    pub fn try_start(&mut self, store: &mut JobStore, run: &mut PipelineRun) -> (started: bool)
        requires
            old(self).wf(),
            old(run).phase == Phase::Pending,
            old(store).has_job(old(run).job_id),
            old(store).job(old(run).job_id).status == JobStatus::Queued,
        ensures
            final(self).wf(),
            final(self).pool_bound() == old(self).pool_bound(),
            final(self).config_view() == old(self).config_view(),
            started == (old(self).executing() < old(self).pool_bound()),
            started ==> final(self).executing() == old(self).executing() + 1,
            started ==> *final(run) == (PipelineRun { phase: Phase::WritingInputs, ..*old(run) }),
            started ==> final(store)@ =~= old(store)@.update(
                old(run).job_id - 1,
                JobRecord { status: JobStatus::Running, message: None },
            ),
            !started ==> final(self).executing() == old(self).executing(),
            !started ==> *final(run) == *old(run),
            !started ==> final(store)@ =~= old(store)@,
            forall|j: u64| #![auto]
                old(store).has_job(j) && j != old(run).job_id ==> final(store).job(j) == old(
                    store,
                ).job(j),
            forall|j: u64| #![auto]
                old(store).has_job(j) ==> advances(
                    old(store).job(j).status,
                    final(store).job(j).status,
                ),
    {
        if self.active < self.bound {
            self.active = self.active + 1;
            store.update(run.job_id, JobStatus::Running, None);
            run.phase = Phase::WritingInputs;
            true
        } else {
            false
        }
    }

    /// Advances a running pipeline by one step: the hosting layer reports
    /// how the step it performed went, and the dispatcher records the
    /// consequences and says what to do next.
    ///
    /// On a successful event the pipeline moves to the next step of the
    /// fixed order: the input artifacts are followed by stage A, stage A by
    /// parameter derivation, that by stage B, and a successful stage B
    /// completes the job with a message naming the working directory and
    /// promotes the directory so the proof stays retrievable. On any failed
    /// event the pipeline is over at once - no later stage is ever asked
    /// for - and the job fails with the diagnostic of the step that broke.
    /// Whenever the pipeline ends, its execution slot is given back.
    pub fn step(&mut self, store: &mut JobStore, run: &mut PipelineRun, event: Event) -> (a: Action)
        requires
            old(self).wf(),
            old(self).executing() >= 1,
            expects(old(run).phase, event),
            old(store).has_job(old(run).job_id),
            old(store).job(old(run).job_id).status == JobStatus::Running,
        ensures
            final(self).wf(),
            final(self).pool_bound() == old(self).pool_bound(),
            final(self).config_view() == old(self).config_view(),
            final(run).job_id == old(run).job_id,
            final(run).input == old(run).input,
            final(run).workdir.root == old(run).workdir.root,
            final(run).workdir.promoted == (old(run).workdir.promoted || (event_ok(event)
                && old(run).phase == Phase::RunningStageB)),
            final(run).phase == next_phase(old(run).phase, event),
            final(run).phase == Phase::Done ==> final(self).executing() == old(self).executing()
                - 1,
            final(run).phase != Phase::Done ==> final(self).executing() == old(self).executing(),
            final(store)@.len() == old(store)@.len(),
            forall|j: u64| #![auto]
                old(store).has_job(j) && j != old(run).job_id ==> final(store).job(j) == old(
                    store,
                ).job(j),
            forall|j: u64| #![auto]
                old(store).has_job(j) ==> advances(
                    old(store).job(j).status,
                    final(store).job(j).status,
                ),
            event_ok(event) && old(run).phase != Phase::RunningStageB ==> final(store)@ =~= old(
                store,
            )@,
            event_ok(event) && old(run).phase == Phase::WritingInputs ==> {
                &&& final(run).workdir == (Workdir {
                    has_input: true,
                    has_program: true,
                    ..old(run).workdir
                })
                &&& a matches Action::RunStageA(v) && views_of(v@) == stage_a_argv(
                    final(run).workdir,
                    old(run).input.layout@,
                )
            },
            event_ok(event) && old(run).phase == Phase::RunningStageA ==> {
                &&& final(run).workdir == (Workdir {
                    has_trace: true,
                    has_memory: true,
                    has_public_input: true,
                    has_private_input: true,
                    ..old(run).workdir
                })
                &&& a matches Action::DeriveParams
            },
            event_ok(event) && old(run).phase == Phase::DerivingParams ==> {
                &&& final(run).workdir == (Workdir {
                    has_parameters: true,
                    ..old(run).workdir
                })
                &&& a matches Action::RunStageB(v) && views_of(v@) == stage_b_argv(
                    final(run).workdir,
                    old(self).config_view(),
                )
            },
            event_ok(event) && old(run).phase == Phase::RunningStageB ==> {
                &&& final(run).workdir == (Workdir {
                    has_proof: true,
                    promoted: true,
                    ..old(run).workdir
                })
                &&& final(run).workdir.has(ArtifactKind::Proof)
                &&& final(store).job(old(run).job_id).status == JobStatus::Completed
                &&& final(store).job(old(run).job_id).message matches Some(m) && m@
                    == completed_note(old(run).workdir.root@) && m@.len() > 0
                &&& a matches Action::Finished
            },
            !event_ok(event) ==> {
                &&& final(run).workdir == old(run).workdir
                &&& final(store).job(old(run).job_id).status == JobStatus::Failed
                &&& final(store).job(old(run).job_id).message matches Some(m) && m@
                    == diagnostic_view(error_of(old(run).phase, event)) && m@.len() > 0
                &&& a matches Action::Finished
            },
    {
        if !event_ok_exec(event) {
            let err = error_exec(run.phase, event);
            store.update(run.job_id, JobStatus::Failed, Some(err.diagnostic()));
            run.phase = Phase::Done;
            self.active = self.active - 1;
            Action::Finished
        } else {
            match run.phase {
                Phase::WritingInputs => {
                    run.workdir.has_input = true;
                    run.workdir.has_program = true;
                    run.phase = Phase::RunningStageA;
                    Action::RunStageA(stage_a_args(&run.workdir, &run.input.layout))
                },
                Phase::RunningStageA => {
                    run.workdir.has_trace = true;
                    run.workdir.has_memory = true;
                    run.workdir.has_public_input = true;
                    run.workdir.has_private_input = true;
                    run.phase = Phase::DerivingParams;
                    Action::DeriveParams
                },
                Phase::DerivingParams => {
                    run.workdir.has_parameters = true;
                    run.phase = Phase::RunningStageB;
                    Action::RunStageB(stage_b_args(&run.workdir, &self.prover_config))
                },
                _ => {
                    run.workdir.has_proof = true;
                    run.workdir.promoted = true;
                    run.phase = Phase::Done;
                    store.update(
                        run.job_id,
                        JobStatus::Completed,
                        Some(completed_message(&run.workdir.root)),
                    );
                    self.active = self.active - 1;
                    Action::Finished
                },
            }
        }
    }
}

/// Executable form of [`event_ok`].
fn event_ok_exec(event: Event) -> (r: bool)
    ensures
        r == event_ok(event),
{
    match event {
        Event::InputsWritten(ok) => ok,
        Event::StageAFinished(o) => (o matches StageOutcome::Exited(c) && c == 0),
        Event::ParamsReady(ok) => ok,
        Event::StageBFinished(o) => (o matches StageOutcome::Exited(c) && c == 0),
    }
}

/// Executable form of [`error_of`].
fn error_exec(phase: Phase, event: Event) -> (r: PipelineError)
    ensures
        r == error_of(phase, event),
{
    match phase {
        Phase::WritingInputs => PipelineError::SerializationFailed,
        Phase::RunningStageA => PipelineError::StageExecutionFailed(Stage::TraceGeneration),
        Phase::DerivingParams => PipelineError::ConfigMissing,
        _ => PipelineError::StageExecutionFailed(Stage::ProofGeneration),
    }
}

/// Concurrency bound: in every well-formed dispatcher state, no more
/// pipelines hold an execution slot than the configured pool size; since
/// [`Dispatcher::try_start`] admits a pipeline only below the bound and
/// [`Dispatcher::step`] keeps well-formedness while giving slots back, at no
/// point during any burst of submissions do more than `pool_bound` external
/// processes run at once.
pub proof fn lemma_concurrency_bound(d: Dispatcher)
    requires
        d.wf(),
    ensures
        d.executing() <= d.pool_bound(),
{
}

/// The state shared by the service's request handlers: the job registry and
/// the dispatcher that drives the pipelines.
pub struct AppState {
    pub job_store: JobStore,
    pub dispatcher: Dispatcher,
}

impl AppState {
    /// A fresh service state: an empty registry and an idle dispatcher with
    /// a pool of `bound` slots.
    pub fn new(bound: usize, prover_config: String) -> (s: AppState)
        requires
            bound >= 1,
        ensures
            s.job_store@ =~= Seq::<JobRecord>::empty(),
            s.dispatcher.wf(),
            s.dispatcher.pool_bound() == bound,
            s.dispatcher.executing() == 0,
            s.dispatcher.config_view() == prover_config@,
    {
        AppState { job_store: JobStore::new(), dispatcher: Dispatcher::new(bound, prover_config) }
    }
}

} // verus!
