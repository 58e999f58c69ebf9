use vstd::prelude::*;
use crate::cu_bench::context::{InstructionExecutionContext, TransactionExecutionContext};
use crate::cu_bench::estimate::{
    utc_now_rfc3339, ComputeUnitStats, InstructionBenchmarkResult, StatType,
};

verus! {

/// Why a benchmark run stopped without a result.
#[derive(Debug, Clone, PartialEq, Eq, Structural)]
pub enum BenchmarkError {
    /// Zero measurement passes were requested.
    EmptySampleSet,
    /// The benchmark named no signer to pay for its instruction.
    NoSigners,
    /// The context-discovery simulation failed.
    SimulationFailed,
    /// The measurement pass with this zero-based number failed.
    MeasurementFailed(usize),
    /// An event arrived that the run's phase does not accept.
    OutOfOrder,
}

/// Outcome of benchmarking one transaction workflow.
#[derive(Debug, Clone)]
pub struct TransactionBenchmarkResult {
    pub transaction_name: String,
    pub cu_estimate: ComputeUnitStats,
    pub execution_context: TransactionExecutionContext,
    /// RFC 3339 timestamp of the result.
    pub generated_at: String,
    /// Name and version of the generating library.
    pub generated_by: String,
}

/// Name and version of this library, as `name@version`.
pub fn generated_by() -> (r: String)
    ensures
        r@ == "litesvm_testing@0.1.0"@,
{
    "litesvm_testing@0.1.0".to_owned()
}

/// The account that pays for a benchmarked instruction: the first signer.
pub fn fee_payer(signers: &Vec<[u8; 32]>) -> (r: Result<[u8; 32], BenchmarkError>)
    ensures
        signers@.len() == 0 <==> r is Err,
        r matches Err(e) ==> e == BenchmarkError::NoSigners,
        r matches Ok(payer) ==> payer == signers@[0],
{
    if signers.len() == 0 {
        Err(BenchmarkError::NoSigners)
    } else {
        Ok(signers[0])
    }
}

/// Phase of a benchmark run.
#[derive(Debug, Clone, Copy, PartialEq, Eq, Structural)]
pub enum RunPhase {
    Uninitialized,
    EnvironmentReady,
    ContextDiscovered,
    Measuring,
    Completed,
    Failed,
}

/// What the driver of a run has to do next.
#[derive(Debug, Clone, Copy, PartialEq, Eq, Structural)]
pub enum RunAction {
    /// Create the environment, once.
    SetUpEnvironment,
    /// Simulate one pass to discover the execution context.
    DiscoverContext,
    /// Build a fresh unit of work on a fresh block reference, execute it and
    /// report its cost.
    MeasurePass,
    /// All passes are measured: take the result.
    Finish,
    /// The run failed.
    Abort,
}

/// What the driver reports back.
#[derive(Debug, Clone, Copy, PartialEq, Eq, Structural)]
pub enum RunEvent {
    EnvironmentCreated,
    ContextDiscovered,
    /// An executed pass consumed this many compute units.
    SampleMeasured(u64),
    /// The last action failed.
    ActionFailed,
}

/// Abstract state of a run: phase, requested passes, measured samples.
pub struct RunView {
    pub phase: RunPhase,
    pub sample_count: nat,
    pub samples: Seq<u64>,
}

/// State after `event` arrives in state `v`.
pub open spec fn next_view(v: RunView, event: RunEvent) -> RunView {
    match (v.phase, event) {
        (RunPhase::Uninitialized, RunEvent::EnvironmentCreated) => RunView {
            phase: RunPhase::EnvironmentReady,
            ..v
        },
        (RunPhase::EnvironmentReady, RunEvent::ContextDiscovered) => RunView {
            phase: RunPhase::ContextDiscovered,
            ..v
        },
        (RunPhase::ContextDiscovered, RunEvent::SampleMeasured(cu))
        | (RunPhase::Measuring, RunEvent::SampleMeasured(cu)) => {
            let samples = v.samples.push(cu);
            RunView {
                phase: if samples.len() >= v.sample_count {
                    RunPhase::Completed
                } else {
                    RunPhase::Measuring
                },
                samples,
                ..v
            }
        },
        (RunPhase::Completed, _) => v,
        (RunPhase::Failed, _) => v,
        _ => RunView { phase: RunPhase::Failed, ..v },
    }
}

/// State after the events arrive in order, starting from `v`.
pub open spec fn replay(v: RunView, events: Seq<RunEvent>) -> RunView
    decreases events.len(),
{
    if events.len() == 0 {
        v
    } else {
        next_view(replay(v, events.drop_last()), events.last())
    }
}

/// Fresh run that is to measure `n` passes.
pub open spec fn initial_view(n: nat) -> RunView {
    RunView { phase: RunPhase::Uninitialized, sample_count: n, samples: Seq::empty() }
}

/// Action asked for in phase `phase`.
pub open spec fn action_of(phase: RunPhase) -> RunAction {
    match phase {
        RunPhase::Uninitialized => RunAction::SetUpEnvironment,
        RunPhase::EnvironmentReady => RunAction::DiscoverContext,
        RunPhase::ContextDiscovered => RunAction::MeasurePass,
        RunPhase::Measuring => RunAction::MeasurePass,
        RunPhase::Completed => RunAction::Finish,
        RunPhase::Failed => RunAction::Abort,
    }
}

/// Decisions of one benchmark run: set up once, discover the context once, then
/// measure the requested number of passes in order; any failure ends the run.
pub struct BenchmarkRun {
    phase: RunPhase,
    sample_count: usize,
    samples: Vec<u64>,
}

impl BenchmarkRun {
    /// Samples never outnumber the requested passes, and a completed run has
    /// all of them.
    pub closed spec fn well_formed(&self) -> bool {
        &&& self.sample_count > 0
        &&& self.samples@.len() <= self.sample_count
        &&& self.phase == RunPhase::Completed <==> self.samples@.len() == self.sample_count
        &&& (self.phase == RunPhase::Uninitialized || self.phase == RunPhase::EnvironmentReady
            || self.phase == RunPhase::ContextDiscovered) ==> self.samples@.len() == 0
    }

    /// A run of `sample_count` measurement passes; none is a configuration error.
    pub fn new(sample_count: usize) -> (r: Result<Self, BenchmarkError>)
        ensures
            sample_count == 0 <==> r is Err,
            r matches Err(e) ==> e == BenchmarkError::EmptySampleSet,
            r matches Ok(run) ==> run@ == initial_view(sample_count as nat) && run.well_formed(),
    {
        if sample_count == 0 {
            Err(BenchmarkError::EmptySampleSet)
        } else {
            Ok(BenchmarkRun { phase: RunPhase::Uninitialized, sample_count, samples: Vec::new() })
        }
    }

    /// Current phase.
    pub fn phase(&self) -> (r: RunPhase)
        ensures
            r == self@.phase,
    {
        self.phase
    }

    /// Number of measured samples.
    pub fn measured(&self) -> (r: usize)
        ensures
            r == self@.samples.len(),
    {
        self.samples.len()
    }

    /// What the driver has to do next.
    pub fn next_action(&self) -> (r: RunAction)
        ensures
            r == action_of(self@.phase),
    {
        match self.phase {
            RunPhase::Uninitialized => RunAction::SetUpEnvironment,
            RunPhase::EnvironmentReady => RunAction::DiscoverContext,
            RunPhase::ContextDiscovered => RunAction::MeasurePass,
            RunPhase::Measuring => RunAction::MeasurePass,
            RunPhase::Completed => RunAction::Finish,
            RunPhase::Failed => RunAction::Abort,
        }
    }

    /// Takes in what the last action gave.
    pub fn handle(&mut self, event: RunEvent)
        requires
            old(self).well_formed(),
        ensures
            final(self).well_formed(),
            final(self)@ == next_view(old(self)@, event),
    {
        match (self.phase, event) {
            (RunPhase::Uninitialized, RunEvent::EnvironmentCreated) => {
                self.phase = RunPhase::EnvironmentReady;
            },
            (RunPhase::EnvironmentReady, RunEvent::ContextDiscovered) => {
                self.phase = RunPhase::ContextDiscovered;
            },
            (RunPhase::ContextDiscovered, RunEvent::SampleMeasured(cu))
            | (RunPhase::Measuring, RunEvent::SampleMeasured(cu)) => {
                self.samples.push(cu);
                if self.samples.len() >= self.sample_count {
                    self.phase = RunPhase::Completed;
                } else {
                    self.phase = RunPhase::Measuring;
                }
            },
            (RunPhase::Completed, _) => {},
            (RunPhase::Failed, _) => {},
            _ => {
                self.phase = RunPhase::Failed;
            },
        }
    }

    /// Statistics of the measured samples, once every pass is measured.
    pub fn statistics(&self, stat_type: StatType) -> (r: Option<ComputeUnitStats>)
        requires
            self.well_formed(),
        ensures
            self@.phase == RunPhase::Completed <==> r is Some,
            r matches Some(stats) ==> stats.stat_type == stat_type && stats.describes(
                self@.samples,
            ) && stats.sample_size == self@.sample_count,
    {
        if self.phase == RunPhase::Completed {
            Some(ComputeUnitStats::from_measurements(stat_type, self.samples.as_slice()))
        } else {
            None
        }
    }
}

impl BenchmarkRun {
    /// The result of a completed run of an instruction benchmark.
    pub fn instruction_result(
        &self,
        instruction_name: String,
        execution_context: InstructionExecutionContext,
    ) -> (r: Option<InstructionBenchmarkResult>)
        requires
            self.well_formed(),
        ensures
            self@.phase == RunPhase::Completed <==> r is Some,
            r matches Some(res) ==> {
                &&& res.instruction_name == instruction_name
                &&& res.cu_estimate.stat_type == StatType::Instruction(instruction_name)
                &&& res.cu_estimate.describes(self@.samples)
                &&& res.cu_estimate.sample_size == self@.sample_count
                &&& res.execution_context == execution_context
                &&& res.generated_by@ == "litesvm_testing@0.1.0"@
            },
    {
        let stat_type = StatType::Instruction(instruction_name.clone());
        match self.statistics(stat_type) {
            Some(cu_estimate) => Some(
                InstructionBenchmarkResult {
                    instruction_name,
                    cu_estimate,
                    execution_context,
                    generated_at: utc_now_rfc3339(),
                    generated_by: generated_by(),
                },
            ),
            None => None,
        }
    }

    /// The result of a completed run of a transaction benchmark.
    pub fn transaction_result(
        &self,
        transaction_name: String,
        execution_context: TransactionExecutionContext,
    ) -> (r: Option<TransactionBenchmarkResult>)
        requires
            self.well_formed(),
        ensures
            self@.phase == RunPhase::Completed <==> r is Some,
            r matches Some(res) ==> {
                &&& res.transaction_name == transaction_name
                &&& res.cu_estimate.stat_type == StatType::Transaction(transaction_name)
                &&& res.cu_estimate.describes(self@.samples)
                &&& res.cu_estimate.sample_size == self@.sample_count
                &&& res.execution_context == execution_context
                &&& res.generated_by@ == "litesvm_testing@0.1.0"@
            },
    {
        let stat_type = StatType::Transaction(transaction_name.clone());
        match self.statistics(stat_type) {
            Some(cu_estimate) => Some(
                TransactionBenchmarkResult {
                    transaction_name,
                    cu_estimate,
                    execution_context,
                    generated_at: utc_now_rfc3339(),
                    generated_by: generated_by(),
                },
            ),
            None => None,
        }
    }
}

impl View for BenchmarkRun {
    type V = RunView;

    closed spec fn view(&self) -> RunView {
        RunView {
            phase: self.phase,
            sample_count: self.sample_count as nat,
            samples: self.samples@,
        }
    }
}

/// Events of a full run that measures `samples`: setup, one discovery, then one
/// event per measured pass.
pub open spec fn full_run_events(samples: Seq<u64>) -> Seq<RunEvent> {
    seq![RunEvent::EnvironmentCreated, RunEvent::ContextDiscovered] + samples.map_values(
        |cu: u64| RunEvent::SampleMeasured(cu),
    )
}

proof fn lemma_run_prefix(n: nat, samples: Seq<u64>, k: nat)
    requires
        n > 0,
        samples.len() == n,
        k <= n,
    ensures
        replay(initial_view(n), full_run_events(samples).subrange(0, k + 2 as int)) == (RunView {
            phase: if k == 0 {
                RunPhase::ContextDiscovered
            } else if k < n {
                RunPhase::Measuring
            } else {
                RunPhase::Completed
            },
            sample_count: n,
            samples: samples.subrange(0, k as int),
        }),
    decreases k,
{
    let events = full_run_events(samples);
    if k == 0 {
        let two = events.subrange(0, 2);
        assert(two.drop_last().drop_last() =~= Seq::<RunEvent>::empty());
        assert(two.drop_last().last() == RunEvent::EnvironmentCreated);
        assert(two.last() == RunEvent::ContextDiscovered);
        assert(samples.subrange(0, 0) =~= Seq::<u64>::empty());
        let v = initial_view(n);
        assert(replay(v, two.drop_last().drop_last()) == v);
        assert(replay(v, two.drop_last()) == next_view(v, RunEvent::EnvironmentCreated));
        assert(replay(v, two) == next_view(
            next_view(v, RunEvent::EnvironmentCreated),
            RunEvent::ContextDiscovered,
        ));
    } else {
        lemma_run_prefix(n, samples, (k - 1) as nat);
        let prefix = events.subrange(0, k + 2 as int);
        assert(prefix.drop_last() =~= events.subrange(0, k + 1 as int));
        assert(prefix.last() == RunEvent::SampleMeasured(samples[k - 1]));
        assert(replay(initial_view(n), prefix) == next_view(
            replay(initial_view(n), events.subrange(0, k + 1 as int)),
            RunEvent::SampleMeasured(samples[k - 1]),
        ));
        assert(samples.subrange(0, k - 1).push(samples[k - 1]) =~= samples.subrange(0, k as int));
    }
}

/// A run asked for `n` passes that is set up, discovers its context once and then
/// measures `n` passes ends completed with exactly those `n` samples: the
/// simulated discovery pass is not among them, and the statistics count `n`.
pub proof fn lemma_full_run_sample_count(n: nat, samples: Seq<u64>)
    requires
        n > 0,
        samples.len() == n,
    ensures
        replay(initial_view(n), full_run_events(samples)) == (RunView {
            phase: RunPhase::Completed,
            sample_count: n,
            samples,
        }),
        forall|stats: ComputeUnitStats| #[trigger] stats.describes(samples) ==> stats.sample_size
            == n,
{
    lemma_run_prefix(n, samples, n);
    assert(full_run_events(samples).subrange(0, n + 2 as int) =~= full_run_events(samples));
    assert(samples.subrange(0, n as int) =~= samples);
}

} // verus!
