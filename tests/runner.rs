use litesvm_testing::cu_bench::context::{
    build_instruction_context, build_transaction_context, MessageSummary, SVMContext,
    SimulationSummary,
};
use litesvm_testing::cu_bench::estimate::StatType;
use litesvm_testing::cu_bench::runner::{
    fee_payer, generated_by, BenchmarkError, BenchmarkRun, RunAction, RunEvent, RunPhase,
};

fn sample_context() -> (SVMContext, MessageSummary, SimulationSummary) {
    (
        SVMContext {
            current_slot: 1,
            latest_blockhash: [0u8; 32],
        },
        MessageSummary {
            account_keys: vec![[1u8; 32], [2u8; 32]],
            program_id_indices: vec![1],
        },
        SimulationSummary {
            inner_program_id_indices: vec![],
            logs: vec![],
            compute_units_consumed: 150,
        },
    )
}

#[test]
fn zero_samples_is_a_configuration_error() {
    assert!(matches!(
        BenchmarkRun::new(0),
        Err(BenchmarkError::EmptySampleSet)
    ));
}

#[test]
fn no_signer_is_a_configuration_error() {
    assert_eq!(fee_payer(&vec![]), Err(BenchmarkError::NoSigners));
    assert_eq!(fee_payer(&vec![[4u8; 32], [5u8; 32]]), Ok([4u8; 32]));
}

#[test]
fn full_run_counts_only_measured_passes() {
    let n = 5usize;
    let mut run = BenchmarkRun::new(n).unwrap();
    assert_eq!(run.next_action(), RunAction::SetUpEnvironment);
    run.handle(RunEvent::EnvironmentCreated);
    assert_eq!(run.next_action(), RunAction::DiscoverContext);
    run.handle(RunEvent::ContextDiscovered);
    assert_eq!(run.phase(), RunPhase::ContextDiscovered);
    for cu in [300u64, 100, 500, 200, 400] {
        assert_eq!(run.next_action(), RunAction::MeasurePass);
        run.handle(RunEvent::SampleMeasured(cu));
    }
    assert_eq!(run.phase(), RunPhase::Completed);
    assert_eq!(run.next_action(), RunAction::Finish);
    assert_eq!(run.measured(), n);

    let stats = run
        .statistics(StatType::Instruction("x".to_string()))
        .unwrap();
    assert_eq!(stats.sample_size, n);
    assert_eq!(stats.min, 100);
    assert_eq!(stats.balanced, 300);
    assert_eq!(stats.unsafe_max, 500);

    let (svm, message, sim) = sample_context();
    let ctx = build_instruction_context(svm, &message, &sim, &vec![]);
    let result = run.instruction_result("sol_transfer".to_string(), ctx).unwrap();
    assert_eq!(result.instruction_name, "sol_transfer");
    assert_eq!(result.cu_estimate.sample_size, n);
    assert_eq!(result.generated_by, "litesvm_testing@0.1.0");
    assert!(result.generated_at.contains('T'));
    assert!(matches!(
        result.cu_estimate.stat_type,
        StatType::Instruction(ref name) if name == "sol_transfer"
    ));

    let tctx = build_transaction_context(svm, &message, &sim, "flow".to_string(), &vec![]);
    let tresult = run.transaction_result("flow".to_string(), tctx).unwrap();
    assert_eq!(tresult.transaction_name, "flow");
    assert_eq!(tresult.cu_estimate.sample_size, n);
}

#[test]
fn failed_pass_aborts_the_run() {
    let mut run = BenchmarkRun::new(3).unwrap();
    run.handle(RunEvent::EnvironmentCreated);
    run.handle(RunEvent::ContextDiscovered);
    run.handle(RunEvent::SampleMeasured(10));
    run.handle(RunEvent::ActionFailed);
    assert_eq!(run.phase(), RunPhase::Failed);
    assert_eq!(run.next_action(), RunAction::Abort);
    run.handle(RunEvent::SampleMeasured(10));
    run.handle(RunEvent::SampleMeasured(10));
    assert_eq!(run.phase(), RunPhase::Failed);
    assert!(run
        .statistics(StatType::Transaction("t".to_string()))
        .is_none());
}

#[test]
fn measuring_before_discovery_fails() {
    let mut run = BenchmarkRun::new(1).unwrap();
    run.handle(RunEvent::EnvironmentCreated);
    run.handle(RunEvent::SampleMeasured(10));
    assert_eq!(run.phase(), RunPhase::Failed);
    assert_eq!(run.measured(), 0);
}

#[test]
fn generator_identity() {
    assert_eq!(generated_by(), "litesvm_testing@0.1.0");
}
