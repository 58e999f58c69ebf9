use litesvm_testing::cu_bench::estimate::{
    ComputeUnitDatabase, ComputeUnitLevel, ComputeUnitStats, StatType,
};
use litesvm_testing::cu_bench::{ComputeUnitEstimate, CuLevel};

#[test]
fn test_percentiles_simple_case() {
    let measurements: Vec<u64> = (1..=100).collect();
    let stats = ComputeUnitStats::from_measurements(
        StatType::Instruction("test".to_string()),
        &measurements,
    );

    assert_eq!(stats.min, 1);
    assert_eq!(stats.conservative, 25);
    assert_eq!(stats.balanced, 50);
    assert_eq!(stats.safe, 75);
    assert_eq!(stats.very_high, 95);
    assert_eq!(stats.unsafe_max, 100);
    assert_eq!(stats.sample_size, 100);
}

#[test]
fn test_percentiles_small_dataset() {
    let measurements = vec![10, 20, 30, 40];
    let stats = ComputeUnitStats::from_measurements(
        StatType::Transaction("small_test".to_string()),
        &measurements,
    );

    assert_eq!(stats.min, 10);
    assert_eq!(stats.conservative, 10);
    assert_eq!(stats.balanced, 20);
    assert_eq!(stats.safe, 30);
    assert_eq!(stats.very_high, 30);
    assert_eq!(stats.unsafe_max, 40);
    assert_eq!(stats.sample_size, 4);
}

#[test]
fn test_percentiles_single_value() {
    let measurements = vec![42];
    let stats = ComputeUnitStats::from_measurements(
        StatType::Instruction("single".to_string()),
        &measurements,
    );

    assert_eq!(stats.min, 42);
    assert_eq!(stats.conservative, 42);
    assert_eq!(stats.balanced, 42);
    assert_eq!(stats.safe, 42);
    assert_eq!(stats.very_high, 42);
    assert_eq!(stats.unsafe_max, 42);
    assert_eq!(stats.sample_size, 1);
}

#[test]
fn test_percentiles_duplicate_values() {
    let measurements = vec![5, 5, 5, 10, 10, 15, 20, 20, 20, 20];
    let stats = ComputeUnitStats::from_measurements(
        StatType::Transaction("duplicates".to_string()),
        &measurements,
    );

    assert_eq!(stats.min, 5);
    assert_eq!(stats.conservative, 5);
    assert_eq!(stats.balanced, 10);
    assert_eq!(stats.safe, 20);
    assert_eq!(stats.very_high, 20);
    assert_eq!(stats.unsafe_max, 20);
    assert_eq!(stats.sample_size, 10);
}

#[test]
fn test_percentiles_unsorted_input() {
    let measurements = vec![100, 10, 50, 30, 80, 20, 90, 40, 70, 60];
    let stats = ComputeUnitStats::from_measurements(
        StatType::Instruction("unsorted".to_string()),
        &measurements,
    );

    assert_eq!(stats.min, 10);
    assert_eq!(stats.conservative, 30);
    assert_eq!(stats.balanced, 50);
    assert_eq!(stats.safe, 70);
    assert_eq!(stats.very_high, 90);
    assert_eq!(stats.unsafe_max, 100);
    assert_eq!(stats.sample_size, 10);
}

#[test]
fn test_get_cu_for_level() {
    let measurements = vec![10, 20, 30, 40, 50];
    let stats = ComputeUnitStats::from_measurements(
        StatType::Instruction("level_test".to_string()),
        &measurements,
    );

    assert_eq!(stats.get_cu_for_level(ComputeUnitLevel::Min), stats.min);
    assert_eq!(
        stats.get_cu_for_level(ComputeUnitLevel::Conservative),
        stats.conservative
    );
    assert_eq!(
        stats.get_cu_for_level(ComputeUnitLevel::Balanced),
        stats.balanced
    );
    assert_eq!(stats.get_cu_for_level(ComputeUnitLevel::Safe), stats.safe);
    assert_eq!(
        stats.get_cu_for_level(ComputeUnitLevel::VeryHigh),
        stats.very_high
    );
    assert_eq!(
        stats.get_cu_for_level(ComputeUnitLevel::UnsafeMax),
        stats.unsafe_max
    );
    assert_eq!(stats.get_cu_for_level(ComputeUnitLevel::Custom(999)), 999);

    // Multiplier of two: twice the balanced estimate.
    let expected_multiplied = (stats.balanced as f32 * 2.0) as u64;
    assert_eq!(
        stats.get_cu_for_level(ComputeUnitLevel::Multiplier(2, 1)),
        expected_multiplied
    );
}

#[test]
fn multiplier_rounds_down() {
    let stats = ComputeUnitStats::from_measurements(
        StatType::Instruction("round".to_string()),
        &[7, 7, 7],
    );
    // 7 * 1.5 = 10.5
    assert_eq!(stats.get_cu_for_level(ComputeUnitLevel::Multiplier(3, 2)), 10);
    // 7 * 0.3 = 2.1
    assert_eq!(stats.get_cu_for_level(ComputeUnitLevel::Multiplier(3, 10)), 2);
    assert_eq!(stats.get_cu_for_level(ComputeUnitLevel::Multiplier(0, 5)), 0);
}

#[test]
fn multiplier_saturates_at_u64_max() {
    let stats = ComputeUnitStats::from_measurements(
        StatType::Instruction("huge".to_string()),
        &[u64::MAX],
    );
    assert_eq!(stats.balanced, u64::MAX);
    assert_eq!(
        stats.get_cu_for_level(ComputeUnitLevel::Multiplier(3, 1)),
        u64::MAX
    );
    assert_eq!(
        stats.get_cu_for_level(ComputeUnitLevel::Multiplier(1, 2)),
        u64::MAX / 2
    );
}

#[test]
fn custom_level_ignores_samples() {
    for samples in [vec![1u64], vec![5, 9, 200], vec![1000; 17]] {
        let stats =
            ComputeUnitStats::from_measurements(StatType::Instruction("c".to_string()), &samples);
        assert_eq!(stats.get_cu_for_level(ComputeUnitLevel::Custom(12345)), 12345);
        assert_eq!(stats.get_cu_for_level(ComputeUnitLevel::Custom(0)), 0);
    }
}

#[test]
fn sorted_input_extremes_are_first_and_last() {
    let samples = vec![3u64, 3, 8, 21, 400, 401];
    let stats =
        ComputeUnitStats::from_measurements(StatType::Instruction("s".to_string()), &samples);
    assert_eq!(stats.min, samples[0]);
    assert_eq!(stats.unsafe_max, samples[samples.len() - 1]);
}

#[test]
fn percentiles_are_samples() {
    let samples = vec![17u64, 4, 99, 4, 23, 61, 8];
    let stats =
        ComputeUnitStats::from_measurements(StatType::Transaction("m".to_string()), &samples);
    for v in [
        stats.min,
        stats.conservative,
        stats.balanced,
        stats.safe,
        stats.very_high,
        stats.unsafe_max,
    ] {
        assert!(samples.contains(&v));
    }
}

#[test]
fn permuted_input_gives_same_statistics() {
    let a = vec![9u64, 1, 5, 7, 3, 3, 12];
    let b = vec![3u64, 12, 7, 1, 9, 3, 5];
    let sa = ComputeUnitStats::from_measurements(StatType::Instruction("a".to_string()), &a);
    let sb = ComputeUnitStats::from_measurements(StatType::Instruction("b".to_string()), &b);
    assert_eq!(
        (sa.min, sa.conservative, sa.balanced, sa.safe, sa.very_high, sa.unsafe_max),
        (sb.min, sb.conservative, sb.balanced, sb.safe, sb.very_high, sb.unsafe_max)
    );
    assert_eq!(sa.sample_size, sb.sample_size);
}

#[test]
fn database_lookup_by_name() {
    let mut db = ComputeUnitDatabase::new();
    assert!(db.get_estimate("sol_transfer").is_none());
    assert_eq!(db.get_cu_estimate("sol_transfer", ComputeUnitLevel::Balanced), None);

    let stats = ComputeUnitStats::from_measurements(
        StatType::Instruction("sol_transfer".to_string()),
        &[150, 150, 300],
    );
    db.insert("sol_transfer".to_string(), stats);
    assert_eq!(db.get_estimate("sol_transfer").unwrap().unsafe_max, 300);
    assert_eq!(
        db.get_cu_estimate("sol_transfer", ComputeUnitLevel::Balanced),
        Some(150)
    );
    assert_eq!(
        db.get_cu_estimate("sol_transfer", ComputeUnitLevel::Multiplier(2, 1)),
        Some(300)
    );
    assert_eq!(db.get_cu_estimate("spl_transfer", ComputeUnitLevel::Min), None);

    // Inserting under the same name replaces the entry.
    let newer = ComputeUnitStats::from_measurements(
        StatType::Instruction("sol_transfer".to_string()),
        &[90],
    );
    db.insert("sol_transfer".to_string(), newer);
    assert_eq!(db.estimates.len(), 1);
    assert_eq!(db.get_cu_estimate("sol_transfer", ComputeUnitLevel::Safe), Some(90));
    assert!(!db.generated_at.is_empty());
    assert!(ComputeUnitDatabase::default().estimates.is_empty());
}

#[test]
fn estimate_record_uses_the_same_indexing() {
    let est = ComputeUnitEstimate::from_measurements(
        "small".to_string(),
        &[40, 10, 30, 20],
        vec!["litesvm".to_string()],
    );
    assert_eq!(est.min, 10);
    assert_eq!(est.conservative, 10);
    assert_eq!(est.balanced, 20);
    assert_eq!(est.safe, 30);
    assert_eq!(est.very_high, 30);
    assert_eq!(est.unsafe_max, 40);
    assert_eq!(est.sample_size, 4);
    assert_eq!(est.environments, vec!["litesvm".to_string()]);
    assert_eq!(est.get_cu_for_level(CuLevel::Safe), 30);
    assert_eq!(est.get_cu_for_level(CuLevel::Custom(7)), 7);
    assert_eq!(est.get_cu_for_level(CuLevel::Multiplier(5, 2)), 50);

    let mut db = litesvm_testing::cu_bench::ComputeUnitDatabase::new();
    assert_eq!(db.get_cu_estimate("small", CuLevel::Min), None);
    db.estimates.push(("small".to_string(), est));
    assert_eq!(db.get_cu_estimate("small", CuLevel::UnsafeMax), Some(40));
    assert_eq!(db.get_estimate("small").unwrap().balanced, 20);
}
