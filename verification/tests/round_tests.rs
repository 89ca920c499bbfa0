use std::sync::atomic::AtomicU64;
use std::sync::atomic::Ordering;

use grrs::counter::CompletionCounter;
use grrs::monitor::ProgressMonitor;
use grrs::plan::even_plan;
use grrs::plan::round_is_valid;
use grrs::plan::sampled_plan;
use grrs::round::run_round;
use grrs::round::run_two_rounds;
use rayon::iter::IntoParallelRefIterator;
use rayon::iter::ParallelIterator;

#[test]
fn even_plan_divides_one_hundred_over_ten_workers() {
    let plan = even_plan(100, 10);
    assert_eq!(plan.expected_total, 100);
    assert_eq!(plan.assignments, vec![10; 10]);
}

#[test]
fn even_plan_gives_the_remainder_to_the_last_worker() {
    let plan = even_plan(10, 3);
    assert_eq!(plan.assignments, vec![3, 3, 4]);
    assert_eq!(plan.expected_total, 10);
}

#[test]
fn even_plan_with_one_worker_assigns_everything() {
    let plan = even_plan(42, 1);
    assert_eq!(plan.assignments, vec![42]);
    assert_eq!(plan.expected_total, 42);
}

#[test]
fn sampled_plan_sums_its_assignments() {
    let plan = sampled_plan(10, 7, 11);
    assert_eq!(plan.assignments.len(), 10);
    let sum: u64 = plan.assignments.iter().sum();
    assert_eq!(plan.expected_total, sum);
    assert!(70 <= plan.expected_total && plan.expected_total <= 110);
    for assignment in &plan.assignments {
        assert!(7 <= *assignment && *assignment <= 11);
    }
}

#[test]
fn sequential_round_lands_exactly_on_the_expected_total() {
    for workers in [1usize, 2, 10, 64] {
        let plan = even_plan(100, workers);
        let mut counter = CompletionCounter::new();
        run_round(&plan, &mut counter);
        assert_eq!(counter.read(), plan.expected_total);
        assert!(round_is_valid(plan.expected_total, counter.read()));
    }
}

#[test]
fn sequential_round_with_sampled_assignments_lands_on_its_total() {
    let plan = sampled_plan(10, 7, 11);
    let mut counter = CompletionCounter::new();
    run_round(&plan, &mut counter);
    assert_eq!(counter.read(), plan.expected_total);
}

#[test]
fn two_rounds_do_not_leak_state_into_each_other() {
    let first = even_plan(30, 3);
    let second = even_plan(50, 5);
    let (first_total, second_total) = run_two_rounds(&first, &second);
    assert_eq!(first_total, 30);
    assert_eq!(second_total, 50);
}

#[test]
fn parallel_round_of_ten_sampled_workers_lands_on_its_total() {
    let plan = sampled_plan(10, 7, 11);
    let counter = AtomicU64::new(0);
    plan.assignments.par_iter().for_each(|assignment| {
        for _ in 0..*assignment {
            counter.fetch_add(1, Ordering::SeqCst);
        }
    });
    let observed = counter.load(Ordering::SeqCst);
    assert!(round_is_valid(plan.expected_total, observed));
    assert_eq!(observed, plan.expected_total);
}

#[test]
fn parallel_rounds_land_on_their_totals_for_many_worker_counts() {
    for workers in [1usize, 2, 10, 64] {
        let plan = even_plan(128, workers);
        let counter = AtomicU64::new(0);
        plan.assignments.par_iter().for_each(|assignment| {
            for _ in 0..*assignment {
                counter.fetch_add(1, Ordering::SeqCst);
            }
        });
        assert_eq!(counter.load(Ordering::SeqCst), plan.expected_total);
    }
}

#[test]
fn round_validation_accepts_only_the_exact_total() {
    assert!(round_is_valid(95, 95));
    assert!(!round_is_valid(95, 94));
    assert!(!round_is_valid(95, 96));
    assert!(round_is_valid(0, 0));
}

#[test]
fn monitor_position_never_decreases_and_never_passes_the_total() {
    let mut monitor = ProgressMonitor::new(10);
    let polls = [0u64, 2, 2, 5, 9, 10, 12];
    let mut previous_position = 0u64;
    for seen in polls {
        let complete = monitor.observe(seen);
        assert!(monitor.position >= previous_position);
        assert!(monitor.position <= 10);
        assert_eq!(complete, seen >= 10);
        previous_position = monitor.position;
    }
    assert_eq!(monitor.position, 10);
}

#[test]
fn monitor_reports_completion_on_the_first_poll_at_the_total() {
    let mut monitor = ProgressMonitor::new(5);
    assert!(!monitor.observe(4));
    assert!(monitor.observe(5));
}

#[test]
fn monitor_clamps_an_overshot_tally_but_validation_catches_it() {
    let mut monitor = ProgressMonitor::new(5);
    let complete = monitor.observe(7);
    assert!(complete);
    assert_eq!(monitor.position, 5);
    assert!(!round_is_valid(5, 7));
}

#[test]
fn monitor_drives_a_counter_to_completion() {
    let plan = even_plan(12, 4);
    let mut counter = CompletionCounter::new();
    let mut monitor = ProgressMonitor::new(plan.expected_total);
    let mut finished = monitor.observe(counter.read());
    assert!(!finished);
    while !finished {
        counter.increment();
        finished = monitor.observe(counter.read());
    }
    assert_eq!(counter.read(), plan.expected_total);
    assert_eq!(monitor.position, plan.expected_total);
}

#[test]
fn ten_workers_drawn_from_seven_to_eleven_complete_exactly_their_sum() {
    let plan = sampled_plan(10, 7, 11);
    let expected = plan.expected_total;
    let mut counter = CompletionCounter::new();
    run_round(&plan, &mut counter);
    let mut monitor = ProgressMonitor::new(expected);
    let complete = monitor.observe(counter.read());
    assert!(complete);
    assert_eq!(counter.read(), expected);
    assert!(round_is_valid(expected, counter.read()));
}

#[test]
fn processing_a_precomputed_delay_sequence_completes_every_item() {
    let delays = grrs::sampling::sample_many(100, 100, 1000);
    let mut counter = CompletionCounter::new();
    grrs::round::process_delays(&delays, &mut counter);
    assert_eq!(counter.read(), 100);
}
