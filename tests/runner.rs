use seedling::runner::{RunAction, Runner, SeedOutcome};

#[test]
fn runner_stops_at_the_second_of_three() {
    let (mut runner, first) = Runner::start::<String>(3);
    assert_eq!(first, RunAction::Seed(0));
    let second = runner.on_outcome(SeedOutcome::<String>::Seeded);
    assert_eq!(second, RunAction::Seed(1));
    let last = runner.on_outcome(SeedOutcome::Failed("constraint".to_string()));
    assert_eq!(last, RunAction::Fail("constraint".to_string()));
    assert!(runner.is_finished());
}

#[test]
fn runner_succeeds_after_every_seed() {
    let (mut runner, first) = Runner::start::<String>(2);
    assert_eq!(first, RunAction::Seed(0));
    assert_eq!(runner.on_outcome(SeedOutcome::<String>::Seeded), RunAction::Seed(1));
    assert!(!runner.is_finished());
    assert_eq!(runner.on_outcome(SeedOutcome::<String>::Seeded), RunAction::Done);
    assert!(runner.is_finished());
}

#[test]
fn empty_batch_is_done_at_once() {
    let (runner, first) = Runner::start::<String>(0);
    assert_eq!(first, RunAction::Done);
    assert!(runner.is_finished());
}
