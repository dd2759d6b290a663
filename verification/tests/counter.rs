use primer::concepts::concurrency::{
    join, run_inline_counter, spawn_counter, Action, Counter, Joined, Notice, Origin, Phase,
};

fn notices(actions: &[Action]) -> Vec<Notice> {
    actions
        .iter()
        .map(|action| match action {
            Action::Emit { notice, .. } => *notice,
            Action::Stop => panic!("a run holds announcements only"),
        })
        .collect()
}

fn numbers(actions: &[Action]) -> Vec<i32> {
    notices(actions).iter().map(|n| n.number).collect()
}

fn pauses(actions: &[Action]) -> Vec<u64> {
    actions
        .iter()
        .map(|action| match action {
            Action::Emit { pause_millis, .. } => *pause_millis,
            Action::Stop => panic!("a run holds announcements only"),
        })
        .collect()
}

#[test]
fn spawned_unit_emits_one_notice_for_each_integer() {
    let mut unit = spawn_counter(1, 10, 1);
    assert_eq!(unit.total(), 9);
    let actions = unit.run();
    assert_eq!(numbers(&actions), vec![1, 2, 3, 4, 5, 6, 7, 8, 9]);
    assert!(notices(&actions).iter().all(|n| n.origin == Origin::Spawned));
    assert_eq!(pauses(&actions), vec![1; 9]);
    assert_eq!(unit.emitted(), 9);
    assert_eq!(unit.phase(), Phase::Completed);
}

#[test]
fn inline_counter_runs_to_its_end() {
    let actions = run_inline_counter(1, 5, 1);
    assert_eq!(numbers(&actions), vec![1, 2, 3, 4]);
    assert!(notices(&actions).iter().all(|n| n.origin == Origin::Main));
    assert_eq!(pauses(&actions), vec![1; 4]);
    assert_eq!(pauses(&run_inline_counter(0, 2, 250)), vec![250, 250]);
}

#[test]
fn step_emits_then_stops() {
    let mut unit = spawn_counter(3, 5, 20);
    assert_eq!(unit.origin(), Origin::Spawned);
    assert_eq!(unit.phase(), Phase::Running);
    assert_eq!(unit.emitted(), 0);
    assert_eq!(
        unit.step(),
        Action::Emit { notice: Notice { origin: Origin::Spawned, number: 3 }, pause_millis: 20 }
    );
    assert_eq!(unit.emitted(), 1);
    assert_eq!(
        unit.step(),
        Action::Emit { notice: Notice { origin: Origin::Spawned, number: 4 }, pause_millis: 20 }
    );
    assert_eq!(unit.emitted(), 2);
    assert_eq!(unit.phase(), Phase::Running);
    assert_eq!(unit.step(), Action::Stop);
    assert_eq!(unit.phase(), Phase::Completed);
    assert_eq!(unit.step(), Action::Stop);
    assert_eq!(unit.emitted(), 2);
    assert_eq!(unit.phase(), Phase::Completed);
}

#[test]
fn empty_interval_emits_nothing() {
    let mut unit = Counter::new(Origin::Main, 5, 5, 1);
    assert_eq!(unit.total(), 0);
    assert_eq!(unit.step(), Action::Stop);
    assert_eq!(unit.phase(), Phase::Completed);
    assert_eq!(unit.emitted(), 0);
    assert!(run_inline_counter(5, 5, 1).is_empty());
}

#[test]
fn reversed_interval_emits_nothing() {
    let mut unit = spawn_counter(10, 1, 1);
    assert_eq!(unit.total(), 0);
    assert!(unit.run().is_empty());
    assert_eq!(unit.phase(), Phase::Completed);
    assert_eq!(join(&unit), Joined::Finished { messages: 0 });
    assert!(run_inline_counter(7, -7, 0).is_empty());
}

#[test]
fn interval_at_the_upper_limit() {
    let mut unit = spawn_counter(i32::MAX - 2, i32::MAX, 0);
    assert_eq!(numbers(&unit.run()), vec![i32::MAX - 2, i32::MAX - 1]);
    assert_eq!(unit.phase(), Phase::Completed);
}

#[test]
fn interval_at_the_lower_limit() {
    let actions = run_inline_counter(i32::MIN, i32::MIN + 3, 0);
    assert_eq!(numbers(&actions), vec![i32::MIN, i32::MIN + 1, i32::MIN + 2]);
}

#[test]
fn total_of_the_widest_interval() {
    let unit = spawn_counter(i32::MIN, i32::MAX, 0);
    assert_eq!(unit.total(), 4_294_967_295);
    assert_eq!(unit.emitted(), 0);
}

#[test]
fn run_resumes_where_stepping_stopped() {
    let mut unit = spawn_counter(-2, 3, 1);
    unit.step();
    unit.step();
    assert_eq!(numbers(&unit.run()), vec![0, 1, 2]);
    assert_eq!(unit.emitted(), 5);
    assert!(unit.run().is_empty());
    assert_eq!(unit.emitted(), 5);
}

#[test]
fn join_waits_until_the_unit_has_completed() {
    let mut unit = spawn_counter(1, 4, 1);
    assert_eq!(join(&unit), Joined::Pending);
    unit.step();
    assert_eq!(join(&unit), Joined::Pending);
    unit.step();
    unit.step();
    assert_eq!(unit.emitted(), 3);
    assert_eq!(join(&unit), Joined::Pending);
    assert_eq!(unit.step(), Action::Stop);
    assert_eq!(join(&unit), Joined::Finished { messages: 3 });
    assert_eq!(join(&unit), Joined::Finished { messages: 3 });
}

#[test]
fn join_fails_on_an_aborted_unit() {
    let mut unit = spawn_counter(1, 10, 1);
    unit.step();
    unit.fail();
    assert_eq!(unit.phase(), Phase::Aborted);
    assert_eq!(join(&unit), Joined::Failed);
    assert_eq!(unit.step(), Action::Stop);
    assert_eq!(unit.emitted(), 1);
    assert!(unit.run().is_empty());
    assert_eq!(join(&unit), Joined::Failed);
}

#[test]
fn fault_after_the_end_changes_nothing() {
    let mut unit = spawn_counter(1, 3, 1);
    unit.run();
    unit.fail();
    assert_eq!(unit.phase(), Phase::Completed);
    assert_eq!(join(&unit), Joined::Finished { messages: 2 });
}

#[test]
fn notice_lines() {
    let spawned = Notice { origin: Origin::Spawned, number: 1 };
    assert_eq!(spawned.render(), "hi number 1 from the spawned thread!");
    let main = Notice { origin: Origin::Main, number: 4 };
    assert_eq!(main.render(), "hi number 4 from the main thread!");
    let negative = Notice { origin: Origin::Main, number: -12 };
    assert_eq!(negative.render(), "hi number -12 from the main thread!");
    let lowest = Notice { origin: Origin::Spawned, number: i32::MIN };
    assert_eq!(lowest.render(), "hi number -2147483648 from the spawned thread!");
}

#[test]
fn notice_lines_agree_with_std_formatting() {
    for number in [0, 9, 10, 99, 100, 12345, -1, -10, i32::MAX, i32::MIN] {
        let notice = Notice { origin: Origin::Spawned, number };
        assert_eq!(notice.render(), format!("hi number {} from the spawned thread!", number));
        let notice = Notice { origin: Origin::Main, number };
        assert_eq!(notice.render(), format!("hi number {} from the main thread!", number));
    }
}
