use frun::delete::{
    begin_delete, finish_delete, handle_delete, DeleteAnswer, DeleteStep, Verdict, KILL_POLLS,
};
use frun::protocal::Response;
use frun::sessions::SessionTable;

fn run(force: bool, series: &[DeleteAnswer]) -> DeleteStep {
    series.iter().fold(begin_delete(), |step, answer| handle_delete(step, force, *answer))
}

fn waited(looks: usize) -> Vec<DeleteAnswer> {
    let mut series = vec![DeleteAnswer::Exited(false), DeleteAnswer::KillStarted(true)];
    for _ in 0..looks {
        series.push(DeleteAnswer::Exited(false));
    }
    series
}

#[test]
fn exited_session_is_deleted_safely() {
    for force in [false, true] {
        assert_eq!(run(force, &[DeleteAnswer::Exited(true)]), DeleteStep::Finish(Verdict::Safe));
    }
}

#[test]
fn running_session_is_left_alone_without_force() {
    let series = [DeleteAnswer::Exited(false), DeleteAnswer::Exited(true)];
    assert_eq!(run(false, &series[..1]), DeleteStep::Finish(Verdict::NotExited));
    assert_eq!(run(false, &series), DeleteStep::Finish(Verdict::NotExited));
}

#[test]
fn running_session_is_killed_by_force() {
    assert_eq!(run(true, &[DeleteAnswer::Exited(false)]), DeleteStep::Kill);
    assert_eq!(run(true, &waited(0)), DeleteStep::Poll { left: 50 });
    let mut seen = waited(0);
    seen.push(DeleteAnswer::Exited(true));
    assert_eq!(run(true, &seen), DeleteStep::Finish(Verdict::Forced));
}

#[test]
fn killed_process_is_given_fifty_looks() {
    assert_eq!(KILL_POLLS, 50);
    assert_eq!(run(true, &waited(49)), DeleteStep::Poll { left: 1 });
    let mut seen = waited(49);
    seen.push(DeleteAnswer::Exited(true));
    assert_eq!(run(true, &seen), DeleteStep::Finish(Verdict::Forced));
    assert_eq!(run(true, &waited(50)), DeleteStep::Finish(Verdict::Dropped));
    assert_eq!(run(true, &waited(60)), DeleteStep::Finish(Verdict::Dropped));
}

#[test]
fn session_is_dropped_where_the_kill_fails() {
    let series = [DeleteAnswer::Exited(false), DeleteAnswer::KillStarted(false)];
    assert_eq!(run(true, &series), DeleteStep::Finish(Verdict::Dropped));
}

#[test]
fn kill_is_no_answer_to_a_look() {
    assert_eq!(run(true, &[DeleteAnswer::KillStarted(false)]), DeleteStep::Inspect);
}

#[test]
fn verdicts_change_the_table() {
    let cases = [
        (Verdict::Safe, Response::SessionDeletedSafely, false),
        (Verdict::NotExited, Response::SessionProcessNotExited, true),
        (Verdict::Forced, Response::SessionDeletedForcely, false),
        (Verdict::Dropped, Response::SessionDropped, false),
    ];
    for (verdict, expected, stays) in cases {
        let mut table = SessionTable::new();
        table.insert("a".to_string(), 1);
        table.insert("b".to_string(), 2);
        assert_eq!(finish_delete(&mut table, &"a".to_string(), verdict), expected);
        assert_eq!(table.get(&"a".to_string()), if stays { Some(&1) } else { None });
        assert_eq!(table.get(&"b".to_string()), Some(&2));
    }
}

#[test]
fn name_is_free_again_after_a_deletion() {
    let mut table = SessionTable::new();
    table.insert("a".to_string(), 1);
    finish_delete(&mut table, &"a".to_string(), Verdict::Safe);
    assert_eq!(table.get(&"a".to_string()), None);
    table.insert("a".to_string(), 2);
    finish_delete(&mut table, &"a".to_string(), Verdict::NotExited);
    assert_eq!(table.get(&"a".to_string()), Some(&2));
}

#[test]
fn deletion_begins_with_a_look_at_the_process() {
    assert_eq!(begin_delete(), DeleteStep::Inspect);
}
