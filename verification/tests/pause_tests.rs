use wire_trace::output::{PauseObserved, PauseValue};
use wire_trace::pause::{observed_of, Fired, PauseSpec, PauseStream, Scheduled, Side, Step};

fn spec(group_offset: u64, items: &[(u64, u64)]) -> PauseSpec {
    PauseSpec {
        plan: items
            .iter()
            .map(|(duration, offset_bytes)| PauseValue {
                duration: *duration,
                offset_bytes: *offset_bytes,
            })
            .collect(),
        group_offset,
    }
}

#[test]
fn schedule_lists_specs_in_order_with_offsets_added() {
    let side = Side::new(&vec![spec(0, &[(5, 0), (6, 4)]), spec(10, &[(7, 2)])]);
    assert_eq!(
        side.pending,
        vec![
            Scheduled { offset: 0, duration: 5, group: 0 },
            Scheduled { offset: 4, duration: 6, group: 0 },
            Scheduled { offset: 12, duration: 7, group: 1 },
        ]
    );
    assert_eq!(side.next, 0);
    assert_eq!(side.count, 0);
    assert!(side.fired.is_empty());
}

#[test]
fn offsets_are_held_at_the_top_of_the_counter() {
    let side = Side::new(&vec![spec(u64::MAX - 1, &[(1, 5)])]);
    assert_eq!(side.pending[0].offset, u64::MAX);
}

#[test]
fn transfers_stop_at_each_offset_and_pauses_fire_there() {
    let mut side = Side::new(&vec![spec(0, &[(5, 0), (6, 4)]), spec(10, &[(7, 0)])]);
    assert_eq!(side.step(100), Step::Pause(5));
    side.paused(5);
    assert_eq!(side.step(100), Step::Transfer(4));
    assert_eq!(side.step(3), Step::Transfer(3));
    side.moved(3);
    assert_eq!(side.step(100), Step::Transfer(1));
    side.moved(1);
    assert_eq!(side.step(100), Step::Pause(6));
    side.paused(8);
    assert_eq!(side.step(100), Step::Transfer(6));
    side.moved(6);
    assert_eq!(side.step(0), Step::Pause(7));
    side.paused(7);
    assert_eq!(side.step(100), Step::Transfer(100));
    assert_eq!(
        side.fired,
        vec![
            Fired { group: 0, duration: 5, offset: 0 },
            Fired { group: 0, duration: 8, offset: 4 },
            Fired { group: 1, duration: 7, offset: 10 },
        ]
    );
    assert_eq!(side.count, 10);
}

#[test]
fn a_pause_of_no_length_is_recorded() {
    let mut side = Side::new(&vec![spec(2, &[(0, 0)])]);
    side.moved(2);
    assert_eq!(side.step(1), Step::Pause(0));
    side.paused(0);
    assert_eq!(side.fired, vec![Fired { group: 0, duration: 0, offset: 2 }]);
}

#[test]
fn may_move_refuses_to_pass_a_pause() {
    let side = Side::new(&vec![spec(3, &[(1, 0)])]);
    assert!(side.may_move(3));
    assert!(side.may_move(0));
    assert!(!side.may_move(4));
    let due = Side::new(&vec![spec(0, &[(1, 0)])]);
    assert!(!due.may_move(0));
}

#[test]
fn reset_swaps_schedules_and_returns_the_records() {
    let mut s = PauseStream::new(&vec![spec(0, &[(1, 0)])], &vec![spec(0, &[(2, 0)])]);
    s.writes.paused(11);
    s.reads.paused(22);
    s.writes.moved(9);
    let (reads, writes) = s.reset(&vec![spec(4, &[(3, 0)])], &vec![]);
    assert_eq!(reads, vec![Fired { group: 0, duration: 22, offset: 0 }]);
    assert_eq!(writes, vec![Fired { group: 0, duration: 11, offset: 0 }]);
    assert_eq!(s.writes.count, 0);
    assert_eq!(s.writes.pending, vec![Scheduled { offset: 4, duration: 3, group: 0 }]);
    assert!(s.writes.fired.is_empty());
    assert!(s.reads.pending.is_empty());
    assert_eq!(s.reads.step(8), Step::Transfer(8));
}

#[test]
fn observed_of_picks_one_spec() {
    let fired = vec![
        Fired { group: 0, duration: 1, offset: 0 },
        Fired { group: 1, duration: 2, offset: 5 },
        Fired { group: 0, duration: 3, offset: 0 },
    ];
    assert_eq!(
        observed_of(&fired, 0),
        vec![PauseObserved { duration: 1, offset: 0 }, PauseObserved { duration: 3, offset: 0 }]
    );
    assert_eq!(observed_of(&fired, 1), vec![PauseObserved { duration: 2, offset: 5 }]);
    assert!(observed_of(&fired, 2).is_empty());
}
