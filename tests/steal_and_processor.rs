use worksteal::machine::{find_local, find_remote};
use worksteal::processor::{
    cpu_count, processor_count, processors, schedule_on, stealers_of, take_from_stuck, Placement,
    Processor,
};
use worksteal::steal::{collect_steals, merge, rotated_index, Steal};

fn succeeded(s: Steal<u32>) -> Option<u32> {
    s.success()
}

#[test]
fn collect_takes_first_success() {
    let r = collect_steals(vec![Steal::Empty, Steal::Retry, Steal::Success(1), Steal::Success(2)]);
    assert_eq!(succeeded(r), Some(1));
}

#[test]
fn collect_without_success() {
    assert!(collect_steals(vec![Steal::<u32>::Empty, Steal::Retry, Steal::Empty]).is_retry());
    let e = collect_steals(vec![Steal::<u32>::Empty, Steal::Empty]);
    assert!(!e.is_retry() && !e.is_success());
    let none = collect_steals(Vec::<Steal<u32>>::new());
    assert!(!none.is_retry() && !none.is_success());
}

#[test]
fn merge_outcomes() {
    assert!(merge(true, Steal::<u32>::Empty).is_retry());
    assert!(!merge(false, Steal::<u32>::Empty).is_retry());
    assert_eq!(succeeded(merge(true, Steal::Success(5))), Some(5));
    assert!(merge(false, Steal::<u32>::Retry).is_retry());
}

#[test]
fn rotation_wraps_around() {
    let order: Vec<usize> = (0..4).map(|k| rotated_index(2, k, 4)).collect();
    assert_eq!(order, vec![2, 3, 0, 1]);
    assert_eq!(rotated_index(0, 0, 1), 0);
}

#[test]
fn slot_runs_newest_then_queue_in_order() {
    let mut p = Processor::new();
    assert!(!p.schedule(1u32));
    assert!(p.schedule(2));
    assert!(p.schedule(3));
    assert_eq!(p.pop_task(), Some(3));
    assert_eq!(p.pop_task(), Some(1));
    assert_eq!(p.pop_task(), Some(2));
    assert_eq!(p.pop_task(), None);
}

#[test]
fn flush_moves_slot_behind_queue() {
    // A task that keeps rescheduling itself through the slot; the flush puts
    // it behind the task that was waiting.
    let mut p = Processor::new();
    p.schedule(10u32);
    p.schedule(20);
    assert_eq!(p.pop_task(), Some(20));
    p.schedule(20);
    assert!(p.flush_slot());
    assert!(!p.flush_slot());
    assert_eq!(p.pop_task(), Some(10));
    assert_eq!(p.pop_task(), Some(20));
    assert_eq!(p.pop_task(), None);
}

#[test]
fn schedule_without_processor_goes_global() {
    let mut none: Option<Processor<u32>> = None;
    match schedule_on(&mut none, 7) {
        Placement::Global(t) => assert_eq!(t, 7),
        Placement::Local { .. } => panic!("no processor is held"),
    }
    assert!(none.is_none());
}

#[test]
fn schedule_on_held_processor_uses_slot() {
    let mut held = Some(Processor::new());
    assert!(matches!(schedule_on(&mut held, 1u32), Placement::Local { notify: false }));
    assert!(matches!(schedule_on(&mut held, 2), Placement::Local { notify: true }));
    let p = held.as_mut().unwrap();
    assert_eq!(p.pop_task(), Some(2));
    assert_eq!(p.pop_task(), Some(1));
    assert_eq!(p.pop_task(), None);
}

#[test]
fn global_queue_feeds_a_processor() {
    let injector = crossbeam_deque::Injector::new();
    injector.push(7u32);
    let mut p = Processor::new();
    assert_eq!(succeeded(p.steal_from_global(&injector)), Some(7));
    assert!(!p.steal_from_global(&injector).is_success());
}

#[test]
fn stuck_machine_loses_its_processor() {
    let mut holder = Some(Processor::<u32>::new());
    assert!(take_from_stuck(true, &mut holder).is_none());
    assert!(holder.is_some());
    assert!(take_from_stuck(false, &mut holder).is_some());
    assert!(holder.is_none());
    assert!(take_from_stuck(false, &mut holder).is_none());
}

#[test]
fn steal_from_other_processor() {
    let mut ps: Vec<Processor<u32>> = processors(3);
    let stealers = stealers_of(&ps);
    assert_eq!(stealers.len(), 3);
    ps[1].schedule(100);
    ps[1].schedule(101);
    let mut thief = ps.remove(0);
    assert_eq!(succeeded(thief.steal_from_others(&stealers, 2)), Some(100));
    let nothing = thief.steal_from_others(&stealers, 0);
    assert!(!nothing.is_success() && !nothing.is_retry());
    assert_eq!(ps[0].pop_task(), Some(101));
}

#[test]
fn steal_with_no_stealers_is_empty() {
    let mut p: Processor<u32> = Processor::new();
    let r = p.steal_from_others(&Vec::new(), 0);
    assert!(!r.is_success() && !r.is_retry());
}

#[test]
fn find_prefers_slot_then_global() {
    let injector = crossbeam_deque::Injector::new();
    injector.push(9u32);
    let mut held = Some(Processor::new());
    held.as_mut().unwrap().schedule(4);
    assert_eq!(succeeded(find_local(&mut held, &injector)), Some(4));
    assert_eq!(succeeded(find_local(&mut held, &injector)), Some(9));
    assert!(!find_local(&mut held, &injector).is_success());
    let mut none: Option<Processor<u32>> = None;
    assert!(!find_local(&mut none, &injector).is_success());
}

#[test]
fn find_remote_after_poll() {
    let mut ps: Vec<Processor<u32>> = processors(2);
    let stealers = stealers_of(&ps);
    ps[1].schedule(1);
    ps[1].schedule(2);
    let mut held = Some(ps.remove(0));
    held.as_mut().unwrap().schedule(5);
    assert_eq!(succeeded(find_remote(&mut held, true, &stealers, 0, false)), Some(5));
    assert_eq!(succeeded(find_remote(&mut held, false, &stealers, 1, false)), Some(1));
    assert!(find_remote(&mut held, false, &stealers, 0, true).is_retry());
    let mut none: Option<Processor<u32>> = None;
    assert!(find_remote(&mut none, true, &stealers, 0, true).is_retry());
    let e = find_remote(&mut none, true, &stealers, 0, false);
    assert!(!e.is_retry() && !e.is_success());
}

#[test]
fn processor_counts() {
    assert_eq!(processor_count(0), 1);
    assert_eq!(processor_count(4), 4);
    assert!(cpu_count() >= 1);
    let ps: Vec<Processor<u8>> = processors(4);
    assert_eq!(ps.len(), 4);
}

#[test]
fn yield_fairness_through_flush() {
    // A keeps rescheduling itself through the slot while B waits in the queue.
    let mut p = Processor::new();
    p.schedule("B");
    p.schedule("A");
    for _ in 0..5 {
        let t = p.pop_task();
        assert_eq!(t, Some("A"));
        p.schedule("A");
    }
    // A yields: the slot is flushed, so B runs before A's next turn.
    assert!(p.flush_slot());
    assert_eq!(p.pop_task(), Some("B"));
    assert_eq!(p.pop_task(), Some("A"));
}

#[test]
fn fan_out_fan_in_over_two_processors() {
    let mut ps: Vec<Processor<u32>> = processors(2);
    let stealers = stealers_of(&ps);
    let mut b = ps.pop().unwrap();
    let mut a = ps.pop().unwrap();
    for i in 0..10_000u32 {
        a.schedule(i);
    }
    let mut counter: u32 = 10_000;
    let mut ran = [0u32; 2];
    let mut seen = vec![false; 10_000];
    loop {
        let mut progressed = false;
        if let Some(t) = a.pop_task() {
            assert!(!seen[t as usize]);
            seen[t as usize] = true;
            counter -= 1;
            ran[0] += 1;
            progressed = true;
        }
        let from_b = match b.pop_task() {
            Some(t) => Some(t),
            None => b.steal_from_others(&stealers, 0).success(),
        };
        if let Some(t) = from_b {
            assert!(!seen[t as usize]);
            seen[t as usize] = true;
            counter -= 1;
            ran[1] += 1;
            progressed = true;
        }
        if !progressed {
            break;
        }
    }
    assert_eq!(counter, 0);
    assert!(ran[0] > 0 && ran[1] > 0);
}
