use worksteal::coordinator::{Ramp, DELAY_MAX, DELAY_MIN};
use worksteal::machine::{Counters, Idle, RUNS, SLEEPS, YIELDS};
use worksteal::sched::{Entry, Scheduler};

#[test]
fn idle_escalation() {
    let mut c = Counters::new();
    for _ in 0..YIELDS {
        assert_eq!(c.not_found(false), Idle::Yield);
    }
    for _ in 0..SLEEPS {
        assert_eq!(c.not_found(false), Idle::Nap);
    }
    assert_eq!(c.fails, 13);
    assert_eq!(c.not_found(false), Idle::PollDuty);
    assert_eq!(c.not_found(false), Idle::PollDuty);
    assert_eq!(c.not_found(true), Idle::Exit);
    c.found();
    assert_eq!(c.fails, 0);
    assert_eq!(c.runs, 1);
    assert_eq!(c.not_found(false), Idle::Yield);
    c.reset();
    assert_eq!(c, Counters { runs: 0, fails: 0 });
}

#[test]
fn fairness_after_runs() {
    let mut c = Counters::new();
    for _ in 0..RUNS {
        assert!(!c.fairness_due());
        c.found();
    }
    assert!(c.fairness_due());
    assert_eq!(c.runs, 0);
    assert!(!c.fairness_due());
}

#[test]
fn ramp_doubles_then_parks() {
    let mut r = Ramp::new();
    assert_eq!(r.advance(), 0);
    assert!(!r.park_due());
    r.spawned();
    assert_eq!(r.current(), DELAY_MIN);
    let mut slept = Vec::new();
    loop {
        slept.push(r.advance());
        if r.park_due() {
            break;
        }
    }
    assert_eq!(slept, vec![1_250, 2_500, 5_000, 10_000]);
    assert_eq!(slept.iter().sum::<u64>(), 18_750);
    assert_eq!(r.current(), DELAY_MIN);
    assert!(DELAY_MAX / DELAY_MIN > 2);
}

fn four_cpus() -> Scheduler<u32, &'static str> {
    Scheduler::new(vec![0, 1, 2, 3])
}

#[test]
fn tick_hands_out_idle_processors() {
    let mut s = four_cpus();
    assert_eq!(s.take_idle(), Some(3));
    s.add_machine(Entry { id: 1, machine: "a" });
    assert_eq!(s.take_idle(), Some(2));
    assert_eq!(s.idle_count(), 2);
    assert_eq!(s.held(), 2);
    assert_eq!(s.machine_count(), 1);
    assert_eq!(*s.machine(0), "a");
}

#[test]
fn no_spawn_while_polling_or_progressing() {
    let mut s = four_cpus();
    let p = s.take_idle().unwrap();
    s.add_machine(Entry { id: 1, machine: "a" });
    let e = s.begin_poll_duty(1).unwrap();
    assert!(s.polling());
    assert_eq!(s.take_idle(), None);
    s.end_poll_duty(e);
    assert!(s.progress());
    // Progress was announced: this tick spawns nothing but clears the flag.
    assert_eq!(s.take_idle(), None);
    assert!(!s.progress());
    assert_eq!(s.take_idle(), Some(2));
    assert_eq!(p, 3);
}

#[test]
fn poll_duty_is_single() {
    let mut s = four_cpus();
    s.take_idle();
    s.take_idle();
    s.add_machine(Entry { id: 1, machine: "a" });
    s.add_machine(Entry { id: 2, machine: "b" });
    assert!(!s.polling());
    let e = s.begin_poll_duty(2).unwrap();
    assert_eq!(e.id, 2);
    assert!(s.polling());
    assert_eq!(s.machine_count(), 1);
    assert!(s.begin_poll_duty(1).is_none());
    assert_eq!(s.machine_count(), 1);
    s.end_poll_duty(e);
    assert!(!s.polling());
    assert_eq!(s.machine_count(), 2);
    assert!(s.begin_poll_duty(1).is_some());
}

#[test]
fn unknown_machine_gets_no_poll_duty() {
    let mut s = four_cpus();
    assert!(s.begin_poll_duty(7).is_none());
    assert!(!s.polling());
}

#[test]
fn stuck_machine_is_replaced_and_processors_conserved() {
    let mut s = four_cpus();
    s.take_idle();
    s.add_machine(Entry { id: 1, machine: "stuck" });
    s.replace(0, Entry { id: 2, machine: "fresh" });
    assert_eq!(*s.machine(0), "fresh");
    assert_eq!(s.held() + s.idle_count(), 4);
    s.retire(None, 1);
    assert_eq!(s.machine_count(), 1);
    s.retire(Some(3), 2);
    assert_eq!(s.machine_count(), 0);
    assert_eq!(s.idle_count(), 4);
    assert_eq!(s.held(), 0);
}


#[test]
fn poll_duty_hand_off_flag_transitions() {
    let mut s = four_cpus();
    s.take_idle();
    s.add_machine(Entry { id: 1, machine: "only" });
    let mut seen = vec![s.polling()];
    let e = s.begin_poll_duty(1).unwrap();
    seen.push(s.polling());
    s.end_poll_duty(e);
    seen.push(s.polling());
    assert_eq!(seen, vec![false, true, false]);
    assert!(s.progress());
    assert_eq!(s.machine_count(), 1);
}

#[test]
fn poller_leaves_the_list_under_every_entry() {
    let mut s = four_cpus();
    s.take_idle();
    s.add_machine(Entry { id: 1, machine: "a" });
    s.add_machine(Entry { id: 2, machine: "b" });
    s.add_machine(Entry { id: 1, machine: "a again" });
    let e = s.begin_poll_duty(1).unwrap();
    assert_eq!(e.machine, "a");
    assert_eq!(s.machine_count(), 1);
    assert_eq!(*s.machine(0), "b");
    s.end_poll_duty(e);
    assert_eq!(s.machine_count(), 2);
}
