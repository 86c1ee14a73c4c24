//! The scheduler state shared by the workers and the coordinator: the idle
//! processors, the live machines, and the `progress` and `polling` flags.
use vstd::prelude::*;

verus! {

/// A live machine with the number that identifies it.
pub struct Entry<M> {
    pub id: u64,
    pub machine: M,
}

/// The scheduler state as values.
pub struct SchedView<P, M> {
    /// Some worker announced progress since the coordinator last looked.
    pub progress: bool,
    /// Some worker is blocked in the reactor's blocking poll.
    pub polling: bool,
    /// Processors that no machine holds.
    pub idle: Seq<P>,
    /// Machines the coordinator believes live.
    pub machines: Seq<Entry<M>>,
    /// Processors out of the idle list: held by a machine or being handed over.
    pub held: nat,
    /// The number of processors the runtime was built with.
    pub cpus: nat,
}

/// A change of the scheduler state.
pub enum Op<P, M> {
    /// The coordinator's tick: take an idle processor for a new machine when
    /// nobody polls and nobody announced progress; clear `progress`.
    TakeIdle,
    /// Put a new machine in place of the stuck one at an index.
    Replace(int, Entry<M>),
    /// Register a new machine.
    Add(Entry<M>),
    /// A worker with this number asks to take up poll duty.
    BeginPoll(u64),
    /// The polling worker is back from the reactor.
    EndPoll(Entry<M>),
    /// A worker leaves, handing back the processor it still holds, if any.
    Retire(Option<P>, u64),
}

/// Whether a machine with number `id` is in `s`.
pub open spec fn has_id<M>(s: Seq<Entry<M>>, id: u64) -> bool {
    exists|k: int| 0 <= k < s.len() && s[k].id == id
}

/// `s` without any machine numbered `id`.
pub open spec fn without<M>(s: Seq<Entry<M>>, id: u64) -> Seq<Entry<M>>
    decreases s.len(),
{
    if s.len() == 0 {
        s
    } else if s[0].id == id {
        without(s.drop_first(), id)
    } else {
        seq![s[0]] + without(s.drop_first(), id)
    }
}

/// Removing the machines numbered `id` from a list without any changes nothing.
proof fn lemma_without_absent<M>(s: Seq<Entry<M>>, id: u64)
    requires
        !has_id(s, id),
    ensures
        without(s, id) == s,
    decreases s.len(),
{
    if s.len() > 0 {
        assert(s[0].id != id);
        assert(!has_id(s.drop_first(), id)) by {
            if has_id(s.drop_first(), id) {
                let k = choose|k: int| 0 <= k < s.drop_first().len() && s.drop_first()[k].id == id;
                assert(s[k + 1].id == id);
            }
        }
        lemma_without_absent(s.drop_first(), id);
        assert(seq![s[0]] + s.drop_first() =~= s);
    }
}

/// Removing every machine numbered `id` leaves none of them.
pub proof fn without_removes_all<M>(s: Seq<Entry<M>>, id: u64)
    ensures
        !has_id(without(s, id), id),
    decreases s.len(),
{
    if s.len() > 0 {
        without_removes_all(s.drop_first(), id);
        let r = without(s.drop_first(), id);
        if s[0].id != id {
            assert forall|k: int| 0 <= k < (seq![s[0]] + r).len() implies (seq![s[0]] + r)[k].id
                != id by {
                if k > 0 {
                    assert((seq![s[0]] + r)[k] == r[k - 1]);
                }
            }
        }
    }
}

impl<P, M> SchedView<P, M> {
    /// Every processor is idle or held: the two counts add up to the processor count.
    pub open spec fn wf(self) -> bool {
        &&& self.idle.len() + self.held == self.cpus
        &&& self.cpus >= 1
    }

    /// The number of processors, idle or held.
    pub open spec fn total(self) -> nat {
        self.idle.len() + self.held
    }

    /// Whether the coordinator's tick hands out an idle processor.
    pub open spec fn hands_out_idle(self) -> bool {
        !self.polling && !self.progress && self.idle.len() > 0
    }

    /// Whether the worker numbered `id` is granted poll duty.
    pub open spec fn poll_granted(self, id: u64) -> bool {
        !self.polling && has_id(self.machines, id)
    }

    /// Whether `op` may be applied to this state.
    pub open spec fn enabled(self, op: Op<P, M>) -> bool {
        match op {
            Op::Replace(i, _) => 0 <= i < self.machines.len(),
            Op::Retire(p, _) => p is Some ==> self.held > 0,
            _ => true,
        }
    }

    /// The state after `op`.
    pub open spec fn apply(self, op: Op<P, M>) -> SchedView<P, M> {
        match op {
            Op::TakeIdle => if self.polling {
                self
            } else if self.hands_out_idle() {
                SchedView {
                    progress: false,
                    idle: self.idle.drop_last(),
                    held: self.held + 1,
                    ..self
                }
            } else {
                SchedView { progress: false, ..self }
            },
            Op::Replace(i, e) => SchedView { machines: self.machines.update(i, e), ..self },
            Op::Add(e) => SchedView { machines: self.machines.push(e), ..self },
            Op::BeginPoll(id) => if self.poll_granted(id) {
                SchedView { polling: true, machines: without(self.machines, id), ..self }
            } else {
                self
            },
            Op::EndPoll(e) => SchedView {
                polling: false,
                progress: true,
                machines: self.machines.push(e),
                ..self
            },
            Op::Retire(p, id) => match p {
                Some(p) => SchedView {
                    idle: self.idle.push(p),
                    held: (self.held - 1) as nat,
                    machines: without(self.machines, id),
                    ..self
                },
                None => self,
            },
        }
    }
}

/// The scheduler state: idle processors, live machines and the two flags.
#[verifier::reject_recursive_types(P)]
#[verifier::reject_recursive_types(M)]
pub struct Scheduler<P, M> {
    progress: bool,
    polling: bool,
    processors: Vec<P>,
    machines: Vec<Entry<M>>,
    held: usize,
    cpus: usize,
}

impl<P, M> View for Scheduler<P, M> {
    type V = SchedView<P, M>;

    closed spec fn view(&self) -> SchedView<P, M> {
        SchedView {
            progress: self.progress,
            polling: self.polling,
            idle: self.processors@,
            machines: self.machines@,
            held: self.held as nat,
            cpus: self.cpus as nat,
        }
    }
}

impl<P, M> Scheduler<P, M> {
    /// A state with every processor idle, no machine, and both flags clear.
    pub fn new(processors: Vec<P>) -> (r: Scheduler<P, M>)
        requires
            processors.len() >= 1,
        ensures
            r@.wf(),
            r@.idle == processors@,
            r@.held == 0,
            r@.cpus == processors.len(),
            r@.machines.len() == 0,
            !r@.progress && !r@.polling,
    {
        let cpus = processors.len();
        Scheduler { progress: false, polling: false, processors, machines: Vec::new(), held: 0, cpus }
    }

    /// Whether some worker is blocked in the reactor's blocking poll.
    pub fn polling(&self) -> (r: bool)
        ensures
            r == self@.polling,
    {
        self.polling
    }

    /// Whether some worker announced progress since the coordinator last looked.
    pub fn progress(&self) -> (r: bool)
        ensures
            r == self@.progress,
    {
        self.progress
    }

    /// The number of idle processors.
    pub fn idle_count(&self) -> (r: usize)
        ensures
            r == self@.idle.len(),
    {
        self.processors.len()
    }

    /// The number of processors out of the idle list.
    pub fn held(&self) -> (r: usize)
        ensures
            r == self@.held,
    {
        self.held
    }

    /// The number of live machines.
    pub fn machine_count(&self) -> (r: usize)
        ensures
            r == self@.machines.len(),
    {
        self.machines.len()
    }

    /// The live machine at index `i`.
    pub fn machine(&self, i: usize) -> (r: &M)
        requires
            i < self@.machines.len(),
        ensures
            *r == self@.machines[i as int].machine,
    {
        &self.machines[i].machine
    }

    /// The coordinator's tick on the idle list: when nobody polls the reactor
    /// and nobody announced progress since the last tick, the runtime is
    /// overloaded, and the last idle processor, if any, is handed out for a
    /// new machine. When nobody polls, `progress` is cleared.
    pub fn take_idle(&mut self) -> (r: Option<P>)
        requires
            old(self)@.wf(),
        ensures
            final(self)@.wf(),
            final(self)@ == old(self)@.apply(Op::TakeIdle),
            r == if old(self)@.hands_out_idle() { Some(old(self)@.idle.last()) } else { None },
    {
        proof {
            processors_conserved(self@, Op::TakeIdle);
        }
        let mut r = None;
        if !self.polling {
            if !self.progress && self.processors.len() > 0 {
                r = self.processors.pop();
                self.held = self.held + 1;
            }
            self.progress = false;
        }
        proof {
            assert(self.processors@ =~= old(self)@.apply(Op::TakeIdle).idle);
        }
        r
    }

    /// Puts a new machine in place of the stuck machine at index `i`; the
    /// processor taken from the stuck machine stays held.
    pub fn replace(&mut self, i: usize, e: Entry<M>)
        requires
            old(self)@.wf(),
            i < old(self)@.machines.len(),
        ensures
            final(self)@.wf(),
            final(self)@ == old(self)@.apply(Op::Replace(i as int, e)),
    {
        proof {
            processors_conserved(self@, Op::Replace(i as int, e));
        }
        self.machines.set(i, e);
    }

    /// Registers a new machine.
    pub fn add_machine(&mut self, e: Entry<M>)
        requires
            old(self)@.wf(),
        ensures
            final(self)@.wf(),
            final(self)@ == old(self)@.apply(Op::Add(e)),
    {
        proof {
            processors_conserved(self@, Op::Add(e));
        }
        self.machines.push(e);
    }

    /// Removes every machine numbered `id` and hands back the first of them.
    fn remove_all(&mut self, id: u64) -> (r: Option<Entry<M>>)
        ensures
            final(self)@ == (SchedView { machines: without(old(self)@.machines, id), ..old(self)@ }),
            r is Some == has_id(old(self)@.machines, id),
            r is Some ==> r.unwrap().id == id,
    {
        let ghost orig = self.machines@;
        let mut kept: Vec<Entry<M>> = Vec::new();
        let mut found: Option<Entry<M>> = None;
        while self.machines.len() > 0
            invariant
                orig == old(self)@.machines,
                self@ == (SchedView { machines: self@.machines, ..old(self)@ }),
                without(orig, id) == kept@ + without(self.machines@, id),
                has_id(orig, id) == (found is Some || has_id(self.machines@, id)),
                found is Some ==> found.unwrap().id == id,
            decreases self.machines.len(),
        {
            let ghost before = self.machines@;
            let e = self.machines.remove(0);
            proof {
                assert(self.machines@ =~= before.drop_first());
                assert(before[0] == e);
                if has_id(before, id) && e.id != id {
                    let k = choose|k: int| 0 <= k < before.len() && before[k].id == id;
                    assert(self.machines@[k - 1].id == id);
                }
                if has_id(self.machines@, id) {
                    let k = choose|k: int|
                        0 <= k < self.machines@.len() && self.machines@[k].id == id;
                    assert(before[k + 1].id == id);
                }
                if e.id == id {
                    assert(before[0].id == id);
                }
            }
            if e.id == id {
                if found.is_none() {
                    found = Some(e);
                }
            } else {
                proof {
                    assert(kept@.push(e) + without(self.machines@, id) =~= kept@ + (seq![e]
                        + without(self.machines@, id)));
                }
                kept.push(e);
            }
        }
        proof {
            assert(without(self.machines@, id) =~= Seq::<Entry<M>>::empty());
            assert(kept@ =~= without(orig, id));
        }
        self.machines = kept;
        found
    }

    /// A worker numbered `id` that found no work asks to block on the reactor.
    /// It is granted the duty when nobody else polls and it is still live; it
    /// then leaves the machine list, with every entry under its number, the
    /// first of which is handed back, and the state records that someone
    /// polls. Otherwise nothing changes and the worker should leave.
    pub fn begin_poll_duty(&mut self, id: u64) -> (r: Option<Entry<M>>)
        requires
            old(self)@.wf(),
        ensures
            final(self)@.wf(),
            final(self)@ == old(self)@.apply(Op::BeginPoll(id)),
            r is Some == old(self)@.poll_granted(id),
            r is Some ==> r.unwrap().id == id && !has_id(final(self)@.machines, id),
    {
        proof {
            processors_conserved(self@, Op::BeginPoll(id));
            without_removes_all(self@.machines, id);
            if !has_id(self@.machines, id) {
                lemma_without_absent(self@.machines, id);
            }
        }
        if self.polling {
            return None;
        }
        let r = self.remove_all(id);
        if r.is_some() {
            self.polling = true;
        }
        r
    }

    /// The polling worker is back from the reactor: nobody polls any more, its
    /// machine is registered again, and it counts as progress.
    pub fn end_poll_duty(&mut self, e: Entry<M>)
        requires
            old(self)@.wf(),
        ensures
            final(self)@.wf(),
            final(self)@ == old(self)@.apply(Op::EndPoll(e)),
    {
        proof {
            processors_conserved(self@, Op::EndPoll(e));
        }
        self.polling = false;
        self.progress = true;
        self.machines.push(e);
    }

    /// A worker numbered `id` leaves its run loop. If it still holds its
    /// processor, the processor goes back to the idle list and the machine
    /// leaves the machine list.
    pub fn retire(&mut self, p: Option<P>, id: u64)
        requires
            old(self)@.wf(),
            p is Some ==> old(self)@.held > 0,
        ensures
            final(self)@.wf(),
            final(self)@ == old(self)@.apply(Op::Retire(p, id)),
    {
        proof {
            processors_conserved(self@, Op::Retire(p, id));
        }
        match p {
            None => {},
            Some(p) => {
                self.processors.push(p);
                self.held = self.held - 1;
                self.remove_all(id);
            },
        }
    }
}

/// Processors are conserved: every change of the scheduler state that may be
/// applied to a well-formed state leaves it well-formed, with as many
/// processors, idle or held, as the runtime was built with.
pub proof fn processors_conserved<P, M>(v: SchedView<P, M>, op: Op<P, M>)
    requires
        v.wf(),
        v.enabled(op),
    ensures
        v.apply(op).wf(),
        v.apply(op).total() == v.total(),
        v.apply(op).cpus == v.cpus,
{
    match op {
        Op::Retire(Some(p), id) => {
            assert(v.apply(op).idle.len() == v.idle.len() + 1);
        },
        _ => {},
    }
}

/// The state after applying `ops` in order.
pub open spec fn run<P, M>(v: SchedView<P, M>, ops: Seq<Op<P, M>>) -> SchedView<P, M>
    decreases ops.len(),
{
    if ops.len() == 0 {
        v
    } else {
        run(v.apply(ops[0]), ops.drop_first())
    }
}

/// Each of `ops` may be applied to the state that the ones before it leave.
pub open spec fn runs_enabled<P, M>(v: SchedView<P, M>, ops: Seq<Op<P, M>>) -> bool
    decreases ops.len(),
{
    ops.len() == 0 || (v.enabled(ops[0]) && runs_enabled(v.apply(ops[0]), ops.drop_first()))
}

/// Processors are conserved over the lifetime of the runtime: along any run of
/// changes from a well-formed state, the number of processors, idle or held,
/// stays equal to the processor count.
pub proof fn processor_count_constant<P, M>(v: SchedView<P, M>, ops: Seq<Op<P, M>>)
    requires
        v.wf(),
        runs_enabled(v, ops),
    ensures
        run(v, ops).wf(),
        run(v, ops).total() == v.cpus,
        run(v, ops).cpus == v.cpus,
    decreases ops.len(),
{
    if ops.len() > 0 {
        processors_conserved(v, ops[0]);
        processor_count_constant(v.apply(ops[0]), ops.drop_first());
    }
}

/// At most one worker polls the reactor: once a worker is granted poll duty,
/// no worker is granted it again, whatever other changes come, until the
/// poller comes back.
pub proof fn single_poller<P, M>(v: SchedView<P, M>, id: u64, ops: Seq<Op<P, M>>, other: u64)
    requires
        v.poll_granted(id),
        forall|i: int| 0 <= i < ops.len() ==> !(#[trigger] ops[i] is EndPoll),
    ensures
        run(v.apply(Op::BeginPoll(id)), ops).polling,
        !run(v.apply(Op::BeginPoll(id)), ops).poll_granted(other),
{
    lemma_polling_kept(v.apply(Op::BeginPoll(id)), ops);
}

/// While someone polls, only the poller's return clears the flag.
proof fn lemma_polling_kept<P, M>(v: SchedView<P, M>, ops: Seq<Op<P, M>>)
    requires
        v.polling,
        forall|i: int| 0 <= i < ops.len() ==> !(#[trigger] ops[i] is EndPoll),
    ensures
        run(v, ops).polling,
    decreases ops.len(),
{
    if ops.len() > 0 {
        assert(!(ops[0] is EndPoll));
        let rest = ops.drop_first();
        assert forall|i: int| 0 <= i < rest.len() implies !(#[trigger] rest[i] is EndPoll) by {
            assert(rest[i] == ops[i + 1]);
        }
        lemma_polling_kept(v.apply(ops[0]), rest);
    }
}

} // verus!
