//! Outcomes of an attempt to take a task from a queue, and how several of them combine.
use vstd::prelude::*;

verus! {

/// Outcome of one attempt to take a task from a queue.
pub enum Steal<T> {
    /// The queue was empty at the time of the attempt.
    Empty,
    /// A task was taken.
    Success(T),
    /// The attempt lost a race and should be repeated.
    Retry,
}

/// Outcome of a sequence of attempts made in order: the first success wins;
/// without one, `Retry` if any attempt asked for it, else `Empty`.
pub open spec fn collapse<T>(s: Seq<Steal<T>>) -> Steal<T>
    decreases s.len(),
{
    if s.len() == 0 {
        Steal::Empty
    } else {
        match s[0] {
            Steal::Success(t) => Steal::Success(t),
            Steal::Empty => collapse(s.drop_first()),
            Steal::Retry => match collapse(s.drop_first()) {
                Steal::Success(t) => Steal::Success(t),
                _ => Steal::Retry,
            },
        }
    }
}

impl<T> Steal<T> {
    /// Returns `true` for `Retry`.
    pub fn is_retry(&self) -> (r: bool)
        ensures
            r == (*self is Retry),
    {
        match self {
            Steal::Retry => true,
            _ => false,
        }
    }

    /// Returns `true` for `Success`.
    pub fn is_success(&self) -> (r: bool)
        ensures
            r == (*self is Success),
    {
        match self {
            Steal::Success(_) => true,
            _ => false,
        }
    }

    /// The task taken, if any.
    pub fn success(self) -> (r: Option<T>)
        ensures
            r == (match self {
                Steal::Success(t) => Some(t),
                _ => None::<T>,
            }),
    {
        match self {
            Steal::Success(t) => Some(t),
            _ => None,
        }
    }
}

/// Combines an earlier sequence of attempts, summarised by whether any of them
/// asked for a retry (none succeeded), with the outcome of a later attempt.
pub fn merge<T>(retried: bool, later: Steal<T>) -> (r: Steal<T>)
    ensures
        r == collapse(seq![if retried { Steal::Retry } else { Steal::Empty }, later]),
{
    let ghost s = seq![if retried { Steal::Retry } else { Steal::Empty }, later];
    proof {
        assert(s.drop_first().drop_first() =~= Seq::<Steal<T>>::empty());
        assert(s.drop_first() =~= seq![later]);
        reveal_with_fuel(collapse, 3);
    }
    match later {
        Steal::Success(t) => Steal::Success(t),
        Steal::Retry => Steal::Retry,
        Steal::Empty => if retried {
            Steal::Retry
        } else {
            Steal::Empty
        },
    }
}

/// Combines the outcomes of attempts made in the order given.
pub fn collect_steals<T>(v: Vec<Steal<T>>) -> (r: Steal<T>)
    ensures
        r == collapse(v@),
{
    let ghost all = v@;
    let mut rest = v;
    let mut retried = false;
    while rest.len() > 0
        invariant
            all == v@,
            rest@ =~= all.subrange(all.len() - rest@.len(), all.len() as int),
            rest@.len() <= all.len(),
            collapse(all) == (match collapse(rest@) {
                Steal::Success(t) => Steal::Success(t),
                Steal::Retry => Steal::Retry,
                Steal::Empty => if retried { Steal::Retry } else { Steal::Empty },
            }),
        decreases rest.len(),
    {
        let ghost before = rest@;
        let s = rest.remove(0);
        proof {
            assert(rest@ =~= before.drop_first());
            assert(before[0] == s);
        }
        match s {
            Steal::Success(t) => {
                assert(collapse(before) == Steal::Success(t));
                return Steal::Success(t);
            },
            Steal::Retry => {
                retried = true;
            },
            Steal::Empty => {},
        }
    }
    proof {
        assert(all.subrange(all.len() as int, all.len() as int) =~= Seq::<Steal<T>>::empty());
    }
    if retried {
        Steal::Retry
    } else {
        Steal::Empty
    }
}

/// Position `k` of a walk over `len` queues that starts at `start` and wraps around.
pub open spec fn rotated(start: int, k: int, len: int) -> int {
    (start + k) % len
}

/// The index of the `k`-th queue visited by a walk that starts at `start`.
pub fn rotated_index(start: usize, k: usize, len: usize) -> (r: usize)
    requires
        start < len,
        k < len,
    ensures
        r as int == rotated(start as int, k as int, len as int),
        r < len,
{
    if k < len - start {
        proof {
            vstd::arithmetic::div_mod::lemma_small_mod((start + k) as nat, len as nat);
        }
        start + k
    } else {
        proof {
            vstd::arithmetic::div_mod::lemma_small_mod((start + k - len) as nat, len as nat);
            vstd::arithmetic::div_mod::lemma_mod_sub_multiples_vanish((start + k) as int, len as int);
        }
        k - (len - start)
    }
}

} // verus!
