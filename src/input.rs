//! Queue of pending changes of direction, with debounce and reversal rejection.
use vstd::prelude::*;

use std::collections::VecDeque;

use crate::consts::MICROS_PER_INPUT_UPDATE;
use crate::direction::Direction;

verus! {

/// `i` is the first entry of `q` that turns away from `heading`: it is
/// neither `heading` nor its inverse, and every entry before it is one of those.
pub open spec fn is_first_turn(q: Seq<Direction>, heading: Direction, i: int) -> bool {
    &&& 0 <= i < q.len()
    &&& !q[i].spec_is_colinear(heading)
    &&& forall|j: int| 0 <= j < i ==> (#[trigger] q[j]).spec_is_colinear(heading)
}

/// `timer + elapsed`, saturated at `u64::MAX`.
pub open spec fn timer_after(timer: u64, elapsed: u64) -> u64 {
    if timer + elapsed > u64::MAX {
        u64::MAX
    } else {
        (timer + elapsed) as u64
    }
}

/// The outcome of `InputQueue::update`: from queue `q` and timer `timer`, after
/// `elapsed` microseconds with heading `heading`, the new heading `r` (if any),
/// queue `q2` and timer `timer2`.
pub open spec fn updated(
    q: Seq<Direction>,
    timer: u64,
    elapsed: u64,
    heading: Direction,
    r: Option<Direction>,
    q2: Seq<Direction>,
    timer2: u64,
) -> bool {
    let t = timer_after(timer, elapsed);
    if t < MICROS_PER_INPUT_UPDATE {
        &&& r == None::<Direction>
        &&& q2 == q
        &&& timer2 == t
    } else if exists|i: int| is_first_turn(q, heading, i) {
        exists|i: int|
            {
                &&& #[trigger] is_first_turn(q, heading, i)
                &&& r == Some(q[i])
                &&& q2 == q.subrange(i + 1, q.len() as int)
                &&& timer2 == 0
            }
    } else {
        &&& r == None::<Direction>
        &&& q2 == Seq::<Direction>::empty()
        &&& timer2 == t
    }
}

/// Directions pressed and not yet used, oldest first, and the time since the
/// last accepted change of direction, in microseconds.
pub struct InputQueue {
    pub inputs: VecDeque<Direction>,
    pub timer: u64,
}

impl InputQueue {
    pub fn new() -> (r: InputQueue)
        ensures
            r.inputs@ == Seq::<Direction>::empty(),
            r.timer == 0,
    {
        InputQueue { inputs: VecDeque::new(), timer: 0 }
    }

    /// Queue `dir`, unless it repeats the newest entry.
    pub fn push(&mut self, dir: Direction)
        ensures
            final(self).timer == old(self).timer,
            final(self).inputs@ == if old(self).inputs@.len() > 0 && old(self).inputs@.last()
                == dir {
                old(self).inputs@
            } else {
                old(self).inputs@.push(dir)
            },
    {
        let n = self.inputs.len();
        if n == 0 || self.inputs[n - 1] != dir {
            self.inputs.push_back(dir);
        }
    }

    /// Forget every queued direction.
    pub fn clear(&mut self)
        ensures
            final(self).timer == old(self).timer,
            final(self).inputs@ == Seq::<Direction>::empty(),
    {
        self.inputs.clear();
    }

    /// Add `elapsed` to the timer. Once it reaches `MICROS_PER_INPUT_UPDATE`,
    /// drop the queued entries up to the first one that turns away from
    /// `heading` and return that one, with the timer set back to zero; when no
    /// entry turns, empty the queue and return `None`. Before that, change nothing
    /// but the timer.
    pub fn update(&mut self, elapsed: u64, heading: Direction) -> (r: Option<Direction>)
        ensures
            updated(old(self).inputs@, old(self).timer, elapsed, heading, r, final(self).inputs@, final(self).timer),
    {
        let ghost t = timer_after(self.timer, elapsed);
        self.timer = self.timer.saturating_add(elapsed);
        assert(self.timer == t);
        if self.timer < MICROS_PER_INPUT_UPDATE {
            return None;
        }
        let ghost q = self.inputs@;
        let n = self.inputs.len();
        let mut i: usize = 0;
        while i < n
            invariant
                self.inputs@ == q,
                q == old(self).inputs@,
                t == timer_after(old(self).timer, elapsed),
                t >= MICROS_PER_INPUT_UPDATE,
                self.timer == t,
                n == q.len(),
                0 <= i <= n,
                forall|j: int| 0 <= j < i ==> (#[trigger] q[j]).spec_is_colinear(heading),
            decreases n - i,
        {
            let d = self.inputs[i];
            if !d.is_colinear(heading) {
                assert(is_first_turn(q, heading, i as int));
                let mut k: usize = 0;
                while k <= i
                    invariant
                        0 <= k <= i + 1,
                        i < n,
                        n == q.len(),
                        d == q[i as int],
                        q == old(self).inputs@,
                        t == timer_after(old(self).timer, elapsed),
                        t >= MICROS_PER_INPUT_UPDATE,
                        is_first_turn(q, heading, i as int),
                        self.inputs@ == q.subrange(k as int, n as int),
                    decreases i + 1 - k,
                {
                    self.inputs.pop_front();
                    assert(self.inputs@ =~= q.subrange(k + 1, n as int));
                    k = k + 1;
                }
                self.timer = 0;
                assert(is_first_turn(q, heading, i as int));
                return Some(d);
            }
            i = i + 1;
        }
        proof {
            assert forall|i: int| !is_first_turn(q, heading, i) by {
                if 0 <= i < q.len() {
                    assert(q[i].spec_is_colinear(heading));
                }
            }
        }
        self.inputs.clear();
        None
    }
}

} // verus!
