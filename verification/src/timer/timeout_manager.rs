use vstd::prelude::*;
use crate::error::{ErrorKind, HotStuffError};

verus! {

/// Identifies a running timeout by the height and round it guards.
#[derive(Debug, Clone, Copy, PartialEq, Eq, Hash, Structural)]
pub struct TimeoutKey {
    pub height: u64,
    pub round: u64,
}

/// What happens to the timer service.
#[derive(Debug, Clone, Copy, PartialEq, Eq, Structural)]
pub enum TimerEvent {
    /// A timeout is asked for.
    Start(TimeoutKey),
    /// A running timeout is to be cancelled.
    Cancel(TimeoutKey),
    /// A running timeout's delay ran out.
    Expired(TimeoutKey),
}

/// What the timer service must do after an event.
#[derive(Debug, Clone, Copy, PartialEq, Eq, Structural)]
pub enum TimerAction {
    /// Start the delay of this timeout.
    Arm(TimeoutKey),
    /// Stop the delay of this timeout.
    Disarm(TimeoutKey),
    /// Nothing to do.
    Nothing,
}

/// The timeouts that are running, each once.
pub struct TimerRegistry {
    active: Vec<TimeoutKey>,
}

impl TimerRegistry {
    /// The running timeouts.
    pub closed spec fn keys(&self) -> Set<TimeoutKey> {
        self.active@.to_set()
    }

    /// No timeout is listed twice.
    pub closed spec fn wf(&self) -> bool {
        self.active@.no_duplicates()
    }

    /// A registry with no running timeout.
    pub fn new() -> (r: TimerRegistry)
        ensures
            r.wf(),
            r.keys() == Set::<TimeoutKey>::empty(),
    {
        let r = TimerRegistry { active: Vec::new() };
        assert(r.keys() =~= Set::<TimeoutKey>::empty());
        r
    }

    /// The number of running timeouts.
    pub fn len(&self) -> (n: usize)
        requires
            self.wf(),
        ensures
            n == self.keys().len(),
    {
        proof {
            self.active@.unique_seq_to_set();
        }
        self.active.len()
    }

    /// The position of `key` among the running timeouts, if it is running.
    fn position(&self, key: TimeoutKey) -> (r: Option<usize>)
        ensures
            match r {
                Some(i) => i < self.active@.len() && self.active@[i as int] == key,
                None => !self.keys().contains(key),
            },
    {
        let mut i: usize = 0;
        while i < self.active.len()
            invariant
                i <= self.active@.len(),
                forall|j: int| 0 <= j < i ==> self.active@[j] != key,
            decreases self.active@.len() - i,
        {
            if self.active[i] == key {
                return Some(i);
            }
            i = i + 1;
        }
        None
    }

    /// Decides an event: starting a timeout that already runs, or cancelling one that does
    /// not, is a timer error and changes nothing; otherwise the timeout is registered and
    /// armed, or removed and disarmed. An expired timeout is removed and needs nothing more.
    pub fn step(&mut self, event: TimerEvent) -> (r: Result<TimerAction, HotStuffError>)
        requires
            old(self).wf(),
        ensures
            final(self).wf(),
            match event {
                TimerEvent::Start(key) => if old(self).keys().contains(key) {
                    &&& r is Err
                    &&& r->Err_0.kind() == ErrorKind::Timer
                    &&& r->Err_0.message() == "Timeout already exists for this key"@
                    &&& final(self).keys() == old(self).keys()
                } else {
                    &&& r == Ok::<TimerAction, HotStuffError>(TimerAction::Arm(key))
                    &&& final(self).keys() == old(self).keys().insert(key)
                },
                TimerEvent::Cancel(key) => if old(self).keys().contains(key) {
                    &&& r == Ok::<TimerAction, HotStuffError>(TimerAction::Disarm(key))
                    &&& final(self).keys() == old(self).keys().remove(key)
                } else {
                    &&& r is Err
                    &&& r->Err_0.kind() == ErrorKind::Timer
                    &&& r->Err_0.message() == "No timeout found for this key"@
                    &&& final(self).keys() == old(self).keys()
                },
                TimerEvent::Expired(key) => {
                    &&& r == Ok::<TimerAction, HotStuffError>(TimerAction::Nothing)
                    &&& final(self).keys() == old(self).keys().remove(key)
                },
            },
    {
        match event {
            TimerEvent::Start(key) => {
                match self.position(key) {
                    Some(_) => Err(HotStuffError::timer("Timeout already exists for this key")),
                    None => {
                        let ghost before = self.active@;
                        self.active.push(key);
                        proof {
                            assert(self.active@.to_set() =~= before.to_set().insert(key)) by {
                                before.lemma_push_to_set_commute(key);
                            }
                        }
                        Ok(TimerAction::Arm(key))
                    },
                }
            },
            TimerEvent::Cancel(key) => {
                match self.position(key) {
                    Some(i) => {
                        self.remove_at(i);
                        Ok(TimerAction::Disarm(key))
                    },
                    None => Err(HotStuffError::timer("No timeout found for this key")),
                }
            },
            TimerEvent::Expired(key) => {
                match self.position(key) {
                    Some(i) => {
                        self.remove_at(i);
                    },
                    None => {
                        assert(self.keys().remove(key) =~= self.keys());
                    },
                }
                Ok(TimerAction::Nothing)
            },
        }
    }

    /// Removes the running timeout at position `i`.
    fn remove_at(&mut self, i: usize)
        requires
            old(self).wf(),
            i < old(self).active@.len(),
        ensures
            final(self).wf(),
            final(self).keys() == old(self).keys().remove(old(self).active@[i as int]),
    {
        let ghost before = self.active@;
        let key = self.active.remove(i);
        proof {
            assert forall|x: TimeoutKey| self.active@.to_set().contains(x)
                <==> before.to_set().remove(key).contains(x) by {
                if self.active@.to_set().contains(x) {
                    let j = choose|j: int| 0 <= j < self.active@.len() && self.active@[j] == x;
                    if j < i {
                        assert(before[j] == x);
                        assert(before[j] != before[i as int]);
                    } else {
                        assert(before[j + 1] == x);
                        assert(before[j + 1] != before[i as int]);
                    }
                }
                if before.to_set().remove(key).contains(x) {
                    let j = choose|j: int| 0 <= j < before.len() && before[j] == x;
                    assert(j != i);
                    if j < i {
                        assert(self.active@[j] == x);
                    } else {
                        assert(self.active@[j - 1] == x);
                    }
                }
            }
            assert(self.active@.to_set() =~= before.to_set().remove(key));
            assert forall|a: int, b: int| 0 <= a < b < self.active@.len() implies self.active@[a] != self.active@[b] by {
                let a0 = if a < i { a } else { a + 1 };
                let b0 = if b < i { b } else { b + 1 };
                assert(self.active@[a] == before[a0]);
                assert(self.active@[b] == before[b0]);
            }
        }
    }
}

} // verus!
