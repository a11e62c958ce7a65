//! Handing out decoded samples one at a time.
//!
//! A sample is carried as the bit pattern of its 32-bit floating-point value.
use vstd::prelude::*;

verus! {

/// Where a sample iterator stands.
#[derive(Debug, Clone, Copy, PartialEq, Eq, Structural)]
pub enum IterState {
    /// No unread sample is held; the next packet is wanted.
    Empty,
    /// Unread samples are held.
    Filled,
    /// The packets have run out. Nothing leaves this state.
    Exhausted,
}

/// The state of an iterator that has not ended and holds `pending` unread
/// samples: filled if there are any, else empty.
pub open spec fn state_holding(pending: Seq<u32>) -> IterState {
    if pending.len() > 0 {
        IterState::Filled
    } else {
        IterState::Empty
    }
}

/// The answer to asking for the next sample.
#[derive(Debug, Clone, Copy, PartialEq, Eq, Structural)]
pub enum Pull {
    /// The next sample.
    Sample(u32),
    /// No sample is held: the next packet has to be decoded first.
    NeedPacket,
    /// The stream has ended.
    End,
}

/// The buffer of one decoded packet and the place of the next unread
/// sample in it.
#[derive(Debug)]
pub struct SampleIterator {
    buffer: Vec<u32>,
    cursor: usize,
    exhausted: bool,
}

impl SampleIterator {
    #[verifier::type_invariant]
    spec fn cursor_in_buffer(self) -> bool {
        &&& self.cursor <= self.buffer@.len()
        &&& self.exhausted ==> self.cursor == self.buffer@.len()
    }

    /// The samples of the current buffer that were not handed out yet.
    pub closed spec fn pending(self) -> Seq<u32> {
        self.buffer@.subrange(self.cursor as int, self.buffer@.len() as int)
    }

    /// The place of the next unread sample in the current buffer.
    pub closed spec fn cursor_at(self) -> nat {
        self.cursor as nat
    }

    /// The length of the current buffer.
    pub closed spec fn held(self) -> nat {
        self.buffer@.len()
    }

    /// Whether the packets have run out.
    pub closed spec fn ended(self) -> bool {
        self.exhausted
    }

    /// The state: exhausted once ended, else filled while samples are
    /// pending.
    pub open spec fn state(self) -> IterState {
        if self.ended() {
            IterState::Exhausted
        } else if self.pending().len() > 0 {
            IterState::Filled
        } else {
            IterState::Empty
        }
    }

    /// An iterator that holds nothing yet.
    pub fn new() -> (it: Self)
        ensures
            it.state() == IterState::Empty,
            it.pending() == Seq::<u32>::empty(),
            it.cursor_at() == 0,
            it.held() == 0,
    {
        SampleIterator { buffer: Vec::new(), cursor: 0, exhausted: false }
    }

    /// The place of the next unread sample. It never lies beyond the
    /// buffer, and what lies between it and the buffer's end is pending.
    pub fn cursor(&self) -> (c: usize)
        ensures
            c == self.cursor_at(),
            c <= self.held(),
            self.pending().len() == self.held() - c,
    {
        proof {
            use_type_invariant(&*self);
        }
        self.cursor
    }

    /// Computes `state`.
    pub fn current_state(&self) -> (s: IterState)
        ensures
            s == self.state(),
    {
        proof {
            use_type_invariant(&*self);
        }
        if self.exhausted {
            IterState::Exhausted
        } else if self.cursor < self.buffer.len() {
            IterState::Filled
        } else {
            IterState::Empty
        }
    }

    /// Hands out the next pending sample. Where none is pending nothing
    /// changes, and the answer tells whether a packet is wanted or the
    /// stream has ended. Once exhausted, every call answers `End`.
    pub fn pull(&mut self) -> (p: Pull)
        ensures
            old(self).state() == IterState::Filled ==> {
                &&& p == Pull::Sample(old(self).pending()[0])
                &&& final(self).pending() == old(self).pending().drop_first()
                &&& !final(self).ended()
                &&& final(self).cursor_at() == old(self).cursor_at() + 1
                &&& final(self).held() == old(self).held()
            },
            old(self).state() == IterState::Empty ==> p == Pull::NeedPacket && *final(self)
                == *old(self),
            old(self).state() == IterState::Exhausted ==> p == Pull::End && *final(self)
                == *old(self),
        no_unwind
    {
        proof {
            use_type_invariant(&*self);
        }
        if self.exhausted {
            Pull::End
        } else if self.cursor < self.buffer.len() {
            let sample: u32 = self.buffer[self.cursor];
            self.cursor = self.cursor + 1;
            proof {
                assert(final(self).pending() =~= old(self).pending().drop_first());
            }
            Pull::Sample(sample)
        } else {
            Pull::NeedPacket
        }
    }

    /// Takes a freshly decoded buffer in place of the consumed one and
    /// starts at its first sample. Only an empty iterator takes one:
    /// otherwise nothing changes and the answer is `false`.
    pub fn install(&mut self, buffer: Vec<u32>) -> (taken: bool)
        ensures
            taken == (old(self).state() == IterState::Empty),
            taken ==> {
                &&& final(self).pending() == buffer@
                &&& !final(self).ended()
                &&& final(self).cursor_at() == 0
                &&& final(self).held() == buffer@.len()
            },
            !taken ==> *final(self) == *old(self),
        no_unwind
    {
        proof {
            use_type_invariant(&*self);
        }
        if self.exhausted || self.cursor < self.buffer.len() {
            false
        } else {
            *self = SampleIterator { buffer, cursor: 0, exhausted: false };
            proof {
                assert(final(self).pending() =~= buffer@);
            }
            true
        }
    }

    /// Records that the packets have run out. An empty iterator becomes
    /// exhausted, an exhausted one stays so; while samples are pending
    /// nothing changes and the answer is `false`.
    pub fn finish(&mut self) -> (done: bool)
        ensures
            done == (old(self).state() != IterState::Filled),
            done ==> final(self).state() == IterState::Exhausted && final(self).pending()
                == old(self).pending(),
            !done ==> *final(self) == *old(self),
        no_unwind
    {
        proof {
            use_type_invariant(&*self);
        }
        if !self.exhausted && self.cursor < self.buffer.len() {
            false
        } else {
            self.exhausted = true;
            true
        }
    }
}

} // verus!
