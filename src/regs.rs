//! The register window as a bank of 32-bit slots addressed by byte offset.

use vstd::prelude::*;
use crate::layout::{
    valid_offset, MADPCR0, MADPCR1, MADPSR0, MADPSR1, MADPSR2, MADPSR3, MADPSR4, MADPSR5,
    WINDOW_WORDS,
};
use crate::metrics::{profile_of, ProfileResult, RawCounters};

verus! {

/// Contents of the controller's register window, one entry per 32-bit slot.
pub struct RegisterView {
    words: Vec<u32>,
}

/// The six accumulators of a window's contents.
pub open spec fn counters_of(words: Seq<u32>) -> RawCounters {
    RawCounters {
        total_cycles: words[MADPSR0 as int / 4],
        busy_cycles: words[MADPSR1 as int / 4],
        read_accesses: words[MADPSR2 as int / 4],
        write_accesses: words[MADPSR3 as int / 4],
        read_bytes: words[MADPSR4 as int / 4],
        write_bytes: words[MADPSR5 as int / 4],
    }
}

impl View for RegisterView {
    type V = Seq<u32>;

    closed spec fn view(&self) -> Seq<u32> {
        self.words@
    }
}

impl RegisterView {
    /// The window holds exactly one slot per 4 bytes.
    pub open spec fn wf(&self) -> bool {
        self@.len() == WINDOW_WORDS
    }

    /// The register at byte offset `offset`.
    pub open spec fn reg(&self, offset: usize) -> u32 {
        self@[offset as int / 4]
    }

    /// A window whose registers all read zero.
    pub fn new() -> (r: RegisterView)
        ensures
            r.wf(),
            forall|i: int| 0 <= i < WINDOW_WORDS ==> r@[i] == 0,
    {
        let mut words: Vec<u32> = Vec::new();
        let mut i: usize = 0;
        while i < WINDOW_WORDS
            invariant
                i <= WINDOW_WORDS,
                words@.len() == i,
                forall|k: int| 0 <= k < i ==> words@[k] == 0,
            decreases WINDOW_WORDS - i,
        {
            words.push(0);
            i = i + 1;
        }
        RegisterView { words }
    }

    /// A window with the given contents, one word per slot in offset order;
    /// `None` unless there are exactly `WINDOW_WORDS` of them.
    pub fn from_words(words: Vec<u32>) -> (r: Option<RegisterView>)
        ensures
            words@.len() == WINDOW_WORDS <==> r is Some,
            r matches Some(v) ==> v@ == words@ && v.wf(),
    {
        if words.len() == WINDOW_WORDS {
            Some(RegisterView { words })
        } else {
            None
        }
    }

    /// Reads the register at byte offset `offset`.
    pub fn read(&self, offset: usize) -> (r: u32)
        requires
            self.wf(),
            valid_offset(offset),
        ensures
            r == self.reg(offset),
    {
        self.words[offset / 4]
    }

    /// Stores `value` in the register at byte offset `offset`; no other
    /// register changes.
    pub fn write(&mut self, offset: usize, value: u32)
        requires
            old(self).wf(),
            valid_offset(offset),
        ensures
            final(self).wf(),
            final(self)@ == old(self)@.update(offset as int / 4, value),
    {
        self.words.set(offset / 4, value);
    }

    /// The profiling control register.
    pub fn control(&self) -> (r: u32)
        requires
            self.wf(),
        ensures
            r == self.reg(MADPCR0),
    {
        self.read(MADPCR0)
    }

    /// Stores `value` in the profiling control register.
    pub fn write_control(&mut self, value: u32)
        requires
            old(self).wf(),
        ensures
            final(self).wf(),
            final(self)@ == old(self)@.update(MADPCR0 as int / 4, value),
    {
        self.write(MADPCR0, value);
    }

    /// Stores each of `values` in the control register, in order. Afterwards
    /// the register holds the last of them; no other register changes.
    pub fn write_control_sequence(&mut self, values: &Vec<u32>)
        requires
            old(self).wf(),
        ensures
            final(self).wf(),
            values@.len() == 0 ==> final(self)@ == old(self)@,
            values@.len() > 0 ==> final(self)@ == old(self)@.update(
                MADPCR0 as int / 4,
                values@.last(),
            ),
    {
        let mut i: usize = 0;
        while i < values.len()
            invariant
                self.wf(),
                old(self).wf(),
                i <= values@.len(),
                i == 0 ==> self@ == old(self)@,
                i > 0 ==> self@ == old(self)@.update(MADPCR0 as int / 4, values@[i - 1]),
            decreases values@.len() - i,
        {
            self.write_control(values[i]);
            assert(self@ =~= old(self)@.update(MADPCR0 as int / 4, values@[i as int]));
            i = i + 1;
        }
    }

    /// Sets the profiling configuration register (the AXI ID filter) to
    /// `filter`, or to zero, which counts every master, when none is given.
    pub fn apply_options(&mut self, filter: Option<u32>)
        requires
            old(self).wf(),
        ensures
            final(self).wf(),
            final(self)@ == old(self)@.update(
                MADPCR1 as int / 4,
                match filter {
                    Some(f) => f,
                    None => 0,
                },
            ),
    {
        let value = match filter {
            Some(f) => f,
            None => 0,
        };
        self.write(MADPCR1, value);
    }

    /// Snapshot of the six accumulator registers.
    pub fn read_counters(&self) -> (r: RawCounters)
        requires
            self.wf(),
        ensures
            r == counters_of(self@),
    {
        RawCounters {
            total_cycles: self.read(MADPSR0),
            busy_cycles: self.read(MADPSR1),
            read_accesses: self.read(MADPSR2),
            write_accesses: self.read(MADPSR3),
            read_bytes: self.read(MADPSR4),
            write_bytes: self.read(MADPSR5),
        }
    }
}

/// The summary of the counters that the window holds.
pub fn get_mmdc_profiling_results(regs: &RegisterView) -> (r: ProfileResult)
    requires
        regs.wf(),
    ensures
        r == profile_of(counters_of(regs@)),
{
    let raw = regs.read_counters();
    ProfileResult::from_counters(&raw)
}

} // verus!
