//! The parameter store in lock-free atomic cells, shared between the control
//! actor and the audio actor.
//!
//! A cell is picked by the parameter's host index, and reconciliation reads
//! the cells into a `ParamStore` whose own verified steps decide what is
//! pushed into the engine. Values are written with relaxed ordering, the
//! flag is raised with release ordering after the value, and reconciliation
//! clears the flag with an acquire-release swap before it reads any value. A write that the swap
//! did not observe therefore leaves the flag raised for the next block.
use vstd::prelude::*;
use std::sync::atomic::{AtomicBool, AtomicU32, Ordering};
use crate::param::{
    Param, in_range, DEFAULT_ABSORPTION_BITS, DEFAULT_DECAY_BITS,
    DEFAULT_DRY_WET_BITS, DEFAULT_SIZE_BITS, PARAM_COUNT,
};
use crate::store::{BlockPlan, EngineSettings, ParamStore, plan_with, paired_channels};

verus! {

/// Atomic parameter cells, one per host index, and staleness flag.
pub struct SharedParams {
    cells: [AtomicU32; 4],
    stale: AtomicBool,
}

impl SharedParams {
    /// Default values, flag raised so that the first block configures the engine.
    pub fn new() -> (r: SharedParams) {
        SharedParams {
            cells: [
                AtomicU32::new(DEFAULT_DRY_WET_BITS),
                AtomicU32::new(DEFAULT_ABSORPTION_BITS),
                AtomicU32::new(DEFAULT_DECAY_BITS),
                AtomicU32::new(DEFAULT_SIZE_BITS),
            ],
            stale: AtomicBool::new(true),
        }
    }

    /// The cell of a parameter: the one at its host index.
    fn cell(&self, p: Param) -> &AtomicU32 {
        let i = p.index();
        &self.cells[i as usize]
    }

    /// Value at a host index, as last written by any actor; 0 (the bits of
    /// `0.0_f32`) for an index outside 0..=3.
    pub fn get(&self, index: i32) -> (r: u32)
        ensures
            !in_range(index as int) ==> r == 0,
    {
        match Param::from_index(index) {
            Some(p) => self.cell(p).load(Ordering::Relaxed),
            None => 0,
        }
    }

    /// Stores `bits` at a host index, then raises the flag. An index outside
    /// 0..=3 changes no value.
    pub fn set(&self, index: i32, bits: u32) {
        match Param::from_index(index) {
            Some(p) => self.cell(p).store(bits, Ordering::Relaxed),
            None => {},
        }
        self.stale.store(true, Ordering::Release);
    }

    /// Raises the flag without touching any value.
    pub fn invalidate(&self) {
        self.stale.store(true, Ordering::Release);
    }

    /// A store holding the values read now from every cell, index by index,
    /// with the given flag.
    fn snapshot(&self, stale: bool) -> (r: ParamStore)
        ensures
            r.stale == stale,
    {
        let mut s = ParamStore::new();
        let mut i: i32 = 0;
        while i < PARAM_COUNT
            invariant
                0 <= i <= PARAM_COUNT,
                s.stale,
            decreases PARAM_COUNT - i,
        {
            let bits = self.get(i);
            s.set(i, bits);
            i = i + 1;
        }
        if !stale {
            s.claim();
        }
        s
    }

    /// Reads every value.
    pub fn settings(&self) -> (r: EngineSettings) {
        self.snapshot(false).settings()
    }

    /// Reconciliation: clears the flag first, then reads the cells into a
    /// store that carries the flag's former state, and reconciles that store.
    pub fn reconcile(&self) -> (r: Option<EngineSettings>) {
        let was_stale = self.stale.swap(false, Ordering::AcqRel);
        let mut s = self.snapshot(was_stale);
        s.reconcile()
    }

    /// Plans one block: reconciles, then pairs the channels.
    pub fn plan_block(&self, inputs: usize, outputs: usize) -> (r: BlockPlan)
        ensures
            r.channels == paired_channels(inputs, outputs),
    {
        let configure = self.reconcile();
        plan_with(configure, inputs, outputs)
    }
}

} // verus!
