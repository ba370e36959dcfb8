//! The parameter store and its staleness gate, as one state machine.
//!
//! Every method is one step of the protocol that the control actor (writes)
//! and the audio actor (reconciliation, dispatch) run against shared state.
use vstd::prelude::*;
use crate::param::{
    Param, param_at, in_range, DEFAULT_ABSORPTION_BITS, DEFAULT_DECAY_BITS,
    DEFAULT_DRY_WET_BITS, DEFAULT_SIZE_BITS,
};

verus! {

/// The four parameter values that the engine's configuration setters take,
/// as `f32` bit patterns. `size` is still normalized: the engine receives it
/// multiplied by `SIZE_SCALE`.
#[derive(Clone, Copy, Debug, PartialEq, Eq, Structural)]
pub struct EngineSettings {
    pub dry_wet: u32,
    pub absorption: u32,
    pub decay: u32,
    pub size: u32,
}

/// What the audio actor does with the engine for one block: push `configure`
/// into the engine's setters when it is present, then run the engine's
/// `process` once on each channel `0..channels`, in order, each with its own
/// input and output region.
#[derive(Clone, Copy, Debug, PartialEq, Eq, Structural)]
pub struct BlockPlan {
    pub configure: Option<EngineSettings>,
    pub channels: usize,
}

/// Number of channel pairs in a block with `inputs` input and `outputs`
/// output channels: each input is paired with the output at its position.
pub open spec fn paired_channels(inputs: usize, outputs: usize) -> usize {
    if inputs <= outputs { inputs } else { outputs }
}

/// Current parameter values and the staleness flag.
pub struct ParamStore {
    pub dry_wet: u32,
    pub absorption: u32,
    pub decay: u32,
    pub size: u32,
    /// True when the engine's configuration may lag behind the values.
    pub stale: bool,
}

impl ParamStore {
    /// Value stored for a parameter.
    pub open spec fn value_of(self, p: Param) -> u32 {
        match p {
            Param::DryWet => self.dry_wet,
            Param::Absorption => self.absorption,
            Param::Decay => self.decay,
            Param::Size => self.size,
        }
    }

    /// Value read at a host index: 0 for an index outside 0..=3.
    pub open spec fn value_at(self, index: int) -> u32 {
        match param_at(index) {
            Some(p) => self.value_of(p),
            None => 0,
        }
    }

    /// The settings that reconciliation derives from the current values.
    pub open spec fn settings_spec(self) -> EngineSettings {
        EngineSettings {
            dry_wet: self.dry_wet,
            absorption: self.absorption,
            decay: self.decay,
            size: self.size,
        }
    }

    /// The store after writing `bits` at a host index.
    pub open spec fn after_set(self, index: int, bits: u32) -> ParamStore {
        let s = ParamStore { stale: true, ..self };
        match param_at(index) {
            Some(Param::DryWet) => ParamStore { dry_wet: bits, ..s },
            Some(Param::Absorption) => ParamStore { absorption: bits, ..s },
            Some(Param::Decay) => ParamStore { decay: bits, ..s },
            Some(Param::Size) => ParamStore { size: bits, ..s },
            None => s,
        }
    }

    /// Default values, flag stale so that the first block configures the engine.
    pub fn new() -> (r: ParamStore)
        ensures
            r.dry_wet == DEFAULT_DRY_WET_BITS,
            r.absorption == DEFAULT_ABSORPTION_BITS,
            r.decay == DEFAULT_DECAY_BITS,
            r.size == DEFAULT_SIZE_BITS,
            r.stale,
    {
        ParamStore {
            dry_wet: DEFAULT_DRY_WET_BITS,
            absorption: DEFAULT_ABSORPTION_BITS,
            decay: DEFAULT_DECAY_BITS,
            size: DEFAULT_SIZE_BITS,
            stale: true,
        }
    }

    /// Value at a host index; 0 (the bits of `0.0_f32`) outside 0..=3.
    pub fn get(&self, index: i32) -> (r: u32)
        ensures
            r == self.value_at(index as int),
            !in_range(index as int) ==> r == 0,
    {
        match Param::from_index(index) {
            Some(Param::DryWet) => self.dry_wet,
            Some(Param::Absorption) => self.absorption,
            Some(Param::Decay) => self.decay,
            Some(Param::Size) => self.size,
            None => 0,
        }
    }

    /// Stores `bits` at a host index and marks the engine configuration stale.
    /// An index outside 0..=3 changes no value.
    pub fn set(&mut self, index: i32, bits: u32)
        ensures
            *final(self) == old(self).after_set(index as int, bits),
            final(self).stale,
    {
        self.stale = true;
        match Param::from_index(index) {
            Some(Param::DryWet) => self.dry_wet = bits,
            Some(Param::Absorption) => self.absorption = bits,
            Some(Param::Decay) => self.decay = bits,
            Some(Param::Size) => self.size = bits,
            None => {},
        }
    }

    /// Whether the engine configuration is stale.
    pub fn is_stale(&self) -> (r: bool)
        ensures
            r == self.stale,
    {
        self.stale
    }

    /// Marks the engine configuration stale without touching any value, as
    /// when the engine has been rebuilt with its own defaults.
    pub fn invalidate(&mut self)
        ensures
            *final(self) == (ParamStore { stale: true, ..*old(self) }),
    {
        self.stale = true;
    }

    /// First step of reconciliation: clears the flag and reports whether it
    /// was set. A write after this step raises the flag again.
    pub fn claim(&mut self) -> (r: bool)
        ensures
            r == old(self).stale,
            *final(self) == (ParamStore { stale: false, ..*old(self) }),
    {
        let was = self.stale;
        self.stale = false;
        was
    }

    /// Second step of reconciliation: reads every value.
    pub fn settings(&self) -> (r: EngineSettings)
        ensures
            r == self.settings_spec(),
    {
        EngineSettings {
            dry_wet: self.get(0),
            absorption: self.get(1),
            decay: self.get(2),
            size: self.get(3),
        }
    }

    /// Reconciliation: when stale, the settings to push into the engine, and
    /// the flag cleared; when fresh, nothing, and nothing changes.
    pub fn reconcile(&mut self) -> (r: Option<EngineSettings>)
        ensures
            old(self).stale ==> r == Some(old(self).settings_spec()),
            !old(self).stale ==> r.is_none(),
            *final(self) == (ParamStore { stale: false, ..*old(self) }),
    {
        if self.claim() {
            Some(self.settings())
        } else {
            None
        }
    }

    /// Plans one block: reconciles, then pairs the channels.
    pub fn plan_block(&mut self, inputs: usize, outputs: usize) -> (r: BlockPlan)
        ensures
            old(self).stale ==> r.configure == Some(old(self).settings_spec()),
            !old(self).stale ==> r.configure.is_none(),
            r.channels == paired_channels(inputs, outputs),
            *final(self) == (ParamStore { stale: false, ..*old(self) }),
    {
        let configure = self.reconcile();
        plan_with(configure, inputs, outputs)
    }
}

/// The block plan for settings already claimed by reconciliation.
pub fn plan_with(configure: Option<EngineSettings>, inputs: usize, outputs: usize) -> (r: BlockPlan)
    ensures
        r.configure == configure,
        r.channels == paired_channels(inputs, outputs),
{
    let channels = if inputs <= outputs { inputs } else { outputs };
    BlockPlan { configure, channels }
}

} // verus!
