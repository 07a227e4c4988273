use vstd::prelude::*;

verus! {

/// One of the two buffers that each channel owns.
#[derive(Clone, Copy, Debug, PartialEq, Eq, Structural)]
pub enum Segment {
    S0,
    S1,
}

/// A logical output axis. `Modulation` is the temporal amplitude axis; the
/// three others share the spatial output path and exclude one another.
#[derive(Clone, Copy, Debug, PartialEq, Eq, Structural)]
pub enum Channel {
    Modulation,
    Gain,
    FociSTM,
    GainSTM,
}

/// How a buffer is played once it is active.
#[derive(Clone, Copy, Debug, PartialEq, Eq, Structural)]
pub enum LoopBehavior {
    /// Played in a loop for as long as the segment is active.
    Infinite,
    /// Played once; the last sample is then held.
    OnceThenHold,
}

/// A general-purpose input pin of a device.
#[derive(Clone, Copy, Debug, PartialEq, Eq, Structural)]
pub enum GPIOIn {
    I0,
    I1,
    I2,
    I3,
}

/// The condition on which a staged segment becomes the active one.
#[derive(Clone, Copy, Debug, PartialEq, Eq, Structural)]
pub enum TransitionMode {
    /// At the next output frame boundary.
    Immediate,
    /// At the next wraparound of the global sample index.
    SyncIdx,
    /// Once the device's system time (in nanoseconds) reaches the value.
    SysTime(u64),
    /// On the next external synchronization signal.
    Ext,
    /// On the next rising edge of the given input pin.
    GPIO(GPIOIn),
}

/// Why a request was refused. Every one is a deterministic outcome of the
/// request and the current state.
#[derive(Clone, Copy, Debug, PartialEq, Eq, Structural)]
pub enum EngineError {
    InvalidSamplingConfig,
    InvalidSilencerSettings,
    InvalidTransitionMode,
    InvalidSegmentTransition,
    MissTransitionTime,
    BufferTooLarge,
}

impl Segment {
    /// The other segment of the pair.
    pub fn other(self) -> (r: Segment)
        ensures
            r != self,
    {
        match self {
            Segment::S0 => Segment::S1,
            Segment::S1 => Segment::S0,
        }
    }
}

impl Channel {
    /// Whether the channel drives the spatial output path.
    pub open spec fn spec_is_spatial(self) -> bool {
        !(self is Modulation)
    }

    /// Whether the channel plays a spatio-temporal sequence.
    pub open spec fn spec_is_stm(self) -> bool {
        self is FociSTM || self is GainSTM
    }

    #[verifier::when_used_as_spec(spec_is_stm)]
    pub fn is_stm(self) -> (r: bool)
        ensures
            r == self.spec_is_stm(),
    {
        match self {
            Channel::FociSTM | Channel::GainSTM => true,
            _ => false,
        }
    }
}

impl TransitionMode {
    /// Whether the mode waits for a trigger instead of taking effect at once.
    pub open spec fn spec_is_deferred(self) -> bool {
        !(self is Immediate)
    }

    /// Whether the mode plays a segment in step with a clock or a pin; such a
    /// mode cannot target the segment that is already active.
    pub open spec fn spec_is_synchronous(self) -> bool {
        self is SyncIdx || self is SysTime || self is GPIO
    }

    #[verifier::when_used_as_spec(spec_is_synchronous)]
    pub fn is_synchronous(self) -> (r: bool)
        ensures
            r == self.spec_is_synchronous(),
    {
        match self {
            TransitionMode::SyncIdx | TransitionMode::SysTime(_) | TransitionMode::GPIO(_) => true,
            _ => false,
        }
    }
}

} // verus!
