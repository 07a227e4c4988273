use vstd::prelude::*;

use crate::segment::{Channel, EngineError, GPIOIn, LoopBehavior, Segment, TransitionMode};
use crate::silencer::Silencer;

verus! {

/// Most samples that a modulation buffer holds.
pub const MOD_BUF_SIZE_MAX: usize = 65536;

/// Most points that a focus sequence holds.
pub const FOCI_STM_BUF_SIZE_MAX: usize = 65536;

/// Most patterns that a gain sequence holds.
pub const GAIN_STM_BUF_SIZE_MAX: usize = 1024;

/// Transducers of one device, each with one entry of a static gain.
pub const NUM_TRANS_IN_UNIT: usize = 249;

/// What a segment slot holds.
pub struct SlotView {
    /// One value per entry: a modulation sample, the intensity of a
    /// transducer, or the intensity of a point of a sequence.
    pub data: Seq<u8>,
    /// Carrier periods between two entries.
    pub divide: nat,
    pub loop_behavior: LoopBehavior,
}

/// A transition that was accepted and waits for its trigger.
#[derive(Clone, Copy, Debug, PartialEq, Eq, Structural)]
pub struct Pending {
    pub channel: Channel,
    pub segment: Segment,
    pub mode: TransitionMode,
}

/// An event on which a waiting transition may fire.
#[derive(Clone, Copy, Debug, PartialEq, Eq, Structural)]
pub enum Trigger {
    /// The global sample index wrapped around.
    SyncIdx,
    /// The device's system time, in nanoseconds, reached the value.
    SysTime(u64),
    /// The external synchronization signal arrived.
    Ext,
    /// A rising edge on the pin.
    GPIO(GPIOIn),
}

/// Which segment drives each output axis, as the device reports it.
#[derive(Clone, Copy, Debug, PartialEq, Eq, Structural)]
pub struct FpgaState {
    pub modulation_segment: Segment,
    /// Set while a static gain drives the spatial output.
    pub gain_segment: Option<Segment>,
    /// Set while a spatio-temporal sequence drives the spatial output.
    pub stm_segment: Option<Segment>,
}

/// The whole state of one device's segment store and transition engine.
pub struct EngineView {
    /// Eight slots, two per channel, placed by `slot_index`.
    pub slots: Seq<SlotView>,
    pub modulation_segment: Segment,
    /// The channel that drives the spatial output; never `Modulation`.
    pub spatial_channel: Channel,
    pub spatial_segment: Segment,
    pub silencer: Silencer,
    pub modulation_pending: Option<Pending>,
    pub spatial_pending: Option<Pending>,
}

pub open spec fn channel_index(c: Channel) -> int {
    match c {
        Channel::Modulation => 0,
        Channel::Gain => 1,
        Channel::FociSTM => 2,
        Channel::GainSTM => 3,
    }
}

pub open spec fn segment_index(s: Segment) -> int {
    match s {
        Segment::S0 => 0,
        Segment::S1 => 1,
    }
}

/// Where the slot of a channel and a segment is kept.
pub open spec fn slot_index(c: Channel, s: Segment) -> int {
    2 * channel_index(c) + segment_index(s)
}

/// Most entries that a buffer of the channel holds.
pub open spec fn max_len(c: Channel) -> nat {
    match c {
        Channel::Modulation => MOD_BUF_SIZE_MAX as nat,
        Channel::Gain => NUM_TRANS_IN_UNIT as nat,
        Channel::FociSTM => FOCI_STM_BUF_SIZE_MAX as nat,
        Channel::GainSTM => GAIN_STM_BUF_SIZE_MAX as nat,
    }
}

/// The slot that a cleared device holds: no data, the slowest sampling, played
/// in a loop.
pub open spec fn empty_slot() -> SlotView {
    SlotView { data: Seq::empty(), divide: u16::MAX as nat, loop_behavior: LoopBehavior::Infinite }
}

/// The silencer of a cleared device.
pub open spec fn default_silencer() -> Silencer {
    Silencer {
        intensity_steps: crate::silencer::SILENCER_STEPS_INTENSITY_DEFAULT,
        phase_steps: crate::silencer::SILENCER_STEPS_PHASE_DEFAULT,
        strict: true,
    }
}

/// Whether the mode fires on the event.
pub open spec fn fires(mode: TransitionMode, event: Trigger) -> bool {
    match (mode, event) {
        (TransitionMode::SyncIdx, Trigger::SyncIdx) => true,
        (TransitionMode::SysTime(t), Trigger::SysTime(now)) => t <= now,
        (TransitionMode::Ext, Trigger::Ext) => true,
        (TransitionMode::GPIO(p), Trigger::GPIO(q)) => p == q,
        _ => false,
    }
}

/// Whether a buffer with the loop behavior may be activated with the mode,
/// given the segment of the channel that is active now (if the channel is
/// active at all). A buffer played once must wait for a trigger; a mode that
/// plays in step with a clock or a pin cannot restart the active segment.
pub open spec fn mode_allowed(
    current: Option<Segment>,
    target: Segment,
    loop_behavior: LoopBehavior,
    mode: TransitionMode,
) -> bool {
    &&& !(current == Some(target) && mode.spec_is_synchronous())
    &&& !(loop_behavior == LoopBehavior::OnceThenHold && mode == TransitionMode::Immediate)
}

impl EngineView {
    pub open spec fn wf(self) -> bool {
        &&& self.slots.len() == 8
        &&& self.spatial_channel != Channel::Modulation
        &&& self.modulation_pending matches Some(p) ==> p.channel == Channel::Modulation && p.mode
            != TransitionMode::Immediate
        &&& self.spatial_pending matches Some(p) ==> p.channel != Channel::Modulation && p.mode
            != TransitionMode::Immediate
    }

    /// The state right after a clear: segment `S0` everywhere, a static gain
    /// on the spatial output, empty buffers, the default silencer.
    pub open spec fn cleared() -> EngineView {
        EngineView {
            slots: Seq::new(8, |i: int| empty_slot()),
            modulation_segment: Segment::S0,
            spatial_channel: Channel::Gain,
            spatial_segment: Segment::S0,
            silencer: default_silencer(),
            modulation_pending: None,
            spatial_pending: None,
        }
    }

    pub open spec fn slot(self, c: Channel, s: Segment) -> SlotView {
        self.slots[slot_index(c, s)]
    }

    /// The segment that drives the channel's output, if the channel drives it.
    pub open spec fn active(self, c: Channel) -> Option<Segment> {
        if c == Channel::Modulation {
            Some(self.modulation_segment)
        } else if c == self.spatial_channel {
            Some(self.spatial_segment)
        } else {
            None
        }
    }

    pub open spec fn pending(self, c: Channel) -> Option<Pending> {
        if c == Channel::Modulation {
            self.modulation_pending
        } else {
            self.spatial_pending
        }
    }

    /// What the device reports of this state.
    pub open spec fn snapshot(self) -> FpgaState {
        FpgaState {
            modulation_segment: self.modulation_segment,
            gain_segment: if self.spatial_channel == Channel::Gain {
                Some(self.spatial_segment)
            } else {
                None
            },
            stm_segment: if self.spatial_channel.spec_is_stm() {
                Some(self.spatial_segment)
            } else {
                None
            },
        }
    }

    /// The modulation samples that drive the output amplitude.
    pub open spec fn modulation_output(self) -> Seq<u8> {
        self.slot(Channel::Modulation, self.modulation_segment).data
    }

    pub open spec fn with_slot(self, c: Channel, s: Segment, slot: SlotView) -> EngineView {
        EngineView { slots: self.slots.update(slot_index(c, s), slot), ..self }
    }

    /// The channel's segment becomes the one that drives its axis.
    pub open spec fn activate(self, c: Channel, s: Segment) -> EngineView {
        if c == Channel::Modulation {
            EngineView { modulation_segment: s, ..self }
        } else {
            EngineView { spatial_channel: c, spatial_segment: s, ..self }
        }
    }

    /// The transition is recorded: at once, or as the axis's waiting one.
    pub open spec fn transition(self, c: Channel, s: Segment, mode: TransitionMode) -> EngineView {
        if mode == TransitionMode::Immediate {
            self.activate(c, s)
        } else if c == Channel::Modulation {
            EngineView {
                modulation_pending: Some(Pending { channel: c, segment: s, mode }),
                ..self
            }
        } else {
            EngineView { spatial_pending: Some(Pending { channel: c, segment: s, mode }), ..self }
        }
    }

    /// Why activating the channel's stored segment with the mode at time `now`
    /// is refused, if it is; the spatial axis is not checked here.
    pub open spec fn activation_error(
        self,
        c: Channel,
        s: Segment,
        mode: TransitionMode,
        now: u64,
    ) -> Option<EngineError> {
        if mode matches TransitionMode::SysTime(t) && t <= now {
            Some(EngineError::MissTransitionTime)
        } else if !mode_allowed(self.active(c), s, self.slot(c, s).loop_behavior, mode) {
            Some(EngineError::InvalidTransitionMode)
        } else if !self.silencer.spec_accepts(c, self.slot(c, s).divide) {
            Some(EngineError::InvalidSilencerSettings)
        } else {
            None
        }
    }

    /// Why a swap is refused, if it is. The stored buffer is first held to
    /// the current silencer, then the spatial axis is checked.
    pub open spec fn swap_error(self, c: Channel, s: Segment, mode: TransitionMode, now: u64) -> Option<
        EngineError,
    > {
        if !self.silencer.spec_accepts(c, self.slot(c, s).divide) {
            Some(EngineError::InvalidSilencerSettings)
        } else if c != Channel::Modulation && c != self.spatial_channel {
            Some(EngineError::InvalidSegmentTransition)
        } else {
            self.activation_error(c, s, mode, now)
        }
    }

    /// The state after a swap request.
    pub open spec fn swapped(self, c: Channel, s: Segment, mode: TransitionMode, now: u64) -> EngineView {
        if self.swap_error(c, s, mode, now) is Some {
            self
        } else {
            self.transition(c, s, mode)
        }
    }

    /// Why a buffer is refused, if it is.
    pub open spec fn write_error(self, c: Channel, slot: SlotView) -> Option<EngineError> {
        if slot.data.len() > max_len(c) {
            Some(EngineError::BufferTooLarge)
        } else if !self.silencer.spec_accepts(c, slot.divide) {
            Some(EngineError::InvalidSilencerSettings)
        } else {
            None
        }
    }

    /// The state after a buffer is written into a slot.
    pub open spec fn written(self, c: Channel, s: Segment, slot: SlotView) -> EngineView {
        if self.write_error(c, slot) is Some {
            self
        } else {
            self.with_slot(c, s, slot)
        }
    }

    /// Why a buffer written together with a transition is refused, if it is.
    /// The transition is checked against the new buffer.
    pub open spec fn send_error(
        self,
        c: Channel,
        s: Segment,
        slot: SlotView,
        mode: Option<TransitionMode>,
        now: u64,
    ) -> Option<EngineError> {
        if self.write_error(c, slot) is Some {
            self.write_error(c, slot)
        } else {
            match mode {
                Some(m) => self.with_slot(c, s, slot).activation_error(c, s, m, now),
                None => None,
            }
        }
    }

    /// The state after a buffer is written together with a transition.
    pub open spec fn sent(
        self,
        c: Channel,
        s: Segment,
        slot: SlotView,
        mode: Option<TransitionMode>,
        now: u64,
    ) -> EngineView {
        if self.send_error(c, s, slot, mode, now) is Some {
            self
        } else {
            match mode {
                Some(m) => self.with_slot(c, s, slot).transition(c, s, m),
                None => self.with_slot(c, s, slot),
            }
        }
    }

    /// The state after an event: each waiting transition that it fires takes
    /// effect and stops waiting.
    pub open spec fn fired(self, event: Trigger) -> EngineView {
        let after_modulation = match self.modulation_pending {
            Some(p) => if fires(p.mode, event) {
                EngineView { modulation_segment: p.segment, modulation_pending: None, ..self }
            } else {
                self
            },
            None => self,
        };
        match self.spatial_pending {
            Some(p) => if fires(p.mode, event) {
                EngineView {
                    spatial_channel: p.channel,
                    spatial_segment: p.segment,
                    spatial_pending: None,
                    ..after_modulation
                }
            } else {
                after_modulation
            },
            None => after_modulation,
        }
    }

    /// The state after the silencer is configured.
    pub open spec fn with_silencer(self, silencer: Silencer) -> EngineView {
        EngineView { silencer, ..self }
    }
}

} // verus!
