use vstd::prelude::*;

use crate::model::{
    EngineView, FpgaState, Pending, SlotView, Trigger, FOCI_STM_BUF_SIZE_MAX, GAIN_STM_BUF_SIZE_MAX,
    MOD_BUF_SIZE_MAX, NUM_TRANS_IN_UNIT, fires, max_len, mode_allowed, slot_index,
};
use crate::segment::{Channel, EngineError, LoopBehavior, Segment, TransitionMode};
use crate::silencer::{Silencer, SilencerSetting, resolve};
use crate::timing::SamplingConfig;

verus! {

/// `Ok` where no error was found, else that error.
pub open spec fn outcome(e: Option<EngineError>) -> Result<(), EngineError> {
    match e {
        Some(err) => Err(err),
        None => Ok(()),
    }
}

/// A buffer with its sampling and loop behavior, as stored in a segment.
pub struct Slot {
    pub data: Vec<u8>,
    pub config: SamplingConfig,
    pub loop_behavior: LoopBehavior,
}

impl View for Slot {
    type V = SlotView;

    open spec fn view(&self) -> SlotView {
        SlotView { data: self.data@, divide: self.config@, loop_behavior: self.loop_behavior }
    }
}

impl Slot {
    fn empty() -> (r: Slot)
        ensures
            r@ == crate::model::empty_slot(),
    {
        Slot { data: Vec::new(), config: SamplingConfig::slowest(), loop_behavior: LoopBehavior::Infinite }
    }
}

/// The segment store and transition engine of one device.
pub struct Engine {
    slots: Vec<Slot>,
    modulation_segment: Segment,
    spatial_channel: Channel,
    spatial_segment: Segment,
    silencer: Silencer,
    modulation_pending: Option<Pending>,
    spatial_pending: Option<Pending>,
}

impl View for Engine {
    type V = EngineView;

    closed spec fn view(&self) -> EngineView {
        EngineView {
            slots: self.slots@.map_values(|s: Slot| s@),
            modulation_segment: self.modulation_segment,
            spatial_channel: self.spatial_channel,
            spatial_segment: self.spatial_segment,
            silencer: self.silencer,
            modulation_pending: self.modulation_pending,
            spatial_pending: self.spatial_pending,
        }
    }
}

fn channel_slot_index(c: Channel, s: Segment) -> (r: usize)
    ensures
        r as int == slot_index(c, s),
{
    let ci: usize = match c {
        Channel::Modulation => 0,
        Channel::Gain => 1,
        Channel::FociSTM => 2,
        Channel::GainSTM => 3,
    };
    let si: usize = match s {
        Segment::S0 => 0,
        Segment::S1 => 1,
    };
    2 * ci + si
}

fn channel_max_len(c: Channel) -> (r: usize)
    ensures
        r as nat == max_len(c),
{
    match c {
        Channel::Modulation => MOD_BUF_SIZE_MAX,
        Channel::Gain => NUM_TRANS_IN_UNIT,
        Channel::FociSTM => FOCI_STM_BUF_SIZE_MAX,
        Channel::GainSTM => GAIN_STM_BUF_SIZE_MAX,
    }
}

fn fires_on(mode: TransitionMode, event: Trigger) -> (r: bool)
    ensures
        r == fires(mode, event),
{
    match (mode, event) {
        (TransitionMode::SyncIdx, Trigger::SyncIdx) => true,
        (TransitionMode::SysTime(t), Trigger::SysTime(now)) => t <= now,
        (TransitionMode::Ext, Trigger::Ext) => true,
        (TransitionMode::GPIO(p), Trigger::GPIO(q)) => p == q,
        _ => false,
    }
}

/// Whether a buffer may be activated with the mode; see `mode_allowed`.
pub fn check_mode(
    current: Option<Segment>,
    target: Segment,
    loop_behavior: LoopBehavior,
    mode: TransitionMode,
) -> (r: bool)
    ensures
        r == mode_allowed(current, target, loop_behavior, mode),
{
    let restarts = match current {
        Some(s) => s == target && mode.is_synchronous(),
        None => false,
    };
    let once_at_once = loop_behavior == LoopBehavior::OnceThenHold && mode
        == TransitionMode::Immediate;
    !restarts && !once_at_once
}

impl Engine {
    pub open spec fn wf(&self) -> bool {
        self@.wf()
    }

    /// A device as it is after a clear.
    pub fn new() -> (r: Engine)
        ensures
            r@ == EngineView::cleared(),
            r.wf(),
    {
        let mut slots: Vec<Slot> = Vec::new();
        let mut i: usize = 0;
        while i < 8
            invariant
                i <= 8,
                slots@.len() == i,
                forall|j: int| 0 <= j < i ==> #[trigger] slots@[j]@ == crate::model::empty_slot(),
            decreases 8 - i,
        {
            slots.push(Slot::empty());
            i = i + 1;
        }
        let r = Engine {
            slots,
            modulation_segment: Segment::S0,
            spatial_channel: Channel::Gain,
            spatial_segment: Segment::S0,
            silencer: Silencer {
                intensity_steps: crate::silencer::SILENCER_STEPS_INTENSITY_DEFAULT,
                phase_steps: crate::silencer::SILENCER_STEPS_PHASE_DEFAULT,
                strict: true,
            },
            modulation_pending: None,
            spatial_pending: None,
        };
        assert(r@.slots =~= EngineView::cleared().slots);
        r
    }

    /// Resets every channel: segment `S0` active, a static gain on the spatial
    /// output, empty buffers, the default silencer, nothing waiting.
    pub fn clear(&mut self)
        ensures
            final(self)@ == EngineView::cleared(),
            final(self).wf(),
    {
        *self = Engine::new();
    }

    /// Configures the silencer; later writes and swaps are checked against it.
    pub fn configure_silencer(&mut self, setting: SilencerSetting) -> (r: Result<(), EngineError>)
        requires
            old(self).wf(),
        ensures
            final(self).wf(),
            resolve(setting) is Some ==> r is Ok && final(self)@ == old(self)@.with_silencer(
                resolve(setting)->Some_0,
            ),
            resolve(setting) is None ==> r == Err::<(), EngineError>(
                EngineError::InvalidSilencerSettings,
            ) && final(self)@ == old(self)@,
    {
        match setting.resolve() {
            Ok(s) => {
                self.silencer = s;
                Ok(())
            },
            Err(e) => Err(e),
        }
    }

    /// Why activating a segment that holds a buffer with the loop behavior and
    /// divisor, with the mode at time `now`, is refused, if it is.
    fn transition_error(
        &self,
        c: Channel,
        s: Segment,
        loop_behavior: LoopBehavior,
        divide: u16,
        mode: TransitionMode,
        now: u64,
    ) -> (r: Option<EngineError>)
        requires
            self.wf(),
        ensures
            forall|v: SlotView|
                v.loop_behavior == loop_behavior && v.divide == divide ==> r == (
                #[trigger] self@.with_slot(c, s, v)).activation_error(c, s, mode, now),
    {
        if let TransitionMode::SysTime(t) = mode {
            if t <= now {
                return Some(EngineError::MissTransitionTime);
            }
        }
        if !check_mode(self.active(c), s, loop_behavior, mode) {
            return Some(EngineError::InvalidTransitionMode);
        }
        if self.silencer.validate(c, divide).is_err() {
            return Some(EngineError::InvalidSilencerSettings);
        }
        None
    }

    /// Why activating the stored segment with the mode at time `now` is
    /// refused, if it is.
    fn activation_error(&self, c: Channel, s: Segment, mode: TransitionMode, now: u64) -> (r: Option<
        EngineError,
    >)
        requires
            self.wf(),
        ensures
            r == self@.activation_error(c, s, mode, now),
    {
        let slot = &self.slots[channel_slot_index(c, s)];
        let r = self.transition_error(c, s, slot.loop_behavior, slot.config.divide(), mode, now);
        assert(self@.with_slot(c, s, self@.slot(c, s)).slots =~= self@.slots);
        assert(self@.with_slot(c, s, self@.slot(c, s)) == self@);
        r
    }

    /// Why a buffer is refused, if it is.
    fn write_error(&self, c: Channel, data: &Vec<u8>, config: SamplingConfig) -> (r: Option<
        EngineError,
    >)
        ensures
            forall|v: SlotView|
                v.data == data@ && v.divide == config@ ==> r == #[trigger] self@.write_error(c, v),
    {
        if data.len() > channel_max_len(c) {
            return Some(EngineError::BufferTooLarge);
        }
        if self.silencer.validate(c, config.divide()).is_err() {
            return Some(EngineError::InvalidSilencerSettings);
        }
        None
    }

    fn store(&mut self, c: Channel, s: Segment, slot: Slot)
        requires
            old(self).wf(),
        ensures
            final(self).wf(),
            final(self)@ == old(self)@.with_slot(c, s, slot@),
    {
        let i = channel_slot_index(c, s);
        let ghost v = slot@;
        self.slots.set(i, slot);
        assert(self@.slots =~= old(self)@.slots.update(i as int, v));
    }

    fn transition(&mut self, c: Channel, s: Segment, mode: TransitionMode)
        requires
            old(self).wf(),
        ensures
            final(self).wf(),
            final(self)@ == old(self)@.transition(c, s, mode),
    {
        if mode == TransitionMode::Immediate {
            if c == Channel::Modulation {
                self.modulation_segment = s;
            } else {
                self.spatial_channel = c;
                self.spatial_segment = s;
            }
        } else if c == Channel::Modulation {
            self.modulation_pending = Some(Pending { channel: c, segment: s, mode });
        } else {
            self.spatial_pending = Some(Pending { channel: c, segment: s, mode });
        }
    }

    /// Stores a buffer in a segment without changing which segment is active.
    pub fn write(
        &mut self,
        c: Channel,
        s: Segment,
        data: Vec<u8>,
        config: SamplingConfig,
        loop_behavior: LoopBehavior,
    ) -> (r: Result<(), EngineError>)
        requires
            old(self).wf(),
        ensures
            final(self).wf(),
            final(self)@ == old(self)@.written(
                c,
                s,
                (SlotView { data: data@, divide: config@, loop_behavior }),
            ),
            r == outcome(
                old(self)@.write_error(c, (SlotView { data: data@, divide: config@, loop_behavior })),
            ),
    {
        let ghost v = SlotView { data: data@, divide: config@, loop_behavior };
        let err = self.write_error(c, &data, config);
        assert(err == self@.write_error(c, v));
        if let Some(e) = err {
            return Err(e);
        }
        self.store(c, s, Slot { data, config, loop_behavior });
        Ok(())
    }

    /// Stores a buffer in a segment and, where a mode is given, makes that
    /// segment the one that drives the channel's axis, at once or when the
    /// mode's trigger comes. The spatial axis passes to the channel.
    pub fn send(
        &mut self,
        c: Channel,
        s: Segment,
        data: Vec<u8>,
        config: SamplingConfig,
        loop_behavior: LoopBehavior,
        mode: Option<TransitionMode>,
        now: u64,
    ) -> (r: Result<(), EngineError>)
        requires
            old(self).wf(),
        ensures
            final(self).wf(),
            final(self)@ == old(self)@.sent(
                c,
                s,
                (SlotView { data: data@, divide: config@, loop_behavior }),
                mode,
                now,
            ),
            r == outcome(
                old(self)@.send_error(
                    c,
                    s,
                    (SlotView { data: data@, divide: config@, loop_behavior }),
                    mode,
                    now,
                ),
            ),
    {
        let ghost v = SlotView { data: data@, divide: config@, loop_behavior };
        let ghost before = self@;
        let err = self.write_error(c, &data, config);
        assert(err == self@.write_error(c, v));
        if let Some(e) = err {
            return Err(e);
        }
        let d = config.divide();
        match mode {
            None => {
                self.store(c, s, Slot { data, config, loop_behavior });
                Ok(())
            },
            Some(m) => {
                if let Some(err) = self.transition_error(c, s, loop_behavior, d, m, now) {
                    return Err(err);
                }
                self.store(c, s, Slot { data, config, loop_behavior });
                self.transition(c, s, m);
                Ok(())
            },
        }
    }

    /// Asks for the stored segment to drive the channel's axis, at once or
    /// when the mode's trigger comes.
    pub fn swap(&mut self, c: Channel, s: Segment, mode: TransitionMode, now: u64) -> (r: Result<
        (),
        EngineError,
    >)
        requires
            old(self).wf(),
        ensures
            final(self).wf(),
            final(self)@ == old(self)@.swapped(c, s, mode, now),
            r == outcome(old(self)@.swap_error(c, s, mode, now)),
    {
        let divide = self.slots[channel_slot_index(c, s)].config.divide();
        if self.silencer.validate(c, divide).is_err() {
            return Err(EngineError::InvalidSilencerSettings);
        }
        if c != Channel::Modulation && c != self.spatial_channel {
            return Err(EngineError::InvalidSegmentTransition);
        }
        if let Some(e) = self.activation_error(c, s, mode, now) {
            return Err(e);
        }
        self.transition(c, s, mode);
        Ok(())
    }

    /// Lets an event fire the transitions that wait for it.
    pub fn fire(&mut self, event: Trigger)
        requires
            old(self).wf(),
        ensures
            final(self).wf(),
            final(self)@ == old(self)@.fired(event),
    {
        if let Some(p) = self.modulation_pending {
            if fires_on(p.mode, event) {
                self.modulation_segment = p.segment;
                self.modulation_pending = None;
            }
        }
        if let Some(p) = self.spatial_pending {
            if fires_on(p.mode, event) {
                self.spatial_channel = p.channel;
                self.spatial_segment = p.segment;
                self.spatial_pending = None;
            }
        }
    }

    /// The segment that drives the channel's output, if the channel drives it.
    pub fn active(&self, c: Channel) -> (r: Option<Segment>)
        ensures
            r == self@.active(c),
    {
        if c == Channel::Modulation {
            Some(self.modulation_segment)
        } else if c == self.spatial_channel {
            Some(self.spatial_segment)
        } else {
            None
        }
    }

    /// The transition of the channel's axis that waits for its trigger.
    pub fn pending(&self, c: Channel) -> (r: Option<Pending>)
        ensures
            r == self@.pending(c),
    {
        if c == Channel::Modulation {
            self.modulation_pending
        } else {
            self.spatial_pending
        }
    }

    pub fn silencer(&self) -> (r: Silencer)
        ensures
            r == self@.silencer,
    {
        self.silencer
    }

    /// The stored slot of a channel and a segment.
    pub fn slot(&self, c: Channel, s: Segment) -> (r: &Slot)
        requires
            self.wf(),
        ensures
            r@ == self@.slot(c, s),
    {
        &self.slots[channel_slot_index(c, s)]
    }

    /// Which segment drives each axis; a transition that waits for its
    /// trigger is not shown.
    pub fn snapshot(&self) -> (r: FpgaState)
        ensures
            r == self@.snapshot(),
    {
        FpgaState {
            modulation_segment: self.modulation_segment,
            gain_segment: if self.spatial_channel == Channel::Gain {
                Some(self.spatial_segment)
            } else {
                None
            },
            stm_segment: if self.spatial_channel.is_stm() {
                Some(self.spatial_segment)
            } else {
                None
            },
        }
    }

    /// The modulation samples that drive the output amplitude now.
    pub fn modulation_output(&self) -> (r: &Vec<u8>)
        requires
            self.wf(),
        ensures
            r@ == self@.modulation_output(),
    {
        &self.slots[channel_slot_index(Channel::Modulation, self.modulation_segment)].data
    }
}

} // verus!
