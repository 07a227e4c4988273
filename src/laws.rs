use vstd::prelude::*;

use crate::model::{EngineView, SlotView, Trigger, max_len, mode_allowed, slot_index};
use crate::segment::{Channel, EngineError, LoopBehavior, Segment, TransitionMode};
use crate::silencer::{SilencerSetting, resolve};

verus! {

/// Writing a buffer into any segment of any channel, with or without success,
/// changes neither which segment is active on any channel nor what the device
/// reports.
pub proof fn lemma_write_keeps_active(
    v: EngineView,
    c: Channel,
    s: Segment,
    slot: SlotView,
    other: Channel,
)
    requires
        v.wf(),
    ensures
        v.written(c, s, slot).active(other) == v.active(other),
        v.written(c, s, slot).snapshot() == v.snapshot(),
        v.written(c, s, slot).pending(other) == v.pending(other),
{
}

/// A write that is accepted replaces the addressed slot and no other; a
/// buffer sent without a transition is the same write.
pub proof fn lemma_write_replaces_one_slot(
    v: EngineView,
    c: Channel,
    s: Segment,
    slot: SlotView,
    other_c: Channel,
    other_s: Segment,
    now: u64,
)
    requires
        v.wf(),
    ensures
        v.write_error(c, slot) is None ==> v.written(c, s, slot).slot(c, s) == slot,
        (other_c, other_s) != (c, s) ==> v.written(c, s, slot).slot(other_c, other_s) == v.slot(
            other_c,
            other_s,
        ),
        v.sent(c, s, slot, None, now) == v.written(c, s, slot),
        v.send_error(c, s, slot, None, now) == v.write_error(c, slot),
{
    if (other_c, other_s) != (c, s) {
        assert(slot_index(other_c, other_s) != slot_index(c, s));
    }
}

/// A swap request, accepted or not, leaves every stored buffer and the
/// silencer as they were.
pub proof fn lemma_swap_keeps_buffers(
    v: EngineView,
    c: Channel,
    s: Segment,
    mode: TransitionMode,
    now: u64,
    other_c: Channel,
    other_s: Segment,
)
    requires
        v.wf(),
    ensures
        v.swapped(c, s, mode, now).slot(other_c, other_s) == v.slot(other_c, other_s),
        v.swapped(c, s, mode, now).silencer == v.silencer,
        v.swapped(c, s, mode, now).wf(),
{
}

/// Asking with `Immediate` for the segment that is already active leaves the
/// whole state as it was, whether the request is accepted or refused. It is
/// accepted where that segment loops and the current silencer admits it.
pub proof fn lemma_swap_to_active_is_noop(v: EngineView, c: Channel, now: u64)
    requires
        v.wf(),
        v.active(c) is Some,
    ensures
        v.swapped(c, v.active(c)->Some_0, TransitionMode::Immediate, now) == v,
        v.slot(c, v.active(c)->Some_0).loop_behavior == LoopBehavior::Infinite
            && v.silencer.spec_accepts(c, v.slot(c, v.active(c)->Some_0).divide) ==> v.swap_error(
            c,
            v.active(c)->Some_0,
            TransitionMode::Immediate,
            now,
        ) is None,
{
    let s = v.active(c)->Some_0;
    assert(v.transition(c, s, TransitionMode::Immediate) == v);
}

/// Under a strict silencer of `intensity` and `phase` completion steps, a
/// buffer of any channel that fits it and is sampled no faster than every
/// `max(intensity, phase)` carrier periods is accepted, written alone or with
/// a transition that its loop behavior and the active segment allow; a
/// buffer of modulation or of a sequence sampled a single period faster is
/// refused with `InvalidSilencerSettings`.
pub proof fn lemma_silencer_threshold(
    v: EngineView,
    intensity: u16,
    phase: u16,
    c: Channel,
    s: Segment,
    slot: SlotView,
    mode: TransitionMode,
    now: u64,
)
    requires
        v.wf(),
        intensity >= 1,
        phase >= 1,
    ensures
        ({
            let w = v.with_silencer(
                resolve(
                    SilencerSetting::FixedCompletionSteps { intensity, phase, strict: true },
                )->Some_0,
            );
            let max_steps = if intensity >= phase {
                intensity as nat
            } else {
                phase as nat
            };
            let fits = slot.data.len() <= max_len(c);
            &&& (c != Channel::Gain ==> w.silencer.spec_required_steps(c) == max_steps)
            &&& (fits && slot.divide >= max_steps ==> w.write_error(c, slot) is None)
            &&& (fits && slot.divide >= max_steps ==> w.send_error(c, s, slot, None, now) is None)
            &&& (fits && slot.divide >= max_steps && mode_allowed(
                w.active(c),
                s,
                slot.loop_behavior,
                mode,
            ) && !(mode matches TransitionMode::SysTime(t) && t <= now) ==> w.send_error(
                c,
                s,
                slot,
                Some(mode),
                now,
            ) is None)
            &&& (fits && c != Channel::Gain && slot.divide + 1 == max_steps ==> w.write_error(
                c,
                slot,
            ) == Some(EngineError::InvalidSilencerSettings))
            &&& (fits && c != Channel::Gain && slot.divide + 1 == max_steps ==> w.send_error(
                c,
                s,
                slot,
                Some(mode),
                now,
            ) == Some(EngineError::InvalidSilencerSettings))
        }),
{
    let w = v.with_silencer(
        resolve(SilencerSetting::FixedCompletionSteps { intensity, phase, strict: true })->Some_0,
    );
    assert(w.with_slot(c, s, slot).slot(c, s) == slot);
    assert(w.with_slot(c, s, slot).active(c) == w.active(c));
}

/// Whatever the segment and the mode, a swap naming a spatial channel other
/// than the one that drives the spatial output, whose stored buffer the
/// current silencer admits, is refused with `InvalidSegmentTransition` and
/// changes nothing. A static gain is admitted by every silencer.
pub proof fn lemma_spatial_exclusion(
    v: EngineView,
    c: Channel,
    s: Segment,
    mode: TransitionMode,
    now: u64,
)
    requires
        v.wf(),
        c != Channel::Modulation,
        c != v.spatial_channel,
        v.silencer.spec_accepts(c, v.slot(c, s).divide),
    ensures
        v.swap_error(c, s, mode, now) == Some(EngineError::InvalidSegmentTransition),
        v.swapped(c, s, mode, now) == v,
{
}

/// Once a gain sequence has been made active on segment `S1`, any swap of the
/// static gain is refused with `InvalidSegmentTransition`; once a static gain
/// is active again, any swap of either sequence whose stored buffer the
/// current silencer admits is refused the same way.
pub proof fn lemma_gain_stm_exclusion(
    v: EngineView,
    now: u64,
    s: Segment,
    mode: TransitionMode,
    t: u64,
)
    requires
        v.wf(),
        v.swap_error(Channel::GainSTM, Segment::S1, TransitionMode::Immediate, now) is None,
    ensures
        ({
            let w = v.swapped(Channel::GainSTM, Segment::S1, TransitionMode::Immediate, now);
            &&& w.snapshot().stm_segment == Some(Segment::S1)
            &&& w.snapshot().gain_segment is None
            &&& w.swap_error(Channel::Gain, s, mode, t) == Some(EngineError::InvalidSegmentTransition)
        }),
        v.spatial_channel == Channel::Gain && v.silencer.spec_accepts(
            Channel::GainSTM,
            v.slot(Channel::GainSTM, s).divide,
        ) ==> v.swap_error(Channel::GainSTM, s, mode, t) == Some(
            EngineError::InvalidSegmentTransition,
        ),
        v.spatial_channel == Channel::Gain && v.silencer.spec_accepts(
            Channel::FociSTM,
            v.slot(Channel::FociSTM, s).divide,
        ) ==> v.swap_error(Channel::FociSTM, s, mode, t) == Some(
            EngineError::InvalidSegmentTransition,
        ),
{
}

/// The device never reports a static gain and a sequence as active together;
/// exactly one of them drives the spatial output.
pub proof fn lemma_snapshot_exclusive(v: EngineView)
    requires
        v.wf(),
    ensures
        v.snapshot().gain_segment is Some <==> v.snapshot().stm_segment is None,
{
}

/// A buffer that is played once cannot be activated with `Immediate`: the
/// request is refused with `InvalidTransitionMode`, both as a swap of a
/// buffer that the current silencer admits and when the buffer is written
/// with that mode. Activating it with `SyncIdx` on a
/// segment that is not the active one is accepted where the silencer allows
/// its sampling.
pub proof fn lemma_once_needs_trigger(
    v: EngineView,
    c: Channel,
    s: Segment,
    slot: SlotView,
    now: u64,
)
    requires
        v.wf(),
        c == Channel::Modulation || c == v.spatial_channel,
        slot.loop_behavior == LoopBehavior::OnceThenHold,
    ensures
        v.slot(c, s).loop_behavior == LoopBehavior::OnceThenHold && v.silencer.spec_accepts(
            c,
            v.slot(c, s).divide,
        ) ==> v.swap_error(c, s, TransitionMode::Immediate, now) == Some(
            EngineError::InvalidTransitionMode,
        ),
        v.write_error(c, slot) is None ==> v.send_error(
            c,
            s,
            slot,
            Some(TransitionMode::Immediate),
            now,
        ) == Some(EngineError::InvalidTransitionMode),
        v.write_error(c, slot) is None && v.active(c) != Some(s) ==> v.send_error(
            c,
            s,
            slot,
            Some(TransitionMode::SyncIdx),
            now,
        ) is None,
        v.slot(c, s).loop_behavior == LoopBehavior::OnceThenHold && v.active(c) != Some(s)
            && v.silencer.spec_accepts(c, v.slot(c, s).divide) ==> v.swap_error(
            c,
            s,
            TransitionMode::SyncIdx,
            now,
        ) is None,
{
    assert(v.with_slot(c, s, slot).slot(c, s) == slot);
    assert(v.with_slot(c, s, slot).active(c) == v.active(c));
}

/// A system-time transition whose time is not after `now` is refused with
/// `MissTransitionTime` on a channel of an active axis whose stored buffer the
/// current silencer admits. One whose time is
/// after `now` changes nothing that the device reports; where the mode and
/// silencer allow it, it is accepted, and it takes effect once the device's
/// time reaches it.
pub proof fn lemma_sys_time(v: EngineView, c: Channel, s: Segment, t: u64, now: u64, later: u64)
    requires
        v.wf(),
        c == Channel::Modulation || c == v.spatial_channel,
    ensures
        t <= now && v.silencer.spec_accepts(c, v.slot(c, s).divide) ==> v.swap_error(
            c,
            s,
            TransitionMode::SysTime(t),
            now,
        ) == Some(EngineError::MissTransitionTime),
        v.swapped(c, s, TransitionMode::SysTime(t), now).snapshot() == v.snapshot(),
        t > now && v.active(c) != Some(s) && v.slot(c, s).loop_behavior
            == LoopBehavior::OnceThenHold && v.silencer.spec_accepts(c, v.slot(c, s).divide)
            ==> v.swap_error(c, s, TransitionMode::SysTime(t), now) is None,
        v.swap_error(c, s, TransitionMode::SysTime(t), now) is None && t <= later ==> v.swapped(
            c,
            s,
            TransitionMode::SysTime(t),
            now,
        ).fired(Trigger::SysTime(later)).active(c) == Some(s),
{
}

/// Where both modulation segments hold looping buffers that the current
/// silencer admits, swapping from `S0` to `S1` and back with `Immediate` is
/// accepted both times, plays the buffer of `S1` in between, and then
/// restores exactly the samples that played before.
pub proof fn lemma_modulation_round_trip(v: EngineView, now: u64)
    requires
        v.wf(),
        v.modulation_segment == Segment::S0,
        v.slot(Channel::Modulation, Segment::S0).loop_behavior == LoopBehavior::Infinite,
        v.slot(Channel::Modulation, Segment::S1).loop_behavior == LoopBehavior::Infinite,
        v.silencer.spec_accepts(Channel::Modulation, v.slot(Channel::Modulation, Segment::S0).divide),
        v.silencer.spec_accepts(Channel::Modulation, v.slot(Channel::Modulation, Segment::S1).divide),
    ensures
        ({
            let w = v.swapped(Channel::Modulation, Segment::S1, TransitionMode::Immediate, now);
            let back = w.swapped(Channel::Modulation, Segment::S0, TransitionMode::Immediate, now);
            &&& v.swap_error(Channel::Modulation, Segment::S1, TransitionMode::Immediate, now) is None
            &&& w.swap_error(Channel::Modulation, Segment::S0, TransitionMode::Immediate, now) is None
            &&& w.snapshot().modulation_segment == Segment::S1
            &&& w.modulation_output() == v.slot(Channel::Modulation, Segment::S1).data
            &&& back.snapshot().modulation_segment == Segment::S0
            &&& back.modulation_output() == v.modulation_output()
            &&& back == v
        }),
{
}

/// Writing looping silence into modulation segment `S1` and
/// swapping to it with `Immediate` silences the output; swapping back to
/// `S0` restores the samples that played before. Every step is accepted where
/// the silence fits and both buffers are admitted by the current silencer and
/// `S0` loops.
pub proof fn lemma_silence_and_restore(v: EngineView, silence: SlotView, now: u64)
    requires
        v.wf(),
        v.modulation_segment == Segment::S0,
        forall|i: int| 0 <= i < silence.data.len() ==> silence.data[i] == 0,
        silence.loop_behavior == LoopBehavior::Infinite,
        silence.data.len() <= max_len(Channel::Modulation),
        v.silencer.spec_accepts(Channel::Modulation, silence.divide),
        v.slot(Channel::Modulation, Segment::S0).loop_behavior == LoopBehavior::Infinite,
        v.silencer.spec_accepts(Channel::Modulation, v.slot(Channel::Modulation, Segment::S0).divide),
    ensures
        ({
            let u = v.written(Channel::Modulation, Segment::S1, silence);
            let w = u.swapped(Channel::Modulation, Segment::S1, TransitionMode::Immediate, now);
            let back = w.swapped(Channel::Modulation, Segment::S0, TransitionMode::Immediate, now);
            &&& v.write_error(Channel::Modulation, silence) is None
            &&& u.swap_error(Channel::Modulation, Segment::S1, TransitionMode::Immediate, now) is None
            &&& w.swap_error(Channel::Modulation, Segment::S0, TransitionMode::Immediate, now) is None
            &&& w.snapshot().modulation_segment == Segment::S1
            &&& forall|i: int| 0 <= i < w.modulation_output().len() ==> w.modulation_output()[i] == 0
            &&& back.snapshot().modulation_segment == Segment::S0
            &&& back.modulation_output() == v.modulation_output()
        }),
{
    let u = v.written(Channel::Modulation, Segment::S1, silence);
    assert(u.slot(Channel::Modulation, Segment::S1) == silence);
    assert(u.slot(Channel::Modulation, Segment::S0) == v.slot(Channel::Modulation, Segment::S0));
    lemma_modulation_round_trip(u, now);
}

} // verus!
