use vstd::prelude::*;

use crate::segment::{Channel, EngineError};
use crate::timing::ULTRASOUND_PERIOD_NS;

verus! {

/// Completion steps of intensity changes that the silencer uses by default.
pub const SILENCER_STEPS_INTENSITY_DEFAULT: u16 = 10;

/// Completion steps of phase changes that the silencer uses by default.
pub const SILENCER_STEPS_PHASE_DEFAULT: u16 = 40;

/// How the silencer is configured by a caller.
#[derive(Clone, Copy, Debug, PartialEq, Eq, Structural)]
pub enum SilencerSetting {
    /// No smoothing and no constraint on updates.
    Disabled,
    /// Changes complete within the given numbers of carrier periods.
    FixedCompletionSteps { intensity: u16, phase: u16, strict: bool },
    /// Changes complete within the given times, in nanoseconds; each must be a
    /// whole number of carrier periods.
    FixedCompletionTime { intensity_ns: u64, phase_ns: u64, strict: bool },
}

/// The silencer as the engine applies it: completion steps for intensity and
/// phase, and whether too fast updates are refused.
#[derive(Clone, Copy, Debug, PartialEq, Eq, Structural)]
pub struct Silencer {
    pub intensity_steps: u16,
    pub phase_steps: u16,
    pub strict: bool,
}

/// A completion time in whole carrier periods, if it is one and fits.
pub open spec fn steps_of_time(time_ns: nat) -> Option<nat> {
    if time_ns % (ULTRASOUND_PERIOD_NS as nat) == 0 && 1 <= time_ns / (ULTRASOUND_PERIOD_NS as nat)
        <= u16::MAX as nat {
        Some(time_ns / (ULTRASOUND_PERIOD_NS as nat))
    } else {
        None
    }
}

/// What a setting resolves to, or `None` where it cannot be applied.
pub open spec fn resolve(setting: SilencerSetting) -> Option<Silencer> {
    match setting {
        SilencerSetting::Disabled => Some(Silencer { intensity_steps: 1, phase_steps: 1, strict: false }),
        SilencerSetting::FixedCompletionSteps { intensity, phase, strict } => {
            if intensity >= 1 && phase >= 1 {
                Some(Silencer { intensity_steps: intensity, phase_steps: phase, strict })
            } else {
                None
            }
        },
        SilencerSetting::FixedCompletionTime { intensity_ns, phase_ns, strict } => {
            match (steps_of_time(intensity_ns as nat), steps_of_time(phase_ns as nat)) {
                (Some(i), Some(p)) => Some(
                    Silencer { intensity_steps: i as u16, phase_steps: p as u16, strict },
                ),
                _ => None,
            }
        },
    }
}

fn steps_from_time(time_ns: u64) -> (r: Option<u16>)
    ensures
        r is Some <==> steps_of_time(time_ns as nat) is Some,
        r is Some ==> r->Some_0 as nat == steps_of_time(time_ns as nat)->Some_0,
{
    if time_ns % ULTRASOUND_PERIOD_NS != 0 {
        return None;
    }
    let steps = time_ns / ULTRASOUND_PERIOD_NS;
    if steps < 1 || steps > u16::MAX as u64 {
        None
    } else {
        Some(steps as u16)
    }
}

impl SilencerSetting {
    /// The setting that a device starts with.
    pub open spec fn spec_default() -> SilencerSetting {
        SilencerSetting::FixedCompletionSteps {
            intensity: SILENCER_STEPS_INTENSITY_DEFAULT,
            phase: SILENCER_STEPS_PHASE_DEFAULT,
            strict: true,
        }
    }

    /// The setting with every change completing in one carrier period.
    pub fn disable() -> (r: SilencerSetting)
        ensures
            r == SilencerSetting::Disabled,
    {
        SilencerSetting::Disabled
    }

    /// The silencer that this setting configures.
    pub fn resolve(self) -> (r: Result<Silencer, EngineError>)
        ensures
            resolve(self) is Some ==> r == Ok::<Silencer, EngineError>(resolve(self)->Some_0),
            resolve(self) is None ==> r == Err::<Silencer, EngineError>(EngineError::InvalidSilencerSettings),
    {
        match self {
            SilencerSetting::Disabled => Ok(Silencer { intensity_steps: 1, phase_steps: 1, strict: false }),
            SilencerSetting::FixedCompletionSteps { intensity, phase, strict } => {
                if intensity >= 1 && phase >= 1 {
                    Ok(Silencer { intensity_steps: intensity, phase_steps: phase, strict })
                } else {
                    Err(EngineError::InvalidSilencerSettings)
                }
            },
            SilencerSetting::FixedCompletionTime { intensity_ns, phase_ns, strict } => {
                match (steps_from_time(intensity_ns), steps_from_time(phase_ns)) {
                    (Some(i), Some(p)) => Ok(Silencer { intensity_steps: i, phase_steps: p, strict }),
                    _ => Err(EngineError::InvalidSilencerSettings),
                }
            },
        }
    }
}

impl Default for SilencerSetting {
    fn default() -> (r: SilencerSetting)
        ensures
            r == SilencerSetting::spec_default(),
    {
        SilencerSetting::FixedCompletionSteps {
            intensity: SILENCER_STEPS_INTENSITY_DEFAULT,
            phase: SILENCER_STEPS_PHASE_DEFAULT,
            strict: true,
        }
    }
}

impl Silencer {
    /// The fewest carrier periods between two samples of a buffer of the
    /// channel: the larger of the intensity and phase steps for modulation and
    /// for a spatio-temporal sequence, and no bound for a static gain.
    pub open spec fn spec_required_steps(self, c: Channel) -> nat {
        match c {
            Channel::Gain => 0,
            _ => if self.intensity_steps >= self.phase_steps {
                self.intensity_steps as nat
            } else {
                self.phase_steps as nat
            },
        }
    }

    /// Whether a buffer of the channel sampled every `divide` carrier periods
    /// may be written or activated under this silencer.
    pub open spec fn spec_accepts(self, c: Channel, divide: nat) -> bool {
        !self.strict || divide >= self.spec_required_steps(c)
    }

    pub fn required_steps(self, c: Channel) -> (r: u16)
        ensures
            r as nat == self.spec_required_steps(c),
    {
        match c {
            Channel::Gain => 0,
            _ => if self.intensity_steps >= self.phase_steps {
                self.intensity_steps
            } else {
                self.phase_steps
            },
        }
    }

    /// The shortest sampling period, in nanoseconds, that a buffer of the
    /// channel may have.
    pub fn required_completion_ns(self, c: Channel) -> (r: u64)
        ensures
            r as nat == self.spec_required_steps(c) * ULTRASOUND_PERIOD_NS as nat,
    {
        self.required_steps(c) as u64 * ULTRASOUND_PERIOD_NS
    }

    /// Checks a sampling divisor of a buffer of the channel against the silencer.
    pub fn validate(self, c: Channel, divide: u16) -> (r: Result<(), EngineError>)
        ensures
            self.spec_accepts(c, divide as nat) <==> r is Ok,
            !self.spec_accepts(c, divide as nat) ==> r == Err::<(), EngineError>(EngineError::InvalidSilencerSettings),
    {
        if self.strict && divide < self.required_steps(c) {
            Err(EngineError::InvalidSilencerSettings)
        } else {
            Ok(())
        }
    }
}

} // verus!
