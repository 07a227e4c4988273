use vstd::prelude::*;

use crate::segment::EngineError;

verus! {

/// Frequency of the ultrasound carrier, in hertz.
pub const ULTRASOUND_FREQ_HZ: u32 = 40000;

/// Period of the ultrasound carrier, in nanoseconds.
pub const ULTRASOUND_PERIOD_NS: u64 = 25000;

/// The largest divisor that a sampling configuration can hold.
pub const DIVIDE_MAX: u16 = 65535;

/// The divisor nearest to `ULTRASOUND_FREQ_HZ / freq_hz`, halves rounded up,
/// kept within `1..=DIVIDE_MAX`.
pub open spec fn nearest_divide_for_freq(freq_hz: nat) -> nat {
    if freq_hz == 0 {
        DIVIDE_MAX as nat
    } else {
        let d = (2 * ULTRASOUND_FREQ_HZ as nat + freq_hz) / (2 * freq_hz);
        if d == 0 { 1 } else { d }
    }
}

/// Whether a sampling period is exactly representable: a whole number of
/// carrier periods, between one and `DIVIDE_MAX` of them.
pub open spec fn period_is_exact(period_ns: nat) -> bool {
    &&& period_ns % (ULTRASOUND_PERIOD_NS as nat) == 0
    &&& ULTRASOUND_PERIOD_NS as nat <= period_ns
    &&& period_ns <= DIVIDE_MAX as nat * ULTRASOUND_PERIOD_NS as nat
}

/// The divisor nearest to a sampling period, halves rounded up, kept within
/// `1..=DIVIDE_MAX`.
pub open spec fn nearest_divide_for_period(period_ns: nat) -> nat {
    let d = (period_ns + ULTRASOUND_PERIOD_NS as nat / 2) / ULTRASOUND_PERIOD_NS as nat;
    if d < 1 {
        1
    } else if d > DIVIDE_MAX as nat {
        DIVIDE_MAX as nat
    } else {
        d
    }
}

#[verifier::external_type_specification]
#[verifier::external_body]
pub struct ExSamplingConfigError(autd3::core::firmware::SamplingConfigError);

/// Relies on autd3's `SamplingConfig::divide` for a configuration given by a
/// period: a divisor comes back exactly when the period is a whole number of
/// carrier periods within range, and it is that number.
#[verifier::external_body]
fn divide_of_period(period_ns: u64) -> (r: Result<u16, autd3::core::firmware::SamplingConfigError>)
    ensures
        r is Ok <==> period_is_exact(period_ns as nat),
        r is Ok ==> r->Ok_0 as nat == period_ns as nat / ULTRASOUND_PERIOD_NS as nat,
{
    autd3::core::firmware::SamplingConfig::new(std::time::Duration::from_nanos(period_ns)).divide()
}

/// Relies on autd3's `SamplingConfig::divide` for a period converted by
/// `into_nearest`: the period in carrier periods, rounded, within range.
#[verifier::external_body]
fn divide_of_period_nearest(period_ns: u64) -> (r: Result<u16, autd3::core::firmware::SamplingConfigError>)
    ensures
        r is Ok,
        r->Ok_0 as nat == nearest_divide_for_period(period_ns as nat),
{
    autd3::core::firmware::SamplingConfig::new(std::time::Duration::from_nanos(period_ns))
        .into_nearest()
        .divide()
}

/// How often a buffer is sampled: once every `divide` carrier periods.
#[derive(Clone, Copy, Debug, PartialEq, Eq)]
pub struct SamplingConfig {
    divide: u16,
}

impl View for SamplingConfig {
    type V = nat;

    /// The divisor of the carrier frequency.
    closed spec fn view(&self) -> nat {
        self.divide as nat
    }
}

impl SamplingConfig {
    #[verifier::type_invariant]
    spec fn inv(self) -> bool {
        self.divide >= 1
    }

    /// A configuration from an explicit divisor; zero is refused.
    pub fn new(divide: u16) -> (r: Result<SamplingConfig, EngineError>)
        ensures
            r is Ok <==> divide != 0,
            divide == 0 ==> r == Err::<SamplingConfig, EngineError>(EngineError::InvalidSamplingConfig),
            r matches Ok(c) ==> c@ == divide as nat,
    {
        if divide == 0 {
            Err(EngineError::InvalidSamplingConfig)
        } else {
            Ok(SamplingConfig { divide })
        }
    }

    /// A configuration from a sampling period that must be a whole number of
    /// carrier periods, within range.
    pub fn from_period_ns(period_ns: u64) -> (r: Result<SamplingConfig, EngineError>)
        ensures
            period_is_exact(period_ns as nat) <==> r is Ok,
            !period_is_exact(period_ns as nat) ==> r == Err::<SamplingConfig, EngineError>(EngineError::InvalidSamplingConfig),
            r matches Ok(c) ==> c@ == period_ns as nat / ULTRASOUND_PERIOD_NS as nat,
    {
        match divide_of_period(period_ns) {
            Ok(d) => {
                assert(period_ns as nat / ULTRASOUND_PERIOD_NS as nat >= 1) by (nonlinear_arith)
                    requires period_ns as nat >= ULTRASOUND_PERIOD_NS as nat;
                Ok(SamplingConfig { divide: d })
            },
            Err(_) => Err(EngineError::InvalidSamplingConfig),
        }
    }

    /// The configuration whose period is nearest to the given one.
    pub fn from_period_nearest_ns(period_ns: u64) -> (r: SamplingConfig)
        ensures
            r@ == nearest_divide_for_period(period_ns as nat),
    {
        match divide_of_period_nearest(period_ns) {
            Ok(d) => SamplingConfig { divide: d },
            Err(_) => SamplingConfig { divide: 1 },
        }
    }

    /// The configuration whose frequency is nearest to `freq_hz`.
    pub fn from_freq_nearest(freq_hz: u32) -> (r: SamplingConfig)
        ensures
            r@ == nearest_divide_for_freq(freq_hz as nat),
    {
        if freq_hz == 0 {
            return SamplingConfig { divide: DIVIDE_MAX };
        }
        let d: u64 = (2 * ULTRASOUND_FREQ_HZ as u64 + freq_hz as u64) / (2 * freq_hz as u64);
        assert(d <= ULTRASOUND_FREQ_HZ as u64) by (nonlinear_arith)
            requires
                freq_hz >= 1,
                d == (2 * ULTRASOUND_FREQ_HZ as u64 + freq_hz as u64) / (2 * freq_hz as u64),
        ;
        if d == 0 {
            SamplingConfig { divide: 1 }
        } else {
            SamplingConfig { divide: d as u16 }
        }
    }

    /// The slowest sampling: once every `DIVIDE_MAX` carrier periods.
    pub fn slowest() -> (r: SamplingConfig)
        ensures
            r@ == DIVIDE_MAX as nat,
    {
        SamplingConfig { divide: DIVIDE_MAX }
    }

    /// The divisor of the carrier frequency.
    pub fn divide(&self) -> (r: u16)
        ensures
            r as nat == self@,
            r >= 1,
    {
        proof {
            use_type_invariant(self);
        }
        self.divide
    }
}

} // verus!
