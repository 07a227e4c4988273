use autd_segments::{EngineError, SamplingConfig, Silencer, SilencerSetting};
use autd_segments::Channel;

#[test]
fn sampling_config_from_divide() {
    assert_eq!(Err(EngineError::InvalidSamplingConfig), SamplingConfig::new(0));
    assert_eq!(1, SamplingConfig::new(1).unwrap().divide());
    assert_eq!(65535, SamplingConfig::new(65535).unwrap().divide());
}

#[test]
fn sampling_config_from_exact_period() {
    assert_eq!(10, SamplingConfig::from_period_ns(250_000).unwrap().divide());
    assert_eq!(1, SamplingConfig::from_period_ns(25_000).unwrap().divide());
    assert_eq!(
        65535,
        SamplingConfig::from_period_ns(25_000 * 65535).unwrap().divide()
    );
    assert_eq!(
        Err(EngineError::InvalidSamplingConfig),
        SamplingConfig::from_period_ns(250_001)
    );
    assert_eq!(
        Err(EngineError::InvalidSamplingConfig),
        SamplingConfig::from_period_ns(0)
    );
    assert_eq!(
        Err(EngineError::InvalidSamplingConfig),
        SamplingConfig::from_period_ns(25_000 * 65536)
    );
}

#[test]
fn sampling_config_from_nearest_period() {
    assert_eq!(10, SamplingConfig::from_period_nearest_ns(260_000).divide());
    assert_eq!(11, SamplingConfig::from_period_nearest_ns(262_500).divide());
    assert_eq!(1, SamplingConfig::from_period_nearest_ns(0).divide());
    assert_eq!(
        65535,
        SamplingConfig::from_period_nearest_ns(u64::MAX).divide()
    );
}

#[test]
fn sampling_config_from_nearest_freq() {
    assert_eq!(10, SamplingConfig::from_freq_nearest(4000).divide());
    assert_eq!(1, SamplingConfig::from_freq_nearest(40000).divide());
    assert_eq!(156, SamplingConfig::from_freq_nearest(256).divide());
    assert_eq!(13333, SamplingConfig::from_freq_nearest(3).divide());
    assert_eq!(1, SamplingConfig::from_freq_nearest(100_000).divide());
    assert_eq!(65535, SamplingConfig::from_freq_nearest(0).divide());
}

#[test]
fn silencer_settings_resolve() {
    assert_eq!(
        Ok(Silencer { intensity_steps: 10, phase_steps: 40, strict: true }),
        SilencerSetting::default().resolve()
    );
    assert_eq!(
        Ok(Silencer { intensity_steps: 20, phase_steps: 80, strict: true }),
        SilencerSetting::FixedCompletionTime {
            intensity_ns: 500_000,
            phase_ns: 2_000_000,
            strict: true
        }
        .resolve()
    );
    assert_eq!(
        Err(EngineError::InvalidSilencerSettings),
        SilencerSetting::FixedCompletionTime { intensity_ns: 250_001, phase_ns: 1_000_000, strict: true }
            .resolve()
    );
    assert_eq!(
        Err(EngineError::InvalidSilencerSettings),
        SilencerSetting::FixedCompletionTime { intensity_ns: 0, phase_ns: 1_000_000, strict: true }
            .resolve()
    );
    assert_eq!(
        Err(EngineError::InvalidSilencerSettings),
        SilencerSetting::FixedCompletionSteps { intensity: 0, phase: 1, strict: false }.resolve()
    );
    assert_eq!(
        Ok(Silencer { intensity_steps: 1, phase_steps: 1, strict: false }),
        SilencerSetting::disable().resolve()
    );
}

#[test]
fn silencer_required_completion() {
    let s = Silencer { intensity_steps: 10, phase_steps: 40, strict: true };
    assert_eq!(40, s.required_steps(Channel::Modulation));
    assert_eq!(40, s.required_steps(Channel::FociSTM));
    assert_eq!(40, s.required_steps(Channel::GainSTM));
    assert_eq!(0, s.required_steps(Channel::Gain));
    assert_eq!(1_000_000, s.required_completion_ns(Channel::Modulation));
    assert_eq!(1_000_000, s.required_completion_ns(Channel::GainSTM));
    assert_eq!(Ok(()), s.validate(Channel::Modulation, 40));
    assert_eq!(Err(EngineError::InvalidSilencerSettings), s.validate(Channel::Modulation, 39));
    assert_eq!(Ok(()), s.validate(Channel::Gain, 1));
    let loose = Silencer { intensity_steps: 10, phase_steps: 40, strict: false };
    assert_eq!(Ok(()), loose.validate(Channel::FociSTM, 1));
}

#[test]
fn sampling_config_slowest() {
    assert_eq!(65535, SamplingConfig::slowest().divide());
}
