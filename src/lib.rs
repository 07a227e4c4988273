//! A verified model of the double-buffered segment store of an ultrasound
//! phased-array controller: two segments per output channel, a silencer that
//! bounds how fast a buffer may be played, a transition engine that decides
//! which segment drives the output, and the acknowledgement exchange through
//! which a device answers each request.
mod engine;
mod exchange;
pub mod laws;
mod model;
mod patterns;
mod segment;
mod silencer;
mod timing;

pub use engine::{check_mode, Engine, Slot};
pub use exchange::{increment_msg_id, settle, AckOutcome, AckReport, Exchange, FirmwareFault, Step, MSG_ID_MAX};
pub use model::{
    EngineView, FpgaState, Pending, SlotView, Trigger, FOCI_STM_BUF_SIZE_MAX, GAIN_STM_BUF_SIZE_MAX,
    MOD_BUF_SIZE_MAX, NUM_TRANS_IN_UNIT,
};
pub use segment::{Channel, EngineError, GPIOIn, LoopBehavior, Segment, TransitionMode};
pub use silencer::{
    Silencer, SilencerSetting, SILENCER_STEPS_INTENSITY_DEFAULT, SILENCER_STEPS_PHASE_DEFAULT,
};
pub use timing::{SamplingConfig, DIVIDE_MAX, ULTRASOUND_FREQ_HZ, ULTRASOUND_PERIOD_NS};
pub use patterns::{gpio_check_drive, pulse_width_check_intensity, LAST_TRANSDUCER};
