use vstd::prelude::*;

verus! {

/// Index of the last transducer of a device.
pub const LAST_TRANSDUCER: usize = 248;

/// The (phase, intensity) that the GPIO output check drives: full intensity on
/// the first transducer and half on the last one, the two devices half a
/// period apart; every other transducer is silent.
pub open spec fn spec_gpio_check_drive(device: usize, transducer: usize) -> (u8, u8) {
    if device == 0 && transducer == 0 {
        (0x00, 0xFF)
    } else if device == 0 && transducer == LAST_TRANSDUCER {
        (0x80, 0x80)
    } else if transducer == 0 {
        (0x80, 0xFF)
    } else if transducer == LAST_TRANSDUCER {
        (0x00, 0x80)
    } else {
        (0x00, 0x00)
    }
}

pub fn gpio_check_drive(device: usize, transducer: usize) -> (r: (u8, u8))
    ensures
        r == spec_gpio_check_drive(device, transducer),
{
    if device == 0 && transducer == 0 {
        (0x00, 0xFF)
    } else if device == 0 && transducer == LAST_TRANSDUCER {
        (0x80, 0x80)
    } else if transducer == 0 {
        (0x80, 0xFF)
    } else if transducer == LAST_TRANSDUCER {
        (0x00, 0x80)
    } else {
        (0x00, 0x00)
    }
}

/// The intensity that the pulse width check drives: the first and last
/// transducers of device 0 get 0 and 1, those of the other devices 2 and 3,
/// so that each selects its own entry of the pulse width table.
pub open spec fn spec_pulse_width_check_intensity(device: usize, transducer: usize) -> u8 {
    if transducer == 0 {
        if device == 0 { 0 } else { 2 }
    } else if transducer == LAST_TRANSDUCER {
        if device == 0 { 1 } else { 3 }
    } else {
        0
    }
}

pub fn pulse_width_check_intensity(device: usize, transducer: usize) -> (r: u8)
    ensures
        r == spec_pulse_width_check_intensity(device, transducer),
{
    if transducer == 0 {
        if device == 0 { 0 } else { 2 }
    } else if transducer == LAST_TRANSDUCER {
        if device == 0 { 1 } else { 3 }
    } else {
        0
    }
}

} // verus!
