//! The wireless subsystem: one-time driver initialization from the radio
//! timer, RNG and radio clock, and the construction of the station-mode
//! device/controller pair over the shared radio.

use vstd::prelude::*;
use crate::peripherals::{RadioClockPeripheral, RngSource, Timer, WifiPeripheral};

verus! {

/// Wireless failures, all terminal at bring-up: no networking is possible
/// after either of them.
#[derive(Clone, Copy, Debug, PartialEq, Eq, Structural)]
pub enum WifiError {
    /// The wireless driver failed to initialize.
    InitFailed,
    /// No station-mode device was available from the initialized subsystem.
    NoDeviceAvailable,
}

/// The initialized wireless subsystem. It owns the radio timer, the seeded
/// generator and the radio clock for the rest of the process lifetime, and
/// is the sole source of device/controller pairs.
pub struct WifiSubsystem {
    radio_timer: Timer,
    rng: RngSource,
    radio_clk: RadioClockPeripheral,
}

impl WifiSubsystem {
    /// The timer feeding the radio's internal timing.
    pub closed spec fn radio_timer(&self) -> Timer {
        self.radio_timer
    }
}

/// Initializes the wireless driver, consuming the radio timer, the seeded
/// generator and the radio clock resource. `init_ok` is the outcome the
/// driver reported; on failure nothing of the subsystem exists.
pub fn init_wifi(
    radio_timer: Timer,
    rng: RngSource,
    radio_clk: RadioClockPeripheral,
    init_ok: bool,
) -> (r: Result<WifiSubsystem, WifiError>)
    ensures
        init_ok ==> (r matches Ok(s) && s.radio_timer() == radio_timer),
        !init_ok ==> r == Err::<WifiSubsystem, WifiError>(WifiError::InitFailed),
{
    if init_ok {
        Ok(WifiSubsystem { radio_timer, rng, radio_clk })
    } else {
        Err(WifiError::InitFailed)
    }
}

/// The data-plane view of the radio: frame I/O for the network stack.
/// Only [`new_station`] can produce it, paired with its controller.
pub struct WifiDevice {
    radio: u8,
}

impl WifiDevice {
    /// The identity of the underlying radio.
    pub closed spec fn spec_radio(&self) -> u8 {
        self.radio
    }

    /// The identity of the underlying radio.
    #[verifier::when_used_as_spec(spec_radio)]
    pub fn radio(&self) -> (r: u8)
        ensures
            r == self.spec_radio(),
    {
        self.radio
    }
}

/// The control-plane view of the radio: association and scanning. Only
/// [`new_station`] can produce it, paired with its device.
pub struct WifiController {
    radio: u8,
}

impl WifiController {
    /// The identity of the underlying radio.
    pub closed spec fn spec_radio(&self) -> u8 {
        self.radio
    }

    /// The identity of the underlying radio.
    #[verifier::when_used_as_spec(spec_radio)]
    pub fn radio(&self) -> (r: u8)
        ensures
            r == self.spec_radio(),
    {
        self.radio
    }
}

/// Constructs the station-mode device/controller pair: two views over the
/// one radio block, produced by a single call so they can never be
/// reconstructed separately. `construction_ok` is the outcome the driver
/// reported; on failure no view exists at all.
pub fn new_station(
    subsystem: &WifiSubsystem,
    radio: WifiPeripheral,
    construction_ok: bool,
) -> (r: Result<(WifiDevice, WifiController), WifiError>)
    ensures
        construction_ok ==> (r matches Ok(pair)
            && pair.0.radio() == radio.radio()
            && pair.1.radio() == radio.radio()),
        !construction_ok ==> r == Err::<(WifiDevice, WifiController), WifiError>(
            WifiError::NoDeviceAvailable,
        ),
{
    if construction_ok {
        let id = radio.radio();
        Ok((WifiDevice { radio: id }, WifiController { radio: id }))
    } else {
        Err(WifiError::NoDeviceAvailable)
    }
}

} // verus!
