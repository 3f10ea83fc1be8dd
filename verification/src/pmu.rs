//! The PMU bus builder: a blocking I2C bus bound to the PMU's clock and
//! data pins, wrapped into a power-management-unit driver at the device's
//! fixed bus address.

use vstd::prelude::*;
use crate::peripherals::{I2cPeripheral, Pin};

verus! {

/// The PMU's fixed 7-bit bus address; it never depends on any other
/// configuration.
pub const PMU_I2C_ADDRESS: u8 = 0x34;

/// Error raised when the I2C bus cannot be constructed. At bring-up time
/// this is terminal: a voltage-unmanaged system cannot safely continue.
#[derive(Clone, Copy, Debug, PartialEq, Eq, Structural)]
pub enum BusError {
    ConstructionFailed,
}

/// A blocking I2C bus with default configuration, consuming its controller
/// block, with its clock and data pins attached by the builder methods.
pub struct I2cBus {
    instance: u8,
    scl: Option<u8>,
    sda: Option<u8>,
}

impl I2cBus {
    /// Which controller block the bus runs on.
    pub closed spec fn instance(&self) -> u8 {
        self.instance
    }

    /// The attached clock pin, if any.
    pub closed spec fn scl(&self) -> Option<u8> {
        self.scl
    }

    /// The attached data pin, if any.
    pub closed spec fn sda(&self) -> Option<u8> {
        self.sda
    }

    /// Constructs the bus with default configuration. `construction_ok` is
    /// the outcome the hardware reported; on failure the bus does not exist
    /// in any partial form.
    pub fn new(peripheral: I2cPeripheral, construction_ok: bool) -> (r: Result<I2cBus, BusError>)
        ensures
            construction_ok ==> (r matches Ok(b)
                && b.instance() == peripheral.instance()
                && b.scl() is None
                && b.sda() is None),
            !construction_ok ==> r == Err::<I2cBus, BusError>(BusError::ConstructionFailed),
    {
        if construction_ok {
            Ok(I2cBus { instance: peripheral.instance(), scl: None, sda: None })
        } else {
            Err(BusError::ConstructionFailed)
        }
    }

    /// Attaches the clock pin, consuming it.
    pub fn with_scl(self, pin: Pin) -> (r: Self)
        ensures
            r.instance() == self.instance(),
            r.scl() == Some(pin.number()),
            r.sda() == self.sda(),
    {
        I2cBus { scl: Some(pin.number()), ..self }
    }

    /// Attaches the data pin, consuming it.
    pub fn with_sda(self, pin: Pin) -> (r: Self)
        ensures
            r.instance() == self.instance(),
            r.scl() == self.scl(),
            r.sda() == Some(pin.number()),
    {
        I2cBus { sda: Some(pin.number()), ..self }
    }
}

/// Driver for the I2C-attached power-management unit. At construction time
/// it owns only its bus and its bus address; register-level I/O happens
/// later and is out of scope here.
pub struct PmuDriver {
    bus: I2cBus,
    address: u8,
}

impl PmuDriver {
    /// The bus the driver owns.
    pub closed spec fn bus(&self) -> I2cBus {
        self.bus
    }

    /// The driver's 7-bit bus address.
    pub closed spec fn spec_address(&self) -> u8 {
        self.address
    }

    /// Wraps the bus together with the device's bus address.
    pub fn new(bus: I2cBus, address: u8) -> (r: Self)
        ensures
            r.bus() == bus,
            r.spec_address() == address,
    {
        PmuDriver { bus, address }
    }

    /// The driver's 7-bit bus address.
    #[verifier::when_used_as_spec(spec_address)]
    pub fn address(&self) -> (r: u8)
        ensures
            r == self.spec_address(),
    {
        self.address
    }
}

} // verus!
