//! The peripheral registry: one consuming initialization call yields the
//! full set of distinct hardware peripheral handles, each handed by
//! construction to exactly one downstream builder.

use vstd::prelude::*;
use crate::arena::{ArenaError, HeapArena};

verus! {

/// CPU clock selection consumed by the registry; bring-up always selects
/// the maximum frequency.
#[derive(Clone, Copy, Debug, PartialEq, Eq, Structural)]
pub enum CpuClock {
    Boot,
    Max,
}

/// Start-up configuration for the registry.
#[derive(Clone, Copy, Debug)]
pub struct BoardConfig {
    pub cpu_clock: CpuClock,
}

/// Error raised when the peripheral set is requested a second time.
#[derive(Clone, Copy, Debug, PartialEq, Eq, Structural)]
pub enum BoardError {
    PeripheralsAlreadyTaken,
}

/// Handle for one I2C bus controller block.
pub struct I2cPeripheral {
    instance: u8,
}

impl I2cPeripheral {
    /// Which controller block this handle stands for.
    pub closed spec fn spec_instance(&self) -> u8 {
        self.instance
    }

    /// Which controller block this handle stands for.
    #[verifier::when_used_as_spec(spec_instance)]
    pub fn instance(&self) -> (r: u8)
        ensures
            r == self.spec_instance(),
    {
        self.instance
    }
}

/// Handle for one timer group block.
pub struct TimerGroupPeripheral {
    instance: u8,
}

impl TimerGroupPeripheral {
    /// Which timer group block this handle stands for.
    pub closed spec fn instance(&self) -> u8 {
        self.instance
    }
}

/// Handle for the hardware random-number source.
pub struct RngPeripheral {
    instance: u8,
}

impl RngPeripheral {
    /// Which random-number block this handle stands for.
    pub closed spec fn instance(&self) -> u8 {
        self.instance
    }
}

/// Handle for the radio clock resource.
pub struct RadioClockPeripheral {
    instance: u8,
}

impl RadioClockPeripheral {
    /// Which clock resource this handle stands for.
    pub closed spec fn instance(&self) -> u8 {
        self.instance
    }
}

/// Handle for the radio block itself; the station-mode device/controller
/// pair is built over it and inherits its identity.
pub struct WifiPeripheral {
    radio: u8,
}

impl WifiPeripheral {
    /// The identity of the underlying radio.
    pub closed spec fn spec_radio(&self) -> u8 {
        self.radio
    }

    /// The identity of the underlying radio.
    #[verifier::when_used_as_spec(spec_radio)]
    pub fn radio(&self) -> (r: u8)
        ensures
            r == self.spec_radio(),
    {
        self.radio
    }
}

/// Handle for one GPIO pin.
pub struct Pin {
    number: u8,
}

impl Pin {
    /// The pin number.
    pub closed spec fn spec_number(&self) -> u8 {
        self.number
    }

    /// The pin number.
    #[verifier::when_used_as_spec(spec_number)]
    pub fn number(&self) -> (r: u8)
        ensures
            r == self.spec_number(),
    {
        self.number
    }
}

/// One hardware timer taken from a timer group.
pub struct Timer {
    group: u8,
    index: u8,
}

impl Timer {
    /// The timer group the timer belongs to.
    pub closed spec fn group(&self) -> u8 {
        self.group
    }

    /// The timer's index inside its group.
    pub closed spec fn index(&self) -> u8 {
        self.index
    }
}

/// A timer group opened from its peripheral handle; `timer0` is the one
/// timer bring-up takes from each group.
pub struct TimerGroup {
    pub timer0: Timer,
}

impl TimerGroup {
    /// Opens the group, consuming its peripheral handle.
    pub fn new(peripheral: TimerGroupPeripheral) -> (r: Self)
        ensures
            r.timer0.group() == peripheral.instance(),
            r.timer0.index() == 0,
    {
        TimerGroup { timer0: Timer { group: peripheral.instance, index: 0 } }
    }
}

/// The pseudo-random generator seeded from the hardware RNG source. The
/// handle is freely copyable; the raw draws themselves are decided by the
/// hardware and enter the bring-up logic as plain inputs.
#[derive(Clone, Copy)]
pub struct RngSource {
    instance: u8,
}

impl RngSource {
    /// Which random-number block feeds this generator.
    pub closed spec fn instance(&self) -> u8 {
        self.instance
    }

    /// Seeds the generator, consuming the RNG peripheral handle.
    pub fn new(peripheral: RngPeripheral) -> (r: Self)
        ensures
            r.instance() == peripheral.instance(),
    {
        RngSource { instance: peripheral.instance }
    }
}

/// The cooperative task scheduler's hold on its tick timer. Starting the
/// scheduler consumes one hardware timer; the scheduler itself is an
/// external collaborator and runs after bring-up.
pub struct Scheduler {
    timer: Timer,
}

impl Scheduler {
    /// The timer that drives scheduling.
    pub closed spec fn timer(&self) -> Timer {
        self.timer
    }

    /// Hands `timer` to the scheduler.
    pub fn start(timer: Timer) -> (r: Self)
        ensures
            r.timer() == timer,
    {
        Scheduler { timer }
    }
}

/// Verbosity for the logging collaborator, read once from the process
/// environment by the caller.
#[derive(Clone, Copy, Debug, PartialEq, Eq, Structural)]
pub enum LogLevel {
    Off,
    Error,
    Warn,
    Info,
    Debug,
    Trace,
}

/// Start-up allocation the logging collaborator makes for its buffer.
pub const LOGGER_BUFFER_BYTES: usize = 1024;

/// The initialized logging collaborator.
pub struct Logger {
    level: LogLevel,
}

impl Logger {
    /// The verbosity the logger was initialized with.
    pub closed spec fn level(&self) -> LogLevel {
        self.level
    }

    /// Initializes logging at the given verbosity. Logging allocates its
    /// buffer, so it depends on an already-initialized heap arena: before
    /// arena initialization the call is refused deterministically.
    pub fn init(level: LogLevel, heap: &mut HeapArena) -> (r: Result<Logger, ArenaError>)
        requires
            old(heap).wf(),
        ensures
            final(heap).wf(),
            !old(heap).is_initialized() ==> r == Err::<Logger, ArenaError>(ArenaError::NotInitialized)
                && *final(heap) == *old(heap),
            old(heap).is_initialized()
                && old(heap).allocated() + LOGGER_BUFFER_BYTES <= old(heap).capacity()
                ==> (r matches Ok(l) && l.level() == level)
                    && final(heap).is_initialized()
                    && final(heap).capacity() == old(heap).capacity()
                    && final(heap).allocated() == old(heap).allocated() + LOGGER_BUFFER_BYTES,
            old(heap).is_initialized()
                && old(heap).allocated() + LOGGER_BUFFER_BYTES > old(heap).capacity()
                ==> r == Err::<Logger, ArenaError>(ArenaError::Exhausted)
                    && *final(heap) == *old(heap),
    {
        match heap.allocate(LOGGER_BUFFER_BYTES) {
            Ok(()) => Ok(Logger { level }),
            Err(e) => Err(e),
        }
    }
}

/// The physical board: the source of the one peripheral set. Requesting
/// the set consumes it, so no peripheral handle can ever exist twice.
pub struct Board {
    peripherals_taken: bool,
}

/// The disjoint set of peripheral handles obtained from the one consuming
/// initialization call. Each field is a distinct, non-duplicable token.
pub struct Peripherals {
    pub i2c0: I2cPeripheral,
    pub timg0: TimerGroupPeripheral,
    pub timg1: TimerGroupPeripheral,
    pub rng: RngPeripheral,
    pub radio_clk: RadioClockPeripheral,
    pub wifi: WifiPeripheral,
    pub gpio38: Pin,
    pub gpio39: Pin,
    pub cpu_clock: CpuClock,
}

impl Board {
    /// Whether the peripheral set has already been handed out.
    pub closed spec fn peripherals_taken(&self) -> bool {
        self.peripherals_taken
    }

    /// A board whose peripheral set is still available.
    pub fn new() -> (r: Self)
        ensures
            !r.peripherals_taken(),
    {
        Board { peripherals_taken: false }
    }

    /// Consumes the configuration and yields the full peripheral set, with
    /// the configured CPU clock applied. A second request is refused: the
    /// handles are singletons and must not be duplicated.
    pub fn init(&mut self, config: BoardConfig) -> (r: Result<Peripherals, BoardError>)
        ensures
            old(self).peripherals_taken()
                ==> r == Err::<Peripherals, BoardError>(BoardError::PeripheralsAlreadyTaken)
                    && *final(self) == *old(self),
            !old(self).peripherals_taken() ==> final(self).peripherals_taken()
                && (r matches Ok(p)
                    && p.i2c0.instance() == 0
                    && p.timg0.instance() == 0
                    && p.timg1.instance() == 1
                    && p.rng.instance() == 0
                    && p.radio_clk.instance() == 0
                    && p.wifi.radio() == 0
                    && p.gpio38.number() == 38
                    && p.gpio39.number() == 39
                    && p.cpu_clock == config.cpu_clock),
    {
        if self.peripherals_taken {
            Err(BoardError::PeripheralsAlreadyTaken)
        } else {
            self.peripherals_taken = true;
            Ok(Peripherals {
                i2c0: I2cPeripheral { instance: 0 },
                timg0: TimerGroupPeripheral { instance: 0 },
                timg1: TimerGroupPeripheral { instance: 1 },
                rng: RngPeripheral { instance: 0 },
                radio_clk: RadioClockPeripheral { instance: 0 },
                wifi: WifiPeripheral { radio: 0 },
                gpio38: Pin { number: 38 },
                gpio39: Pin { number: 39 },
                cpu_clock: config.cpu_clock,
            })
        }
    }
}

} // verus!
