//! The bring-up entry point: runs the whole one-time initialization
//! sequence and returns the hardware bundle by value. There is no ambient
//! global state: every promoted singleton is an internal detail of the
//! entry point, and the caller owns everything that comes back.

use vstd::prelude::*;
use crate::arena::{HeapArena, HEAP_CAPACITY_BYTES};
use crate::peripherals::{Board, BoardConfig, CpuClock, Logger, LogLevel, RngSource, Scheduler, TimerGroup, LOGGER_BUFFER_BYTES};
use crate::pmu::{I2cBus, PmuDriver, PMU_I2C_ADDRESS};
use crate::singleton::SingletonCell;
use crate::stack;
use crate::stack::{derive_seed, seed_of, IpConfig, NetworkStack, StackResources, StackRunner, STACK_RESOURCE_SLOTS};
use crate::wifi::{init_wifi, new_station, WifiController, WifiDevice, WifiSubsystem};

verus! {

/// GPIO pin carrying the PMU bus clock line.
pub const PMU_SCL_PIN: u8 = 39;

/// GPIO pin carrying the PMU bus data line.
pub const PMU_SDA_PIN: u8 = 38;

/// Bring-up failure taxonomy. Nothing here is recoverable: a partially
/// initialized board has no safe degraded mode, so the caller is expected
/// to abort on every one of these.
#[derive(Clone, Copy, Debug, PartialEq, Eq, Structural)]
pub enum BringUpError {
    /// The heap arena or the peripheral registry was already initialized:
    /// bring-up ran a second time in the same process.
    AlreadyInitialized,
    /// The I2C bus for the PMU could not be constructed.
    BusConstructionFailed,
    /// The wireless subsystem driver failed to initialize.
    WirelessInitFailed,
    /// No station-mode device/controller pair was available.
    DeviceConstructionFailed,
}

/// Everything the hardware alone decides during bring-up, gathered by the
/// caller (on a real board, from the drivers and the process environment)
/// and consumed by the verified bring-up logic as plain values.
#[derive(Clone, Copy, Debug)]
pub struct BringUpInputs {
    /// Log verbosity, read once from the process environment.
    pub log_level: LogLevel,
    /// Whether I2C bus construction succeeded.
    pub i2c_ok: bool,
    /// Whether the wireless subsystem driver initialized.
    pub wifi_init_ok: bool,
    /// Whether a station-mode device/controller pair was available.
    pub wifi_device_ok: bool,
    /// First hardware RNG draw: the high word of the stack seed.
    pub rng_first_draw: u32,
    /// Second hardware RNG draw: the low word of the stack seed.
    pub rng_second_draw: u32,
}

/// The aggregate result of bring-up: the network stack, the background
/// runner that drives it, the Wi-Fi controller, and the PMU driver.
/// Created exactly once per process and never destroyed.
pub struct Hardware {
    pub stack: NetworkStack,
    pub runner: StackRunner,
    pub controller: WifiController,
    pub pmu: PmuDriver,
}

/// The one-time bring-up. Succeeds exactly when nothing was initialized
/// before and every hardware outcome is good; each failure surfaces as the
/// typed error of the first step that went wrong, in bring-up order.
///
/// On success the bundle is fully wired: the stack and its runner are
/// bound to the same underlying device as the controller, the stack seed
/// is the concatenation of the two RNG draws, the slot pool has its fixed
/// capacity, and the PMU driver sits at its fixed bus address with the
/// clock and data pins attached.
pub fn get_hardware(board: &mut Board, heap: &mut HeapArena, inputs: BringUpInputs) -> (r: Result<
    Hardware,
    BringUpError,
>)
    requires
        old(heap).wf(),
    ensures
        final(heap).wf(),
        r is Ok <==> (!old(heap).is_initialized() && !old(board).peripherals_taken()
            && inputs.i2c_ok && inputs.wifi_init_ok && inputs.wifi_device_ok),
        old(heap).is_initialized()
            ==> r == Err::<Hardware, BringUpError>(BringUpError::AlreadyInitialized)
                && *final(heap) == *old(heap)
                && *final(board) == *old(board),
        !old(heap).is_initialized()
            ==> final(heap).is_initialized() && final(heap).capacity() == HEAP_CAPACITY_BYTES
                && final(heap).allocated() == LOGGER_BUFFER_BYTES,
        !old(heap).is_initialized() && old(board).peripherals_taken()
            ==> r == Err::<Hardware, BringUpError>(BringUpError::AlreadyInitialized)
                && *final(board) == *old(board),
        !old(heap).is_initialized() && !old(board).peripherals_taken()
            ==> final(board).peripherals_taken()
                && (!inputs.i2c_ok
                    ==> r == Err::<Hardware, BringUpError>(BringUpError::BusConstructionFailed))
                && (inputs.i2c_ok && !inputs.wifi_init_ok
                    ==> r == Err::<Hardware, BringUpError>(BringUpError::WirelessInitFailed))
                && (inputs.i2c_ok && inputs.wifi_init_ok && !inputs.wifi_device_ok
                    ==> r == Err::<Hardware, BringUpError>(
                        BringUpError::DeviceConstructionFailed,
                    )),
        r matches Ok(h)
            ==> h.pmu.address() == PMU_I2C_ADDRESS
                && h.pmu.bus().scl() == Some(PMU_SCL_PIN)
                && h.pmu.bus().sda() == Some(PMU_SDA_PIN)
                && h.stack.device() == h.runner.device()
                && h.controller.radio() == h.stack.device()
                && h.stack.seed() == seed_of(inputs.rng_first_draw, inputs.rng_second_draw)
                && h.stack.config() == IpConfig::Dhcpv4
                && h.stack.slots_capacity() == STACK_RESOURCE_SLOTS
                && h.stack.slots_used() == 0,
{
    // The heap arena comes first: every later step may allocate from it.
    if heap.init(HEAP_CAPACITY_BYTES).is_err() {
        return Err(BringUpError::AlreadyInitialized);
    }
    // Logging next, before any other component, so later failures are
    // observable; its buffer comes from the arena just initialized.
    let _logger = Logger::init(inputs.log_level, heap).unwrap();

    // The one consuming call that yields every peripheral handle, at the
    // maximum CPU frequency.
    let peripherals = match board.init(BoardConfig { cpu_clock: CpuClock::Max }) {
        Ok(p) => p,
        Err(_) => return Err(BringUpError::AlreadyInitialized),
    };

    // PMU: a blocking I2C bus on the PMU's clock and data pins, wrapped
    // into the driver at its fixed bus address.
    let pmu_scl = peripherals.gpio39;
    let pmu_sda = peripherals.gpio38;
    let pmu_i2c = match I2cBus::new(peripherals.i2c0, inputs.i2c_ok) {
        Ok(bus) => bus,
        Err(_) => return Err(BringUpError::BusConstructionFailed),
    };
    let pmu_i2c = pmu_i2c.with_scl(pmu_scl).with_sda(pmu_sda);

    // Wi-Fi: two independent timer sources, the seeded generator, and the
    // radio resources.
    let wifi_controller_timer = TimerGroup::new(peripherals.timg0).timer0;
    let random_number_generator = RngSource::new(peripherals.rng);
    let radio_clock = peripherals.radio_clk;
    let wifi = peripherals.wifi;
    let timg1_0 = TimerGroup::new(peripherals.timg1).timer0;

    // The second timer drives the cooperative task scheduler, an external
    // collaborator that takes over once bring-up is done.
    let _scheduler = Scheduler::start(timg1_0);

    // Wireless subsystem: initialized exactly once, then promoted to the
    // indefinite lifetime that device construction requires.
    let subsystem = match init_wifi(
        wifi_controller_timer,
        random_number_generator,
        radio_clock,
        inputs.wifi_init_ok,
    ) {
        Ok(s) => s,
        Err(_) => return Err(BringUpError::WirelessInitFailed),
    };
    let mut wifi_cell: SingletonCell<WifiSubsystem> = SingletonCell::new();
    wifi_cell.init_with(|| subsystem).unwrap();
    let subsystem_ref = wifi_cell.get().unwrap();

    // The station-mode device/controller pair over the one radio block.
    let (wifi_device_tmp, controller) = match new_station(
        subsystem_ref,
        wifi,
        inputs.wifi_device_ok,
    ) {
        Ok(pair) => pair,
        Err(_) => return Err(BringUpError::DeviceConstructionFailed),
    };

    // The data-plane device must reach indefinite lifetime before the
    // stack borrows it: write-once promotion, then the shared reference.
    let mut device_cell: SingletonCell<WifiDevice> = SingletonCell::new();
    device_cell.write(wifi_device_tmp).unwrap();
    let wifi_device = device_cell.get().unwrap();

    // The stack seed: two independent draws, high word then low word.
    let seed = derive_seed(inputs.rng_first_draw, inputs.rng_second_draw);

    // The fixed pool of connection resources, promoted write-once as well.
    let mut resources_cell: SingletonCell<StackResources> = SingletonCell::new();
    resources_cell.init_with(StackResources::new).unwrap();
    let stack_resources = resources_cell.get().unwrap();

    // Stack and background runner: one atomic construction, so the pair is
    // never split and the runner always drives exactly this stack.
    let (network_stack, runner) = stack::new(wifi_device, IpConfig::Dhcpv4, stack_resources, seed);

    Ok(
        Hardware {
            stack: network_stack,
            runner,
            controller,
            pmu: PmuDriver::new(pmu_i2c, PMU_I2C_ADDRESS),
        },
    )
}

} // verus!
