use bringup::arena::{ArenaError, HeapArena};
use bringup::hardware::{get_hardware, BringUpError, BringUpInputs, Hardware};
use bringup::peripherals::{Board, BoardConfig, BoardError, CpuClock, LogLevel, Logger};
use bringup::singleton::{CellError, SingletonCell};
use bringup::stack::{derive_seed, StackError};

fn all_ok_inputs() -> BringUpInputs {
    BringUpInputs {
        log_level: LogLevel::Info,
        i2c_ok: true,
        wifi_init_ok: true,
        wifi_device_ok: true,
        rng_first_draw: 0xAABBCCDD,
        rng_second_draw: 0x11223344,
    }
}

fn bring_up_ok() -> Hardware {
    let mut board = Board::new();
    let mut heap = HeapArena::new();
    get_hardware(&mut board, &mut heap, all_ok_inputs()).unwrap()
}

#[test]
fn singleton_second_init_fails() {
    let mut cell: SingletonCell<u32> = SingletonCell::new();
    assert_eq!(cell.init_with(|| 7), Ok(()));
    assert_eq!(cell.init_with(|| 8), Err(CellError::AlreadyInitialized));
    assert_eq!(cell.get(), Ok(&7));
}

#[test]
fn singleton_read_before_init_fails() {
    let cell: SingletonCell<u32> = SingletonCell::new();
    assert_eq!(cell.get(), Err(CellError::NotInitialized));
}

#[test]
fn singleton_repeated_reads_agree() {
    let mut cell: SingletonCell<u32> = SingletonCell::new();
    assert_eq!(cell.init_with(|| 42), Ok(()));
    let first = cell.get().unwrap();
    let second = cell.get().unwrap();
    assert_eq!(first, second);
    assert_eq!(first, &42);
}

#[test]
fn singleton_write_is_once_too() {
    let mut cell: SingletonCell<u32> = SingletonCell::new();
    assert_eq!(cell.write(1), Ok(()));
    assert_eq!(cell.write(2), Err(CellError::AlreadyInitialized));
    assert_eq!(cell.get(), Ok(&1));
}

#[test]
fn arena_allocation_before_init_fails() {
    let mut arena = HeapArena::new();
    assert_eq!(arena.allocate(16), Err(ArenaError::NotInitialized));
}

#[test]
fn arena_second_init_fails() {
    let mut arena = HeapArena::new();
    assert_eq!(arena.init(4096), Ok(()));
    assert_eq!(arena.init(4096), Err(ArenaError::AlreadyInitialized));
}

#[test]
fn arena_fixed_budget_exhausts() {
    let mut arena = HeapArena::new();
    assert_eq!(arena.init(8), Ok(()));
    assert_eq!(arena.allocate(4), Ok(()));
    assert_eq!(arena.allocate(8), Err(ArenaError::Exhausted));
    assert_eq!(arena.allocate(4), Ok(()));
    assert_eq!(arena.allocate(1), Err(ArenaError::Exhausted));
}

#[test]
fn logger_depends_on_initialized_arena() {
    let mut arena = HeapArena::new();
    let refused = Logger::init(LogLevel::Info, &mut arena);
    assert!(matches!(refused, Err(ArenaError::NotInitialized)));
    assert_eq!(arena.init(4096), Ok(()));
    let accepted = Logger::init(LogLevel::Info, &mut arena);
    assert!(accepted.is_ok());
}

#[test]
fn logger_is_refused_when_the_budget_is_too_small() {
    let mut arena = HeapArena::new();
    assert_eq!(arena.init(512), Ok(()));
    let refused = Logger::init(LogLevel::Warn, &mut arena);
    assert!(matches!(refused, Err(ArenaError::Exhausted)));
}

#[test]
fn bring_up_is_refused_once_the_peripherals_are_taken() {
    let mut board = Board::new();
    let config = BoardConfig { cpu_clock: CpuClock::Max };
    assert!(board.init(config).is_ok());
    let mut heap = HeapArena::new();
    let r = get_hardware(&mut board, &mut heap, all_ok_inputs());
    assert!(matches!(r, Err(BringUpError::AlreadyInitialized)));
}

#[test]
fn seed_concatenates_the_two_draws() {
    assert_eq!(derive_seed(0xAABBCCDD, 0x11223344), 0xAABBCCDD11223344);
    assert_eq!(derive_seed(0, 0), 0);
    assert_eq!(derive_seed(1, 0), 0x0000000100000000);
    assert_eq!(derive_seed(0, 1), 1);
    assert_eq!(derive_seed(0xFFFFFFFF, 0xFFFFFFFF), u64::MAX);
}

#[test]
fn peripheral_set_is_handed_out_once() {
    let mut board = Board::new();
    let config = BoardConfig { cpu_clock: CpuClock::Max };
    assert!(board.init(config).is_ok());
    let second = board.init(config);
    assert!(matches!(second, Err(BoardError::PeripheralsAlreadyTaken)));
}

#[test]
fn bring_up_returns_a_fully_wired_bundle() {
    let hardware = bring_up_ok();
    assert_eq!(hardware.pmu.address(), 0x34);
    assert_eq!(hardware.stack.device(), hardware.runner.device());
    assert_eq!(hardware.controller.radio(), hardware.stack.device());
    assert_eq!(hardware.stack.seed(), 0xAABBCCDD11223344);
    assert_eq!(hardware.stack.slots_capacity(), 4);
    assert_eq!(hardware.stack.slots_used(), 0);
}

#[test]
fn bring_up_a_second_time_fails() {
    let mut board = Board::new();
    let mut heap = HeapArena::new();
    let first = get_hardware(&mut board, &mut heap, all_ok_inputs());
    assert!(first.is_ok());
    let second = get_hardware(&mut board, &mut heap, all_ok_inputs());
    assert!(matches!(second, Err(BringUpError::AlreadyInitialized)));
}

#[test]
fn bring_up_reports_bus_construction_failure() {
    let mut board = Board::new();
    let mut heap = HeapArena::new();
    let mut inputs = all_ok_inputs();
    inputs.i2c_ok = false;
    let r = get_hardware(&mut board, &mut heap, inputs);
    assert!(matches!(r, Err(BringUpError::BusConstructionFailed)));
}

#[test]
fn bring_up_reports_wireless_init_failure() {
    let mut board = Board::new();
    let mut heap = HeapArena::new();
    let mut inputs = all_ok_inputs();
    inputs.wifi_init_ok = false;
    let r = get_hardware(&mut board, &mut heap, inputs);
    assert!(matches!(r, Err(BringUpError::WirelessInitFailed)));
}

#[test]
fn bring_up_reports_device_construction_failure() {
    let mut board = Board::new();
    let mut heap = HeapArena::new();
    let mut inputs = all_ok_inputs();
    inputs.wifi_device_ok = false;
    let r = get_hardware(&mut board, &mut heap, inputs);
    assert!(matches!(r, Err(BringUpError::DeviceConstructionFailed)));
}

#[test]
fn a_fifth_concurrent_consumer_is_rejected() {
    let mut hardware = bring_up_ok();
    assert_eq!(hardware.stack.acquire_slot(), Ok(()));
    assert_eq!(hardware.stack.acquire_slot(), Ok(()));
    assert_eq!(hardware.stack.acquire_slot(), Ok(()));
    assert_eq!(hardware.stack.acquire_slot(), Ok(()));
    assert_eq!(hardware.stack.acquire_slot(), Err(StackError::ResourcesExhausted));
    assert_eq!(hardware.stack.release_slot(), Ok(()));
    assert_eq!(hardware.stack.acquire_slot(), Ok(()));
}

#[test]
fn releasing_without_a_consumer_is_rejected() {
    let mut hardware = bring_up_ok();
    assert_eq!(hardware.stack.release_slot(), Err(StackError::NoConsumerActive));
}
