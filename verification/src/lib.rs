//! One-time bring-up of a microcontroller's runtime environment.
//!
//! The bring-up promotes stack-scoped configuration into long-lived
//! resources: a heap arena, the peripheral handle set, an I2C-attached
//! power-management unit, and a Wi-Fi network stack. The entry point
//! ([`hardware::get_hardware`]) runs exactly once per process and returns
//! the full resource bundle by value; every internal failure surfaces as a
//! typed error so the caller can abort as embedded bring-up demands.

pub mod arena;
pub mod hardware;
pub mod peripherals;
pub mod pmu;
pub mod singleton;
pub mod stack;
pub mod wifi;
