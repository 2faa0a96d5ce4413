//! Per-participant staking state machine and dual reward-accrual engine.
//!
//! A participant ("farmer") locks a quantity of fungible units ("gems") into a
//! lifecycle of staking, cooldown, and rest. While staked, two independent
//! reward streams accrue: a variable-rate stream driven by a globally shared
//! per-unit accrual counter, and a fixed-rate stream driven by a promised,
//! tenure-tiered schedule integrated in closed form over time intervals.
//!
//! The core never reads a clock or performs I/O: every operation takes the
//! current timestamp and any external balances as parameters, so each function
//! is a deterministic state transformation. All duration and amount arithmetic
//! is checked; overflow and underflow surface as explicit errors and a failed
//! operation leaves the record unchanged.

pub mod error;
pub mod farmer;
pub mod number128;
pub mod schedule;
pub mod try_math;
