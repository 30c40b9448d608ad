//! The verified core of a robot simulator and of the shared memory through which it talks to a
//! vision process.
//!
//! Single and double precision numbers travel through this crate as bit patterns ([`float::F32`],
//! [`float::F64`]): the rules here compare, negate and copy them, which is exact on the patterns.
//! Arithmetic that rounds is left to the caller.
pub mod abi;
pub mod camera;
pub mod capture;
pub mod codec;
pub mod config;
pub mod controller;
pub mod debug;
pub mod float;
pub mod gamepad;
pub mod ground_truth;
pub mod keys;
pub mod layout;
pub mod link;
pub mod memory;
pub mod names;
pub mod plates;
pub mod plugin;
pub mod projectile;
pub mod publisher;
pub mod publisher_records;
pub mod region;
pub mod rotation;
pub mod runes;
pub mod seqlock;
pub mod statistic;
pub mod subscriber;
pub mod triple_buffer;
pub mod wire;
