//! An interpreting simulator for one 64-bit RISC-V hart: the base integer set with the M, F
//! and D extensions, over a flat little-endian memory.
//!
//! `hart::Hart::execute` runs one instruction; its contract is `hart::step`, which the base,
//! M and F/D executors each spell out as a step function over the `hart::HartState` model.
pub mod util;
pub mod cache_l1;
pub mod extensions;
pub mod decode;
pub mod fp;
pub mod softfloat;
pub mod rounding;
pub mod sqrt;
pub mod hart;
