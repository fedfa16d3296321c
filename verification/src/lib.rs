//! Communication core for Joy-Con controllers: a frame codec, an action
//! validator, the per-device input and output dispatchers, the device engine
//! that couples them, and the manager that keeps the registry of engines.
//!
//! Everything here is pure logic over plain values. Reading and writing the
//! transport, threads and timers belong to the caller, which feeds what it
//! observed into the engine and carries out what the engine decides.

pub mod joycon;
