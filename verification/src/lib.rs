//! Unit tests for subgraph mappings: how a test file is compiled, and how the compiled module is
//! linked against its host functions, instantiated and started.
//!
//! - [`compiler`]: the call of the AssemblyScript compiler.
//! - [`imports`]: the host functions that a module may import.
//! - [`plan`]: which of them are linked into a module, and in which order.
//! - [`linker`]: making the planned definitions in a linker of the WebAssembly engine.
//! - [`instance`]: the course of setting up an instance.
//! - [`start`]: finding the start function of an instance.
//! - [`slot`]: the context of an instance, which is made on first need.
//! - [`dispatch`]: how a call of the guest into the host is answered.
//! - [`calls`]: what is remembered, refused and reported of such calls.
//! - [`watchdog`]: interrupting a guest that has run for too long.
//! - [`version`]: the API version of a mapping.
//! - [`failure`]: what is said when a run has to end.
//! - [`text`]: strings.
pub mod calls;
pub mod compiler;
pub mod dispatch;
pub mod failure;
pub mod imports;
pub mod instance;
pub mod linker;
pub mod plan;
pub mod slot;
pub mod start;
pub mod text;
pub mod version;
pub mod watchdog;
