//! Executes chains of processes whose standard streams are connected like a
//! shell pipeline (`cmd1 | cmd2 | ... | cmdN`).
//!
//! The library holds the decisions of the pipeline executor as verified code:
//! the chain description and its builders, the bookkeeping of each pipe's two
//! ends, the order of the steps that launch the stages, and the wait/poll engine
//! that finalizes process states. The system calls themselves are performed by
//! the caller, which hands the library plain values (descriptors, process ids,
//! raw status words) and gets back the operations to perform.

pub mod data;
pub mod pipe;
pub mod wait;
pub mod launch;

pub use crate::launch::{ChildOp, LaunchStep, Launcher};
pub use crate::wait::{exited_normally, pending_indices, update_process_states, ChainError, WaitOutcome};
pub use crate::pipe::{FdOp, Pipe, PipeEnd};
pub use crate::data::{
    BasicCmd, BasicCmdBuilder, Builder, CmdChain, CmdChainBuilder, ProcessState,
};
