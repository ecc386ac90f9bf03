//! Elementwise binary operations on device tensors: building the kernel
//! definitions of an operation and deciding, at launch time, which of them
//! runs and where its result is written.
//!
//! [`kernel`] builds the three kernels of an operation, which differ only in
//! the buffer that they write to. [`dispatch`] picks one of them for a pair of
//! tensors, reusing the buffer of an operand where that is safe and describing
//! a new output where it is not. [`shape`] holds the arithmetic of shapes that
//! both rest on, and [`ir`] what is taken on trust from `cubecl`.

pub mod dispatch;
pub mod ir;
pub mod kernel;
pub mod shape;

pub use dispatch::{binary, try_binary, CountSettings, Launch, TensorMeta};
pub use kernel::{assemble, compile, BuildError, InplaceMapping, KernelVariant};
