//! Virtual machines that hold and run eBPF programs.
//!
//! Four kinds of machine differ in the memory that a program gets to see:
//!
//! - [`EbpfVmMbuff`]: packet data and a metadata buffer, both given by the caller;
//! - [`EbpfVmFixedMbuff`]: packet data, and a metadata buffer that the machine keeps
//!   itself, with the addresses of the packet written into it before each run;
//! - [`EbpfVmRaw`]: packet data only;
//! - [`EbpfVmNoData`]: no memory at all.
//!
//! A machine decides which program is loaded, which verifier has to accept it, which
//! helpers it may call and what memory it is handed. What an instruction means is up to
//! the [`Engine`] that the machine is built on.
pub mod engine;
pub mod error;
pub mod fixed;
pub mod laws;
pub mod layout;
pub mod mbuff;
pub mod metabuff;
pub mod nodata;
mod outside;
pub mod raw;
pub mod state;

pub use engine::Engine;
pub use error::{Error, ErrorKind};
pub use fixed::EbpfVmFixedMbuff;
pub use mbuff::EbpfVmMbuff;
pub use metabuff::MetaBuff;
pub use nodata::EbpfVmNoData;
pub use raw::EbpfVmRaw;
