//! A temporary, independently executable copy of the running program.
//!
//! The library resolves the path of the binary that is currently executing,
//! copies its bytes into a freshly created temporary directory, marks the
//! copy executable, and returns an owning [`Replicate`] handle.  Dropping the
//! handle deletes the copy and its directory.  The copy may carry either a
//! randomized filename (prefix plus random suffix) or the original binary's
//! own filename.

mod error;
mod pathname;
mod replica;
mod resolver;
mod stream;



pub use error::IoError;
pub use pathname::{file_name, join_path};
pub use stream::SourceFd;
pub use replica::{lemma_replica_mode_executable, Replicate, REPLICA_MODE};
pub use resolver::{exe, exe_path, platform_from_sysname, u64_to_decimal, virtual_self_path, Platform};


