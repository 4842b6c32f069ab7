//! In-process protection for secret values held in memory.
//!
//! Two independent components:
//!
//! * [`SecKey`](seckey::SecKey): a container that keeps a single value in
//!   permission-guarded storage and hands out counted borrow guards; the
//!   page permission is `NoAccess` exactly while no guard is live.
//! * [`Bytes`](bytes::Bytes): a transient byte buffer for exposed secret
//!   material, compared in constant time and rendered masked.

pub mod bytes;
pub mod seckey;

pub use bytes::Bytes;
pub use seckey::{Prot, SecKey, SecReadGuard, SecWriteGuard};
