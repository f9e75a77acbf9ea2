//! Runtime core for a microkernel console: result codes, kernel-object
//! handles, the IPC command-buffer protocol, the system-call register
//! conventions, the shared-memory address allocator and kernel-backed
//! synchronization.
pub mod result;
pub mod handle;
pub mod ipc;
pub mod request;
pub mod reply;
pub mod mem;
pub mod svc;
pub mod sharedmem;
pub mod sync;
pub mod srv;
pub mod ac;
pub mod cfg;
pub mod reslimit;
pub mod errf;
pub mod soc;
pub mod gsp;
pub mod hid;
pub mod debug;
pub mod thread;
pub mod tls;
pub mod env;
pub mod graphics;
