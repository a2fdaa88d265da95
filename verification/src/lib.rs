//! The core of an accept server built on a kernel completion queue.
//!
//! Every operation handed to the kernel carries a 64-bit identifier, and the
//! kernel gives that identifier back when the operation has finished. The
//! engine packs a category and a resource index into it (`token`), keeps the
//! listening sockets at stable indices (`registry`), keeps the operations it
//! has prepared for the next submit call (`queue`), and decides on every
//! completion what is prepared and submitted next (`paradise`).
//!
//! The crate performs no I/O. Whoever drives it opens the sockets, fills
//! and drains the kernel queue, and calls in with plain values.

pub mod error;
pub mod paradise;
pub mod queue;
pub mod registry;
pub mod token;
