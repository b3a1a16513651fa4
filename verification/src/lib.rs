//! A platform-abstraction layer: one capability contract that lets generic
//! implementations of core runtime primitives (native string handling,
//! buffered reads, mutexes, filesystem operations) run unmodified over any
//! conforming backend, with the backend resolved at compile time.
//!
//! The crate has three pieces with real algorithmic content:
//!
//! * the native/portable string bridge ([`os_str`]): an owned + borrowed
//!   string pair that carries text in the backend's native representation
//!   and converts to and from validated Unicode strings;
//! * the adaptive read engine ([`io`]): a generic algorithm that drains a
//!   chunked byte source to completion into a growable buffer;
//! * the capability contract itself ([`traits`]): the associated types and
//!   functions a backend must supply, consumed generically by everything
//!   else.
//!
//! The C-ABI-width type aliases ([`raw`]) and the duration type the clock
//! capabilities use ([`time`]) round out the surface.

pub mod io;
pub mod os_str;
pub mod raw;
pub mod time;
pub mod traits;
