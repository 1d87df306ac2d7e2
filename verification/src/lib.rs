//! A countdown engine: a validated tick schedule, the single-slot handshake
//! channel that carries each remaining-time value from the ticking producer
//! to its one observer, and the glyph fonts a display draws the values with.
//!
//! Everything here is a pure transition on plain values. Waiting (sleeping,
//! ticking, locking) is left to the caller: an operation that may have to
//! wait returns a step that says either what the result is or how long to
//! sleep before resuming it.

use vstd::prelude::*;

pub mod countdown;
pub mod text;
pub mod timer;
pub mod view;

verus! {

/// Any failure of the library.
#[derive(Debug, PartialEq, Eq, Clone, Copy)]
pub enum TomatilloError {
    CountdownError(crate::countdown::CountdownError),
    ChannelError(crate::countdown::ChannelError),
}

impl From<crate::countdown::CountdownError> for TomatilloError {
    fn from(e: crate::countdown::CountdownError) -> (r: Self) {
        TomatilloError::CountdownError(e)
    }
}

impl vstd::std_specs::convert::FromSpecImpl<crate::countdown::CountdownError> for TomatilloError {
    open spec fn obeys_from_spec() -> bool {
        true
    }

    open spec fn from_spec(e: crate::countdown::CountdownError) -> Self {
        TomatilloError::CountdownError(e)
    }
}

impl From<crate::countdown::ChannelError> for TomatilloError {
    fn from(e: crate::countdown::ChannelError) -> (r: Self) {
        TomatilloError::ChannelError(e)
    }
}

impl vstd::std_specs::convert::FromSpecImpl<crate::countdown::ChannelError> for TomatilloError {
    open spec fn obeys_from_spec() -> bool {
        true
    }

    open spec fn from_spec(e: crate::countdown::ChannelError) -> Self {
        TomatilloError::ChannelError(e)
    }
}
} // verus!
