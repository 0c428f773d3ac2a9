//! Markers that tell the values apart which a command handler may return.

use std::marker::PhantomData;

use vstd::prelude::*;

verus! {

/// One event.
pub struct Event;

/// Several events.
pub struct Events;

/// A job to kick off.
pub struct Kickoff<Index>(PhantomData<Index>);

/// The events of a settled job.
pub struct Settlement<Index>(PhantomData<Index>);

/// A job whose dispatch was guarded.
pub struct Guarded;

/// The entity's own error.
pub struct Failure;

} // verus!
