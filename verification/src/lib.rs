//! Client-side task-acquisition and workflow-driving core.
//!
//! Two independent components, each generic over the unit of work it carries:
//!
//! - [`poll_buffer`]: the coordination state of a demand-gated concurrent
//!   long-poll buffer. Up to K poller loops run against an injected poll
//!   operation, but a poll is attempted only when a caller has explicitly
//!   asked for one, and completed results are buffered for pickup.
//! - [`driven_workflow`]: one workflow execution's pending inbound jobs and
//!   its pass-through for collecting the commands its backend produced.
//!
//! The asynchronous plumbing (task spawning, channel waits, joining) lives
//! outside this crate; every decision it takes goes through the contracts
//! stated here.

pub mod driven_workflow;
pub mod poll_buffer;
