//! Saturn: the decision logic of a distributed delayed job scheduler.
//!
//! The services (API, scheduler, workers, sweepers) talk to PostgreSQL and
//! Redis; this library holds everything they decide between those calls:
//! when a request is accepted, how submissions are batched, which sorted-set
//! entries the scheduler may drop, what a worker does with each outcome, and
//! the rules of the job row that every conditional UPDATE follows.

pub mod text;
pub mod time;
pub mod jobs;
pub mod batch;
pub mod lifecycle;
pub mod error;
pub mod json;
pub mod worker;
pub mod stream;
pub mod scheduler;
pub mod recovery;
pub mod config;
