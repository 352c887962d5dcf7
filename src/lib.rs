//! A fixed-size worker pool's dispatch protocol: a first-in first-out job queue with a
//! one-way close, workers that claim, run and report jobs, and an idempotent teardown.
//! The types are generic over the job, so any runtime can drive them from its own threads.

pub mod error;
pub mod queue;
pub mod pool;
pub mod worker;

pub use error::PoolCreationError;
pub use queue::{JobQueue, QueueView, Recv};
pub use worker::{Worker, WorkerState};
pub use pool::{
    lemma_claim_order, lemma_drained, lemma_shutdown_idempotent, Dispatch, PoolView, ThreadPool,
};
