//! A fixed-size pool of worker threads fed through one shared job queue.
//!
//! The library holds the pool's logic: the job queue with exactly-once,
//! first-in first-out delivery and a close that still drains what waits
//! (`queue`), the bookkeeping of the workers from construction to the
//! ordered joins of teardown (`pool`), the error types (`errors`), and the
//! routing and answer format of the small web server built on it (`http`).
//! The threads, the lock and the wake-ups around the queue are the caller's.
pub mod errors;
pub mod http;
pub mod pool;
pub mod queue;
