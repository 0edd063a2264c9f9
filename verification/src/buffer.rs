//! Reusable byte buffers handed out by a tiered, budget-bounded pool.
pub mod pool;

pub use pool::Buffer;
pub use pool::BufferConfig;
pub use pool::BufferPool;
