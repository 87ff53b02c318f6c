pub mod intake;
pub mod laws;
pub mod thread_pool;
pub mod worker;
