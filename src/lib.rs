pub mod laws;
pub mod model;
pub mod my_atomic_queue;

pub use model::QueueView;
pub use my_atomic_queue::MyAtomicQueue;
