/// A one-time event channel: an exclusive trigger/waiter pair.
pub mod once;
