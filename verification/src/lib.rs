//! A verified model of a minimal tweet service: a single table of tweets
//! (id, message, creation timestamp) with create, list, get-by-id, update
//! and delete operations, each specified by an exact contract.

mod clock;
pub mod laws;
pub mod store;
pub mod timestamp;
pub mod tweet;

pub use store::TweetStore;
pub use timestamp::Timestamp;
pub use tweet::StorageError;
pub use tweet::Tweet;
pub use tweet::TweetPayload;
