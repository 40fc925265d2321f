//! File indexing: walking a directory tree, hashing file contents with SHA-256
//! and recording what was found in a database.
//!
//! The library holds the decisions of that work, each with a contract; the
//! reading of directories and files, the threads and the database connection
//! are driven by the program in `app/`.
pub mod platform;
pub mod digest;
pub mod walk;
pub mod entry;
pub mod store;
pub mod pipeline;
pub mod shared_channel;
pub mod parallel;
pub mod cli;
pub mod logging;
