//! A session-authenticated, feed-driven action dispatcher.
//!
//! The crate models an agent that logs into a content platform, fetches a
//! sorted page of items from a named collection, and applies one configured
//! action to each item in order.  The decision logic — which call to make
//! next, and how to react to each outcome — lives here as a verified state
//! machine; the network calls themselves are performed by the surrounding
//! program, which drives the machine one event at a time.

pub mod command;
pub mod creds;
pub mod dispatch;
pub mod feed;
pub mod laws;
pub mod sort;

pub use command::Command;
pub use command::Provide;
pub use creds::Login;
pub use creds::LoginUser;
pub use dispatch::Action;
pub use dispatch::Dispatcher;
pub use dispatch::Event;
pub use dispatch::RunError;
pub use dispatch::State;
pub use feed::extract_ids;
pub use feed::FetchedItem;
pub use sort::ParseError;
pub use sort::RedditSort;
