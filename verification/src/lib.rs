//! A transport-free core for a client of the Pocket read-it-later service.
//!
//! The crate decides everything about a conversation with the service except
//! the sending itself: which parameters a call puts on the wire, which state
//! the authorization handshake is in and what it asks for next, how an HTTP
//! status is classified, which record the body of an answer stands for, and
//! how the two shapes of a "modify" answer collapse into one. A caller
//! performs the requests that the crate describes and hands the answers back.
//!
//! JSON is parsed by `serde_json`, and a decoded value is read through
//! `serde_json`'s own accessors; the module [`json`] lists what is taken on
//! trust from it. Everything else is proved.

pub mod client;
pub mod decode;
pub mod ext;
pub mod guarantees;
pub mod handshake;
pub mod json;
pub mod request;
pub mod wire;

pub use client::GetPocket;
pub use client::RecordItemContentType;
pub use client::RecordItemDetailType;
pub use client::RecordItemFavorite;
pub use client::RecordItemSort;
pub use client::RecordItemState;
pub use client::RecordItemTag;
pub use ext::adding;
pub use ext::modifying;
pub use ext::retrieving;
pub use request::ApiRequestError;
pub use request::StatusOutcome;
