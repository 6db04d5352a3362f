//! A client core for the Porkbun DNS API: the wire protocol, typed records
//! and the rule that keeps a published address equal to the observed one.
//! Nothing here touches the network; a caller sends each request that the
//! library builds and hands the reply back.
//!
//! - [`client`] holds the keys of an account, builds the request of each
//!   operation and reads its reply.
//! - [`codec`] takes a reply apart into envelope and payload, and puts the
//!   body of a signed request together; [`json`] is where JSON text is
//!   read and written, by `serde_json`.
//! - [`record`] has the records that the provider lists; [`address`],
//!   [`ipv4`] and [`ipv6`] the addresses that they hold, with their text.
//! - [`reconcile`] decides whether a name needs an update, and [`update`]
//!   runs one update step by step.
//! - [`error`] lists what can go wrong, and [`text`] has the helpers on
//!   characters that the rest shares.
//!
//! Every function states what it returns in its contract, over the
//! mathematical view of its arguments, and the contracts are proved.

pub mod address;
pub mod client;
pub mod codec;
pub mod error;
pub mod ipv4;
pub mod ipv6;
pub mod json;
pub mod reconcile;
pub mod record;
pub mod text;
pub mod update;

pub use crate::client::Client;
pub use crate::error::Error;
pub use crate::record::{DnsRecord, Ipv4Record, Ipv6Record, RecordType, Status};
