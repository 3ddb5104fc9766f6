//! A long-polling client core for a bot messaging API.
//!
//! The library holds the logic of the client: how a request is addressed and
//! encoded, how the service's reply envelope is judged, how an outbound reply is
//! shaped, and how the poll loop advances its update cursor from cycle to cycle.
//! Network I/O, timers and the background task are left to the caller.
pub mod json;
pub mod payload;
pub mod poll;
pub mod transport;

pub use payload::{payload_json, reply_payloads, resp_json, Field, FieldValue, Response};
pub use poll::{update_head, Cycle, CycleFailure, Poller, UpdateHead, CYCLE_DEADLINE_SECS};
pub use transport::{api_url, decode_reply, interpret_envelope, request_body, update_list, ApiError};
