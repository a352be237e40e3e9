//! Client side of a real-time chat gateway: envelope decoding, event
//! discrimination, session bookkeeping, heartbeat scheduling and the
//! application-facing event queue, together with the data model the events
//! carry and the REST endpoints and decisions that go with it.
pub mod json;
pub mod model;
pub mod user;
pub mod guild;
pub mod voice;
pub mod permission_bit_flag;
pub mod permissions;
pub mod channel;
pub mod message;
pub mod opcode;
pub mod error;
pub mod dispatched_event;
pub mod events;
pub mod outbound;
pub mod queue;
pub mod heartbeat;
pub mod session;
pub mod endpoints;
pub mod rest;
pub mod client;
pub mod user_structs;
pub mod util;
