//! Errors of the gateway.
use vstd::prelude::*;

verus! {

/// Why one inbound frame could not be turned into an event.
#[derive(Debug)]
pub enum GatewayError {
    Custom { text: String },
    /// The frame is not JSON, lacks a field the protocol requires, or a
    /// known event's body does not have the shape that event needs.
    DeserializeError { err: String },
    /// The event is one this client does not handle.
    UnwantedEventError { event_name: String },
}

impl GatewayError {
    /// A readable description of the error.
    pub fn describe(&self) -> (r: String)
        ensures
            r@ == match self {
                GatewayError::Custom { text } => "Custom: "@ + text@,
                GatewayError::DeserializeError { err } => "DeserializeError: "@ + err@,
                GatewayError::UnwantedEventError { event_name } => "UnwantedEventError: "@ + event_name@,
            },
    {
        match self {
            GatewayError::Custom { text } => {
                let mut out = String::from_str("Custom: ");
                out.append(text.as_str());
                out
            },
            GatewayError::DeserializeError { err } => {
                let mut out = String::from_str("DeserializeError: ");
                out.append(err.as_str());
                out
            },
            GatewayError::UnwantedEventError { event_name } => {
                let mut out = String::from_str("UnwantedEventError: ");
                out.append(event_name.as_str());
                out
            },
        }
    }
}

} // verus!
