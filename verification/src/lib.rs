//! Client-side runtime of a request/response and event protocol that brokers
//! commands between host applications and actuator devices.
//!
//! The crate holds the decision logic of the client: the message sorter that
//! pairs replies with requests, the event loop step functions, the client
//! facade state, the keepalive logic of the websocket server transport and the
//! endpoint table of the Bluetooth LE device adaptor. Every step is a function
//! from state and event to next state and actions; performing the actions is
//! left to the caller.

pub mod endpoint;
pub mod errors;
pub mod messages;
pub mod sorter;
pub mod device;
pub mod registry;
pub mod client_event_loop;
pub mod websocket_server;
pub mod btleplug_device_impl;
pub mod client;
