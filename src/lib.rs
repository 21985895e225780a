//! A video filter that turns packed blue/green/red frames into grayscale,
//! together with the capability negotiation and buffer sizing around it.
//!
//! Beside it stand a few small containers and the framing codec of a message
//! broker client.
pub mod caps;
pub mod codec;
pub mod deque;
pub mod element;
pub mod frame;
pub mod layout;
pub mod luma;
pub mod stack;
