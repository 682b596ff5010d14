//! Client side of a small upload protocol: one request frame, one reply frame and,
//! once the server has agreed, one frame that carries a model file.
//!
//! The crate holds the rules of the exchange and proves them with Verus. It opens no
//! socket and reads no file: the caller carries out each [`exchange::Action`] and
//! hands back what happened as an [`exchange::Event`].

pub mod exchange;
pub mod form;
pub mod frame;
pub mod order;
pub mod text;
pub mod trace;
pub mod trust;
