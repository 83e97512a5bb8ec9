//! Client-side manager for WebPush-style subscriptions.
//!
//! A push-relay service and a native push transport deliver the messages.
//! This library manages what an installation holds of its subscriptions:
//! for each channel a unique id, the endpoint that the relay gave it, and
//! the key material that messages to it are encrypted with; and one
//! connection identity, under which the relay knows the installation.
//!
//! The library performs no I/O. [`PushManager`] decides, step by step, what
//! has to be asked of the relay, of the record store and of the key
//! generator, and takes what they answer: see [`protocol`]. The function
//! from state and answer to next state and request is written down in
//! [`machine`], and [`laws`] holds what is proved of it.
//!
//! [`bridged_engine`] holds the envelopes that a bridged sync engine takes
//! in and hands out.

pub mod bridged_engine;
pub mod error;
pub mod laws;
pub mod machine;
pub mod manager;
pub mod protocol;
pub mod record;
pub mod store;

pub use error::{FailureClass, PushError};
pub use manager::{PushConfiguration, PushManager, StoredState};
pub use record::{
    DispatchInfo, KeyInfo, PushSubscriptionChanged, SubscriptionInfo, SubscriptionResponse,
};
