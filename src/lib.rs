//! Client-side logic for delivering push notifications to the Apple push
//! gateway: the signed-token cache, the mapping of a notification onto the
//! gateway's request, and the classification of the gateway's answer.
pub mod client;
pub mod error;
pub mod request;
pub mod response;
pub mod signer;
pub mod token;

pub use client::ApplePushClient;
pub use error::{ApiError, SendError};
pub use request::{Notification, Priority, PushRequest};
