//! Double opt-in newsletter subscriptions and authenticated broadcasts.

pub mod configuration;
pub mod credentials;
pub mod email;
pub mod errors;
pub mod new_subscriber;
pub mod newsletters;
pub mod subscriber_email;
pub mod subscriber_name;
pub mod subscriptions;
pub mod subscriptions_confirm;
pub mod text;
