//! Moving Steam Workshop subscriptions from one account to another: the
//! listing of what an account is subscribed to, the requests that subscribe
//! another account to it, and the order in which a run performs them.

pub mod config;
pub mod decimal;
pub mod lister;
pub mod page;
pub mod request;
pub mod session;
pub mod subscriber;
