//! What the services' repositories compute before and after they talk to a
//! store.

pub mod event;
