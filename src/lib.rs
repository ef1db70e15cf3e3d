//! A programmable stub-server engine: a registry that maps ports to live
//! listeners serving declared routes, with the single-fire rendezvous used to
//! learn whether a freshly spawned listener bound its port.
pub mod assoc;
pub mod error;
pub mod lock;
pub mod method;
pub mod notifier;
pub mod registration;
pub mod registry;
pub mod route;
pub mod server;

