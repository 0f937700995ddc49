//! Decisions of a multi-listener service supervisor: which listeners start and
//! where, how the HTTP listener is assembled, how the supervisor races its
//! running units, and how a listener reacts to the shutdown signal.
pub mod launch;
pub mod listeners;
pub mod race;
pub mod servers;
pub mod settings;
pub mod shutdown;
