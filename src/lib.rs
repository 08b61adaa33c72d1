//! Resolution of the CDS language-server executable.
//!
//! The decision procedure lives in [`resolver::Resolver`], a state machine
//! that never touches the file system or the network itself: each step hands
//! back an [`protocol::Action`] naming one probe or registry operation, and
//! the host answers it with an [`protocol::Event`].

pub mod laws;
pub mod protocol;
pub mod resolver;
