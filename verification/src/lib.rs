//! Boot-sequencing and process-orchestration library for a single-purpose
//! kiosk device.
//!
//! The library holds the logic of the orchestrator: tokenizing operator
//! command lines, qualifying command names against the default binary
//! directory, fixing the environment handed to every subprocess, and the
//! event-driven boot sequence (filesystem bring-up, background sync daemon,
//! stream redirection, application launch, operator console).  All
//! interaction with the operating system — spawning processes, forking,
//! duplicating file descriptors, opening devices — is performed by a thin
//! driver outside this library, which feeds the observed outcomes back in
//! as plain events.

pub mod boot;
pub mod command;
pub mod text;
