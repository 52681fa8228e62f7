//! A session daemon for privilege escalation and the logic around it.
//!
//! The daemon authenticates once, then runs many commands for one user over
//! a local socket. This crate holds its decisions: the messages and their
//! framing (`protocol`, `framing`), the per-connection state machine
//! (`connection`), the accept loop and parent supervision (`daemon`), the
//! exit codes of reaped children (`status`), the client's handling of replies
//! and its command line (`client`, `environment`), and the launch of the
//! daemon (`launch`, `paths`). The application's side is here too: the
//! commands it hands to its task runner (`command`), its environment cache
//! (`config`), its system checks (`system_check`) and the cleaning of command
//! output (`ansi`). Reading and writing sockets, terminals and files is left
//! to the caller, which feeds the results to these functions.

pub mod status;
pub mod text;
pub mod protocol;
pub mod framing;
pub mod connection;
pub mod daemon;
pub mod paths;
pub mod environment;
pub mod client;
pub mod launch;
pub mod command;
pub mod config;
pub mod system_check;
pub mod ansi;
