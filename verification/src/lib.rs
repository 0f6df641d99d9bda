//! Decision logic for a tool that opens a pull request from the current
//! branch: it verifies that the working tree is clean, sees to it that the
//! remote has the branch, collects the changes, asks a completion endpoint to
//! describe them, and hands the description to the hosting platform.
//!
//! Nothing here runs a process or opens a connection. The run is a state
//! machine ([`orchestrator`]): a driver performs each action that the machine
//! asks for and reports the outcome as the next event. The other modules hold
//! what the machine decides with: the meaning of the repository's answers
//! ([`probe`]), the request for the description ([`describe`]), the pull
//! request and the judgement of the platform's answer ([`publish`]), and the
//! failures with their messages and exit statuses ([`error`]). What holds of
//! every run is stated and proved in [`trace`].

pub mod config;
pub mod decode;
pub mod describe;
pub mod error;
pub mod orchestrator;
pub mod probe;
pub mod progress;
pub mod publish;
pub mod text;
pub mod trace;
