//! Connection, credential and terminal-helper logic of the Sheil SSH client.
use vstd::prelude::*;

pub mod text;
pub mod sorting;
pub mod command_text;
pub mod json;
pub mod hosts;
pub mod snippets;
pub mod crypto;
pub mod ssh;
pub mod credentials;
pub mod port_forward;
pub mod time;
pub mod sftp;
pub mod settings;
pub mod ai;
pub mod keystore;
pub mod db;

verus! {

/// The key that seals stored secrets, held as shared state by the app.
pub struct MasterKey(pub [u8; 32]);

} // verus!
