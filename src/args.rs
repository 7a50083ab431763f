use vstd::prelude::*;

verus! {

/// Parsed command line of the transfer tool.
pub struct CliArgs {
    pub command: Command,
}

/// The two user-facing subcommands.
pub enum Command {
    Receive(ReceiveArgs),
    Send(SendArgs),
}

/// Arguments of `send <ip> <port> <path>`.
pub struct SendArgs {
    /// Destination IP address.
    pub ip: String,
    /// Destination port.
    pub port: u16,
    /// File or folder to transfer.
    pub path: String,
}

/// Arguments of `receive [--port <p>] <path>`; a port of 0 asks the OS for one.
pub struct ReceiveArgs {
    pub port: u16,
    /// Output destination.
    pub path: String,
}

} // verus!
