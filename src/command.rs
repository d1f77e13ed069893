//! The control-plane commands that a synthesized batch is made of.

use vstd::prelude::*;

verus! {

/// An IPv4 address and a port.
#[derive(Clone, Copy, Debug, PartialEq, Eq)]
pub struct SocketAddress {
    pub ip: [u8; 4],
    pub port: u16,
}

impl SocketAddress {
    /// The port lies above the privileged range.
    pub open spec fn valid(&self) -> bool {
        self.port >= 1025
    }
}

/// The kind of a command, which labels its counter.
#[derive(Clone, Copy, Debug, PartialEq, Eq, Structural)]
pub enum CommandKind {
    AddCluster,
    AddHttpListener,
    AddHttpFrontend,
    AddBackend,
}

/// A configuration change sent to the control plane.
#[derive(Clone, Debug, PartialEq, Eq)]
pub enum Command {
    AddCluster { cluster_id: String },
    AddHttpListener { address: SocketAddress },
    AddHttpFrontend { cluster_id: String, address: SocketAddress, hostname: String },
    AddBackend { cluster_id: String, backend_id: String, address: SocketAddress },
}

/// A command as it travels: a request may be untyped.
#[derive(Clone, Debug, PartialEq, Eq)]
pub struct Request {
    pub request_type: Option<Command>,
}

impl Command {
    pub open spec fn spec_kind(&self) -> CommandKind {
        match self {
            Command::AddCluster { .. } => CommandKind::AddCluster,
            Command::AddHttpListener { .. } => CommandKind::AddHttpListener,
            Command::AddHttpFrontend { .. } => CommandKind::AddHttpFrontend,
            Command::AddBackend { .. } => CommandKind::AddBackend,
        }
    }

    /// The cluster that the command refers to; a listener refers to none.
    pub open spec fn spec_cluster_id(&self) -> Option<Seq<char>> {
        match self {
            Command::AddCluster { cluster_id } => Some(cluster_id@),
            Command::AddHttpListener { .. } => None,
            Command::AddHttpFrontend { cluster_id, .. } => Some(cluster_id@),
            Command::AddBackend { cluster_id, .. } => Some(cluster_id@),
        }
    }

    /// The kind of this command.
    pub fn kind(&self) -> (k: CommandKind)
        ensures
            k == self.spec_kind(),
    {
        match self {
            Command::AddCluster { .. } => CommandKind::AddCluster,
            Command::AddHttpListener { .. } => CommandKind::AddHttpListener,
            Command::AddHttpFrontend { .. } => CommandKind::AddHttpFrontend,
            Command::AddBackend { .. } => CommandKind::AddBackend,
        }
    }
}

impl Request {
    /// The kind of the request's command, if it has one.
    pub open spec fn spec_kind(&self) -> Option<CommandKind> {
        match self.request_type {
            Some(c) => Some(c.spec_kind()),
            None => None,
        }
    }
}

} // verus!
