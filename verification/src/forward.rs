//! Port forwarding: which of the five topologies a set of addresses selects,
//! and what the caller has to bind, dial and couple for it.

use crate::ConfigError;
use vstd::prelude::*;

verus! {

/// The configuration of the forward role.
pub struct Forward {
    pub local_addrs: Vec<String>,
    pub remote_addrs: Vec<String>,
    pub local_opts: Vec<bool>,
    pub remote_opts: Vec<bool>,
    pub socket: Option<String>,
    pub udp: bool,
}

/// The shape of a forward: what stands on either side of the pipe.
#[derive(Clone, Copy, Debug, PartialEq, Eq, Structural)]
pub enum Topology {
    /// Two listeners; one accepted connection of each makes a pair.
    LocalToLocal,
    /// A listener and a target that is dialled for each accepted connection.
    LocalToRemote,
    /// Two targets, both dialled.
    RemoteToRemote,
    /// A listener and a Unix socket that is dialled.
    SocketToLocal,
    /// A Unix socket and a target, both dialled.
    SocketToRemote,
}

/// A TCP address together with its TLS flag: on a listener the flag asks to
/// terminate TLS, on a target to initiate it.
#[derive(Debug, PartialEq, Eq)]
pub struct Endpoint {
    pub addr: String,
    pub tls: bool,
}

/// What the caller has to run.
#[derive(Debug, PartialEq, Eq)]
pub enum ForwardPlan {
    LocalToLocalTcp { first: Endpoint, second: Endpoint },
    LocalToRemoteTcp { local: Endpoint, remote: Endpoint },
    RemoteToRemoteTcp { first: Endpoint, second: Endpoint },
    SocketToLocalTcp { socket: String, local: Endpoint },
    SocketToRemoteTcp { socket: String, remote: Endpoint },
    LocalToLocalUdp { first_addr: String, second_addr: String },
    LocalToRemoteUdp { local_addr: String, remote_addr: String },
    RemoteToRemoteUdp { first_addr: String, second_addr: String },
}

impl Forward {
    /// A configuration that holds the given values as they are.
    pub fn new(
        local_addrs: Vec<String>,
        remote_addrs: Vec<String>,
        local_opts: Vec<bool>,
        remote_opts: Vec<bool>,
        socket: Option<String>,
        udp: bool,
    ) -> (forward: Self)
        ensures
            forward.local_addrs == local_addrs,
            forward.remote_addrs == remote_addrs,
            forward.local_opts == local_opts,
            forward.remote_opts == remote_opts,
            forward.socket == socket,
            forward.udp == udp,
    {
        Forward { local_addrs, remote_addrs, local_opts, remote_opts, socket, udp }
    }

    /// The topology that the numbers of local and remote addresses and the
    /// presence of a Unix socket select, if any.
    pub open spec fn topology_of(&self) -> Option<Topology> {
        let locals = self.local_addrs@.len();
        let remotes = self.remote_addrs@.len();
        if self.socket is None {
            if locals == 2 && remotes == 0 {
                Some(Topology::LocalToLocal)
            } else if locals == 1 && remotes == 1 {
                Some(Topology::LocalToRemote)
            } else if locals == 0 && remotes == 2 {
                Some(Topology::RemoteToRemote)
            } else {
                None
            }
        } else {
            if locals == 1 && remotes == 0 {
                Some(Topology::SocketToLocal)
            } else if locals == 0 && remotes == 1 {
                Some(Topology::SocketToRemote)
            } else {
                None
            }
        }
    }

    /// Whether every address that the selected topology wraps has its TLS
    /// flag. UDP flows read no flag; a Unix socket is always coupled over TCP.
    pub open spec fn flags_present(&self) -> bool {
        match self.topology_of() {
            None => true,
            Some(Topology::LocalToLocal) => self.udp || self.local_opts@.len() >= 2,
            Some(Topology::LocalToRemote) => self.udp || (self.local_opts@.len() >= 1
                && self.remote_opts@.len() >= 1),
            Some(Topology::RemoteToRemote) => self.udp || self.remote_opts@.len() >= 2,
            Some(Topology::SocketToLocal) => self.local_opts@.len() >= 1,
            Some(Topology::SocketToRemote) => self.remote_opts@.len() >= 1,
        }
    }

    /// The local endpoint at a position.
    pub open spec fn local_at(&self, i: int) -> Endpoint {
        Endpoint { addr: self.local_addrs@[i], tls: self.local_opts@[i] }
    }

    /// The remote endpoint at a position.
    pub open spec fn remote_at(&self, i: int) -> Endpoint {
        Endpoint { addr: self.remote_addrs@[i], tls: self.remote_opts@[i] }
    }

    /// What is to be run for this configuration, or the error that rejects it.
    pub open spec fn plan_of(&self) -> Result<ForwardPlan, ConfigError> {
        match self.topology_of() {
            None => Err(ConfigError::InvalidForwardParameters),
            Some(Topology::LocalToLocal) => Ok(
                if self.udp {
                    ForwardPlan::LocalToLocalUdp {
                        first_addr: self.local_addrs@[0],
                        second_addr: self.local_addrs@[1],
                    }
                } else {
                    ForwardPlan::LocalToLocalTcp {
                        first: self.local_at(0),
                        second: self.local_at(1),
                    }
                },
            ),
            Some(Topology::LocalToRemote) => Ok(
                if self.udp {
                    ForwardPlan::LocalToRemoteUdp {
                        local_addr: self.local_addrs@[0],
                        remote_addr: self.remote_addrs@[0],
                    }
                } else {
                    ForwardPlan::LocalToRemoteTcp {
                        local: self.local_at(0),
                        remote: self.remote_at(0),
                    }
                },
            ),
            Some(Topology::RemoteToRemote) => Ok(
                if self.udp {
                    ForwardPlan::RemoteToRemoteUdp {
                        first_addr: self.remote_addrs@[0],
                        second_addr: self.remote_addrs@[1],
                    }
                } else {
                    ForwardPlan::RemoteToRemoteTcp {
                        first: self.remote_at(0),
                        second: self.remote_at(1),
                    }
                },
            ),
            Some(Topology::SocketToLocal) => Ok(
                ForwardPlan::SocketToLocalTcp {
                    socket: self.socket->Some_0,
                    local: self.local_at(0),
                },
            ),
            Some(Topology::SocketToRemote) => Ok(
                ForwardPlan::SocketToRemoteTcp {
                    socket: self.socket->Some_0,
                    remote: self.remote_at(0),
                },
            ),
        }
    }

    /// Selects the topology, or rejects the combination of addresses.
    pub fn topology(&self) -> (chosen: Result<Topology, ConfigError>)
        ensures
            chosen == match self.topology_of() {
                Some(topology) => Ok::<Topology, ConfigError>(topology),
                None => Err(ConfigError::InvalidForwardParameters),
            },
    {
        let locals = self.local_addrs.len();
        let remotes = self.remote_addrs.len();
        if self.socket.is_none() {
            if locals == 2 && remotes == 0 {
                Ok(Topology::LocalToLocal)
            } else if locals == 1 && remotes == 1 {
                Ok(Topology::LocalToRemote)
            } else if locals == 0 && remotes == 2 {
                Ok(Topology::RemoteToRemote)
            } else {
                Err(ConfigError::InvalidForwardParameters)
            }
        } else {
            if locals == 1 && remotes == 0 {
                Ok(Topology::SocketToLocal)
            } else if locals == 0 && remotes == 1 {
                Ok(Topology::SocketToRemote)
            } else {
                Err(ConfigError::InvalidForwardParameters)
            }
        }
    }

    /// Whether `plan` may be called: every TLS flag that it reads is there.
    pub fn has_flags(&self) -> (present: bool)
        ensures
            present == self.flags_present(),
    {
        match self.topology() {
            Err(_) => true,
            Ok(Topology::LocalToLocal) => self.udp || self.local_opts.len() >= 2,
            Ok(Topology::LocalToRemote) => self.udp || (self.local_opts.len() >= 1
                && self.remote_opts.len() >= 1),
            Ok(Topology::RemoteToRemote) => self.udp || self.remote_opts.len() >= 2,
            Ok(Topology::SocketToLocal) => self.local_opts.len() >= 1,
            Ok(Topology::SocketToRemote) => self.remote_opts.len() >= 1,
        }
    }

    fn local(&self, i: usize) -> (endpoint: Endpoint)
        requires
            i < self.local_addrs@.len(),
            i < self.local_opts@.len(),
        ensures
            endpoint == self.local_at(i as int),
    {
        Endpoint { addr: self.local_addrs[i].clone(), tls: self.local_opts[i] }
    }

    fn remote(&self, i: usize) -> (endpoint: Endpoint)
        requires
            i < self.remote_addrs@.len(),
            i < self.remote_opts@.len(),
        ensures
            endpoint == self.remote_at(i as int),
    {
        Endpoint { addr: self.remote_addrs[i].clone(), tls: self.remote_opts[i] }
    }

    /// What is to be run: the topology with its addresses and TLS flags, over
    /// UDP where that was asked for and no Unix socket is involved. Any
    /// combination outside the five topologies is rejected.
    pub fn plan(&self) -> (plan: Result<ForwardPlan, ConfigError>)
        requires
            self.flags_present(),
        ensures
            plan == self.plan_of(),
    {
        match self.topology() {
            Err(error) => Err(error),
            Ok(Topology::LocalToLocal) => {
                if self.udp {
                    Ok(
                        ForwardPlan::LocalToLocalUdp {
                            first_addr: self.local_addrs[0].clone(),
                            second_addr: self.local_addrs[1].clone(),
                        },
                    )
                } else {
                    Ok(ForwardPlan::LocalToLocalTcp { first: self.local(0), second: self.local(1) })
                }
            },
            Ok(Topology::LocalToRemote) => {
                if self.udp {
                    Ok(
                        ForwardPlan::LocalToRemoteUdp {
                            local_addr: self.local_addrs[0].clone(),
                            remote_addr: self.remote_addrs[0].clone(),
                        },
                    )
                } else {
                    Ok(
                        ForwardPlan::LocalToRemoteTcp {
                            local: self.local(0),
                            remote: self.remote(0),
                        },
                    )
                }
            },
            Ok(Topology::RemoteToRemote) => {
                if self.udp {
                    Ok(
                        ForwardPlan::RemoteToRemoteUdp {
                            first_addr: self.remote_addrs[0].clone(),
                            second_addr: self.remote_addrs[1].clone(),
                        },
                    )
                } else {
                    Ok(
                        ForwardPlan::RemoteToRemoteTcp {
                            first: self.remote(0),
                            second: self.remote(1),
                        },
                    )
                }
            },
            Ok(Topology::SocketToLocal) => {
                match &self.socket {
                    Some(path) => Ok(
                        ForwardPlan::SocketToLocalTcp { socket: path.clone(), local: self.local(0) },
                    ),
                    None => Err(ConfigError::InvalidForwardParameters),
                }
            },
            Ok(Topology::SocketToRemote) => {
                match &self.socket {
                    Some(path) => Ok(
                        ForwardPlan::SocketToRemoteTcp {
                            socket: path.clone(),
                            remote: self.remote(0),
                        },
                    ),
                    None => Err(ConfigError::InvalidForwardParameters),
                }
            },
        }
    }
}

impl ForwardPlan {
    /// Whether the number of pipes that run at once is capped: so it is where
    /// both sides are dialled, since nothing but the cap paces the dialling.
    pub open spec fn is_capped(&self) -> bool {
        self is RemoteToRemoteTcp || self is SocketToRemoteTcp
    }

    /// Whether the pipes of this plan run under the concurrency cap.
    pub fn capped(&self) -> (capped: bool)
        ensures
            capped == self.is_capped(),
    {
        match self {
            ForwardPlan::RemoteToRemoteTcp { .. } => true,
            ForwardPlan::SocketToRemoteTcp { .. } => true,
            _ => false,
        }
    }
}

} // verus!
