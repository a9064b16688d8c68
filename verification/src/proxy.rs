//! The SOCKS5 proxy role: a plain server, a rendezvous server that couples a
//! control connection with a proxy connection, or a client that dials the
//! rendezvous server and answers SOCKS5 on each connection it gets.

use crate::forward::Endpoint;
use crate::socks::AuthInfo;
use crate::ConfigError;
use vstd::prelude::*;

verus! {

/// The configuration of the proxy role.
pub struct Proxy {
    pub local_addrs: Vec<String>,
    pub remote_addr: Option<String>,
    pub local_opts: Vec<bool>,
    pub remote_opt: bool,
    pub auth_info: Option<AuthInfo>,
}

/// The way the proxy runs.
#[derive(Clone, Copy, Debug, PartialEq, Eq, Structural)]
pub enum ProxyMode {
    /// A SOCKS5 server on one listener.
    Server,
    /// Two listeners, control and proxy, coupled pair by pair.
    ReverseServer,
    /// A responder on connections dialled to the rendezvous server.
    ReverseClient,
}

/// What the caller has to run.
#[derive(Debug, PartialEq, Eq)]
pub enum ProxyPlan {
    Server { listen: Endpoint, auth: Option<AuthInfo> },
    ReverseServer { control: Endpoint, proxy: Endpoint },
    ReverseClient { remote: Endpoint, auth: Option<AuthInfo> },
}

impl Proxy {
    /// A configuration that holds the given values as they are.
    pub fn new(
        local_addrs: Vec<String>,
        remote_addr: Option<String>,
        local_opts: Vec<bool>,
        remote_opt: bool,
        auth_info: Option<AuthInfo>,
    ) -> (proxy: Self)
        ensures
            proxy.local_addrs == local_addrs,
            proxy.remote_addr == remote_addr,
            proxy.local_opts == local_opts,
            proxy.remote_opt == remote_opt,
            proxy.auth_info == auth_info,
    {
        Proxy { local_addrs, remote_addr, local_opts, remote_opt, auth_info }
    }

    /// The mode that the number of local addresses and the presence of a
    /// remote address select, if any.
    pub open spec fn mode_of(&self) -> Option<ProxyMode> {
        let locals = self.local_addrs@.len();
        if self.remote_addr is None {
            if locals == 1 {
                Some(ProxyMode::Server)
            } else if locals == 2 {
                Some(ProxyMode::ReverseServer)
            } else {
                None
            }
        } else {
            if locals == 0 {
                Some(ProxyMode::ReverseClient)
            } else {
                None
            }
        }
    }

    /// Whether every listener of the selected mode has its TLS flag.
    pub open spec fn flags_present(&self) -> bool {
        match self.mode_of() {
            Some(ProxyMode::Server) => self.local_opts@.len() >= 1,
            Some(ProxyMode::ReverseServer) => self.local_opts@.len() >= 2,
            _ => true,
        }
    }

    /// The listener at a position.
    pub open spec fn local_at(&self, i: int) -> Endpoint {
        Endpoint { addr: self.local_addrs@[i], tls: self.local_opts@[i] }
    }

    /// What is to be run for this configuration, or the error that rejects it.
    pub open spec fn plan_of(&self) -> Result<ProxyPlan, ConfigError> {
        match self.mode_of() {
            None => Err(ConfigError::InvalidProxyParameters),
            Some(ProxyMode::Server) => Ok(
                ProxyPlan::Server { listen: self.local_at(0), auth: self.auth_info },
            ),
            Some(ProxyMode::ReverseServer) => Ok(
                ProxyPlan::ReverseServer { control: self.local_at(0), proxy: self.local_at(1) },
            ),
            Some(ProxyMode::ReverseClient) => Ok(
                ProxyPlan::ReverseClient {
                    remote: Endpoint { addr: self.remote_addr->Some_0, tls: self.remote_opt },
                    auth: self.auth_info,
                },
            ),
        }
    }

    /// Selects the mode, or rejects the combination of addresses.
    pub fn mode(&self) -> (chosen: Result<ProxyMode, ConfigError>)
        ensures
            chosen == match self.mode_of() {
                Some(mode) => Ok::<ProxyMode, ConfigError>(mode),
                None => Err(ConfigError::InvalidProxyParameters),
            },
    {
        let locals = self.local_addrs.len();
        if self.remote_addr.is_none() {
            if locals == 1 {
                Ok(ProxyMode::Server)
            } else if locals == 2 {
                Ok(ProxyMode::ReverseServer)
            } else {
                Err(ConfigError::InvalidProxyParameters)
            }
        } else {
            if locals == 0 {
                Ok(ProxyMode::ReverseClient)
            } else {
                Err(ConfigError::InvalidProxyParameters)
            }
        }
    }

    /// Whether `plan` may be called: every TLS flag that it reads is there.
    pub fn has_flags(&self) -> (present: bool)
        ensures
            present == self.flags_present(),
    {
        match self.mode() {
            Ok(ProxyMode::Server) => self.local_opts.len() >= 1,
            Ok(ProxyMode::ReverseServer) => self.local_opts.len() >= 2,
            _ => true,
        }
    }

    fn local(&self, i: usize) -> (endpoint: Endpoint)
        requires
            i < self.local_addrs@.len(),
            i < self.local_opts@.len(),
        ensures
            endpoint == self.local_at(i as int),
    {
        Endpoint { addr: self.local_addrs[i].clone(), tls: self.local_opts[i] }
    }

    fn credentials(&self) -> (auth: Option<AuthInfo>)
        ensures
            auth == self.auth_info,
    {
        match &self.auth_info {
            Some(auth) => Some(auth.clone()),
            None => None,
        }
    }

    /// What is to be run: the mode with its addresses, TLS flags and, where a
    /// responder runs, the credentials it asks for. Any other combination of
    /// addresses is rejected.
    pub fn plan(&self) -> (plan: Result<ProxyPlan, ConfigError>)
        requires
            self.flags_present(),
        ensures
            plan == self.plan_of(),
    {
        match self.mode() {
            Err(error) => Err(error),
            Ok(ProxyMode::Server) => Ok(
                ProxyPlan::Server { listen: self.local(0), auth: self.credentials() },
            ),
            Ok(ProxyMode::ReverseServer) => Ok(
                ProxyPlan::ReverseServer { control: self.local(0), proxy: self.local(1) },
            ),
            Ok(ProxyMode::ReverseClient) => {
                match &self.remote_addr {
                    Some(addr) => Ok(
                        ProxyPlan::ReverseClient {
                            remote: Endpoint { addr: addr.clone(), tls: self.remote_opt },
                            auth: self.credentials(),
                        },
                    ),
                    None => Err(ConfigError::InvalidProxyParameters),
                }
            },
        }
    }
}

impl ProxyPlan {
    /// Whether the number of responders that run at once is capped: so it is
    /// for the client that dials out.
    pub open spec fn is_capped(&self) -> bool {
        self is ReverseClient
    }

    /// Whether the sessions of this plan run under the concurrency cap.
    pub fn capped(&self) -> (capped: bool)
        ensures
            capped == self.is_capped(),
    {
        match self {
            ProxyPlan::ReverseClient { .. } => true,
            _ => false,
        }
    }
}

} // verus!
