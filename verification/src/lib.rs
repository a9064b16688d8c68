//! Pivot: the decision core of a layer-4 pivoting toolkit.
//!
//! The crate holds the rules of the three roles (forward, SOCKS5 proxy, port
//! reuse) as plain functions from values to values: which topology a set of
//! addresses selects, what a SOCKS5 responder answers to each frame, where a
//! UDP datagram goes, which target a reused port hands a connection to, and
//! how many pipes may run at once. Sockets, TLS and tasks live with the
//! caller, who performs what these functions decide.

pub mod forward;
pub mod limit;
pub mod pairing;
pub mod proxy;
pub mod reuse;
pub mod socks;
pub mod udp;
pub mod util;

use crate::forward::Forward;
use crate::proxy::Proxy;
use crate::reuse::Reuse;
use crate::socks::{credentials_from, AuthInfo};
use crate::util::{push_char, push_text};
use vstd::prelude::*;
use vstd::string::*;

verus! {

/// A combination of addresses that selects nothing to run.
#[derive(Clone, Copy, Debug, PartialEq, Eq, Structural)]
pub enum ConfigError {
    /// The forward role got addresses outside its five topologies.
    InvalidForwardParameters,
    /// The proxy role got addresses outside its three modes.
    InvalidProxyParameters,
}

impl ConfigError {
    pub open spec fn spec_message(self) -> Seq<char> {
        match self {
            ConfigError::InvalidForwardParameters => "Invalid forward parameters"@,
            ConfigError::InvalidProxyParameters => "Invalid proxy parameters"@,
        }
    }

    /// The text that describes this error.
    pub fn message(self) -> (text: &'static str)
        ensures
            text@ == self.spec_message(),
    {
        match self {
            ConfigError::InvalidForwardParameters => "Invalid forward parameters",
            ConfigError::InvalidProxyParameters => "Invalid proxy parameters",
        }
    }
}

/// The command line, once its words are told apart.
pub struct Cli {
    pub command: Commands,
}

/// The three roles with their arguments, as the operator wrote them.
#[allow(inconsistent_fields)]
pub enum Commands {
    /// Port forwarding.
    Fwd {
        /// Listen addresses, each `[+][IP:]PORT`.
        local: Vec<String>,
        /// Targets, each `[+]IP:PORT`.
        remote: Vec<String>,
        /// Path of a Unix domain socket.
        socket: Option<String>,
        /// Forward datagrams in place of streams.
        udp: bool,
    },
    /// SOCKS5 proxy.
    Proxy {
        /// Listen addresses, each `[+][IP:]PORT`.
        local: Vec<String>,
        /// Rendezvous server, `[+]IP:PORT`.
        remote: Option<String>,
        /// `user:pass`, or anything else for random credentials.
        auth: Option<String>,
    },
    /// Port reuse.
    Reuse {
        /// Address of the shared port, `IP:PORT`.
        local: String,
        /// Primary target, `IP:PORT`.
        remote: String,
        /// Target for all other sources, `IP:PORT`.
        fallback: Option<String>,
        /// The source address that is sent to the primary target.
        external: String,
        /// Seconds after which no new connection is accepted.
        timeout: Option<u64>,
    },
}

/// A role, configured and ready to be planned.
pub enum Job {
    Forward(Forward),
    Proxy(Proxy),
    Reuse(Reuse),
}

/// The test that every character but the TLS marker `+` passes.
pub open spec fn not_marker() -> spec_fn(char) -> bool {
    |c: char| c != '+'
}

/// An address argument without its `+` signs.
pub open spec fn without_marker(text: Seq<char>) -> Seq<char> {
    text.filter(not_marker())
}

/// Whether an address argument asks for TLS: it starts with `+`.
pub open spec fn has_marker(text: Seq<char>) -> bool {
    text.len() > 0 && text[0] == '+'
}

/// The prefix that stands for every local interface.
pub open spec fn any_host() -> Seq<char> {
    seq!['0', '.', '0', '.', '0', '.', '0', ':']
}

/// The listen address that an argument `[+][IP:]PORT` names: the argument
/// without `+`, on every interface where it names none.
pub open spec fn local_address_of(text: Seq<char>) -> Seq<char> {
    let bare = without_marker(text);
    if bare.contains(':') {
        bare
    } else {
        any_host() + bare
    }
}

/// Whether `addrs` are the listen addresses that `args` name, one by one.
pub open spec fn are_local_addresses(args: Seq<String>, addrs: Seq<String>) -> bool {
    &&& addrs.len() == args.len()
    &&& forall|i: int| 0 <= i < args.len() ==> (#[trigger] addrs[i])@ == local_address_of(args[i]@)
}

/// Whether `addrs` are the targets that `args` name, one by one.
pub open spec fn are_remote_addresses(args: Seq<String>, addrs: Seq<String>) -> bool {
    &&& addrs.len() == args.len()
    &&& forall|i: int| 0 <= i < args.len() ==> (#[trigger] addrs[i])@ == without_marker(args[i]@)
}

/// Whether `flags` are the TLS flags of `args`, one by one.
pub open spec fn are_tls_flags(args: Seq<String>, flags: Seq<bool>) -> bool {
    &&& flags.len() == args.len()
    &&& forall|i: int| 0 <= i < args.len() ==> #[trigger] flags[i] == has_marker(args[i]@)
}

/// Whether `text` holds the character `wanted`.
pub fn holds_char(text: &str, wanted: char) -> (found: bool)
    ensures
        found == text@.contains(wanted),
{
    let n = text.unicode_len();
    let mut i: usize = 0;
    while i < n
        invariant
            i <= n,
            n == text@.len(),
            forall|j: int| 0 <= j < i ==> text@[j] != wanted,
        decreases n - i,
    {
        if text.get_char(i) == wanted {
            return true;
        }
        i += 1;
    }
    false
}

/// Whether an address argument asks for TLS.
pub fn wants_tls(arg: &str) -> (tls: bool)
    ensures
        tls == has_marker(arg@),
{
    arg.unicode_len() > 0 && arg.get_char(0) == '+'
}

/// The argument without its `+` signs.
pub fn strip_marker(arg: &str) -> (bare: String)
    ensures
        bare@ == without_marker(arg@),
{
    let n = arg.unicode_len();
    let mut bare = String::new();
    let mut i: usize = 0;
    while i < n
        invariant
            i <= n,
            n == arg@.len(),
            bare@ == without_marker(arg@.take(i as int)),
        decreases n - i,
    {
        let c = arg.get_char(i);
        proof {
            assert(arg@.take(i + 1) =~= arg@.take(i as int).push(c));
            arg@.take(i as int).lemma_filter_push(c, not_marker());
        }
        if c != '+' {
            push_char(&mut bare, c);
        }
        i += 1;
    }
    proof {
        assert(arg@.take(n as int) =~= arg@);
    }
    bare
}

/// The target that an argument `[+]IP:PORT` names.
pub fn remote_address(arg: &str) -> (addr: String)
    ensures
        addr@ == without_marker(arg@),
{
    strip_marker(arg)
}

/// The listen address that an argument `[+][IP:]PORT` names.
pub fn local_address(arg: &str) -> (addr: String)
    ensures
        addr@ == local_address_of(arg@),
{
    let bare = strip_marker(arg);
    if holds_char(bare.as_str(), ':') {
        bare
    } else {
        let mut addr = String::from_str("0.0.0.0:");
        proof {
            reveal_strlit("0.0.0.0:");
        }
        push_text(&mut addr, bare.as_str());
        addr
    }
}

/// The listen addresses that the arguments name.
pub fn local_addresses(args: &Vec<String>) -> (addrs: Vec<String>)
    ensures
        are_local_addresses(args@, addrs@),
{
    let mut addrs: Vec<String> = Vec::new();
    let mut i: usize = 0;
    while i < args.len()
        invariant
            i <= args@.len(),
            addrs@.len() == i,
            forall|j: int| 0 <= j < i ==> (#[trigger] addrs@[j])@ == local_address_of(args@[j]@),
        decreases args@.len() - i,
    {
        addrs.push(local_address(args[i].as_str()));
        i += 1;
    }
    addrs
}

/// The targets that the arguments name.
pub fn remote_addresses(args: &Vec<String>) -> (addrs: Vec<String>)
    ensures
        are_remote_addresses(args@, addrs@),
{
    let mut addrs: Vec<String> = Vec::new();
    let mut i: usize = 0;
    while i < args.len()
        invariant
            i <= args@.len(),
            addrs@.len() == i,
            forall|j: int| 0 <= j < i ==> (#[trigger] addrs@[j])@ == without_marker(args@[j]@),
        decreases args@.len() - i,
    {
        addrs.push(remote_address(args[i].as_str()));
        i += 1;
    }
    addrs
}

/// The TLS flags of the arguments.
pub fn tls_flags(args: &Vec<String>) -> (flags: Vec<bool>)
    ensures
        are_tls_flags(args@, flags@),
{
    let mut flags: Vec<bool> = Vec::new();
    let mut i: usize = 0;
    while i < args.len()
        invariant
            i <= args@.len(),
            flags@.len() == i,
            forall|j: int| 0 <= j < i ==> #[trigger] flags@[j] == has_marker(args@[j]@),
        decreases args@.len() - i,
    {
        flags.push(wants_tls(args[i].as_str()));
        i += 1;
    }
    flags
}

/// Whether `job` is what `command` configures: the role it names, with each
/// address freed of its `+` and completed, each TLS flag taken from the `+`,
/// credentials made from the `auth` argument, and all else as it stands.
pub open spec fn configures(command: Commands, job: Job) -> bool {
    match command {
        Commands::Fwd { local, remote, socket, udp } => {
            &&& job matches Job::Forward(forward)
            &&& are_local_addresses(local@, forward.local_addrs@)
            &&& are_remote_addresses(remote@, forward.remote_addrs@)
            &&& are_tls_flags(local@, forward.local_opts@)
            &&& are_tls_flags(remote@, forward.remote_opts@)
            &&& forward.socket == socket
            &&& forward.udp == udp
        },
        Commands::Proxy { local, remote, auth } => {
            &&& job matches Job::Proxy(proxy)
            &&& are_local_addresses(local@, proxy.local_addrs@)
            &&& are_tls_flags(local@, proxy.local_opts@)
            &&& match remote {
                Some(arg) => proxy.remote_addr matches Some(addr) && addr@ == without_marker(arg@)
                    && proxy.remote_opt == has_marker(arg@),
                None => proxy.remote_addr is None && !proxy.remote_opt,
            }
            &&& match auth {
                Some(arg) => proxy.auth_info matches Some(info) && credentials_from(
                    arg@,
                    info.user@,
                    info.pass@,
                ),
                None => proxy.auth_info is None,
            }
        },
        Commands::Reuse { local, remote, fallback, external, timeout } => {
            &&& job matches Job::Reuse(reuse)
            &&& reuse.local_addr == local
            &&& reuse.remote_addr == remote
            &&& reuse.fallback_addr == fallback
            &&& reuse.external_ip == external
            &&& reuse.timeout == timeout
        },
    }
}

/// A role that comes out of `configure` has a TLS flag for each of its
/// addresses, so its plan can always be asked for.
pub proof fn lemma_configured_has_flags(command: Commands, job: Job)
    requires
        configures(command, job),
    ensures
        job matches Job::Forward(forward) ==> forward.flags_present(),
        job matches Job::Proxy(proxy) ==> proxy.flags_present(),
{
}

/// Turns the operator's command into the configured role.
pub fn configure(cli: Cli) -> (job: Job)
    ensures
        configures(cli.command, job),
{
    match cli.command {
        Commands::Fwd { local, remote, socket, udp } => {
            let local_addrs = local_addresses(&local);
            let remote_addrs = remote_addresses(&remote);
            let local_opts = tls_flags(&local);
            let remote_opts = tls_flags(&remote);
            Job::Forward(Forward::new(local_addrs, remote_addrs, local_opts, remote_opts, socket, udp))
        },
        Commands::Proxy { local, remote, auth } => {
            let local_addrs = local_addresses(&local);
            let local_opts = tls_flags(&local);
            let (remote_addr, remote_opt) = match &remote {
                Some(arg) => (Some(remote_address(arg.as_str())), wants_tls(arg.as_str())),
                None => (None, false),
            };
            let auth_info = match auth {
                Some(arg) => Some(AuthInfo::new(arg)),
                None => None,
            };
            Job::Proxy(Proxy::new(local_addrs, remote_addr, local_opts, remote_opt, auth_info))
        },
        Commands::Reuse { local, remote, fallback, external, timeout } => Job::Reuse(
            Reuse::new(local, remote, fallback, external, timeout),
        ),
    }
}

} // verus!
