//! The setup of a session's socket pair, as a machine that the caller drives.
//!
//! A session owns one IPv4 socket and, where IPv6 relay is enabled, one IPv6
//! socket. Each is created, made non-blocking, bound to the wildcard address
//! with a port of the system's choice, and registered with the runtime; the
//! IPv6 socket is restricted to IPv6 traffic before it is bound, so that it
//! never receives what the IPv4 socket receives as well. The machine hands out
//! one step at a time. The caller performs the step on its sockets and reports
//! the outcome; the first failure ends the setup with the error that names the
//! step.

use vstd::prelude::*;
use crate::address::{IpFamily, SocketAddress};
use crate::config::SessionConfig;
use crate::error::Error;

verus! {

/// One operation on a socket during setup.
#[derive(Clone, Copy, Debug, PartialEq, Eq, Structural)]
pub enum SocketOp {
    /// Create the datagram socket.
    Create,
    /// Make the socket non-blocking.
    SetNonblocking,
    /// Restrict the socket to IPv6 traffic.
    SetOnlyV6,
    /// Bind the socket to the wildcard address of its family, port zero.
    Bind,
    /// Hand the socket over to the runtime.
    Register,
}

/// An operation together with the family of the socket it applies to.
#[derive(Clone, Copy, Debug, PartialEq, Eq, Structural)]
pub struct SetupStep {
    pub family: IpFamily,
    pub op: SocketOp,
}

/// The text of the socket error for a failure of `op` on the socket of
/// `family`. Only an IPv6 socket is ever restricted to IPv6 traffic, so that
/// text names IPv6 whatever the family. Registration has no text of its own:
/// its failure is reported as a plain I/O error.
pub open spec fn failure_text(family: IpFamily, op: SocketOp) -> Seq<char> {
    match (op, family) {
        (SocketOp::Create, IpFamily::V4) => "failed to create UDP associate IPv4 socket"@,
        (SocketOp::Create, IpFamily::V6) => "failed to create UDP associate IPv6 socket"@,
        (SocketOp::SetNonblocking, IpFamily::V4) =>
            "failed setting UDP associate IPv4 socket as non-blocking"@,
        (SocketOp::SetNonblocking, IpFamily::V6) =>
            "failed setting UDP associate IPv6 socket as non-blocking"@,
        (SocketOp::SetOnlyV6, _) => "failed setting UDP associate IPv6 socket as IPv6-only"@,
        (SocketOp::Bind, IpFamily::V4) => "failed to bind UDP associate IPv4 socket"@,
        (SocketOp::Bind, IpFamily::V6) => "failed to bind UDP associate IPv6 socket"@,
        (SocketOp::Register, _) => Seq::empty(),
    }
}

impl SetupStep {
    /// Whether `e` is the error that a failure of this step with `cause`
    /// amounts to: a socket error with the text of the step, or for
    /// registration a plain I/O error. Either carries `cause`.
    pub open spec fn fails_as(&self, cause: std::io::Error, e: Error) -> bool {
        if self.op == SocketOp::Register {
            e == Error::Io(cause)
        } else {
            e matches Error::Socket(text, c) && c == cause && text@ == failure_text(
                self.family,
                self.op,
            )
        }
    }

    /// The address to bind to, where the step is a bind.
    pub fn bind_address(&self) -> (addr: Option<SocketAddress>)
        ensures
            addr is Some <==> self.op == SocketOp::Bind,
            addr matches Some(a) ==> a.is_ephemeral_wildcard(self.family),
    {
        match self.op {
            SocketOp::Bind => Some(SocketAddress::ephemeral_wildcard(self.family)),
            _ => None,
        }
    }

    /// Turns the failure of this step into the session's error.
    pub fn failure(&self, cause: std::io::Error) -> (e: Error)
        ensures
            self.fails_as(cause, e),
    {
        match self.op {
            SocketOp::Register => Error::Io(cause),
            SocketOp::Create => match self.family {
                IpFamily::V4 => Error::Socket("failed to create UDP associate IPv4 socket", cause),
                IpFamily::V6 => Error::Socket("failed to create UDP associate IPv6 socket", cause),
            },
            SocketOp::SetNonblocking => match self.family {
                IpFamily::V4 => Error::Socket(
                    "failed setting UDP associate IPv4 socket as non-blocking",
                    cause,
                ),
                IpFamily::V6 => Error::Socket(
                    "failed setting UDP associate IPv6 socket as non-blocking",
                    cause,
                ),
            },
            SocketOp::SetOnlyV6 => Error::Socket(
                "failed setting UDP associate IPv6 socket as IPv6-only",
                cause,
            ),
            SocketOp::Bind => match self.family {
                IpFamily::V4 => Error::Socket("failed to bind UDP associate IPv4 socket", cause),
                IpFamily::V6 => Error::Socket("failed to bind UDP associate IPv6 socket", cause),
            },
        }
    }
}

/// The steps that set up the socket pair, in the order in which they are
/// performed: the IPv4 socket first, then, if `ipv6` is set, the IPv6 socket.
pub open spec fn plan(ipv6: bool) -> Seq<SetupStep> {
    let v4 = seq![
        SetupStep { family: IpFamily::V4, op: SocketOp::Create },
        SetupStep { family: IpFamily::V4, op: SocketOp::SetNonblocking },
        SetupStep { family: IpFamily::V4, op: SocketOp::Bind },
        SetupStep { family: IpFamily::V4, op: SocketOp::Register },
    ];
    let v6 = seq![
        SetupStep { family: IpFamily::V6, op: SocketOp::Create },
        SetupStep { family: IpFamily::V6, op: SocketOp::SetNonblocking },
        SetupStep { family: IpFamily::V6, op: SocketOp::SetOnlyV6 },
        SetupStep { family: IpFamily::V6, op: SocketOp::Bind },
        SetupStep { family: IpFamily::V6, op: SocketOp::Register },
    ];
    if ipv6 {
        v4 + v6
    } else {
        v4
    }
}

/// A socket pair whose setup is complete, with the settings it was set up
/// under: the IPv4 socket, and the IPv6 socket if those settings enable IPv6
/// relay. Only a setup that ran to its end yields one.
#[derive(Debug)]
pub struct SocketPair {
    config: SessionConfig,
}

impl SocketPair {
    /// The settings that the pair was set up under.
    pub closed spec fn spec_config(&self) -> SessionConfig {
        self.config
    }

    /// Whether the pair includes an IPv6 socket.
    pub open spec fn spec_has_v6(&self) -> bool {
        self.spec_config().udp_relay_ipv6
    }

    #[verifier::when_used_as_spec(spec_config)]
    pub fn config(&self) -> (config: SessionConfig)
        ensures
            config == self.spec_config(),
    {
        self.config
    }

    #[verifier::when_used_as_spec(spec_has_v6)]
    pub fn has_v6(&self) -> (b: bool)
        ensures
            b == self.spec_has_v6(),
    {
        self.config.udp_relay_ipv6
    }
}

/// A socket-pair setup with at least one step left to perform.
#[derive(Debug)]
pub struct SocketPairSetup {
    config: SessionConfig,
    done: usize,
}

/// Where a setup stands after a step that succeeded.
#[derive(Debug)]
pub enum SetupProgress {
    /// There is another step to perform.
    Pending(SocketPairSetup),
    /// Every step has been performed.
    Complete(SocketPair),
}

impl SocketPairSetup {
    /// The settings that the setup was begun under.
    pub closed spec fn config(&self) -> SessionConfig {
        self.config
    }

    /// Whether the setup includes an IPv6 socket.
    pub open spec fn ipv6(&self) -> bool {
        self.config().udp_relay_ipv6
    }

    /// The number of steps that have been performed and have succeeded.
    pub closed spec fn done(&self) -> nat {
        self.done as nat
    }

    /// A setup always has a step left.
    #[verifier::type_invariant]
    pub open spec fn wf(&self) -> bool {
        self.done() < plan(self.ipv6()).len()
    }

    /// The step to perform next.
    pub open spec fn spec_pending(&self) -> SetupStep {
        plan(self.ipv6())[self.done() as int]
    }

    /// Begins the setup of the socket pair of a session under `config`, with
    /// an IPv6 socket if `config` enables IPv6 relay. Nothing has been
    /// performed yet.
    pub fn begin(config: SessionConfig) -> (setup: SocketPairSetup)
        ensures
            setup.wf(),
            setup.config() == config,
            setup.done() == 0,
    {
        SocketPairSetup { config, done: 0 }
    }

    /// The step to perform next.
    #[verifier::when_used_as_spec(spec_pending)]
    pub fn pending(&self) -> (step: SetupStep)
        ensures
            step == self.spec_pending(),
    {
        proof {
            use_type_invariant(self);
        }
        let (family, at): (IpFamily, usize) = if self.done < 4 {
            (IpFamily::V4, self.done)
        } else {
            (IpFamily::V6, self.done - 4)
        };
        let op = match (family, at) {
            (_, 0) => SocketOp::Create,
            (_, 1) => SocketOp::SetNonblocking,
            (IpFamily::V4, 2) => SocketOp::Bind,
            (IpFamily::V4, _) => SocketOp::Register,
            (IpFamily::V6, 2) => SocketOp::SetOnlyV6,
            (IpFamily::V6, 3) => SocketOp::Bind,
            (IpFamily::V6, _) => SocketOp::Register,
        };
        SetupStep { family, op }
    }

    /// Takes the outcome of the pending step. A failure ends the setup with
    /// the error of that step. A success moves on to the next step, or, after
    /// the last one, yields the socket pair.
    pub fn advance(self, outcome: Result<(), std::io::Error>) -> (next: Result<SetupProgress, Error>)
        ensures
            match outcome {
                Err(cause) => next matches Err(e) && self.spec_pending().fails_as(cause, e),
                Ok(()) => if self.done() + 1 < plan(self.ipv6()).len() {
                    &&& next matches Ok(SetupProgress::Pending(rest))
                    &&& rest.wf()
                    &&& rest.config() == self.config()
                    &&& rest.done() == self.done() + 1
                } else {
                    &&& next matches Ok(SetupProgress::Complete(pair))
                    &&& pair.spec_config() == self.config()
                },
            },
    {
        proof {
            use_type_invariant(&self);
        }
        match outcome {
            Err(cause) => Err(self.pending().failure(cause)),
            Ok(()) => {
                let total: usize = if self.config.udp_relay_ipv6 {
                    9
                } else {
                    4
                };
                if self.done + 1 < total {
                    Ok(SetupProgress::Pending(SocketPairSetup { config: self.config, done: self.done + 1 }))
                } else {
                    Ok(SetupProgress::Complete(SocketPair { config: self.config }))
                }
            },
        }
    }
}

/// Whether a pair set up with (`ipv6`) or without IPv6 relay has a socket of
/// `family`.
pub open spec fn has_socket(ipv6: bool, family: IpFamily) -> bool {
    family == IpFamily::V4 || ipv6
}

/// The place of an operation in the setup of one socket.
pub open spec fn rank(op: SocketOp) -> int {
    match op {
        SocketOp::Create => 0,
        SocketOp::SetNonblocking => 1,
        SocketOp::SetOnlyV6 => 2,
        SocketOp::Bind => 3,
        SocketOp::Register => 4,
    }
}

/// The plan sets up one socket for each family that the pair has, and no
/// other: every operation is applied to each such socket once, but that only
/// the IPv6 socket is restricted to IPv6 traffic. So with IPv6 relay enabled
/// two sockets are bound, one of each family.
pub proof fn lemma_plan_covers_each_family(ipv6: bool, family: IpFamily, op: SocketOp)
    ensures
        plan(ipv6).contains(SetupStep { family, op }) <==> has_socket(ipv6, family) && (op
            == SocketOp::SetOnlyV6 ==> family == IpFamily::V6),
        plan(ipv6).no_duplicates(),
{
    let p = plan(ipv6);
    let step = SetupStep { family, op };
    if has_socket(ipv6, family) && (op == SocketOp::SetOnlyV6 ==> family == IpFamily::V6) {
        let at: int = match family {
            IpFamily::V4 => if op == SocketOp::Bind {
                2
            } else if op == SocketOp::Register {
                3
            } else {
                rank(op)
            },
            IpFamily::V6 => 4 + rank(op),
        };
        assert(p[at] == step);
    }
}

/// The plan keeps the order of the setup: the whole of the IPv4 socket comes
/// before the IPv6 socket, and on each socket the operations come by rank, so
/// a socket is non-blocking, and the IPv6 socket restricted to IPv6 traffic,
/// before it is bound.
pub proof fn lemma_plan_is_ordered(ipv6: bool, i: int, j: int)
    requires
        0 <= i < j < plan(ipv6).len(),
    ensures
        plan(ipv6)[j].family == IpFamily::V4 ==> plan(ipv6)[i].family == IpFamily::V4,
        plan(ipv6)[i].family == plan(ipv6)[j].family ==> rank(plan(ipv6)[i].op) < rank(
            plan(ipv6)[j].op,
        ),
{
}

} // verus!
