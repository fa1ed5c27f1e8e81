//! A managed machine: the local one, through its bound target, or a remote
//! one, through a request/reply channel to its agent.

use vstd::prelude::*;
use vstd::string::StringExecFns;
use crate::codec::{encode_request, operation_arity, operation_name, request_frames, texts, Operation};
use crate::error::Error;
use crate::target::{chain_of, implements, platform_named, Layer, Target};

verus! {

/// The session with a remote agent. `channel` is the open request/reply
/// channel, if any; without one the host is disconnected.
pub struct RemoteSession<C> {
    pub endpoint: String,
    pub auth_token: Option<String>,
    pub channel: Option<C>,
}

/// One managed machine, in exactly one of two modes.
pub enum Host<C> {
    /// This machine, served by the target bound when the host was made.
    Local(Target),
    /// A machine reached through its agent.
    Remote(RemoteSession<C>),
}

/// Where one operation goes.
#[derive(Debug)]
pub enum Route {
    /// Run it here, with the implementation of this layer of the target.
    Local(Target, Layer),
    /// Send these frames over the host's channel and await one reply.
    Remote(Vec<String>),
}

/// The layer of `t` that serves `op`: the first of its chain that implements it.
pub open spec fn serves(t: Target, layer: Layer, op: Operation) -> bool {
    exists|i: int|
        0 <= i < chain_of(t.platform).len() && chain_of(t.platform)[i] == layer && implements(layer, op)
            && forall|j: int| 0 <= j < i ==> !implements(#[trigger] chain_of(t.platform)[j], op)
}

impl<C> Host<C> {
    /// The local host, bound to the target of the platform that the probes
    /// of this machine named; an unknown platform is an error.
    pub fn local(os: &str, distro: &str) -> (r: Result<Host<C>, Error>)
        ensures
            match platform_named(os@, distro@) {
                Some(p) => (r matches Ok(Host::Local(t)) && t.platform == p),
                None => r matches Err(Error::Generic(_)),
            },
    {
        match Target::resolve(os, distro) {
            Ok(t) => Ok(Host::Local(t)),
            Err(e) => Err(e),
        }
    }

    /// A remote host at `endpoint`; `channel` is the channel already opened to
    /// it, or `None` for a host that starts disconnected.
    pub fn remote(endpoint: &str, auth_token: Option<String>, channel: Option<C>) -> (r: Host<C>)
        ensures
            r matches Host::Remote(s) && s.endpoint@ == endpoint@ && s.auth_token == auth_token
                && s.channel == channel,
    {
        Host::Remote(RemoteSession { endpoint: String::from_str(endpoint), auth_token, channel })
    }

    pub open spec fn spec_is_connected(&self) -> bool {
        self matches Host::Remote(s) && s.channel is Some
    }

    /// Whether this is a remote host with an open channel.
    pub fn is_connected(&self) -> (r: bool)
        ensures
            r == self.spec_is_connected(),
    {
        match self {
            Host::Remote(s) => s.channel.is_some(),
            Host::Local(_) => false,
        }
    }

    /// Gives a remote host its open channel, returning the one it replaces.
    /// A local host is left as it is and the channel handed back.
    pub fn attach(&mut self, channel: C) -> (r: Option<C>)
        ensures
            match *old(self) {
                Host::Remote(s) => (*final(self) matches Host::Remote(n) && n.endpoint == s.endpoint
                    && n.auth_token == s.auth_token && n.channel == Some(channel) && r == s.channel),
                Host::Local(t) => *final(self) == Host::<C>::Local(t) && r == Some(channel),
            },
    {
        match self {
            Host::Remote(s) => {
                let prev = s.channel.take();
                s.channel = Some(channel);
                prev
            },
            Host::Local(_) => Some(channel),
        }
    }

    /// Takes the channel out of a remote host, which is then disconnected.
    pub fn disconnect(&mut self) -> (r: Option<C>)
        ensures
            match *old(self) {
                Host::Remote(s) => (*final(self) matches Host::Remote(n) && n.endpoint == s.endpoint
                    && n.auth_token == s.auth_token && n.channel is None && r == s.channel),
                Host::Local(t) => *final(self) == Host::<C>::Local(t) && r is None,
            },
    {
        match self {
            Host::Remote(s) => s.channel.take(),
            Host::Local(_) => None,
        }
    }

    /// Decides where the operation `op` with arguments `args` goes: to the
    /// layer of the bound target that serves it, or as a request over the
    /// open channel. A remote host without a channel fails at once with
    /// `HostDisconnected`, and nothing is sent.
    pub fn route(&self, op: Operation, args: &Vec<String>) -> (r: Result<Route, Error>)
        requires
            args@.len() == operation_arity(op),
        ensures
            match self {
                Host::Local(t) => (r matches Ok(Route::Local(t2, layer)) && t2 == t && serves(*t, layer, op)),
                Host::Remote(s) => match s.channel {
                    Some(_) => (r matches Ok(Route::Remote(frames))
                        && texts(frames@) == request_frames(operation_name(op), texts(args@))),
                    None => r matches Err(Error::HostDisconnected),
                },
            },
    {
        match self {
            Host::Local(t) => {
                let layer = t.layer_for(op);
                Ok(Route::Local(*t, layer))
            },
            Host::Remote(s) => {
                if s.channel.is_none() {
                    return Err(Error::HostDisconnected);
                }
                Ok(Route::Remote(encode_request(op, args)))
            },
        }
    }
}

} // verus!
