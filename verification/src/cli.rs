//! Targets as they are written on the command line, and the scripts of a
//! configuration.
use vstd::prelude::*;
use std::collections::HashMap;
use crate::config::{spec_addr, spec_name, split_backend};
use crate::endpoint::Endpoint;
use crate::text::{chars_of, string_of};

verus! {

/// A configuration: where to listen, the targets, and the scripts.
pub struct Config {
    pub listen: Endpoint,
    pub targets: ConfigTargets,
    pub scripts: Vec<Script>,
}

/// The targets of a configuration: addresses alone, or addresses by name.
pub enum ConfigTargets {
    Anon(Vec<Endpoint>),
    Named(HashMap<String, Endpoint>),
}

/// Whose payloads a script is run on.
#[derive(Debug)]
pub enum Trigger {
    /// The client's payloads.
    Client,
    /// The payloads of the target of this name, or of every target.
    Target(Option<String>),
}

/// A script of a configuration.
#[derive(Debug)]
pub struct Script {
    pub trigger: Option<Trigger>,
    pub target: String,
    pub script: String,
}

/// What the program was started with.
#[derive(Debug)]
pub struct Args {
    /// The address to listen on.
    pub listen: Option<Endpoint>,
    /// The targets.
    pub targets: Option<Vec<Target>>,
    /// The path of a script that rewrites payloads.
    pub script: Option<String>,
    /// The path of a configuration file.
    pub config: Option<String>,
}

/// A target on the command line: an address, with or without a name.
#[derive(Debug)]
pub enum Target {
    Anon(Endpoint),
    Named(String, Endpoint),
}

impl Clone for Target {
    fn clone(&self) -> (copy: Target)
        ensures
            (copy is Anon) == (*self is Anon),
            copy.address() == self.address(),
            copy.name() == self.name(),
    {
        match self {
            Target::Anon(addr) => Target::Anon(*addr),
            Target::Named(name, addr) => Target::Named(name.clone(), *addr),
        }
    }
}

impl Target {
    /// The target's address.
    pub open spec fn address(&self) -> Endpoint {
        match *self {
            Target::Anon(addr) => addr,
            Target::Named(_, addr) => addr,
        }
    }

    /// The target's name, if it has one.
    pub open spec fn name(&self) -> Option<Seq<char>> {
        match *self {
            Target::Anon(_) => None,
            Target::Named(name, _) => Some(name@),
        }
    }

    /// True for a target without a name.
    pub fn is_anon(&self) -> (anon: bool)
        ensures
            anon == (*self is Anon),
    {
        matches!(self, Target::Anon(_))
    }

    /// True for a target with a name.
    pub fn is_named(&self) -> (named: bool)
        ensures
            named == (*self is Named),
    {
        matches!(self, Target::Named(_, _))
    }

    /// The address of a target without a name.
    pub fn as_anon(&self) -> (addr: Option<Endpoint>)
        ensures
            addr == match *self {
                Target::Anon(a) => Some(a),
                Target::Named(_, _) => None,
            },
    {
        match self {
            Target::Anon(addr) => Some(*addr),
            _ => None,
        }
    }

    /// The name and the address of a target with a name.
    pub fn as_named(&self) -> (pair: Option<(String, Endpoint)>)
        ensures
            match *self {
                Target::Named(name, addr) => pair matches Some((n, a)) && n@ == name@ && a
                    == addr,
                Target::Anon(_) => pair is None,
            },
    {
        match self {
            Target::Named(key, addr) => Some((key.clone(), *addr)),
            _ => None,
        }
    }
}

/// The text that precedes an address that cannot be read.
pub open spec fn invalid_address_prefix() -> Seq<char> {
    "Invalid SocketAddr: "@
}

/// The part of a target's text that holds its address: what follows the
/// first `=`, or the whole text.
pub fn address_text(text: &str) -> (addr: String)
    ensures
        addr@ == spec_addr(text@),
{
    split_backend(text).addr
}

/// Reads a target: `name=address`, or an address alone.
///
/// `addr` is what the address in the text stands for, or `None` when
/// that part of the text is no address; [`address_text`] tells which part it
/// is. The text before the first `=` is the name, as it is. A part that is
/// no address is the error, named in the message.
pub fn parse_target(text: &str, addr: Option<Endpoint>) -> (target: Result<Target, String>)
    ensures
        match (addr, spec_name(text@)) {
            (Some(a), Some(name)) => target matches Ok(Target::Named(n, b)) && n@ == name && b
                == a,
            (Some(a), None) => target matches Ok(Target::Anon(b)) && b == a,
            (None, _) => target matches Err(message) && message@ == invalid_address_prefix()
                + spec_addr(text@),
        },
{
    let parts = split_backend(text);
    match addr {
        Some(addr) => match parts.name {
            Some(name) => Ok(Target::Named(name, addr)),
            None => Ok(Target::Anon(addr)),
        },
        None => {
            let mut message = chars_of("Invalid SocketAddr: ");
            let mut rest = chars_of(parts.addr.as_str());
            message.append(&mut rest);
            Err(string_of(message))
        },
    }
}

} // verus!
