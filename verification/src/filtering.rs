//! The address filter: which clients may be served at all.

use vstd::prelude::*;
use std::collections::HashSet;
use crate::fairing::{Info, Kind};
use crate::http::{ClientAddr, Request, Status};

verus! {

/// A set of client addresses.
#[derive(Debug)]
pub struct AddrSet {
    v4: HashSet<u32>,
    v6: HashSet<u128>,
}

impl View for AddrSet {
    type V = Set<ClientAddr>;

    closed spec fn view(&self) -> Set<ClientAddr> {
        Set::new(
            |addr: ClientAddr|
                match addr {
                    ClientAddr::V4(bits) => self.v4@.contains(bits),
                    ClientAddr::V6(bits) => self.v6@.contains(bits),
                },
        )
    }
}

impl AddrSet {
    /// The empty set.
    pub fn new() -> (r: AddrSet)
        ensures
            r@ == Set::<ClientAddr>::empty(),
    {
        let r = AddrSet { v4: HashSet::new(), v6: HashSet::new() };
        assert(r@ =~= Set::<ClientAddr>::empty());
        r
    }

    /// Adds an address. Returns whether it was not yet in the set.
    pub fn insert(&mut self, addr: ClientAddr) -> (added: bool)
        ensures
            final(self)@ == old(self)@.insert(addr),
            added == !old(self)@.contains(addr),
    {
        broadcast use vstd::std_specs::hash::group_hash_axioms;

        let added = match addr {
            ClientAddr::V4(bits) => self.v4.insert(bits),
            ClientAddr::V6(bits) => self.v6.insert(bits),
        };
        assert(self@ =~= old(self)@.insert(addr));
        added
    }

    /// Whether an address is in the set.
    pub fn contains(&self, addr: ClientAddr) -> (r: bool)
        ensures
            r == self@.contains(addr),
    {
        broadcast use vstd::std_specs::hash::group_hash_axioms;

        match addr {
            ClientAddr::V4(bits) => self.v4.contains(&bits),
            ClientAddr::V6(bits) => self.v6.contains(&bits),
        }
    }

    /// Whether the set holds no address.
    pub fn is_empty(&self) -> (r: bool)
        ensures
            r == (self@ == Set::<ClientAddr>::empty()),
    {
        let r = self.v4.is_empty() && self.v6.is_empty();
        proof {
            if r {
                assert(self@ =~= Set::<ClientAddr>::empty());
            } else if !self.v4@.is_empty() {
                let bits = choose|bits: u32| self.v4@.contains(bits);
                assert(self@.contains(ClientAddr::V4(bits)));
            } else {
                let bits = choose|bits: u128| self.v6@.contains(bits);
                assert(self@.contains(ClientAddr::V6(bits)));
            }
        }
        r
    }
}

/// Whether a client may be served under a rule. A denied address never may.
/// Otherwise, where some addresses are allowed by name, exactly those may.
/// Otherwise, and for a request without an address, the default decides.
pub open spec fn permits(
    allowed: Set<ClientAddr>,
    denied: Set<ClientAddr>,
    allow_all_by_default: bool,
    ip: Option<ClientAddr>,
) -> bool {
    match ip {
        Some(addr) => if denied.contains(addr) {
            false
        } else if allowed != Set::<ClientAddr>::empty() {
            allowed.contains(addr)
        } else {
            allow_all_by_default
        },
        None => allow_all_by_default,
    }
}

/// Denial comes first: an address that is both allowed and denied is not
/// served.
pub proof fn lemma_deny_takes_precedence(
    allowed: Set<ClientAddr>,
    denied: Set<ClientAddr>,
    allow_all_by_default: bool,
    addr: ClientAddr,
)
    requires
        allowed.contains(addr),
        denied.contains(addr),
    ensures
        !permits(allowed, denied, allow_all_by_default, Some(addr)),
{
}

/// With nothing allowed by name and nothing denied, the default alone
/// decides, for every client.
pub proof fn lemma_default_decides(allow_all_by_default: bool, ip: Option<ClientAddr>)
    ensures
        permits(Set::empty(), Set::empty(), allow_all_by_default, ip) == allow_all_by_default,
{
}

/// The address filter of the request phase.
#[derive(Debug)]
pub struct RIFM {
    pub allowed_ips: AddrSet,
    pub denied_ips: AddrSet,
    pub allow_all_by_default: bool,
}

impl RIFM {
    /// Whether the filter lets a client through.
    pub open spec fn lets_through(&self, ip: Option<ClientAddr>) -> bool {
        permits(self.allowed_ips@, self.denied_ips@, self.allow_all_by_default, ip)
    }

    /// The filter with the given addresses allowed by name, the given
    /// addresses denied, and the given default.
    pub fn new(allowed_ips: AddrSet, denied_ips: AddrSet, allow_all_by_default: bool) -> (r: RIFM)
        ensures
            r.allowed_ips == allowed_ips,
            r.denied_ips == denied_ips,
            r.allow_all_by_default == allow_all_by_default,
    {
        RIFM { allowed_ips, denied_ips, allow_all_by_default }
    }

    /// Decides on a client by its address, or on a request that has none.
    pub fn is_ip_allowed(&self, ip: Option<ClientAddr>) -> (r: bool)
        ensures
            r == self.lets_through(ip),
    {
        match ip {
            Some(addr) => {
                if self.denied_ips.contains(addr) {
                    return false;
                }
                if !self.allowed_ips.is_empty() {
                    return self.allowed_ips.contains(addr);
                }
                self.allow_all_by_default
            },
            None => self.allow_all_by_default,
        }
    }

    /// The name of the stage and its phases.
    pub fn info(&self) -> (r: Info)
        ensures
            r.name@ == "Request IP Filtering"@,
            r.kind == (Kind { request: true, response: false }),
    {
        Info { name: "Request IP Filtering", kind: Kind::request() }
    }

    /// The request phase: forbidden where the filter does not let the
    /// client of the request through.
    pub fn on_request(&self, request: &Request) -> (r: Result<(), Status>)
        ensures
            r is Ok <==> self.lets_through(request.client_ip),
            r matches Err(status) ==> status.code == 403,
    {
        if self.is_ip_allowed(request.client_ip) {
            Ok(())
        } else {
            Err(Status::forbidden())
        }
    }
}

impl Default for RIFM {
    /// The filter that allows every client: nothing allowed by name,
    /// nothing denied, and the default is to allow.
    fn default() -> (r: RIFM)
        ensures
            r.allowed_ips@ == Set::<ClientAddr>::empty(),
            r.denied_ips@ == Set::<ClientAddr>::empty(),
            r.allow_all_by_default,
    {
        RIFM { allowed_ips: AddrSet::new(), denied_ips: AddrSet::new(), allow_all_by_default: true }
    }
}

} // verus!
