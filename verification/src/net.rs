//! Client addresses and the ban list.

use std::collections::HashSet;
use vstd::prelude::*;

verus! {

broadcast use vstd::std_specs::hash::group_hash_axioms;

/// The address of a host.
#[derive(Debug, Copy, Clone, Eq, PartialEq, Hash, Structural)]
pub enum HQMIpAddr {
    V4(u32),
    V6(u128),
}

/// The address of a client. The last two numbers are zero for version 4.
#[derive(Debug, Copy, Clone, Eq, PartialEq, Hash, Structural)]
pub struct HQMSocketAddr {
    pub ip: HQMIpAddr,
    pub port: u16,
    pub flowinfo: u32,
    pub scope_id: u32,
}

/// The hosts that may not join.
#[derive(Debug)]
pub struct HQMBanList {
    pub v4: HashSet<u32>,
    pub v6: HashSet<u128>,
}

impl View for HQMBanList {
    type V = Set<HQMIpAddr>;

    open spec fn view(&self) -> Set<HQMIpAddr> {
        Set::new(
            |ip: HQMIpAddr|
                match ip {
                    HQMIpAddr::V4(a) => self.v4@.contains(a),
                    HQMIpAddr::V6(a) => self.v6@.contains(a),
                },
        )
    }
}

impl HQMBanList {
    pub fn new() -> (r: Self)
        ensures
            r@ == Set::<HQMIpAddr>::empty(),
    {
        let r = HQMBanList { v4: HashSet::new(), v6: HashSet::new() };
        assert(r@ =~= Set::<HQMIpAddr>::empty());
        r
    }

    pub fn contains(&self, ip: HQMIpAddr) -> (r: bool)
        ensures
            r == self@.contains(ip),
    {
        match ip {
            HQMIpAddr::V4(a) => self.v4.contains(&a),
            HQMIpAddr::V6(a) => self.v6.contains(&a),
        }
    }

    pub fn insert(&mut self, ip: HQMIpAddr)
        ensures
            final(self)@ == old(self)@.insert(ip),
    {
        match ip {
            HQMIpAddr::V4(a) => {
                self.v4.insert(a);
            },
            HQMIpAddr::V6(a) => {
                self.v6.insert(a);
            },
        }
        assert(self@ =~= old(self)@.insert(ip));
    }

    pub fn clear(&mut self)
        ensures
            final(self)@ == Set::<HQMIpAddr>::empty(),
    {
        self.v4.clear();
        self.v6.clear();
        assert(self@ =~= Set::<HQMIpAddr>::empty());
    }
}

} // verus!
