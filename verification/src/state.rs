//! Snapshots of the state of a host, and the merged state that a
//! reconciliation works on.

use vstd::prelude::*;
use crate::iface::{BondPortConfig, Interface, Interfaces};
use crate::route::MergedRoutes;
use crate::text::{Text, string_eq};

verus! {

/// Name servers, search domains and options of the resolver.
#[derive(Debug, PartialEq, Eq)]
pub struct DnsClientState {
    pub server: Option<Vec<String>>,
    pub search: Option<Vec<String>>,
    pub options: Option<Vec<String>>,
}

/// The resolver of a host: what is in effect, and what is configured.
#[derive(Debug, PartialEq, Eq)]
pub struct DnsState {
    pub running: Option<DnsClientState>,
    pub config: Option<DnsClientState>,
}

/// A snapshot of the state of a host.
#[derive(Debug, PartialEq, Eq)]
pub struct NetworkState {
    pub interfaces: Interfaces,
    pub dns: Option<DnsState>,
}

/// The host name of a host.
#[derive(Debug, PartialEq, Eq)]
pub struct HostNameState {
    pub running: Option<String>,
    pub config: Option<String>,
}

/// The desired and the current host name.
#[derive(Debug, PartialEq, Eq)]
pub struct MergedHostNameState {
    pub desired: Option<HostNameState>,
    pub current: Option<HostNameState>,
}

/// The desired and the current resolver, and what the resolver is to be.
#[derive(Debug, PartialEq, Eq)]
pub struct MergedDnsState {
    pub desired: Option<DnsState>,
    pub current: DnsState,
    pub servers: Vec<String>,
    pub searches: Vec<String>,
    pub options: Vec<String>,
}

/// One interface of a reconciliation: what is desired of it, what it is, and
/// the two merged. An interface that is newly created has no current value;
/// one that is left alone has no desired value.
#[derive(Debug, PartialEq, Eq)]
pub struct MergedInterface {
    pub desired: Option<Interface>,
    pub current: Option<Interface>,
    pub merged: Interface,
    /// What is to be applied; none where nothing changes.
    pub for_apply: Option<Interface>,
}

/// The interfaces of a reconciliation: those of the kernel, keyed by name,
/// and those of user space, keyed by name and kind.
#[derive(Debug, PartialEq, Eq)]
pub struct MergedInterfaces {
    pub kernel_ifaces: Vec<MergedInterface>,
    pub user_ifaces: Vec<MergedInterface>,
}

/// The state that a reconciliation works on.
#[derive(Debug, PartialEq, Eq)]
pub struct MergedNetworkState {
    pub interfaces: MergedInterfaces,
    pub hostname: MergedHostNameState,
    pub dns: MergedDnsState,
    pub routes: MergedRoutes,
    /// Whether nothing is to be stored beyond the next restart.
    pub memory_only: bool,
}

/// The default port VLAN of a bridge of the kernel.
pub open spec fn default_pvid(i: Interface) -> Option<u16> {
    match i {
        Interface::LinuxBridge(b) => match b.bridge {
            Some(c) => match c.options {
                Some(o) => o.vlan_default_pvid,
                None => None,
            },
            None => None,
        },
        _ => None,
    }
}

/// Whether a reconciliation changes the default port VLAN of a bridge: what
/// is applied is a bridge that sets one, and the current bridge has another
/// or none.
pub open spec fn default_pvid_changed(m: MergedInterface) -> bool {
    match (m.for_apply, m.current) {
        (Some(a), Some(c)) => a is LinuxBridge && c is LinuxBridge && default_pvid(a) is Some
            && default_pvid(a) != default_pvid(c),
        _ => false,
    }
}

/// What a bond says of its ports.
pub open spec fn ports_config(i: Interface) -> Seq<BondPortConfig> {
    match i {
        Interface::Bond(b) => match b.bond {
            Some(c) => match c.ports_config {
                Some(p) => p@,
                None => Seq::empty(),
            },
            None => Seq::empty(),
        },
        _ => Seq::empty(),
    }
}

/// Whether a bond gives a port this queue id.
pub open spec fn has_queue_id(ports: Seq<BondPortConfig>, name: Text, queue_id: u16) -> bool {
    exists|k: int|
        0 <= k < ports.len() && (#[trigger] ports[k]).name@ == name && ports[k].queue_id == Some(
            queue_id,
        )
}

/// Whether a reconciliation changes the queue id of a port of a bond: what
/// is applied gives the port a queue id that the current bond does not give
/// it.
pub open spec fn queue_id_changed(m: MergedInterface, p: BondPortConfig) -> bool {
    p.queue_id is Some && !(m.current is Some && has_queue_id(
        ports_config(m.current.unwrap()),
        p.name@,
        p.queue_id.unwrap(),
    ))
}

/// The names of the ports of a bond whose queue id a reconciliation
/// changes, in the order in which the bond lists them.
pub open spec fn changed_queue_ports(m: MergedInterface) -> Seq<Text> {
    match m.for_apply {
        Some(a) => ports_config(a).filter(|p: BondPortConfig| queue_id_changed(m, p)).map_values(
            |p: BondPortConfig| p.name@,
        ),
        None => Seq::empty(),
    }
}

fn pvid_of(i: &Interface) -> (p: Option<u16>)
    ensures
        p == default_pvid(*i),
{
    match i {
        Interface::LinuxBridge(b) => match &b.bridge {
            Some(c) => match c.options {
                Some(o) => o.vlan_default_pvid,
                None => None,
            },
            None => None,
        },
        _ => None,
    }
}

fn ports_of(i: &Interface) -> (p: Option<&Vec<BondPortConfig>>)
    ensures
        match p {
            Some(v) => v@ == ports_config(*i),
            None => ports_config(*i).len() == 0,
        },
{
    match i {
        Interface::Bond(b) => match &b.bond {
            Some(c) => match &c.ports_config {
                Some(p) => Some(p),
                None => None,
            },
            None => None,
        },
        _ => None,
    }
}

fn gives_queue_id(ports: &Vec<BondPortConfig>, name: &String, queue_id: u16) -> (b: bool)
    ensures
        b == has_queue_id(ports@, name@, queue_id),
{
    let mut k: usize = 0;
    while k < ports.len()
        invariant
            k <= ports.len(),
            forall|j: int|
                0 <= j < k ==> !((#[trigger] ports@[j]).name@ == name@ && ports@[j].queue_id
                    == Some(queue_id)),
        decreases ports.len() - k,
    {
        let same_queue = match ports[k].queue_id {
            Some(q) => q == queue_id,
            None => false,
        };
        if same_queue && string_eq(&ports[k].name, name) {
            return true;
        }
        k += 1;
    }
    false
}

impl MergedInterface {
    /// Whether the reconciliation changes the interface.
    pub fn is_changed(&self) -> (b: bool)
        ensures
            b == (self.for_apply is Some),
    {
        self.for_apply.is_some()
    }

    /// Whether the desired state speaks of the interface.
    pub fn is_desired(&self) -> (b: bool)
        ensures
            b == (self.desired is Some),
    {
        self.desired.is_some()
    }

    /// Whether the reconciliation changes the default port VLAN of a bridge.
    pub fn is_default_pvid_changed(&self) -> (b: bool)
        ensures
            b == default_pvid_changed(*self),
    {
        match &self.for_apply {
            Some(a) => match a {
                Interface::LinuxBridge(_) => match &self.current {
                    Some(c) => match c {
                        Interface::LinuxBridge(_) => {
                            let want = pvid_of(a);
                            let have = pvid_of(c);
                            want.is_some() && want != have
                        },
                        _ => false,
                    },
                    None => false,
                },
                _ => false,
            },
            None => false,
        }
    }

    /// The names of the ports of a bond whose queue id the reconciliation
    /// changes.
    pub fn get_bond_ports_with_queue_id_changed(&self) -> (names: Vec<&String>)
        ensures
            names.deep_view() == changed_queue_ports(*self),
    {
        let mut names: Vec<&String> = Vec::new();
        let ghost keep = |p: BondPortConfig| queue_id_changed(*self, p);
        let ghost name_of = |p: BondPortConfig| p.name@;
        if let Some(a) = &self.for_apply {
            if let Some(ports) = ports_of(a) {
                let mut k: usize = 0;
                proof {
                    reveal(Seq::filter);
                    assert(ports@.take(0).filter(keep) =~= Seq::<BondPortConfig>::empty());
                    assert(names.deep_view() =~= ports@.take(0).filter(keep).map_values(name_of));
                }
                while k < ports.len()
                    invariant
                        k <= ports.len(),
                        keep == (|p: BondPortConfig| queue_id_changed(*self, p)),
                        name_of == (|p: BondPortConfig| p.name@),
                        names.deep_view() == ports@.take(k as int).filter(keep).map_values(name_of),
                    decreases ports.len() - k,
                {
                    let p = &ports[k];
                    let changed = match p.queue_id {
                        Some(q) => {
                            let given = match &self.current {
                                Some(c) => match ports_of(c) {
                                    Some(cur) => gives_queue_id(cur, &p.name, q),
                                    None => false,
                                },
                                None => false,
                            };
                            !given
                        },
                        None => false,
                    };
                    proof {
                        reveal(Seq::filter);
                        assert(ports@.take(k as int + 1).drop_last() =~= ports@.take(k as int));
                        assert(ports@.take(k as int + 1).last() == *p);
                        assert(changed == keep(*p));
                    }
                    if changed {
                        let ghost before = names.deep_view();
                        names.push(&p.name);
                        assert(names.deep_view() =~= before.push(p.name@));
                        assert(names.deep_view() =~= ports@.take(k as int + 1).filter(
                            keep,
                        ).map_values(name_of));
                    }
                    k += 1;
                }
                assert(ports@.take(ports.len() as int) =~= ports@);
            } else {
                proof {
                    reveal(Seq::filter);
                    assert(names.deep_view() =~= changed_queue_ports(*self));
                }
            }
        } else {
            assert(names.deep_view() =~= changed_queue_ports(*self));
        }
        names
    }
}

} // verus!
