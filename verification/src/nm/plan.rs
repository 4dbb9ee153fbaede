//! The order in which a reconciliation asks the profile backend.
//!
//! A profile that is activated while a conflicting one is still active
//! leaves two profiles on one device for a while; and a change of a VRF
//! table, of a VLAN or of the routes takes hold only once the device has
//! been let go. So what is taken down comes first, then what is stored, then
//! what is deleted, and what is brought up comes last.

use vstd::prelude::*;
use crate::fold::{collect_seq, lemma_collect_step};
use crate::nm::apply::{
    deactivated_first, gen_nm_conn_need_to_deactivate_first, pvid_bridge, queue_ports, referred,
    };
use crate::nm::connection::{
    NmActiveConnection, NmConnection, conn_iface_name, conn_iface_type, conn_uuid,
};
use crate::nm::iface_type::NmIfaceTypeView;
use crate::state::{MergedDnsState, MergedInterface, MergedNetworkState};
use crate::text::{Text, string_eq};

verus! {

/// The profiles that a reconciliation stores, activates and deactivates.
#[derive(Debug, PartialEq)]
pub struct PerparedNmConnections {
    pub to_store: Vec<NmConnection>,
    pub to_activate: Vec<NmConnection>,
    pub to_deactivate: Vec<NmConnection>,
}

/// One request to the profile backend.
#[derive(Debug, PartialEq, Eq)]
pub enum NmAction {
    /// Take down the profile with this UUID.
    Deactivate(String),
    /// Store the profile at this position among the profiles to store.
    Store(usize),
    /// Delete the profile with this UUID.
    Delete(String),
    /// Bring up the profile with this UUID.
    Activate(String),
    /// Run what the interfaces ask to be run after the change.
    Dispatch,
}

/// The mathematical form of `NmAction`.
pub enum NmActionView {
    Deactivate(Text),
    Store(int),
    Delete(Text),
    Activate(Text),
    Dispatch,
}

impl DeepView for NmAction {
    type V = NmActionView;

    open spec fn deep_view(&self) -> NmActionView {
        match self {
            NmAction::Deactivate(u) => NmActionView::Deactivate(u@),
            NmAction::Store(i) => NmActionView::Store(*i as int),
            NmAction::Delete(u) => NmActionView::Delete(u@),
            NmAction::Activate(u) => NmActionView::Activate(u@),
            NmAction::Dispatch => NmActionView::Dispatch,
        }
    }
}

/// Whether some activation has this UUID.
pub open spec fn is_active_uuid(acs: Seq<NmActiveConnection>, uuid: Text) -> bool {
    exists|k: int| 0 <= k < acs.len() && (#[trigger] acs[k]).uuid@ == uuid
}

/// A profile, where it is active.
pub open spec fn if_active(c: NmConnection, acs: Seq<NmActiveConnection>) -> Seq<NmConnection> {
    if conn_uuid(c) is Some && is_active_uuid(acs, conn_uuid(c).unwrap()) {
        seq![c]
    } else {
        Seq::empty()
    }
}

/// The profiles that are active, in the order of the profiles.
pub open spec fn active_conns(exist: Seq<NmConnection>, acs: Seq<NmActiveConnection>) -> Seq<
    NmConnection,
> {
    collect_seq(exist, |c: NmConnection| if_active(c, acs))
}

fn has_active_uuid(nm_acs: &Vec<NmActiveConnection>, uuid: &String) -> (b: bool)
    ensures
        b == is_active_uuid(nm_acs@, uuid@),
{
    let mut k: usize = 0;
    while k < nm_acs.len()
        invariant
            k <= nm_acs.len(),
            forall|j: int| 0 <= j < k ==> (#[trigger] nm_acs@[j]).uuid@ != uuid@,
        decreases nm_acs.len() - k,
    {
        if string_eq(&nm_acs[k].uuid, uuid) {
            return true;
        }
        k += 1;
    }
    false
}

/// The profiles that are active, in the order of the profiles.
pub fn activated_nm_conns<'a>(
    exist_nm_conns: &'a Vec<NmConnection>,
    nm_acs: &Vec<NmActiveConnection>,
) -> (active: Vec<&'a NmConnection>)
    ensures
        referred(active@) == active_conns(exist_nm_conns@, nm_acs@),
{
    let ghost f = |c: NmConnection| if_active(c, nm_acs@);
    let mut active: Vec<&'a NmConnection> = Vec::new();
    let mut k: usize = 0;
    assert(referred(active@) =~= collect_seq(exist_nm_conns@.take(0), f));
    while k < exist_nm_conns.len()
        invariant
            k <= exist_nm_conns.len(),
            f == (|c: NmConnection| if_active(c, nm_acs@)),
            referred(active@) == collect_seq(exist_nm_conns@.take(k as int), f),
        decreases exist_nm_conns.len() - k,
    {
        let c = &exist_nm_conns[k];
        proof {
            lemma_collect_step(exist_nm_conns@, f, k as int);
        }
        let ghost before = referred(active@);
        let is_active = match c.uuid() {
            Some(u) => has_active_uuid(nm_acs, u),
            None => false,
        };
        if is_active {
            active.push(c);
            assert(referred(active@) =~= before + seq![*c]);
        } else {
            assert(referred(active@) =~= before + Seq::<NmConnection>::empty());
        }
        k += 1;
    }
    assert(exist_nm_conns@.take(exist_nm_conns.len() as int) =~= exist_nm_conns@);
    active
}

/// Whether some profile to store has this UUID.
pub open spec fn stored_uuid(stored: Seq<NmConnection>, uuid: Text) -> bool {
    exists|k: int| 0 <= k < stored.len() && conn_uuid(#[trigger] stored[k]) == Some(uuid)
}

/// Whether some profile to store is for this interface name and kind.
pub open spec fn stored_iface(stored: Seq<NmConnection>, name: Text, t: NmIfaceTypeView) -> bool {
    exists|k: int|
        0 <= k < stored.len() && conn_iface_name(#[trigger] stored[k]) == Some(name)
            && conn_iface_type(stored[k]) == Some(t)
}

/// The UUID of an existing profile, where a profile with another UUID is
/// stored for its interface: the existing one is in the way.
pub open spec fn replaced_uuid(c: NmConnection, stored: Seq<NmConnection>) -> Seq<Text> {
    if conn_uuid(c) is Some && conn_iface_name(c) is Some && conn_iface_type(c) is Some
        && !stored_uuid(stored, conn_uuid(c).unwrap()) && stored_iface(
        stored,
        conn_iface_name(c).unwrap(),
        conn_iface_type(c).unwrap(),
    ) {
        seq![conn_uuid(c).unwrap()]
    } else {
        Seq::empty()
    }
}

fn has_stored_uuid(stored: &Vec<NmConnection>, uuid: &String) -> (b: bool)
    ensures
        b == stored_uuid(stored@, uuid@),
{
    let mut k: usize = 0;
    while k < stored.len()
        invariant
            k <= stored.len(),
            forall|j: int| 0 <= j < k ==> conn_uuid(#[trigger] stored@[j]) != Some(uuid@),
        decreases stored.len() - k,
    {
        let same = match stored[k].uuid() {
            Some(u) => string_eq(u, uuid),
            None => false,
        };
        if same {
            return true;
        }
        k += 1;
    }
    false
}

fn has_stored_iface(stored: &Vec<NmConnection>, name: &String, t: &crate::nm::iface_type::NmIfaceType) -> (b:
    bool)
    ensures
        b == stored_iface(stored@, name@, t@),
{
    let mut k: usize = 0;
    while k < stored.len()
        invariant
            k <= stored.len(),
            forall|j: int|
                0 <= j < k ==> !(conn_iface_name(#[trigger] stored@[j]) == Some(name@)
                    && conn_iface_type(stored@[j]) == Some(t@)),
        decreases stored.len() - k,
    {
        let named = match stored[k].iface_name() {
            Some(n) => string_eq(n, name),
            None => false,
        };
        let typed = match stored[k].iface_type() {
            Some(st) => st.same(t),
            None => false,
        };
        if named && typed {
            return true;
        }
        k += 1;
    }
    false
}

/// The UUIDs of the existing profiles that are in the way of the profiles to
/// store, in the order of the existing profiles: each is for an interface
/// for which a profile with another UUID is stored.
pub fn delete_exist_profiles(
    exist_nm_conns: &Vec<NmConnection>,
    nm_conns_to_store: &Vec<NmConnection>,
) -> (uuids: Vec<String>)
    ensures
        uuids.deep_view() == collect_seq(
            exist_nm_conns@,
            |c: NmConnection| replaced_uuid(c, nm_conns_to_store@),
        ),
{
    let ghost f = |c: NmConnection| replaced_uuid(c, nm_conns_to_store@);
    let mut uuids: Vec<String> = Vec::new();
    let mut k: usize = 0;
    assert(uuids.deep_view() =~= collect_seq(exist_nm_conns@.take(0), f));
    while k < exist_nm_conns.len()
        invariant
            k <= exist_nm_conns.len(),
            f == (|c: NmConnection| replaced_uuid(c, nm_conns_to_store@)),
            uuids.deep_view() == collect_seq(exist_nm_conns@.take(k as int), f),
        decreases exist_nm_conns.len() - k,
    {
        let c = &exist_nm_conns[k];
        proof {
            lemma_collect_step(exist_nm_conns@, f, k as int);
        }
        let ghost before = uuids.deep_view();
        let mut pushed = false;
        if let Some(uuid) = c.uuid() {
            if let Some(name) = c.iface_name() {
                if let Some(t) = c.iface_type() {
                    if !has_stored_uuid(nm_conns_to_store, uuid) && has_stored_iface(
                        nm_conns_to_store,
                        name,
                        t,
                    ) {
                        uuids.push(uuid.clone());
                        pushed = true;
                        assert(uuids.deep_view() =~= before + seq![uuid@]);
                    }
                }
            }
        }
        if !pushed {
            assert(uuids.deep_view() =~= before + Seq::<Text>::empty());
        }
        k += 1;
    }
    assert(exist_nm_conns@.take(exist_nm_conns.len() as int) =~= exist_nm_conns@);
    uuids
}

/// The request to take down a profile; none for a profile without UUID.
pub open spec fn deactivation(c: NmConnection) -> Seq<NmActionView> {
    match conn_uuid(c) {
        Some(u) => seq![NmActionView::Deactivate(u)],
        None => Seq::empty(),
    }
}

/// The request to bring up a profile; none for a profile without UUID.
pub open spec fn activation(c: NmConnection) -> Seq<NmActionView> {
    match conn_uuid(c) {
        Some(u) => seq![NmActionView::Activate(u)],
        None => Seq::empty(),
    }
}

/// The requests to take down profiles, in their order.
pub open spec fn deactivations(conns: Seq<NmConnection>) -> Seq<NmActionView> {
    collect_seq(conns, |c: NmConnection| deactivation(c))
}

/// The requests to bring up profiles, in their order.
pub open spec fn activations(conns: Seq<NmConnection>) -> Seq<NmActionView> {
    collect_seq(conns, |c: NmConnection| activation(c))
}

/// The requests to store the first `n` of the profiles to store.
pub open spec fn stores(n: nat) -> Seq<NmActionView> {
    Seq::new(n, |i: int| NmActionView::Store(i))
}

/// The requests to delete profiles, in their order.
pub open spec fn deletions(uuids: Seq<Text>) -> Seq<NmActionView> {
    Seq::new(uuids.len(), |i: int| NmActionView::Delete(uuids[i]))
}

/// The requests of a reconciliation once the interfaces to remove are gone,
/// in their order: take down the active profiles that cannot be changed in
/// place; store the profiles; unless nothing is to last, delete the
/// existing profiles that are in the way and the orphaned ports of Open
/// vSwitch; bring up the profiles to activate; take down the profiles to
/// deactivate; run what the interfaces ask to be run.
pub open spec fn apply_plan(
    s: MergedNetworkState,
    exist: Seq<NmConnection>,
    acs: Seq<NmActiveConnection>,
    prepared: PerparedNmConnections,
    orphan_ovs_ports: Seq<Text>,
) -> Seq<NmActionView> {
    deactivations(
        deactivated_first(
            prepared.to_activate@,
            active_conns(exist, acs),
            collect_seq(s.interfaces.kernel_ifaces@, |m: MergedInterface| pvid_bridge(m)),
            collect_seq(s.interfaces.kernel_ifaces@, |m: MergedInterface| queue_ports(m)),
        ),
    ) + stores(prepared.to_store@.len()) + (if s.memory_only {
        Seq::empty()
    } else {
        deletions(
            collect_seq(exist, |c: NmConnection| replaced_uuid(c, prepared.to_store@)),
        ) + deletions(orphan_ovs_ports)
    }) + activations(prepared.to_activate@) + deactivations(prepared.to_deactivate@)
        + seq![NmActionView::Dispatch]
}

fn push_deactivations(plan: &mut Vec<NmAction>, conns: &Vec<&NmConnection>)
    ensures
        final(plan).deep_view() == old(plan).deep_view() + deactivations(referred(conns@)),
{
    let ghost before = plan.deep_view();
    let ghost f = |c: NmConnection| deactivation(c);
    let ghost all = referred(conns@);
    let mut k: usize = 0;
    assert(plan.deep_view() =~= before + collect_seq(all.take(0), f));
    while k < conns.len()
        invariant
            k <= conns.len(),
            all == referred(conns@),
            f == (|c: NmConnection| deactivation(c)),
            plan.deep_view() == before + collect_seq(all.take(k as int), f),
        decreases conns.len() - k,
    {
        proof {
            lemma_collect_step(all, f, k as int);
        }
        let ghost prev = plan.deep_view();
        if let Some(u) = conns[k].uuid() {
            plan.push(NmAction::Deactivate(u.clone()));
            assert(plan.deep_view() =~= prev + deactivation(all[k as int]));
        } else {
            assert(plan.deep_view() =~= prev + deactivation(all[k as int]));
        }
        k += 1;
    }
    assert(all.take(conns.len() as int) =~= all);
}

fn push_owned(plan: &mut Vec<NmAction>, conns: &Vec<NmConnection>, up: bool)
    ensures
        final(plan).deep_view() == old(plan).deep_view() + (if up {
            activations(conns@)
        } else {
            deactivations(conns@)
        }),
{
    let ghost before = plan.deep_view();
    let ghost f = if up {
        |c: NmConnection| activation(c)
    } else {
        |c: NmConnection| deactivation(c)
    };
    let mut k: usize = 0;
    assert(plan.deep_view() =~= before + collect_seq(conns@.take(0), f));
    while k < conns.len()
        invariant
            k <= conns.len(),
            f == (if up {
                |c: NmConnection| activation(c)
            } else {
                |c: NmConnection| deactivation(c)
            }),
            plan.deep_view() == before + collect_seq(conns@.take(k as int), f),
        decreases conns.len() - k,
    {
        proof {
            lemma_collect_step(conns@, f, k as int);
        }
        let ghost prev = plan.deep_view();
        if let Some(u) = conns[k].uuid() {
            if up {
                plan.push(NmAction::Activate(u.clone()));
            } else {
                plan.push(NmAction::Deactivate(u.clone()));
            }
            assert(plan.deep_view() =~= prev + f(conns@[k as int]));
        } else {
            assert(plan.deep_view() =~= prev + f(conns@[k as int]));
        }
        k += 1;
    }
    assert(conns@.take(conns.len() as int) =~= conns@);
}

fn push_stores(plan: &mut Vec<NmAction>, n: usize)
    ensures
        final(plan).deep_view() == old(plan).deep_view() + stores(n as nat),
{
    let ghost before = plan.deep_view();
    let mut k: usize = 0;
    assert(plan.deep_view() =~= before + stores(0));
    while k < n
        invariant
            k <= n,
            plan.deep_view() == before + stores(k as nat),
        decreases n - k,
    {
        let ghost prev = plan.deep_view();
        plan.push(NmAction::Store(k));
        assert(plan.deep_view() =~= prev.push(NmActionView::Store(k as int)));
        assert(stores((k + 1) as nat) =~= stores(k as nat).push(NmActionView::Store(k as int)));
        assert(plan.deep_view() =~= before + stores((k + 1) as nat));
        k += 1;
    }
}

fn push_deletions(plan: &mut Vec<NmAction>, uuids: &Vec<String>)
    ensures
        final(plan).deep_view() == old(plan).deep_view() + deletions(uuids.deep_view()),
{
    let ghost before = plan.deep_view();
    let ghost all = uuids.deep_view();
    let mut k: usize = 0;
    assert(plan.deep_view() =~= before + deletions(all.take(0)));
    while k < uuids.len()
        invariant
            k <= uuids.len(),
            all == uuids.deep_view(),
            plan.deep_view() == before + deletions(all.take(k as int)),
        decreases uuids.len() - k,
    {
        let ghost prev = plan.deep_view();
        plan.push(NmAction::Delete(uuids[k].clone()));
        assert(plan.deep_view() =~= prev.push(NmActionView::Delete(all[k as int])));
        assert(deletions(all.take(k as int + 1)) =~= deletions(all.take(k as int)).push(
            NmActionView::Delete(all[k as int]),
        ));
        assert(plan.deep_view() =~= before + deletions(all.take(k as int + 1)));
        k += 1;
    }
    assert(all.take(uuids.len() as int) =~= all);
}

/// The requests of a reconciliation once the interfaces to remove are gone,
/// in the order in which the backend is to be asked. `orphan_ovs_port_uuids`
/// names the port profiles of Open vSwitch that the change leaves without
/// interface. A request that fails ends the reconciliation: nothing is tried
/// again, and nothing that was done is undone.
pub fn nm_apply(
    merged_state: &MergedNetworkState,
    exist_nm_conns: &Vec<NmConnection>,
    nm_acs: &Vec<NmActiveConnection>,
    prepared: &PerparedNmConnections,
    orphan_ovs_port_uuids: &Vec<String>,
) -> (plan: Vec<NmAction>)
    ensures
        plan.deep_view() == apply_plan(
            *merged_state,
            exist_nm_conns@,
            nm_acs@,
            *prepared,
            orphan_ovs_port_uuids.deep_view(),
        ),
{
    let mut plan: Vec<NmAction> = Vec::new();
    assert(plan.deep_view() =~= Seq::<NmActionView>::empty());
    let activated = activated_nm_conns(exist_nm_conns, nm_acs);
    let deactivate_first = gen_nm_conn_need_to_deactivate_first(
        &merged_state.interfaces,
        &prepared.to_activate,
        &activated,
    );
    push_deactivations(&mut plan, &deactivate_first);
    push_stores(&mut plan, prepared.to_store.len());
    if !merged_state.memory_only {
        let in_the_way = delete_exist_profiles(exist_nm_conns, &prepared.to_store);
        push_deletions(&mut plan, &in_the_way);
        push_deletions(&mut plan, orphan_ovs_port_uuids);
    }
    push_owned(&mut plan, &prepared.to_activate, true);
    push_owned(&mut plan, &prepared.to_deactivate, false);
    let ghost prev = plan.deep_view();
    plan.push(NmAction::Dispatch);
    assert(plan.deep_view() =~= prev + seq![NmActionView::Dispatch]);
    assert(plan.deep_view() =~= apply_plan(
        *merged_state,
        exist_nm_conns@,
        nm_acs@,
        *prepared,
        orphan_ovs_port_uuids.deep_view(),
    ));
    plan
}

/// One step of a reconciliation.
#[derive(Debug, Clone, Copy, PartialEq, Eq, Structural)]
pub enum ApplyStep {
    /// Look at the version of the backend.
    CheckVersion,
    /// Have the backend keep a checkpoint to go back to.
    SetCheckpoint,
    /// Delete the profiles and devices of the interfaces that are removed.
    DeleteAbsentInterfaces,
    /// Set the host name.
    SetHostname,
    /// Ask the backend for its profiles, activations and devices.
    QueryBackend,
    /// Put the routes into the profiles.
    StoreRoutes,
    /// Put the routing rules into the profiles.
    StoreRouteRules,
    /// Decide where the resolver goes, and put it there.
    ResolveDns,
    /// Build the profiles to store, to activate and to deactivate.
    PrepareProfiles,
    /// Run the requests of `nm_apply`.
    RunRequests,
}

/// The steps of a reconciliation, in their order: what is removed goes
/// first, unless nothing is to last; then the host name, where one is to be
/// set; then the state of the backend is asked for, the routes, the rules
/// and the resolver are settled, the profiles are built, and the requests
/// are run.
pub open spec fn steps_of(s: MergedNetworkState) -> Seq<ApplyStep> {
    seq![ApplyStep::CheckVersion, ApplyStep::SetCheckpoint] + (if s.memory_only {
        Seq::empty()
    } else {
        seq![ApplyStep::DeleteAbsentInterfaces]
    }) + (if hostname_wanted(s) is Some {
        seq![ApplyStep::SetHostname]
    } else {
        Seq::empty()
    }) + seq![
        ApplyStep::QueryBackend,
        ApplyStep::StoreRoutes,
        ApplyStep::StoreRouteRules,
        ApplyStep::ResolveDns,
        ApplyStep::PrepareProfiles,
        ApplyStep::RunRequests,
    ]
}

/// The steps of a reconciliation, in their order. A step that fails ends
/// the reconciliation.
pub fn apply_steps(merged_state: &MergedNetworkState) -> (steps: Vec<ApplyStep>)
    ensures
        steps@ == steps_of(*merged_state),
{
    let mut steps: Vec<ApplyStep> = Vec::new();
    steps.push(ApplyStep::CheckVersion);
    steps.push(ApplyStep::SetCheckpoint);
    if !merged_state.memory_only {
        steps.push(ApplyStep::DeleteAbsentInterfaces);
    }
    if hostname_to_set(merged_state).is_some() {
        steps.push(ApplyStep::SetHostname);
    }
    steps.push(ApplyStep::QueryBackend);
    steps.push(ApplyStep::StoreRoutes);
    steps.push(ApplyStep::StoreRouteRules);
    steps.push(ApplyStep::ResolveDns);
    steps.push(ApplyStep::PrepareProfiles);
    steps.push(ApplyStep::RunRequests);
    assert(steps@ =~= steps_of(*merged_state));
    steps
}

/// The host name to set: the one that is desired, unless nothing is to last.
pub open spec fn hostname_wanted(s: MergedNetworkState) -> Option<Text> {
    if s.memory_only {
        None
    } else {
        match s.hostname.desired {
            Some(h) => h.config.deep_view(),
            None => None,
        }
    }
}

/// The host name to set: the one that is desired. Where nothing is to last
/// the host name cannot be changed, and none is set.
pub fn hostname_to_set(merged_state: &MergedNetworkState) -> (name: Option<&String>)
    ensures
        name.deep_view() == hostname_wanted(*merged_state),
{
    if merged_state.memory_only {
        return None;
    }
    match &merged_state.hostname.desired {
        Some(h) => h.config.as_ref(),
        None => None,
    }
}

/// How the resolver is set.
#[derive(Debug, Clone, Copy, PartialEq, Eq, Structural)]
pub enum DnsPolicy {
    /// The resolver stays as it is.
    Keep,
    /// The search domains and options go to an interface: the global
    /// resolver would keep name servers from being learnt.
    IfaceSearchOnly,
    /// The resolver goes to an interface, and to the global resolver where
    /// no interface takes it.
    IfaceElseGlobal,
    /// Nothing is left of the resolver, on the interfaces either.
    Purge,
    /// The resolver is set globally.
    Global,
}

/// What an optional list of strings holds; nothing where there is none.
pub open spec fn texts_or_none(l: Option<Vec<String>>) -> Seq<Text> {
    match l {
        Some(v) => v.deep_view(),
        None => Seq::empty(),
    }
}

/// Whether the resolver is to be something else than what is configured.
pub open spec fn dns_changed(d: MergedDnsState) -> bool {
    match d.current.config {
        Some(c) => d.servers.deep_view() != texts_or_none(c.server) || d.searches.deep_view()
            != texts_or_none(c.search) || d.options.deep_view() != texts_or_none(c.options),
        None => d.servers@.len() > 0 || d.searches@.len() > 0 || d.options@.len() > 0,
    }
}

/// How the resolver is set. It stays as it is where nothing changes, nothing
/// is desired of it and the interfaces that hold it now can go on holding
/// it. Else what is set globally is purged first; then search domains and
/// options without name servers go to an interface; a resolver that an
/// interface is to hold goes there; an empty resolver is purged; and any
/// other is set globally.
pub open spec fn dns_policy_of(d: MergedDnsState, cur_ifaces_valid: bool, iface_desired: bool) -> DnsPolicy {
    if !(dns_changed(d) || d.desired is Some || !cur_ifaces_valid) {
        DnsPolicy::Keep
    } else if d.servers@.len() == 0 && (d.searches@.len() > 0 || d.options@.len() > 0) {
        DnsPolicy::IfaceSearchOnly
    } else if iface_desired {
        DnsPolicy::IfaceElseGlobal
    } else if d.servers@.len() == 0 && d.searches@.len() == 0 && d.options@.len() == 0 {
        DnsPolicy::Purge
    } else {
        DnsPolicy::Global
    }
}

impl DnsPolicy {
    /// Whether what is set globally is purged before the resolver is set:
    /// always, unless the resolver stays as it is.
    pub fn purges_global(&self) -> (b: bool)
        ensures
            b == (*self != DnsPolicy::Keep),
    {
        match self {
            DnsPolicy::Keep => false,
            _ => true,
        }
    }
}

fn same_texts(a: &Vec<String>, b: &Option<Vec<String>>) -> (eq: bool)
    ensures
        eq == (a.deep_view() == texts_or_none(*b)),
{
    match b {
        Some(v) => {
            if a.len() != v.len() {
                assert(a.deep_view().len() != v.deep_view().len());
                return false;
            }
            let mut k: usize = 0;
            while k < a.len()
                invariant
                    k <= a.len(),
                    a.len() == v.len(),
                    texts_or_none(*b) == v.deep_view(),
                    forall|j: int| 0 <= j < k ==> a.deep_view()[j] == v.deep_view()[j],
                decreases a.len() - k,
            {
                if !string_eq(&a[k], &v[k]) {
                    assert(a.deep_view()[k as int] != v.deep_view()[k as int]);
                    return false;
                }
                k += 1;
            }
            assert(a.deep_view() =~= v.deep_view());
            true
        },
        None => {
            if a.len() == 0 {
                assert(a.deep_view() =~= Seq::<Text>::empty());
                true
            } else {
                assert(a.deep_view().len() > 0);
                false
            }
        },
    }
}

/// How the resolver is set. `cur_dns_ifaces_still_valid` says whether the
/// interfaces that hold the resolver now can go on holding it, and
/// `iface_dns_desired` whether an interface is to hold it.
pub fn dns_policy(
    dns: &MergedDnsState,
    cur_dns_ifaces_still_valid: bool,
    iface_dns_desired: bool,
) -> (policy: DnsPolicy)
    ensures
        policy == dns_policy_of(*dns, cur_dns_ifaces_still_valid, iface_dns_desired),
{
    let changed = match &dns.current.config {
        Some(c) => !same_texts(&dns.servers, &c.server) || !same_texts(&dns.searches, &c.search)
            || !same_texts(&dns.options, &c.options),
        None => dns.servers.len() > 0 || dns.searches.len() > 0 || dns.options.len() > 0,
    };
    if !(changed || dns.desired.is_some() || !cur_dns_ifaces_still_valid) {
        DnsPolicy::Keep
    } else if dns.servers.len() == 0 && (dns.searches.len() > 0 || dns.options.len() > 0) {
        DnsPolicy::IfaceSearchOnly
    } else if iface_dns_desired {
        DnsPolicy::IfaceElseGlobal
    } else if dns.servers.len() == 0 && dns.searches.len() == 0 && dns.options.len() == 0 {
        DnsPolicy::Purge
    } else {
        DnsPolicy::Global
    }
}

} // verus!
