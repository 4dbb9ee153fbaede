//! The veth setting of a profile.

use vstd::prelude::*;
use crate::error::{ErrorKind, NmError};
use crate::nm::value::{
    DbusDictionary, DbusValue, DbusValueView, as_text, discard, failure, found, of_text, put,
    read_string, with,
};
use crate::text::{Text, clone_opt_string};

verus! {

/// The veth setting of a profile.
#[derive(Debug, PartialEq)]
pub struct NmSettingVeth {
    pub peer: Option<String>,
    _other: DbusDictionary,
}

/// The mathematical form of `NmSettingVeth`; `other` holds the entries that
/// this library does not read.
pub struct NmSettingVethView {
    pub peer: Option<Text>,
    pub other: Map<Text, DbusValueView>,
}

impl DeepView for NmSettingVeth {
    type V = NmSettingVethView;

    closed spec fn deep_view(&self) -> NmSettingVethView {
        NmSettingVethView { peer: self.peer.deep_view(), other: self._other@ }
    }
}

impl View for NmSettingVeth {
    type V = NmSettingVethView;

    open spec fn view(&self) -> NmSettingVethView {
        self.deep_view()
    }
}

/// The setting read from a dictionary in which the peer, where there is one,
/// is a string.
pub open spec fn veth_fields(d: Map<Text, DbusValueView>) -> NmSettingVethView {
    NmSettingVethView {
        peer: found(d, "peer"@, |v: DbusValueView| as_text(v)),
        other: d.remove("peer"@),
    }
}

/// The dictionary that the setting is written as: an entry for the peer
/// where it has one, and the entries that were kept when it was read, which
/// come out on top.
pub open spec fn veth_map(s: NmSettingVethView) -> Map<Text, DbusValueView> {
    with(Map::empty(), "peer"@, of_text(s.peer)).union_prefer_right(s.other)
}

impl Default for NmSettingVeth {
    fn default() -> (s: Self)
        ensures
            s@ == veth_fields(Map::empty()),
    {
        let s = NmSettingVeth { peer: None, _other: DbusDictionary::new() };
        assert(s@.other =~= veth_fields(Map::empty()).other);
        s
    }
}

impl Clone for NmSettingVeth {
    fn clone(&self) -> (copy: Self)
        ensures
            copy@ == self@,
    {
        NmSettingVeth { peer: clone_opt_string(&self.peer), _other: self._other.clone() }
    }
}

impl NmSettingVeth {
    /// The other end of the pair.
    pub fn peer(&self) -> (p: &Option<String>)
        ensures
            p.deep_view() == self@.peer,
    {
        &self.peer
    }

    /// Reads the setting from a dictionary of the profile backend. A peer
    /// that is no string is a fault of the backend.
    pub fn try_from(v: DbusDictionary) -> (r: Result<Self, NmError>)
        ensures
            match r {
                Ok(s) => failure(v@, "peer"@, |v: DbusValueView| as_text(v)) is None && s@
                    == veth_fields(v@),
                Err(e) => e.kind == ErrorKind::Bug && failure(
                    v@,
                    "peer"@,
                    |v: DbusValueView| as_text(v),
                ) == Some(e.msg@),
            },
    {
        let mut v = v;
        let peer = match read_string(&v, "peer") {
            Ok(x) => x,
            Err(e) => {
                return Err(e);
            },
        };
        discard(&mut v, "peer");
        Ok(NmSettingVeth { peer, _other: v })
    }

    /// Writes the setting as a dictionary of the profile backend: an entry
    /// for the peer where it has one, and the entries that were kept when it
    /// was read.
    pub fn to_value(&self) -> (d: DbusDictionary)
        ensures
            d@ == veth_map(self@),
    {
        let mut ret = DbusDictionary::new();
        put(
            &mut ret,
            "peer",
            match &self.peer {
                Some(p) => Some(DbusValue::Str(p.clone())),
                None => None,
            },
        );
        ret.extend(&self._other);
        ret
    }
}

} // verus!
