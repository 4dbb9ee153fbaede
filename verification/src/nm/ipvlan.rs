//! The IPVLAN setting of a profile.

use vstd::prelude::*;
use crate::error::{ErrorKind, NmError};
use crate::nm::value::{
    DbusDictionary, DbusValue, DbusValueView, as_bool, as_text, as_u32, discard, failure, found,
    of_bool, of_text, of_u32, or_else, put, read_bool, read_string, read_u32, with,
};
use crate::text::{Text, clone_opt_string};

verus! {

/// The IPVLAN setting of a profile.
#[derive(Debug, PartialEq)]
pub struct NmSettingIpVlan {
    pub parent: Option<String>,
    pub mode: Option<u32>,
    pub private: Option<bool>,
    pub vepa: Option<bool>,
    _other: DbusDictionary,
}

/// The mathematical form of `NmSettingIpVlan`; `other` holds the entries that
/// this library does not read.
pub struct NmSettingIpVlanView {
    pub parent: Option<Text>,
    pub mode: Option<u32>,
    pub private: Option<bool>,
    pub vepa: Option<bool>,
    pub other: Map<Text, DbusValueView>,
}

impl DeepView for NmSettingIpVlan {
    type V = NmSettingIpVlanView;

    closed spec fn deep_view(&self) -> NmSettingIpVlanView {
        NmSettingIpVlanView {
            parent: self.parent.deep_view(),
            mode: self.mode,
            private: self.private,
            vepa: self.vepa,
            other: self._other@,
        }
    }
}

impl View for NmSettingIpVlan {
    type V = NmSettingIpVlanView;

    open spec fn view(&self) -> NmSettingIpVlanView {
        self.deep_view()
    }
}

/// The keys that the setting reads, in the order of reading.
pub open spec fn ipvlan_keys() -> Seq<Text> {
    seq!["parent"@, "mode"@, "private"@, "vepa"@]
}

/// The first value of a dictionary that is not of the type the setting has
/// for it, in the order of reading.
pub open spec fn ipvlan_failure(d: Map<Text, DbusValueView>) -> Option<Text> {
    or_else(
        failure(d, "parent"@, |v: DbusValueView| as_text(v)),
        or_else(
            failure(d, "mode"@, |v: DbusValueView| as_u32(v)),
            or_else(
                failure(d, "private"@, |v: DbusValueView| as_bool(v)),
                failure(d, "vepa"@, |v: DbusValueView| as_bool(v)),
            ),
        ),
    )
}

/// The setting read from a dictionary in which every value read is of its
/// type.
pub open spec fn ipvlan_fields(d: Map<Text, DbusValueView>) -> NmSettingIpVlanView {
    NmSettingIpVlanView {
        parent: found(d, "parent"@, |v: DbusValueView| as_text(v)),
        mode: found(d, "mode"@, |v: DbusValueView| as_u32(v)),
        private: found(d, "private"@, |v: DbusValueView| as_bool(v)),
        vepa: found(d, "vepa"@, |v: DbusValueView| as_bool(v)),
        other: d.remove_keys(ipvlan_keys().to_set()),
    }
}

/// The dictionary that the setting is written as: an entry for each
/// attribute it has, and the entries that were kept when it was read, which
/// come out on top.
pub open spec fn ipvlan_map(s: NmSettingIpVlanView) -> Map<Text, DbusValueView> {
    with(
        with(
            with(with(Map::empty(), "parent"@, of_text(s.parent)), "mode"@, of_u32(s.mode)),
            "private"@,
            of_bool(s.private),
        ),
        "vepa"@,
        of_bool(s.vepa),
    ).union_prefer_right(s.other)
}

/// Whether two settings differ in what an active profile cannot take over:
/// the parent, the mode and its two flags.
pub open spec fn ipvlan_differs(a: NmSettingIpVlanView, b: NmSettingIpVlanView) -> bool {
    a.parent != b.parent || a.mode != b.mode || a.private != b.private || a.vepa != b.vepa
}

impl Default for NmSettingIpVlan {
    fn default() -> (s: Self)
        ensures
            s@ == ipvlan_fields(Map::empty()),
    {
        let s = NmSettingIpVlan {
            parent: None,
            mode: None,
            private: None,
            vepa: None,
            _other: DbusDictionary::new(),
        };
        assert(s@.other =~= ipvlan_fields(Map::empty()).other);
        s
    }
}

impl Clone for NmSettingIpVlan {
    fn clone(&self) -> (copy: Self)
        ensures
            copy@ == self@,
    {
        NmSettingIpVlan {
            parent: clone_opt_string(&self.parent),
            mode: self.mode,
            private: self.private,
            vepa: self.vepa,
            _other: self._other.clone(),
        }
    }
}

impl NmSettingIpVlan {
    /// Reads the setting from a dictionary of the profile backend. A value
    /// that is not of the type of its attribute is a fault of the backend;
    /// the first such value, in the order of reading, is reported.
    pub fn try_from(v: DbusDictionary) -> (r: Result<Self, NmError>)
        ensures
            match r {
                Ok(s) => ipvlan_failure(v@) is None && s@ == ipvlan_fields(v@),
                Err(e) => e.kind == ErrorKind::Bug && ipvlan_failure(v@) == Some(e.msg@),
            },
    {
        let mut v = v;
        let parent = match read_string(&v, "parent") {
            Ok(x) => x,
            Err(e) => {
                return Err(e);
            },
        };
        let mode = match read_u32(&v, "mode") {
            Ok(x) => x,
            Err(e) => {
                return Err(e);
            },
        };
        let private = match read_bool(&v, "private") {
            Ok(x) => x,
            Err(e) => {
                return Err(e);
            },
        };
        let vepa = match read_bool(&v, "vepa") {
            Ok(x) => x,
            Err(e) => {
                return Err(e);
            },
        };
        let ghost d = v@;
        discard(&mut v, "parent");
        discard(&mut v, "mode");
        discard(&mut v, "private");
        discard(&mut v, "vepa");
        proof {
            let keys = ipvlan_keys();
            assert(keys[0] == "parent"@);
            assert(keys[1] == "mode"@);
            assert(keys[2] == "private"@);
            assert(keys[3] == "vepa"@);
            assert(v@ =~= d.remove_keys(keys.to_set()));
        }
        Ok(NmSettingIpVlan { parent, mode, private, vepa, _other: v })
    }

    /// Writes the setting as a dictionary of the profile backend: an entry
    /// for each attribute it has, and the entries that were kept when it was
    /// read.
    pub fn to_value(&self) -> (d: DbusDictionary)
        ensures
            d@ == ipvlan_map(self@),
    {
        let mut ret = DbusDictionary::new();
        put(
            &mut ret,
            "parent",
            match &self.parent {
                Some(p) => Some(DbusValue::Str(p.clone())),
                None => None,
            },
        );
        put(
            &mut ret,
            "mode",
            match self.mode {
                Some(m) => Some(DbusValue::U32(m)),
                None => None,
            },
        );
        put(
            &mut ret,
            "private",
            match self.private {
                Some(b) => Some(DbusValue::Bool(b)),
                None => None,
            },
        );
        put(
            &mut ret,
            "vepa",
            match self.vepa {
                Some(b) => Some(DbusValue::Bool(b)),
                None => None,
            },
        );
        ret.extend(&self._other);
        ret
    }

    /// Whether two settings differ in what an active profile cannot take
    /// over.
    pub fn differs(&self, other: &NmSettingIpVlan) -> (b: bool)
        ensures
            b == ipvlan_differs(self@, other@),
    {
        !crate::text::opt_string_eq(&self.parent, &other.parent) || self.mode != other.mode
            || self.private != other.private || self.vepa != other.vepa
    }
}

} // verus!
