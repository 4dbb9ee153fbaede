//! Policy-routing rules as the profile backend holds them.

use vstd::prelude::*;
use vstd::std_specs::convert::FromSpecImpl;
use crate::error::NmError;
use crate::nm::value::{
    DbusDictionary, DbusEntries, DbusValueView, as_i32, as_text, as_u32, as_u8, discard, entry_of,
    failure, found, of_i32, of_text, of_u32, of_u8, or_else, push_dictionary, push_entry,
    read_i32, read_string, read_u32, read_u8, value_i32, value_text, value_u32, value_u8,
};
use crate::text::{Text, clone_opt_string, decimal, u64_to_string};

verus! {

/// The code of the action that drops silently.
pub const RTN_BLACKHOLE: u8 = 6;

/// The code of the action that answers "unreachable".
pub const RTN_UNREACHABLE: u8 = 7;

/// The code of the action that answers "prohibited".
pub const RTN_PROHIBIT: u8 = 8;

/// What a rule does with the traffic it matches.
#[derive(Debug, Clone, Copy, PartialEq, Eq, Structural)]
pub enum NmIpRouteRuleAction {
    Blackhole,
    Unreachable,
    Prohibit,
    Other(u8),
}

/// The action that a code stands for.
pub open spec fn action_of_code(v: u8) -> NmIpRouteRuleAction {
    if v == RTN_BLACKHOLE {
        NmIpRouteRuleAction::Blackhole
    } else if v == RTN_UNREACHABLE {
        NmIpRouteRuleAction::Unreachable
    } else if v == RTN_PROHIBIT {
        NmIpRouteRuleAction::Prohibit
    } else {
        NmIpRouteRuleAction::Other(v)
    }
}

/// The code of an action.
pub open spec fn code_of_action(a: NmIpRouteRuleAction) -> u8 {
    match a {
        NmIpRouteRuleAction::Blackhole => RTN_BLACKHOLE,
        NmIpRouteRuleAction::Unreachable => RTN_UNREACHABLE,
        NmIpRouteRuleAction::Prohibit => RTN_PROHIBIT,
        NmIpRouteRuleAction::Other(d) => d,
    }
}

/// The name of an action; a code where it has none.
pub open spec fn action_name(a: NmIpRouteRuleAction) -> Text {
    match a {
        NmIpRouteRuleAction::Blackhole => "blackhole"@,
        NmIpRouteRuleAction::Unreachable => "unreachable"@,
        NmIpRouteRuleAction::Prohibit => "prohibit"@,
        NmIpRouteRuleAction::Other(d) => decimal(d as nat),
    }
}

impl From<u8> for NmIpRouteRuleAction {
    fn from(v: u8) -> (a: Self)
        ensures
            a == action_of_code(v),
    {
        if v == RTN_BLACKHOLE {
            NmIpRouteRuleAction::Blackhole
        } else if v == RTN_UNREACHABLE {
            NmIpRouteRuleAction::Unreachable
        } else if v == RTN_PROHIBIT {
            NmIpRouteRuleAction::Prohibit
        } else {
            NmIpRouteRuleAction::Other(v)
        }
    }
}

impl FromSpecImpl<u8> for NmIpRouteRuleAction {
    open spec fn obeys_from_spec() -> bool {
        true
    }

    open spec fn from_spec(v: u8) -> Self {
        action_of_code(v)
    }
}

impl From<NmIpRouteRuleAction> for u8 {
    fn from(v: NmIpRouteRuleAction) -> (code: Self)
        ensures
            code == code_of_action(v),
    {
        match v {
            NmIpRouteRuleAction::Blackhole => RTN_BLACKHOLE,
            NmIpRouteRuleAction::Unreachable => RTN_UNREACHABLE,
            NmIpRouteRuleAction::Prohibit => RTN_PROHIBIT,
            NmIpRouteRuleAction::Other(d) => d,
        }
    }
}

impl FromSpecImpl<NmIpRouteRuleAction> for u8 {
    open spec fn obeys_from_spec() -> bool {
        true
    }

    open spec fn from_spec(v: NmIpRouteRuleAction) -> Self {
        code_of_action(v)
    }
}

impl NmIpRouteRuleAction {
    /// The name of the action; its code where it has none.
    pub fn to_string(&self) -> (s: String)
        ensures
            s@ == action_name(*self),
    {
        match self {
            NmIpRouteRuleAction::Blackhole => "blackhole".to_owned(),
            NmIpRouteRuleAction::Unreachable => "unreachable".to_owned(),
            NmIpRouteRuleAction::Prohibit => "prohibit".to_owned(),
            NmIpRouteRuleAction::Other(d) => u64_to_string(*d as u64),
        }
    }
}

/// A code read as an action and written back is the same code, and an action
/// written as a code and read back is the same action unless it is `Other`
/// with a code that has a name.
pub proof fn lemma_action_code_round_trip(v: u8, a: NmIpRouteRuleAction)
    ensures
        code_of_action(action_of_code(v)) == v,
        !(a matches NmIpRouteRuleAction::Other(d) && (d == RTN_BLACKHOLE || d == RTN_UNREACHABLE
            || d == RTN_PROHIBIT)) ==> action_of_code(code_of_action(a)) == a,
{
}

/// A policy-routing rule of a profile.
#[derive(Debug, PartialEq)]
pub struct NmIpRouteRule {
    pub family: Option<i32>,
    pub priority: Option<u32>,
    pub from: Option<String>,
    pub from_len: Option<u8>,
    pub to: Option<String>,
    pub to_len: Option<u8>,
    pub table: Option<u32>,
    pub fw_mark: Option<u32>,
    pub fw_mask: Option<u32>,
    pub iifname: Option<String>,
    pub action: Option<NmIpRouteRuleAction>,
    pub suppress_prefixlength: Option<i32>,
    _other: DbusDictionary,
}

/// The mathematical form of `NmIpRouteRule`; `other` holds, in their order,
/// the entries that this library does not read.
pub struct NmIpRouteRuleView {
    pub family: Option<i32>,
    pub priority: Option<u32>,
    pub from: Option<Text>,
    pub from_len: Option<u8>,
    pub to: Option<Text>,
    pub to_len: Option<u8>,
    pub table: Option<u32>,
    pub fw_mark: Option<u32>,
    pub fw_mask: Option<u32>,
    pub iifname: Option<Text>,
    pub action: Option<NmIpRouteRuleAction>,
    pub suppress_prefixlength: Option<i32>,
    pub other: Seq<(Text, DbusValueView)>,
}

impl DeepView for NmIpRouteRule {
    type V = NmIpRouteRuleView;

    closed spec fn deep_view(&self) -> NmIpRouteRuleView {
        NmIpRouteRuleView {
            family: self.family,
            priority: self.priority,
            from: self.from.deep_view(),
            from_len: self.from_len,
            to: self.to.deep_view(),
            to_len: self.to_len,
            table: self.table,
            fw_mark: self.fw_mark,
            fw_mask: self.fw_mask,
            iifname: self.iifname.deep_view(),
            action: self.action,
            suppress_prefixlength: self.suppress_prefixlength,
            other: self._other.spec_entries(),
        }
    }
}

impl View for NmIpRouteRule {
    type V = NmIpRouteRuleView;

    open spec fn view(&self) -> NmIpRouteRuleView {
        self.deep_view()
    }
}

/// The rule read from a dictionary in which every value read is of its type.
pub open spec fn rule_fields(d: Map<Text, DbusValueView>) -> NmIpRouteRuleView {
    NmIpRouteRuleView {
        family: found(d, "family"@, |v: DbusValueView| as_i32(v)),
        priority: found(d, "priority"@, |v: DbusValueView| as_u32(v)),
        from: found(d, "from"@, |v: DbusValueView| as_text(v)),
        from_len: found(d, "from-len"@, |v: DbusValueView| as_u8(v)),
        to: found(d, "to"@, |v: DbusValueView| as_text(v)),
        to_len: found(d, "to-len"@, |v: DbusValueView| as_u8(v)),
        table: found(d, "table"@, |v: DbusValueView| as_u32(v)),
        fw_mark: found(d, "fwmark"@, |v: DbusValueView| as_u32(v)),
        fw_mask: found(d, "fwmask"@, |v: DbusValueView| as_u32(v)),
        iifname: found(d, "iifname"@, |v: DbusValueView| as_text(v)),
        action: match found(d, "action"@, |v: DbusValueView| as_u8(v)) {
            Some(code) => Some(action_of_code(code)),
            None => None,
        },
        suppress_prefixlength: found(
            d,
            "suppress-prefixlength"@,
            |v: DbusValueView| as_i32(v),
        ),
        other: Seq::empty(),
    }
}

/// The first value of a dictionary that is not of the type a rule has for it,
/// in the order in which a rule is read.
pub open spec fn rule_failure(d: Map<Text, DbusValueView>) -> Option<Text> {
    or_else(
        failure(d, "family"@, |v: DbusValueView| as_i32(v)),
        or_else(
            failure(d, "priority"@, |v: DbusValueView| as_u32(v)),
            or_else(
                failure(d, "from"@, |v: DbusValueView| as_text(v)),
                or_else(
                    failure(d, "from-len"@, |v: DbusValueView| as_u8(v)),
                    or_else(
                        failure(d, "to"@, |v: DbusValueView| as_text(v)),
                        or_else(
                            failure(d, "to-len"@, |v: DbusValueView| as_u8(v)),
                            rule_failure_tail(d),
                        ),
                    ),
                ),
            ),
        ),
    )
}

/// The second half of `rule_failure`.
pub open spec fn rule_failure_tail(d: Map<Text, DbusValueView>) -> Option<Text> {
    or_else(
        failure(d, "table"@, |v: DbusValueView| as_u32(v)),
        or_else(
            failure(d, "fwmark"@, |v: DbusValueView| as_u32(v)),
            or_else(
                failure(d, "fwmask"@, |v: DbusValueView| as_u32(v)),
                or_else(
                    failure(d, "iifname"@, |v: DbusValueView| as_text(v)),
                    or_else(
                        failure(d, "action"@, |v: DbusValueView| as_u8(v)),
                        failure(d, "suppress-prefixlength"@, |v: DbusValueView| as_i32(v)),
                    ),
                ),
            ),
        ),
    )
}

/// The keys that a rule reads, in the order of reading.
pub open spec fn rule_keys() -> Seq<Text> {
    seq![
        "family"@,
        "priority"@,
        "from"@,
        "from-len"@,
        "to"@,
        "to-len"@,
        "table"@,
        "fwmark"@,
        "fwmask"@,
        "iifname"@,
        "action"@,
        "suppress-prefixlength"@,
    ]
}

/// The entries that a rule is written as: one for each attribute it has, in
/// the order of `rule_keys`, then those this library does not read.
pub open spec fn rule_entries(r: NmIpRouteRuleView) -> Seq<(Text, DbusValueView)> {
    entry_of("family"@, of_i32(r.family)) + entry_of("priority"@, of_u32(r.priority)) + entry_of(
        "from"@,
        of_text(r.from),
    ) + entry_of("from-len"@, of_u8(r.from_len)) + entry_of("to"@, of_text(r.to)) + entry_of(
        "to-len"@,
        of_u8(r.to_len),
    ) + entry_of("table"@, of_u32(r.table)) + entry_of("fwmark"@, of_u32(r.fw_mark)) + entry_of(
        "fwmask"@,
        of_u32(r.fw_mask),
    ) + entry_of("iifname"@, of_text(r.iifname)) + entry_of(
        "action"@,
        of_u8(
            match r.action {
                Some(a) => Some(code_of_action(a)),
                None => None,
            },
        ),
    ) + entry_of("suppress-prefixlength"@, of_i32(r.suppress_prefixlength)) + r.other
}

impl Default for NmIpRouteRule {
    fn default() -> (r: Self)
        ensures
            r@ == rule_fields(Map::empty()),
    {
        NmIpRouteRule {
            family: None,
            priority: None,
            from: None,
            from_len: None,
            to: None,
            to_len: None,
            table: None,
            fw_mark: None,
            fw_mask: None,
            iifname: None,
            action: None,
            suppress_prefixlength: None,
            _other: DbusDictionary::new(),
        }
    }
}

impl Clone for NmIpRouteRule {
    fn clone(&self) -> (copy: Self)
        ensures
            copy@ == self@,
    {
        NmIpRouteRule {
            family: self.family,
            priority: self.priority,
            from: clone_opt_string(&self.from),
            from_len: self.from_len,
            to: clone_opt_string(&self.to),
            to_len: self.to_len,
            table: self.table,
            fw_mark: self.fw_mark,
            fw_mask: self.fw_mask,
            iifname: clone_opt_string(&self.iifname),
            action: self.action,
            suppress_prefixlength: self.suppress_prefixlength,
            _other: self._other.clone(),
        }
    }
}

impl NmIpRouteRule {
    /// Reads a rule from a dictionary of the profile backend. Each attribute
    /// of a rule is read from its key where the key is there; the entries
    /// under other keys are kept as they are. A value that is not of the type
    /// of its attribute is a fault of the backend; the first such value, in
    /// the order of reading, is reported.
    pub fn try_from(v: DbusDictionary) -> (r: Result<Self, NmError>)
        ensures
            match r {
                Ok(rule) => {
                    &&& rule_failure(v@) is None
                    &&& rule@ == NmIpRouteRuleView { other: rule@.other, ..rule_fields(v@) }
                    &&& crate::strmap::entries_map(rule@.other) == v@.remove_keys(
                        rule_keys().to_set(),
                    )
                },
                Err(e) => e.kind == crate::error::ErrorKind::Bug && rule_failure(v@) == Some(
                    e.msg@,
                ),
            },
    {
        let mut v = v;
        let ghost d = v@;
        let family = match read_i32(&v, "family") {
            Ok(x) => x,
            Err(e) => {
                return Err(e);
            },
        };
        let priority = match read_u32(&v, "priority") {
            Ok(x) => x,
            Err(e) => {
                return Err(e);
            },
        };
        let from = match read_string(&v, "from") {
            Ok(x) => x,
            Err(e) => {
                return Err(e);
            },
        };
        let from_len = match read_u8(&v, "from-len") {
            Ok(x) => x,
            Err(e) => {
                return Err(e);
            },
        };
        let to = match read_string(&v, "to") {
            Ok(x) => x,
            Err(e) => {
                return Err(e);
            },
        };
        let to_len = match read_u8(&v, "to-len") {
            Ok(x) => x,
            Err(e) => {
                return Err(e);
            },
        };
        let table = match read_u32(&v, "table") {
            Ok(x) => x,
            Err(e) => {
                return Err(e);
            },
        };
        let fw_mark = match read_u32(&v, "fwmark") {
            Ok(x) => x,
            Err(e) => {
                return Err(e);
            },
        };
        let fw_mask = match read_u32(&v, "fwmask") {
            Ok(x) => x,
            Err(e) => {
                return Err(e);
            },
        };
        let iifname = match read_string(&v, "iifname") {
            Ok(x) => x,
            Err(e) => {
                return Err(e);
            },
        };
        let code = match read_u8(&v, "action") {
            Ok(x) => x,
            Err(e) => {
                return Err(e);
            },
        };
        let suppress_prefixlength = match read_i32(&v, "suppress-prefixlength") {
            Ok(x) => x,
            Err(e) => {
                return Err(e);
            },
        };
        let action = match code {
            Some(c) => Some(NmIpRouteRuleAction::from(c)),
            None => None,
        };
        drop_rule_keys(&mut v);
        Ok(
            NmIpRouteRule {
                family,
                priority,
                from,
                from_len,
                to,
                to_len,
                table,
                fw_mark,
                fw_mask,
                iifname,
                action,
                suppress_prefixlength,
                _other: v,
            },
        )
    }

    /// Writes a rule as the entries of a dictionary: one for each attribute
    /// it has, then those that were kept when the rule was read.
    pub fn to_value(&self) -> (entries: DbusEntries)
        ensures
            entries.deep_view() == rule_entries(self@),
    {
        let mut ret: DbusEntries = Vec::new();
        assert(ret.deep_view() =~= Seq::<(Text, DbusValueView)>::empty());
        push_entry(&mut ret, "family", value_i32(self.family));
        push_entry(&mut ret, "priority", value_u32(self.priority));
        push_entry(&mut ret, "from", value_text(&self.from));
        push_entry(&mut ret, "from-len", value_u8(self.from_len));
        push_entry(&mut ret, "to", value_text(&self.to));
        push_entry(&mut ret, "to-len", value_u8(self.to_len));
        push_entry(&mut ret, "table", value_u32(self.table));
        push_entry(&mut ret, "fwmark", value_u32(self.fw_mark));
        push_entry(&mut ret, "fwmask", value_u32(self.fw_mask));
        push_entry(&mut ret, "iifname", value_text(&self.iifname));
        let code = match self.action {
            Some(a) => Some(u8::from(a)),
            None => None,
        };
        push_entry(&mut ret, "action", value_u8(code));
        push_entry(&mut ret, "suppress-prefixlength", value_i32(self.suppress_prefixlength));
        push_dictionary(&mut ret, &self._other);
        assert(ret.deep_view() =~= rule_entries(self@));
        ret
    }
}

fn drop_rule_keys(v: &mut DbusDictionary)
    ensures
        final(v)@ == old(v)@.remove_keys(rule_keys().to_set()),
{
    discard(v, "family");
    discard(v, "priority");
    discard(v, "from");
    discard(v, "from-len");
    discard(v, "to");
    discard(v, "to-len");
    discard(v, "table");
    discard(v, "fwmark");
    discard(v, "fwmask");
    discard(v, "iifname");
    discard(v, "action");
    discard(v, "suppress-prefixlength");
    proof {
        let keys = rule_keys();
        assert(keys[0] == "family"@);
        assert(keys[1] == "priority"@);
        assert(keys[2] == "from"@);
        assert(keys[3] == "from-len"@);
        assert(keys[4] == "to"@);
        assert(keys[5] == "to-len"@);
        assert(keys[6] == "table"@);
        assert(keys[7] == "fwmark"@);
        assert(keys[8] == "fwmask"@);
        assert(keys[9] == "iifname"@);
        assert(keys[10] == "action"@);
        assert(keys[11] == "suppress-prefixlength"@);
        assert(v@ =~= old(v)@.remove_keys(keys.to_set()));
    }
}

/// Reads the rules of a profile from the dictionaries of the profile
/// backend, in their order. The first dictionary that is no rule is
/// reported, and nothing is returned.
pub fn parse_nm_ip_rule_data(value: Vec<DbusDictionary>) -> (r: Result<
    Vec<NmIpRouteRule>,
    NmError,
>)
    ensures
        match r {
            Ok(rules) => {
                &&& rules@.len() == value@.len()
                &&& forall|i: int|
                    0 <= i < rules@.len() ==> {
                        &&& rule_failure(#[trigger] value@[i]@) is None
                        &&& rules@[i]@ == NmIpRouteRuleView {
                            other: rules@[i]@.other,
                            ..rule_fields(value@[i]@)
                        }
                        &&& crate::strmap::entries_map(rules@[i]@.other) == value@[i]@.remove_keys(
                            rule_keys().to_set(),
                        )
                    }
            },
            Err(e) => exists|i: int|
                {
                    &&& 0 <= i < value@.len()
                    &&& e.kind == crate::error::ErrorKind::Bug
                    &&& rule_failure(#[trigger] value@[i]@) == Some(e.msg@)
                    &&& forall|j: int| 0 <= j < i ==> rule_failure(#[trigger] value@[j]@) is None
                },
        },
{
    let ghost all = value@;
    let mut rest = value;
    let mut rules: Vec<NmIpRouteRule> = Vec::new();
    let n = rest.len();
    let mut i: usize = 0;
    while i < n
        invariant
            i <= n,
            n == all.len(),
            all == value@,
            rest@ == all.skip(i as int),
            rules@.len() == i,
            forall|k: int|
                0 <= k < i ==> {
                    &&& rule_failure(#[trigger] all[k]@) is None
                    &&& rules@[k]@ == NmIpRouteRuleView {
                        other: rules@[k]@.other,
                        ..rule_fields(all[k]@)
                    }
                    &&& crate::strmap::entries_map(rules@[k]@.other) == all[k]@.remove_keys(
                        rule_keys().to_set(),
                    )
                },
        decreases n - i,
    {
        let dict = rest.remove(0);
        assert(dict == all[i as int]);
        assert(rest@ =~= all.skip(i as int + 1));
        match NmIpRouteRule::try_from(dict) {
            Ok(rule) => {
                rules.push(rule);
            },
            Err(e) => {
                proof {
                    let w = i as int;
                    assert(0 <= w < all.len());
                    assert(rule_failure(all[w]@) == Some(e.msg@));
                    assert(forall|j: int| 0 <= j < w ==> rule_failure(#[trigger] all[j]@) is None);
                }
                return Err(e);
            },
        }
        i += 1;
    }
    Ok(rules)
}

/// Writes the rules of a profile, each as the entries of a dictionary, in
/// their order.
pub fn nm_ip_rules_to_value(nm_rules: &Vec<NmIpRouteRule>) -> (values: Vec<DbusEntries>)
    ensures
        values.deep_view().len() == nm_rules@.len(),
        forall|i: int|
            0 <= i < nm_rules@.len() ==> #[trigger] values.deep_view()[i] == rule_entries(
                nm_rules@[i]@,
            ),
{
    let mut values: Vec<DbusEntries> = Vec::new();
    let mut i: usize = 0;
    while i < nm_rules.len()
        invariant
            i <= nm_rules.len(),
            values.deep_view().len() == i,
            forall|k: int|
                0 <= k < i ==> #[trigger] values.deep_view()[k] == rule_entries(nm_rules@[k]@),
        decreases nm_rules.len() - i,
    {
        let entries = nm_rules[i].to_value();
        let ghost before = values.deep_view();
        values.push(entries);
        assert(values.deep_view() =~= before.push(rule_entries(nm_rules@[i as int]@)));
        i += 1;
    }
    values
}

} // verus!
