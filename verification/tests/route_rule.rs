use nmstate::error::ErrorKind;
use nmstate::nm::route_rule::{
    nm_ip_rules_to_value, parse_nm_ip_rule_data, NmIpRouteRule, NmIpRouteRuleAction,
};
use nmstate::nm::value::{DbusDictionary, DbusValue};

fn dict(entries: Vec<(&str, DbusValue)>) -> DbusDictionary {
    let mut d = DbusDictionary::new();
    for (k, v) in entries {
        d.insert(k.to_string(), v);
    }
    d
}

fn unread() -> zvariant::OwnedValue {
    zvariant::OwnedValue::from(zvariant::Value::I64(-5))
}

fn full() -> DbusDictionary {
    dict(vec![
        ("priority", DbusValue::U32(100)),
        ("family", DbusValue::I32(2)),
        ("x-unknown", DbusValue::Other(unread())),
        ("from", DbusValue::Str("192.0.2.0".to_string())),
        ("from-len", DbusValue::U8(24)),
        ("to", DbusValue::Str("198.51.100.0".to_string())),
        ("to-len", DbusValue::U8(25)),
        ("table", DbusValue::U32(50)),
        ("fwmark", DbusValue::U32(7)),
        ("fwmask", DbusValue::U32(0xff)),
        ("iifname", DbusValue::Str("eth1".to_string())),
        ("action", DbusValue::U8(6)),
        ("suppress-prefixlength", DbusValue::I32(8)),
        ("y-unknown", DbusValue::Bool(true)),
    ])
}

#[test]
fn action_codes() {
    assert_eq!(NmIpRouteRuleAction::from(6), NmIpRouteRuleAction::Blackhole);
    assert_eq!(NmIpRouteRuleAction::from(7), NmIpRouteRuleAction::Unreachable);
    assert_eq!(NmIpRouteRuleAction::from(8), NmIpRouteRuleAction::Prohibit);
    assert_eq!(NmIpRouteRuleAction::from(0), NmIpRouteRuleAction::Other(0));
    assert_eq!(NmIpRouteRuleAction::from(9), NmIpRouteRuleAction::Other(9));
    assert_eq!(u8::from(NmIpRouteRuleAction::Blackhole), 6);
    assert_eq!(u8::from(NmIpRouteRuleAction::Unreachable), 7);
    assert_eq!(u8::from(NmIpRouteRuleAction::Prohibit), 8);
    assert_eq!(u8::from(NmIpRouteRuleAction::Other(200)), 200);
    for code in 0..=255u8 {
        assert_eq!(u8::from(NmIpRouteRuleAction::from(code)), code);
    }
}

#[test]
fn action_names() {
    assert_eq!(NmIpRouteRuleAction::Blackhole.to_string(), "blackhole");
    assert_eq!(NmIpRouteRuleAction::Unreachable.to_string(), "unreachable");
    assert_eq!(NmIpRouteRuleAction::Prohibit.to_string(), "prohibit");
    assert_eq!(NmIpRouteRuleAction::Other(12).to_string(), "12");
}

#[test]
fn rule_is_read_from_its_dictionary() {
    let rule = NmIpRouteRule::try_from(full()).unwrap();
    assert_eq!(rule.family, Some(2));
    assert_eq!(rule.priority, Some(100));
    assert_eq!(rule.from, Some("192.0.2.0".to_string()));
    assert_eq!(rule.from_len, Some(24));
    assert_eq!(rule.to, Some("198.51.100.0".to_string()));
    assert_eq!(rule.to_len, Some(25));
    assert_eq!(rule.table, Some(50));
    assert_eq!(rule.fw_mark, Some(7));
    assert_eq!(rule.fw_mask, Some(0xff));
    assert_eq!(rule.iifname, Some("eth1".to_string()));
    assert_eq!(rule.action, Some(NmIpRouteRuleAction::Blackhole));
    assert_eq!(rule.suppress_prefixlength, Some(8));
}

#[test]
fn rule_is_written_in_the_order_of_its_attributes() {
    let rule = NmIpRouteRule::try_from(full()).unwrap();
    let entries = rule.to_value();
    let keys: Vec<&str> = entries.iter().map(|(k, _)| k.as_str()).collect();
    assert_eq!(
        keys,
        vec![
            "family",
            "priority",
            "from",
            "from-len",
            "to",
            "to-len",
            "table",
            "fwmark",
            "fwmask",
            "iifname",
            "action",
            "suppress-prefixlength",
            "x-unknown",
            "y-unknown"
        ]
    );
    assert_eq!(entries[0].1, DbusValue::I32(2));
    assert_eq!(entries[10].1, DbusValue::U8(6));
    assert_eq!(entries[12].1, DbusValue::Other(unread()));
    assert_eq!(entries[13].1, DbusValue::Bool(true));
    let mut again = DbusDictionary::new();
    for (k, v) in entries {
        again.insert(k, v);
    }
    assert_eq!(NmIpRouteRule::try_from(again).unwrap(), rule);
}

#[test]
fn empty_rule() {
    let rule = NmIpRouteRule::try_from(DbusDictionary::new()).unwrap();
    assert_eq!(rule, NmIpRouteRule::default());
    assert!(rule.to_value().is_empty());
    assert_eq!(rule.clone(), rule);
}

#[test]
fn value_of_the_wrong_type_is_a_fault_of_the_backend() {
    let err =
        NmIpRouteRule::try_from(dict(vec![("priority", DbusValue::I32(1))])).unwrap_err();
    assert_eq!(err.kind, ErrorKind::Bug);
    assert_eq!(err.msg, "incorrect type of the value of priority");
    let err = NmIpRouteRule::try_from(dict(vec![
        ("to", DbusValue::U8(1)),
        ("family", DbusValue::U32(1)),
    ]))
    .unwrap_err();
    assert_eq!(err.msg, "incorrect type of the value of family");
    let err = NmIpRouteRule::try_from(dict(vec![
        ("suppress-prefixlength", DbusValue::U8(1)),
        ("action", DbusValue::I32(6)),
    ]))
    .unwrap_err();
    assert_eq!(err.msg, "incorrect type of the value of action");
}

#[test]
fn rules_are_read_all_or_none() {
    let rules = parse_nm_ip_rule_data(vec![
        dict(vec![("priority", DbusValue::U32(1))]),
        dict(vec![("priority", DbusValue::U32(2))]),
    ])
    .unwrap();
    assert_eq!(rules.len(), 2);
    assert_eq!(rules[0].priority, Some(1));
    assert_eq!(rules[1].priority, Some(2));
    let err = parse_nm_ip_rule_data(vec![
        dict(vec![("priority", DbusValue::U32(1))]),
        dict(vec![("table", DbusValue::Bool(false))]),
        dict(vec![("family", DbusValue::Bool(false))]),
    ])
    .unwrap_err();
    assert_eq!(err.kind, ErrorKind::Bug);
    assert_eq!(err.msg, "incorrect type of the value of table");
    assert_eq!(parse_nm_ip_rule_data(vec![]), Ok(vec![]));
}

#[test]
fn rules_are_written_in_their_order() {
    let rules = parse_nm_ip_rule_data(vec![
        dict(vec![("priority", DbusValue::U32(30))]),
        dict(vec![("priority", DbusValue::U32(10)), ("table", DbusValue::U32(5))]),
    ])
    .unwrap();
    let values = nm_ip_rules_to_value(&rules);
    assert_eq!(
        values,
        vec![
            vec![("priority".to_string(), DbusValue::U32(30))],
            vec![
                ("priority".to_string(), DbusValue::U32(10)),
                ("table".to_string(), DbusValue::U32(5))
            ]
        ]
    );
}

#[test]
fn copy_of_a_rule_keeps_what_is_not_read() {
    let rule = NmIpRouteRule::try_from(full()).unwrap();
    let copy = rule.clone();
    assert_eq!(copy, rule);
    let entries = copy.to_value();
    assert_eq!(entries[12], ("x-unknown".to_string(), DbusValue::Other(unread())));
    assert_eq!(DbusValue::Other(unread()).clone(), DbusValue::Other(unread()));
    assert_ne!(
        DbusValue::Other(unread()).clone(),
        DbusValue::Other(zvariant::OwnedValue::from(zvariant::Value::I64(5)))
    );
}
