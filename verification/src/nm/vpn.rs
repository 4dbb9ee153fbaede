//! The VPN setting of a profile for an IPsec connection of libreswan.

use vstd::prelude::*;
use crate::iface::{
    IpsecInterface, LibreswanAddressFamily, LibreswanConfig, LibreswanConnectionType,
};
use crate::nm::connection::{NmConnection, NmSettingVpn};
use crate::strmap::StrMap;
use crate::text::{Text, clone_opt_string, decimal, str_eq, u64_to_string};

verus! {

/// The service of the profile backend that runs libreswan.
pub const SERVICE_TYPE_LIBRESWAN: &'static str = "org.freedesktop.NetworkManager.libreswan";

/// What a state shows in the place of a password.
pub const PASSWORD_HID_BY_NMSTATE: &'static str = "<_password_hid_by_nmstate>";

/// The key of the pre-shared key among the secrets.
pub const PSK_KEY: &'static str = "pskvalue";

/// `m` with `v` under `key` where there is a text.
pub open spec fn with_text(m: Map<Text, Text>, key: Text, v: Option<Text>) -> Map<Text, Text> {
    match v {
        Some(x) => m.insert(key, x),
        None => m,
    }
}

/// An optional number in decimal.
pub open spec fn number_text(n: Option<u64>) -> Option<Text> {
    match n {
        Some(x) => Some(decimal(x as nat)),
        None => None,
    }
}

/// An optional truth value as `yes` or `no`.
pub open spec fn yes_no(b: Option<bool>) -> Option<Text> {
    match b {
        Some(x) => Some(
            if x {
                "yes"@
            } else {
                "no"@
            },
        ),
        None => None,
    }
}

/// The name of an optional kind of connection.
pub open spec fn kind_text(k: Option<LibreswanConnectionType>) -> Option<Text> {
    match k {
        Some(LibreswanConnectionType::Tunnel) => Some("tunnel"@),
        Some(LibreswanConnectionType::Transport) => Some("transport"@),
        None => None,
    }
}

/// The name of an optional address family.
pub open spec fn family_text(f: Option<LibreswanAddressFamily>) -> Option<Text> {
    match f {
        Some(LibreswanAddressFamily::Ipv4) => Some("ipv4"@),
        Some(LibreswanAddressFamily::Ipv6) => Some("ipv6"@),
        None => None,
    }
}

/// The entries for the two ends of a connection and its version of IKE, on
/// top of `m`.
pub open spec fn data_peers(m: Map<Text, Text>, conf: LibreswanConfig) -> Map<Text, Text> {
    with_text(with_text(with_text(with_text(with_text(with_text(with_text(with_text(with_text(m, "right"@, Some(conf.right@)), "rightid"@, conf.rightid.deep_view()), "rightrsasigkey"@, conf.rightrsasigkey.deep_view()), "rightcert"@, conf.rightcert.deep_view()), "left"@, conf.left.deep_view()), "leftid"@, conf.leftid.deep_view()), "leftrsasigkey"@, conf.leftrsasigkey.deep_view()), "leftcert"@, conf.leftcert.deep_view()), "ikev2"@, conf.ikev2.deep_view())
}

/// The entries for the lifetimes, the ciphers, dead peer detection, the
/// interface and the authentication, on top of `m`.
pub open spec fn data_lifetimes(m: Map<Text, Text>, conf: LibreswanConfig) -> Map<Text, Text> {
    with_text(with_text(with_text(with_text(with_text(with_text(with_text(with_text(with_text(m, "ikelifetime"@, conf.ikelifetime.deep_view()), "salifetime"@, conf.salifetime.deep_view()), "ike"@, conf.ike.deep_view()), "esp"@, conf.esp.deep_view()), "dpddelay"@, number_text(conf.dpddelay)), "dpdtimeout"@, number_text(conf.dpdtimeout)), "dpdaction"@, conf.dpdaction.deep_view()), "ipsec-interface"@, conf.ipsec_interface.deep_view()), "authby"@, conf.authby.deep_view())
}

/// The entries for the client configuration, the subnets, the kind and the
/// address families, on top of `m`.
pub open spec fn data_subnets(m: Map<Text, Text>, conf: LibreswanConfig) -> Map<Text, Text> {
    with_text(with_text(with_text(with_text(with_text(with_text(with_text(m, "leftmodecfgclient"@, yes_no(conf.leftmodecfgclient)), "rightsubnet"@, conf.rightsubnet.deep_view()), "leftsubnet"@, conf.leftsubnet.deep_view()), "type"@, kind_text(conf.kind)), "clientaddrfamily"@, family_text(conf.clientaddrfamily)), "hostaddrfamily"@, family_text(conf.hostaddrfamily)), "require-id-on-certificate"@, yes_no(conf.require_id_on_certificate))
}

/// The data of the VPN setting for a configuration of libreswan: an entry
/// for each attribute that the configuration has.
pub open spec fn vpn_data_of(conf: LibreswanConfig) -> Map<Text, Text> {
    data_subnets(data_lifetimes(data_peers(Map::empty(), conf), conf), conf)
}

/// The secrets that a profile has.
pub open spec fn conn_secrets(c: NmConnection) -> Option<Map<Text, Text>> {
    match c.vpn {
        Some(v) => v.secrets.deep_view(),
        None => None,
    }
}

/// The secrets of the VPN setting: none without a pre-shared key; those that
/// the profile had where the key is hidden; else the key.
pub open spec fn vpn_secrets_of(conf: LibreswanConfig, before: NmConnection) -> Option<
    Map<Text, Text>,
> {
    match conf.psk {
        None => None,
        Some(v) => if v@ == PASSWORD_HID_BY_NMSTATE@ {
            conn_secrets(before)
        } else {
            Some(Map::empty().insert(PSK_KEY@, v@))
        },
    }
}

/// Stores `value` under `key` where there is a value.
pub fn put_text(data: &mut StrMap, key: &str, value: Option<String>)
    ensures
        final(data)@ == with_text(old(data)@, key@, value.deep_view()),
{
    if let Some(v) = value {
        data.insert(key.to_owned(), v);
    }
}

fn number(n: Option<u64>) -> (s: Option<String>)
    ensures
        s.deep_view() == number_text(n),
{
    match n {
        Some(x) => Some(u64_to_string(x)),
        None => None,
    }
}

fn yes_or_no(b: Option<bool>) -> (s: Option<String>)
    ensures
        s.deep_view() == yes_no(b),
{
    match b {
        Some(x) => Some(
            if x {
                "yes".to_owned()
            } else {
                "no".to_owned()
            },
        ),
        None => None,
    }
}

fn kind_name(k: Option<LibreswanConnectionType>) -> (s: Option<String>)
    ensures
        s.deep_view() == kind_text(k),
{
    match k {
        Some(LibreswanConnectionType::Tunnel) => Some("tunnel".to_owned()),
        Some(LibreswanConnectionType::Transport) => Some("transport".to_owned()),
        None => None,
    }
}

fn family_name(f: Option<LibreswanAddressFamily>) -> (s: Option<String>)
    ensures
        s.deep_view() == family_text(f),
{
    match f {
        Some(LibreswanAddressFamily::Ipv4) => Some("ipv4".to_owned()),
        Some(LibreswanAddressFamily::Ipv6) => Some("ipv6".to_owned()),
        None => None,
    }
}

fn put_data_peers(data: &mut StrMap, conf: &LibreswanConfig)
    ensures
        final(data)@ == data_peers(old(data)@, *conf),
{
    put_text(data, "right", Some(conf.right.clone()));
    put_text(data, "rightid", clone_opt_string(&conf.rightid));
    put_text(data, "rightrsasigkey", clone_opt_string(&conf.rightrsasigkey));
    put_text(data, "rightcert", clone_opt_string(&conf.rightcert));
    put_text(data, "left", clone_opt_string(&conf.left));
    put_text(data, "leftid", clone_opt_string(&conf.leftid));
    put_text(data, "leftrsasigkey", clone_opt_string(&conf.leftrsasigkey));
    put_text(data, "leftcert", clone_opt_string(&conf.leftcert));
    put_text(data, "ikev2", clone_opt_string(&conf.ikev2));
}

fn put_data_lifetimes(data: &mut StrMap, conf: &LibreswanConfig)
    ensures
        final(data)@ == data_lifetimes(old(data)@, *conf),
{
    put_text(data, "ikelifetime", clone_opt_string(&conf.ikelifetime));
    put_text(data, "salifetime", clone_opt_string(&conf.salifetime));
    put_text(data, "ike", clone_opt_string(&conf.ike));
    put_text(data, "esp", clone_opt_string(&conf.esp));
    put_text(data, "dpddelay", number(conf.dpddelay));
    put_text(data, "dpdtimeout", number(conf.dpdtimeout));
    put_text(data, "dpdaction", clone_opt_string(&conf.dpdaction));
    put_text(data, "ipsec-interface", clone_opt_string(&conf.ipsec_interface));
    put_text(data, "authby", clone_opt_string(&conf.authby));
}

fn put_data_subnets(data: &mut StrMap, conf: &LibreswanConfig)
    ensures
        final(data)@ == data_subnets(old(data)@, *conf),
{
    put_text(data, "leftmodecfgclient", yes_or_no(conf.leftmodecfgclient));
    put_text(data, "rightsubnet", clone_opt_string(&conf.rightsubnet));
    put_text(data, "leftsubnet", clone_opt_string(&conf.leftsubnet));
    put_text(data, "type", kind_name(conf.kind));
    put_text(data, "clientaddrfamily", family_name(conf.clientaddrfamily));
    put_text(data, "hostaddrfamily", family_name(conf.hostaddrfamily));
    put_text(data, "require-id-on-certificate", yes_or_no(conf.require_id_on_certificate));
}

/// Whether `after` is `before` but for its VPN setting.
pub open spec fn same_but_vpn(before: NmConnection, after: NmConnection) -> bool {
    after == (NmConnection { vpn: after.vpn, ..before })
}

/// Gives a profile the VPN setting for an IPsec interface: the data for its
/// configuration of libreswan, the service of libreswan, and the pre-shared
/// key as secret. A hidden key keeps the secrets that the profile had. An
/// interface without configuration leaves the profile as it is.
pub fn gen_nm_ipsec_vpn_setting(iface: &IpsecInterface, nm_conn: &mut NmConnection)
    ensures
        match iface.libreswan {
            None => *final(nm_conn) == *old(nm_conn),
            Some(conf) => {
                &&& same_but_vpn(*old(nm_conn), *final(nm_conn))
                &&& final(nm_conn).vpn matches Some(v)
                &&& v.data.deep_view() == Some(vpn_data_of(conf))
                &&& v.service_type.deep_view() == Some(SERVICE_TYPE_LIBRESWAN@)
                &&& v.secrets.deep_view() == vpn_secrets_of(conf, *old(nm_conn))
            },
        },
{
    if let Some(conf) = &iface.libreswan {
        let mut vpn_data = StrMap::new();
        put_data_peers(&mut vpn_data, conf);
        put_data_lifetimes(&mut vpn_data, conf);
        put_data_subnets(&mut vpn_data, conf);
        let secrets = match &conf.psk {
            Some(v) => {
                if str_eq(v.as_str(), PASSWORD_HID_BY_NMSTATE) {
                    match &nm_conn.vpn {
                        Some(c) => c.secrets.clone(),
                        None => None,
                    }
                } else {
                    let mut s = StrMap::new();
                    s.insert(PSK_KEY.to_owned(), v.clone());
                    Some(s)
                }
            },
            None => None,
        };
        nm_conn.vpn = Some(
            NmSettingVpn {
                data: Some(vpn_data),
                secrets,
                service_type: Some(SERVICE_TYPE_LIBRESWAN.to_owned()),
            },
        );
    }
}

} // verus!
