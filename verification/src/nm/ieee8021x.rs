//! The 802.1X setting of a profile, and the form in which the profile
//! backend holds paths of certificates and keys.

use vstd::prelude::*;
use vstd::slice::slice_to_vec;
use vstd::string::{StrSliceExecFns, StringSliceAdditionalSpecFns};
use vstd::utf8::{decode_utf8, valid_utf8};
use crate::base_iface::{Ieee8021XConfig, Ieee8021XConfigView};
use crate::error::{ErrorKind, NmError};
use crate::nm::value::{
    DbusDictionary, DbusValue, DbusValueView, as_bytes, as_text, as_texts, clone_opt_bytes,
    discard, failure, found, of_bytes, of_text, of_texts, or_else, put, read_bytes, read_string,
    read_strings, value_bytes, value_text, value_texts, with,
};
use crate::text::{Text, clone_opt_string, clone_opt_strings};

verus! {

/// What a path starts with in the form of the profile backend.
pub const GLIB_FILE_PATH_PREFIX: &'static str = "file://";

/// Why bytes that are no UTF-8 text are no path.
pub const MSG_GLIB_NOT_UTF8: &'static str = "Failed to parse glib bytes to UTF-8 string";

/// Why text that does not start as a path does is no path.
pub const MSG_GLIB_NO_PREFIX: &'static str = "Specified glib bytes is not started with file://";

/// The 802.1X setting of a profile.
#[derive(Debug, PartialEq)]
pub struct NmSetting8021X {
    pub identity: Option<String>,
    pub private_key: Option<Vec<u8>>,
    pub eap: Option<Vec<String>>,
    pub client_cert: Option<Vec<u8>>,
    pub ca_cert: Option<Vec<u8>>,
    pub private_key_password: Option<String>,
    pub phase2_auth: Option<String>,
    pub password: Option<String>,
    _other: DbusDictionary,
}

/// The mathematical form of `NmSetting8021X`; `other` holds the entries that
/// this library does not read.
pub struct NmSetting8021XView {
    pub identity: Option<Text>,
    pub private_key: Option<Seq<u8>>,
    pub eap: Option<Seq<Text>>,
    pub client_cert: Option<Seq<u8>>,
    pub ca_cert: Option<Seq<u8>>,
    pub private_key_password: Option<Text>,
    pub phase2_auth: Option<Text>,
    pub password: Option<Text>,
    pub other: Map<Text, DbusValueView>,
}

impl DeepView for NmSetting8021X {
    type V = NmSetting8021XView;

    closed spec fn deep_view(&self) -> NmSetting8021XView {
        NmSetting8021XView {
            identity: self.identity.deep_view(),
            private_key: self.private_key.deep_view(),
            eap: self.eap.deep_view(),
            client_cert: self.client_cert.deep_view(),
            ca_cert: self.ca_cert.deep_view(),
            private_key_password: self.private_key_password.deep_view(),
            phase2_auth: self.phase2_auth.deep_view(),
            password: self.password.deep_view(),
            other: self._other@,
        }
    }
}

impl View for NmSetting8021X {
    type V = NmSetting8021XView;

    open spec fn view(&self) -> NmSetting8021XView {
        self.deep_view()
    }
}

/// The keys that the setting reads, in the order of reading.
pub open spec fn ieee8021x_keys() -> Seq<Text> {
    seq!["identity"@, "private-key"@, "eap"@, "client-cert"@, "ca-cert"@, "phase2-auth"@]
}

/// The first value of a dictionary that is not of the type the setting has
/// for it, in the order of reading.
pub open spec fn ieee8021x_failure(d: Map<Text, DbusValueView>) -> Option<Text> {
    or_else(
        failure(d, "identity"@, |v: DbusValueView| as_text(v)),
        or_else(
            failure(d, "private-key"@, |v: DbusValueView| as_bytes(v)),
            or_else(
                failure(d, "eap"@, |v: DbusValueView| as_texts(v)),
                or_else(
                    failure(d, "client-cert"@, |v: DbusValueView| as_bytes(v)),
                    or_else(
                        failure(d, "ca-cert"@, |v: DbusValueView| as_bytes(v)),
                        failure(d, "phase2-auth"@, |v: DbusValueView| as_text(v)),
                    ),
                ),
            ),
        ),
    )
}

/// The setting read from a dictionary in which every value read is of its
/// type. The passwords are never read from it.
pub open spec fn ieee8021x_fields(d: Map<Text, DbusValueView>) -> NmSetting8021XView {
    NmSetting8021XView {
        identity: found(d, "identity"@, |v: DbusValueView| as_text(v)),
        private_key: found(d, "private-key"@, |v: DbusValueView| as_bytes(v)),
        eap: found(d, "eap"@, |v: DbusValueView| as_texts(v)),
        client_cert: found(d, "client-cert"@, |v: DbusValueView| as_bytes(v)),
        ca_cert: found(d, "ca-cert"@, |v: DbusValueView| as_bytes(v)),
        private_key_password: None,
        phase2_auth: found(d, "phase2-auth"@, |v: DbusValueView| as_text(v)),
        password: None,
        other: d.remove_keys(ieee8021x_keys().to_set()),
    }
}

/// The dictionary that the setting is written as: an entry for each
/// attribute it has, and the entries that were kept when it was read, which
/// come out on top.
pub open spec fn ieee8021x_map(s: NmSetting8021XView) -> Map<Text, DbusValueView> {
    with(
        with(
            with(
                with(
                    with(
                        with(
                            with(
                                with(
                                    Map::empty(),
                                    "identity"@,
                                    of_text(s.identity),
                                ),
                                "private-key"@,
                                of_bytes(s.private_key),
                            ),
                            "eap"@,
                            of_texts(s.eap),
                        ),
                        "client-cert"@,
                        of_bytes(s.client_cert),
                    ),
                    "ca-cert"@,
                    of_bytes(s.ca_cert),
                ),
                "private-key-password"@,
                of_text(s.private_key_password),
            ),
            "phase2-auth"@,
            of_text(s.phase2_auth),
        ),
        "password"@,
        of_text(s.password),
    ).union_prefer_right(s.other)
}

/// The text left of `t` when the NUL characters at its end are taken off.
pub open spec fn strip_nul(t: Text) -> Text
    decreases t.len(),
{
    if t.len() > 0 && t.last() == '\0' {
        strip_nul(t.drop_last())
    } else {
        t
    }
}

/// The path that bytes of the profile backend stand for: they are UTF-8
/// text that, without the NUL characters at its end, starts with `file://`;
/// the path is what follows.
pub open spec fn glib_file_path(bytes: Seq<u8>) -> Option<Text> {
    if !valid_utf8(bytes) {
        None
    } else {
        let t = strip_nul(decode_utf8(bytes));
        if GLIB_FILE_PATH_PREFIX@.is_prefix_of(t) {
            Some(t.skip(GLIB_FILE_PATH_PREFIX@.len() as int))
        } else {
            None
        }
    }
}

/// `String::from_utf8` of the standard library: the text that the bytes
/// encode where they are valid UTF-8, nothing where they are not.
#[verifier::external_body]
fn string_from_utf8(bytes: Vec<u8>) -> (text: Option<String>)
    ensures
        text is Some <==> valid_utf8(bytes@),
        text is Some ==> text.unwrap()@ == decode_utf8(bytes@),
{
    match String::from_utf8(bytes) {
        Ok(s) => Some(s),
        Err(_) => None,
    }
}

impl Default for NmSetting8021X {
    fn default() -> (s: Self)
        ensures
            s@ == ieee8021x_fields(Map::empty()),
    {
        let s = NmSetting8021X {
            identity: None,
            private_key: None,
            eap: None,
            client_cert: None,
            ca_cert: None,
            private_key_password: None,
            phase2_auth: None,
            password: None,
            _other: DbusDictionary::new(),
        };
        assert(s@.other =~= ieee8021x_fields(Map::empty()).other);
        s
    }
}

impl Clone for NmSetting8021X {
    fn clone(&self) -> (copy: Self)
        ensures
            copy@ == self@,
    {
        NmSetting8021X {
            identity: clone_opt_string(&self.identity),
            private_key: clone_opt_bytes(&self.private_key),
            eap: clone_opt_strings(&self.eap),
            client_cert: clone_opt_bytes(&self.client_cert),
            ca_cert: clone_opt_bytes(&self.ca_cert),
            private_key_password: clone_opt_string(&self.private_key_password),
            phase2_auth: clone_opt_string(&self.phase2_auth),
            password: clone_opt_string(&self.password),
            _other: self._other.clone(),
        }
    }
}

fn drop_keys(v: &mut DbusDictionary)
    ensures
        final(v)@ == old(v)@.remove_keys(ieee8021x_keys().to_set()),
{
    discard(v, "identity");
    discard(v, "private-key");
    discard(v, "eap");
    discard(v, "client-cert");
    discard(v, "ca-cert");
    discard(v, "phase2-auth");
    proof {
        let keys = ieee8021x_keys();
        assert(keys[0] == "identity"@);
        assert(keys[1] == "private-key"@);
        assert(keys[2] == "eap"@);
        assert(keys[3] == "client-cert"@);
        assert(keys[4] == "ca-cert"@);
        assert(keys[5] == "phase2-auth"@);
        assert(v@ =~= old(v)@.remove_keys(keys.to_set()));
    }
}

impl NmSetting8021X {
    /// Reads the setting from a dictionary of the profile backend. The
    /// passwords are not read: the backend hands them out apart. A value
    /// that is not of the type of its attribute is a fault of the backend;
    /// the first such value, in the order of reading, is reported.
    pub fn try_from(v: DbusDictionary) -> (r: Result<Self, NmError>)
        ensures
            match r {
                Ok(s) => ieee8021x_failure(v@) is None && s@ == ieee8021x_fields(v@),
                Err(e) => e.kind == ErrorKind::Bug && ieee8021x_failure(v@) == Some(e.msg@),
            },
    {
        let mut v = v;
        let identity = match read_string(&v, "identity") {
            Ok(x) => x,
            Err(e) => {
                return Err(e);
            },
        };
        let private_key = match read_bytes(&v, "private-key") {
            Ok(x) => x,
            Err(e) => {
                return Err(e);
            },
        };
        let eap = match read_strings(&v, "eap") {
            Ok(x) => x,
            Err(e) => {
                return Err(e);
            },
        };
        let client_cert = match read_bytes(&v, "client-cert") {
            Ok(x) => x,
            Err(e) => {
                return Err(e);
            },
        };
        let ca_cert = match read_bytes(&v, "ca-cert") {
            Ok(x) => x,
            Err(e) => {
                return Err(e);
            },
        };
        let phase2_auth = match read_string(&v, "phase2-auth") {
            Ok(x) => x,
            Err(e) => {
                return Err(e);
            },
        };
        drop_keys(&mut v);
        Ok(
            NmSetting8021X {
                identity,
                private_key,
                eap,
                client_cert,
                ca_cert,
                private_key_password: None,
                phase2_auth,
                password: None,
                _other: v,
            },
        )
    }

    /// Writes the setting as a dictionary of the profile backend: an entry
    /// for each attribute it has, and the entries that were kept when it was
    /// read.
    pub fn to_value(&self) -> (d: DbusDictionary)
        ensures
            d@ == ieee8021x_map(self@),
    {
        let mut ret = DbusDictionary::new();
        put(&mut ret, "identity", value_text(&self.identity));
        put(&mut ret, "private-key", value_bytes(&self.private_key));
        put(&mut ret, "eap", value_texts(&self.eap));
        put(&mut ret, "client-cert", value_bytes(&self.client_cert));
        put(&mut ret, "ca-cert", value_bytes(&self.ca_cert));
        put(&mut ret, "private-key-password", value_text(&self.private_key_password));
        put(&mut ret, "phase2-auth", value_text(&self.phase2_auth));
        put(&mut ret, "password", value_text(&self.password));
        ret.extend(&self._other);
        ret
    }

    /// Takes the passwords from the secrets that the profile backend handed
    /// out: each is set where the secrets hold it as a string, and stays as
    /// it is where they do not.
    pub fn fill_secrets(&mut self, secrets: &DbusDictionary)
        ensures
            final(self)@ == (NmSetting8021XView {
                private_key_password: match found(
                    secrets@,
                    "private-key-password"@,
                    |v: DbusValueView| as_text(v),
                ) {
                    Some(p) => Some(p),
                    None => old(self)@.private_key_password,
                },
                password: match found(secrets@, "password"@, |v: DbusValueView| as_text(v)) {
                    Some(p) => Some(p),
                    None => old(self)@.password,
                },
                ..old(self)@
            }),
    {
        if let Some(DbusValue::Str(s)) = secrets.get("private-key-password") {
            self.private_key_password = Some(s.clone());
        }
        if let Some(DbusValue::Str(s)) = secrets.get("password") {
            self.password = Some(s.clone());
        }
    }

    /// A path in the form of the profile backend: `file://`, the path, and a
    /// NUL byte, in UTF-8.
    pub fn file_path_to_glib_bytes(file_path: &str) -> (bytes: Vec<u8>)
        ensures
            bytes@ == GLIB_FILE_PATH_PREFIX.spec_bytes() + file_path.spec_bytes() + seq![0u8],
    {
        let mut bytes = GLIB_FILE_PATH_PREFIX.as_bytes_vec();
        let mut path = file_path.as_bytes_vec();
        bytes.append(&mut path);
        bytes.push(0u8);
        assert(bytes@ =~= GLIB_FILE_PATH_PREFIX.spec_bytes() + file_path.spec_bytes() + seq![0u8]);
        bytes
    }

    /// The path that bytes of the profile backend stand for. Bytes that are
    /// no UTF-8 text, or whose text does not start with `file://`, are
    /// refused as an invalid argument.
    pub fn glib_bytes_to_file_path(value: &[u8]) -> (r: Result<String, NmError>)
        ensures
            match r {
                Ok(path) => glib_file_path(value@) == Some(path@),
                Err(e) => {
                    &&& e.kind == ErrorKind::InvalidArgument
                    &&& glib_file_path(value@) is None
                    &&& e.msg@ == (if valid_utf8(value@) {
                        MSG_GLIB_NO_PREFIX@
                    } else {
                        MSG_GLIB_NOT_UTF8@
                    })
                },
            },
    {
        let text = match string_from_utf8(slice_to_vec(value)) {
            Some(t) => t,
            None => {
                return Err(NmError::new(ErrorKind::InvalidArgument, MSG_GLIB_NOT_UTF8.to_owned()));
            },
        };
        let s = text.as_str();
        let ghost t = s@;
        let mut n = s.unicode_len();
        assert(t.take(n as int) =~= t);
        while n > 0 && s.get_char(n - 1) == '\0'
            invariant
                n <= t.len(),
                t == s@,
                strip_nul(t) == strip_nul(t.take(n as int)),
            decreases n,
        {
            proof {
                assert(t.take(n as int).drop_last() =~= t.take(n as int - 1));
            }
            n -= 1;
        }
        assert(strip_nul(t) == t.take(n as int)) by {
            assert(t.take(t.len() as int) =~= t);
        }
        let m = GLIB_FILE_PATH_PREFIX.unicode_len();
        if n < m {
            return Err(NmError::new(ErrorKind::InvalidArgument, MSG_GLIB_NO_PREFIX.to_owned()));
        }
        let mut i: usize = 0;
        while i < m
            invariant
                i <= m <= n <= t.len(),
                t == s@,
                valid_utf8(value@),
                t == decode_utf8(value@),
                strip_nul(t) == t.take(n as int),
                m == GLIB_FILE_PATH_PREFIX@.len(),
                forall|k: int| 0 <= k < i ==> t[k] == GLIB_FILE_PATH_PREFIX@[k],
            decreases m - i,
        {
            if s.get_char(i) != GLIB_FILE_PATH_PREFIX.get_char(i) {
                assert(t.take(n as int).subrange(0, m as int)[i as int]
                    != GLIB_FILE_PATH_PREFIX@[i as int]);
                return Err(
                    NmError::new(ErrorKind::InvalidArgument, MSG_GLIB_NO_PREFIX.to_owned()),
                );
            }
            i += 1;
        }
        assert(GLIB_FILE_PATH_PREFIX@.is_prefix_of(t.take(n as int))) by {
            assert(t.take(n as int).subrange(0, m as int) =~= GLIB_FILE_PATH_PREFIX@);
        }
        let path = s.substring_char(m, n).to_owned();
        assert(path@ =~= t.take(n as int).skip(m as int));
        Ok(path)
    }
}

/// The path that optional bytes of the profile backend stand for, if they
/// stand for one.
pub open spec fn path_of(bytes: Option<Seq<u8>>) -> Option<Text> {
    match bytes {
        Some(b) => glib_file_path(b),
        None => None,
    }
}

/// The 802.1X settings of an interface as its profile has them; bytes that
/// stand for no path are left out.
pub open spec fn ieee8021x_of(s: NmSetting8021X) -> Ieee8021XConfigView {
    Ieee8021XConfigView {
        identity: s@.identity,
        eap: s@.eap,
        private_key: path_of(s@.private_key),
        client_cert: path_of(s@.client_cert),
        ca_cert: path_of(s@.ca_cert),
        private_key_password: s@.private_key_password,
    }
}

fn path(bytes: &Option<Vec<u8>>) -> (p: Option<String>)
    ensures
        p.deep_view() == path_of(bytes.deep_view()),
{
    match bytes {
        Some(b) => {
            assert(b.deep_view() =~= b@);
            match NmSetting8021X::glib_bytes_to_file_path(b.as_slice()) {
                Ok(p) => Some(p),
                Err(_) => None,
            }
        },
        None => None,
    }
}

/// The 802.1X settings of an interface as its profile has them.
pub fn nm_802_1x_to_nmstate(nm_setting: &NmSetting8021X) -> (conf: Ieee8021XConfig)
    ensures
        conf.deep_view() == ieee8021x_of(*nm_setting),
{
    Ieee8021XConfig {
        identity: clone_opt_string(&nm_setting.identity),
        eap: clone_opt_strings(&nm_setting.eap),
        private_key: path(&nm_setting.private_key),
        client_cert: path(&nm_setting.client_cert),
        ca_cert: path(&nm_setting.ca_cert),
        private_key_password: clone_opt_string(&nm_setting.private_key_password),
    }
}

} // verus!
