//! Activations as the profile backend reports them.

use vstd::prelude::*;
use vstd::string::StringExecFns;
use crate::error::{ErrorKind, NmError};
use crate::nm::connection::{NmActiveConnection, NmConnection, conn_iface_name, conn_iface_type};
use crate::nm::iface_type::{NmIfaceType, NmIfaceTypeView};
use crate::text::{str_eq};

verus! {

/// The path that stands for no object.
pub const NO_OBJECT_PATH: &'static str = "/";

/// The start of the message of a property that could not be read.
pub const MSG_AC_PROPERTY_HEAD: &'static str = "Failed to retrieve ";

/// What follows the name of the property in that message.
pub const MSG_AC_PROPERTY_OF: &'static str = " of active connection ";

/// What follows the path of the activation in that message.
pub const MSG_AC_PROPERTY_CAUSE: &'static str = ": ";

/// Whether an activation has a profile behind it: while an activation is
/// taken down or deleted it has none, and the path of its profile is empty
/// or stands for no object.
pub fn nm_ac_has_connection(nm_conn_obj_path: &str) -> (b: bool)
    ensures
        b == (nm_conn_obj_path@.len() > 0 && nm_conn_obj_path@ != NO_OBJECT_PATH@),
{
    !nm_conn_obj_path.is_empty() && !str_eq(nm_conn_obj_path, NO_OBJECT_PATH)
}

/// The activation of a profile: an interface name that the profile lacks is
/// empty, and a kind that it lacks is ethernet.
pub fn nm_ac_from_connection(uuid: String, nm_conn: &NmConnection, state_flags: u32) -> (ac:
    NmActiveConnection)
    ensures
        ac.uuid@ == uuid@,
        ac.state_flags == state_flags,
        ac.iface_name@ == (match conn_iface_name(*nm_conn) {
            Some(n) => n,
            None => Seq::empty(),
        }),
        ac.iface_type@ == (match conn_iface_type(*nm_conn) {
            Some(t) => t,
            None => NmIfaceTypeView::Ethernet,
        }),
{
    let iface_name = match nm_conn.iface_name() {
        Some(i) => i.clone(),
        None => String::new(),
    };
    let iface_type = match nm_conn.iface_type() {
        Some(t) => t.clone(),
        None => NmIfaceType::Ethernet,
    };
    NmActiveConnection { uuid, iface_name, iface_type, state_flags }
}

/// The error for a property of an activation that the backend did not hand
/// out: a fault of the backend, with the property, the activation and the
/// cause in its message.
pub fn nm_ac_property_error(property: &str, obj_path: &str, cause: &str) -> (e: NmError)
    ensures
        e.kind == ErrorKind::Bug,
        e.msg@ == MSG_AC_PROPERTY_HEAD@ + property@ + MSG_AC_PROPERTY_OF@ + obj_path@
            + MSG_AC_PROPERTY_CAUSE@ + cause@,
{
    let mut msg = MSG_AC_PROPERTY_HEAD.to_owned();
    msg.append(property);
    msg.append(MSG_AC_PROPERTY_OF);
    msg.append(obj_path);
    msg.append(MSG_AC_PROPERTY_CAUSE);
    msg.append(cause);
    NmError::new(ErrorKind::Bug, msg)
}

} // verus!
