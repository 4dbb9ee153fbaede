//! Merge, normalisation and reconciliation planning for declarative host
//! network configuration.
//!
//! Every item is executable Rust whose behaviour is stated over mathematical
//! models (`Seq`, `Set`, `Map` and the views of the data types) and proved.

pub mod text;
pub mod names;
pub mod fold;
pub mod strmap;
pub mod base_iface;
pub mod overlay;
pub mod iface;
pub mod error;
pub mod kernel;
pub mod route;
pub mod vrf;
pub mod state;
pub mod nm;
