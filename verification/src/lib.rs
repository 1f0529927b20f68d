//! Safety wrapper logic for a handle-based spectrum-analyzer device API.
//!
//! The vendor library is reached through a fixed C-linkage surface whose calls
//! report a flat status code.  Everything the wrapper decides on its own —
//! the mapping of status codes to a typed error taxonomy, the reference-counted
//! global session state, the device lifecycle state machine, device
//! enumeration, the configuration-tree walker and the packet polling
//! protocol — lives here and is verified.  The thin shell that performs the
//! actual foreign calls hands their status codes and out-parameters to the
//! functions of this crate as plain values.

use vstd::prelude::*;

pub mod config;
pub mod discovery;
pub mod global;
pub mod lifecycle;
pub mod packets;
pub mod status;
pub mod wide;

pub use config::{ConfigItem, ConfigType, RawNode};
pub use discovery::{DeviceInfo, EnumResponse};
pub use global::{Api, GlobalApi, Memory};
pub use lifecycle::{Device, DeviceState, DeviceStatus};
pub use packets::{Packet, PacketFlags};
pub use status::{res, Error};

verus! {

/// Splits the packed version word reported by the vendor library into its
/// major (high half) and minor (low half) parts; the version string shown to
/// users is `"{major}.{minor}"`.
pub fn version_parts(n: u32) -> (r: (u32, u32))
    ensures
        r.0 == n / 0x10000,
        r.1 == n % 0x10000,
{
    proof {
        assert((n >> 16) == n / 0x10000 && (n & 0xffff) == n % 0x10000) by (bit_vector);
    }
    (n >> 16, n & 0xffff)
}

} // verus!
