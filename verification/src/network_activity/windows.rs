//! The counters of network interfaces on Windows.

use super::interfaces::{IdModel, InterfaceId};
use super::InterfaceCounter;
use vstd::prelude::*;

verus! {

/// The status of an interface that is up.
pub const IF_OPER_STATUS_UP: i32 = 1;

/// The type of an interface of the computer with itself.
pub const IF_TYPE_SOFTWARE_LOOPBACK: u32 = 24;

/// The counter of an interface, from its locally unique identifier, its
/// status, its type and the bytes it received. One that is not up has none.
pub fn counter_from_row(luid: u64, status: i32, kind: u32, received_bytes: u64) -> (r: Option<
    InterfaceCounter,
>)
    ensures
        r is Some <==> status == IF_OPER_STATUS_UP,
        r is Some ==> {
            &&& r->0.id@ == (IdModel { numeric: luid, incarnation: None })
            &&& r->0.received_bytes == received_bytes
            &&& r->0.loopback <==> kind == IF_TYPE_SOFTWARE_LOOPBACK
        },
{
    if status != IF_OPER_STATUS_UP {
        return None;
    }
    Some(
        InterfaceCounter {
            id: InterfaceId::numeric(luid),
            received_bytes,
            loopback: kind == IF_TYPE_SOFTWARE_LOOPBACK,
        },
    )
}

} // verus!
