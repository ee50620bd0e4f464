//! The counters of network interfaces on macOS.

use super::interfaces::{IdModel, InterfaceId};
use super::InterfaceCounter;
use vstd::prelude::*;

verus! {

/// The flag of an interface that is up.
pub const IFF_UP: u32 = 0x1;

/// The flag of an interface of the computer with itself.
pub const IFF_LOOPBACK: u32 = 0x8;

/// The counter of an interface, from its index, its name, its flags and the
/// bytes it received. One that is not up has none.
pub fn counter_from_data(index: u32, name: Vec<u8>, flags: u32, received_bytes: u64) -> (r: Option<
    InterfaceCounter,
>)
    ensures
        r is Some <==> flags & IFF_UP != 0,
        r is Some ==> {
            &&& r->0.id@ == (IdModel { numeric: index as u64, incarnation: Some(name@) })
            &&& r->0.received_bytes == received_bytes
            &&& r->0.loopback <==> flags & IFF_LOOPBACK != 0
        },
{
    if flags & IFF_UP == 0 {
        return None;
    }
    Some(
        InterfaceCounter {
            id: InterfaceId::with_incarnation(index as u64, name),
            received_bytes,
            loopback: flags & IFF_LOOPBACK != 0,
        },
    )
}

/// The code for something that does not exist.
pub const ENOENT: i32 = 2;

/// The code for a device that does not exist.
pub const ENXIO: i32 = 6;

/// What asking for the data of an interface came to.
#[derive(Clone, Copy, Debug, PartialEq, Eq, Structural)]
pub enum InterfaceRead {
    /// The data is there.
    Present,
    /// The interface has gone since it was listed, which is no failure.
    Gone,
    /// The system refused.
    Refused,
    /// The data does not have the expected size.
    UnexpectedSize,
}

/// The index of an interface as the system takes it, where it can.
pub fn interface_index(index: u32) -> (r: Option<i32>)
    ensures
        r is Some <==> index <= i32::MAX,
        r is Some ==> r->0 == index,
{
    if index <= 0x7fff_ffff {
        Some(index as i32)
    } else {
        None
    }
}

/// What the result of reading an interface means.
pub open spec fn read_means(
    result: i32,
    code: Option<i32>,
    size: usize,
    expected: usize,
) -> InterfaceRead {
    if result != 0 {
        if code == Some(ENOENT) || code == Some(ENXIO) {
            InterfaceRead::Gone
        } else {
            InterfaceRead::Refused
        }
    } else if size != expected {
        InterfaceRead::UnexpectedSize
    } else {
        InterfaceRead::Present
    }
}

/// What asking for the data of an interface came to, from the result of the
/// call, the system's code where it failed, and the size that came back.
pub fn read_outcome(result: i32, code: Option<i32>, size: usize, expected: usize) -> (r:
    InterfaceRead)
    ensures
        r == read_means(result, code, size, expected),
{
    if result != 0 {
        match code {
            Some(code) => if code == ENOENT || code == ENXIO {
                InterfaceRead::Gone
            } else {
                InterfaceRead::Refused
            },
            None => InterfaceRead::Refused,
        }
    } else if size != expected {
        InterfaceRead::UnexpectedSize
    } else {
        InterfaceRead::Present
    }
}

} // verus!
