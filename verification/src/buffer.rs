//! Where the result of a lookup lies in the buffer that the caller lends.
//!
//! A plan holds offsets into the buffer and touches no memory. The host entry
//! is laid out as the list of pointers to the addresses, the null pointer that
//! ends the list, the addresses, and the name with its final zero byte. The
//! chain of address tuples keeps its first tuple with the caller; the others
//! follow one another from the start of the buffer, and the name comes last.

use vstd::prelude::*;
use crate::record::Ipv4Address;

verus! {

/// Why no plan could be made.
#[derive(Clone, Copy, Debug, PartialEq, Eq, Structural)]
pub enum PlanError {
    /// There is no address to hand over.
    NoAddress,
    /// The buffer is too small for the result.
    BufferTooSmall,
}

/// The number of bytes that a host entry takes: for each address a pointer
/// and the four bytes of the address, one pointer more that ends the list, and
/// the name with its final zero byte.
pub open spec fn hostent_size(count: int, name_len: int, pointer_size: int) -> int {
    count * (pointer_size + 4) + pointer_size + name_len + 1
}

/// The bytes that a host entry takes, where their number is a `usize`.
pub fn hostent_bytes(count: usize, name_len: usize, pointer_size: usize) -> (bytes: Option<usize>)
    ensures
        bytes == if hostent_size(count as int, name_len as int, pointer_size as int)
            <= usize::MAX {
            Some(hostent_size(count as int, name_len as int, pointer_size as int) as usize)
        } else {
            None
        },
{
    assert(count * (pointer_size + 4) == count * pointer_size + count * 4) by (nonlinear_arith);
    assert(0 <= count * pointer_size) by (nonlinear_arith);
    let pointers = match count.checked_mul(pointer_size) {
        Some(pointers) => pointers,
        None => {
            return None;
        },
    };
    let addresses = match count.checked_mul(4) {
        Some(addresses) => addresses,
        None => {
            return None;
        },
    };
    let list = match pointers.checked_add(pointer_size) {
        Some(list) => list,
        None => {
            return None;
        },
    };
    let data = match list.checked_add(addresses) {
        Some(data) => data,
        None => {
            return None;
        },
    };
    let named = match data.checked_add(name_len) {
        Some(named) => named,
        None => {
            return None;
        },
    };
    named.checked_add(1)
}

/// Where one address of a host entry lies.
#[derive(Clone, Copy, Debug, PartialEq, Eq)]
pub struct AddressSlot {
    /// The offset of the pointer to the address, in the list of pointers.
    pub pointer_at: usize,
    /// The offset of the four bytes of the address.
    pub address_at: usize,
    /// The address.
    pub ip: Ipv4Address,
}

/// Where a host entry lies in the buffer.
#[derive(Clone, Debug, PartialEq, Eq)]
pub struct HostentPlan {
    /// The addresses in their order, each with its place. The list of pointers
    /// starts at offset zero.
    pub slots: Vec<AddressSlot>,
    /// The offset of the null pointer that ends the list of pointers. The
    /// empty list of aliases is this same pointer.
    pub end_of_list: usize,
    /// The offset of the name.
    pub name_at: usize,
    /// The number of bytes that are filled.
    pub size: usize,
}

impl HostentPlan {
    /// The plan is the layout of these addresses and of a name of `name_len`
    /// bytes, with pointers of `pointer_size` bytes.
    pub open spec fn lays_out(
        self,
        addresses: Seq<Ipv4Address>,
        name_len: int,
        pointer_size: int,
    ) -> bool {
        let count = addresses.len() as int;
        &&& self.slots@.len() == count
        &&& forall|k: int|
            0 <= k < count ==> {
                &&& (#[trigger] self.slots@[k]).pointer_at == k * pointer_size
                &&& self.slots@[k].address_at == (count + 1) * pointer_size + 4 * k
                &&& self.slots@[k].ip == addresses[k]
            }
        &&& self.end_of_list == count * pointer_size
        &&& self.name_at == (count + 1) * pointer_size + 4 * count
        &&& self.size == hostent_size(count, name_len, pointer_size)
    }
}

/// Lays a host entry out in a buffer of `buffer_len` bytes: the addresses in
/// their order, and a name of `name_len` bytes. There is a plan if and only
/// if the entry fits into the buffer.
pub fn plan_hostent(
    addresses: &Vec<Ipv4Address>,
    name_len: usize,
    pointer_size: usize,
    buffer_len: usize,
) -> (plan: Result<HostentPlan, PlanError>)
    ensures
        plan is Ok <==> hostent_size(addresses.len() as int, name_len as int, pointer_size as int)
            <= buffer_len,
        plan matches Ok(laid) ==> laid.lays_out(addresses@, name_len as int, pointer_size as int),
        plan matches Err(error) ==> error == PlanError::BufferTooSmall,
{
    let count = addresses.len();
    let size = match hostent_bytes(count, name_len, pointer_size) {
        Some(size) => size,
        None => {
            return Err(PlanError::BufferTooSmall);
        },
    };
    if size > buffer_len {
        return Err(PlanError::BufferTooSmall);
    }
    assert(count * (pointer_size + 4) == count * pointer_size + count * 4) by (nonlinear_arith);
    assert((count + 1) * pointer_size == count * pointer_size + pointer_size)
        by (nonlinear_arith);
    assert(0 <= count * pointer_size) by (nonlinear_arith);
    let end_of_list = count * pointer_size;
    let first_address = end_of_list + pointer_size;
    let mut slots: Vec<AddressSlot> = Vec::new();
    let mut pointer_at: usize = 0;
    let mut address_at: usize = first_address;
    let mut k: usize = 0;
    while k < count
        invariant
            count == addresses.len(),
            k <= count,
            end_of_list == count * pointer_size,
            first_address == (count + 1) * pointer_size,
            first_address + 4 * count <= usize::MAX,
            pointer_at == k * pointer_size,
            address_at == first_address + 4 * k,
            slots@.len() == k,
            forall|i: int|
                0 <= i < k ==> {
                    &&& (#[trigger] slots@[i]).pointer_at == i * pointer_size
                    &&& slots@[i].address_at == (count + 1) * pointer_size + 4 * i
                    &&& slots@[i].ip == addresses@[i]
                },
        decreases count - k,
    {
        slots.push(AddressSlot { pointer_at, address_at, ip: addresses[k] });
        assert((k + 1) * pointer_size == k * pointer_size + pointer_size) by (nonlinear_arith);
        assert((k + 1) * pointer_size <= count * pointer_size) by (nonlinear_arith)
            requires
                k + 1 <= count,
                0 <= pointer_size,
        ;
        pointer_at = pointer_at + pointer_size;
        address_at = address_at + 4;
        k += 1;
    }
    Ok(HostentPlan { slots, end_of_list, name_at: address_at, size })
}

/// The number of bytes that a chain of address tuples takes in the buffer:
/// every tuple but the first, and the name with its final zero byte.
pub open spec fn tuples_size(count: int, name_len: int, tuple_size: int) -> int {
    (count - 1) * tuple_size + name_len + 1
}

/// Where one address tuple lies, and what it points to.
#[derive(Clone, Copy, Debug, PartialEq, Eq)]
pub struct TupleSlot {
    /// The offset of the tuple; the first tuple is the caller's own and has
    /// none.
    pub place: Option<usize>,
    /// The offset of the tuple that follows; the last tuple has none.
    pub next: Option<usize>,
    /// The offset of the name; only the first tuple has one.
    pub name: Option<usize>,
    /// The address.
    pub ip: Ipv4Address,
}

/// Where a chain of address tuples lies in the buffer.
#[derive(Clone, Debug, PartialEq, Eq)]
pub struct TuplePlan {
    /// The tuples in the order of the addresses.
    pub tuples: Vec<TupleSlot>,
    /// The offset of the name.
    pub name_at: usize,
    /// The number of bytes that are filled.
    pub size: usize,
}

impl TuplePlan {
    /// The plan is the layout of these addresses and of a name of `name_len`
    /// bytes, with tuples of `tuple_size` bytes.
    pub open spec fn lays_out(
        self,
        addresses: Seq<Ipv4Address>,
        name_len: int,
        tuple_size: int,
    ) -> bool {
        let count = addresses.len() as int;
        &&& self.tuples@.len() == count
        &&& forall|k: int|
            0 <= k < count ==> {
                &&& (#[trigger] self.tuples@[k]).place == if k == 0 {
                    None
                } else {
                    Some(((k - 1) * tuple_size) as usize)
                }
                &&& self.tuples@[k].next == if k < count - 1 {
                    Some((k * tuple_size) as usize)
                } else {
                    None
                }
                &&& self.tuples@[k].name == if k == 0 {
                    Some(((count - 1) * tuple_size) as usize)
                } else {
                    None
                }
                &&& self.tuples@[k].ip == addresses[k]
            }
        &&& self.name_at == (count - 1) * tuple_size
        &&& self.size == tuples_size(count, name_len, tuple_size)
    }
}

/// Lays a chain of address tuples out in a buffer of `buffer_len` bytes: one
/// tuple for each address in their order, and a name of `name_len` bytes.
/// Without an address there is nothing to lay out; else there is a plan if and
/// only if the chain fits into the buffer.
pub fn plan_tuples(
    addresses: &Vec<Ipv4Address>,
    name_len: usize,
    tuple_size: usize,
    buffer_len: usize,
) -> (plan: Result<TuplePlan, PlanError>)
    ensures
        plan is Ok <==> addresses.len() > 0 && tuples_size(
            addresses.len() as int,
            name_len as int,
            tuple_size as int,
        ) <= buffer_len,
        plan matches Ok(laid) ==> laid.lays_out(addresses@, name_len as int, tuple_size as int),
        plan matches Err(error) ==> error == if addresses.len() == 0 {
            PlanError::NoAddress
        } else {
            PlanError::BufferTooSmall
        },
{
    let count = addresses.len();
    if count == 0 {
        return Err(PlanError::NoAddress);
    }
    assert(0 <= (count - 1) * tuple_size) by (nonlinear_arith)
        requires
            count >= 1,
            tuple_size >= 0,
    ;
    let name_at = match (count - 1).checked_mul(tuple_size) {
        Some(name_at) => name_at,
        None => {
            return Err(PlanError::BufferTooSmall);
        },
    };
    let named = match name_at.checked_add(name_len) {
        Some(named) => named,
        None => {
            return Err(PlanError::BufferTooSmall);
        },
    };
    let size = match named.checked_add(1) {
        Some(size) => size,
        None => {
            return Err(PlanError::BufferTooSmall);
        },
    };
    if size > buffer_len {
        return Err(PlanError::BufferTooSmall);
    }
    let mut tuples: Vec<TupleSlot> = Vec::new();
    tuples.push(
        TupleSlot {
            place: None,
            next: if count > 1 {
                Some(0)
            } else {
                None
            },
            name: Some(name_at),
            ip: addresses[0],
        },
    );
    let mut place: usize = 0;
    let mut k: usize = 1;
    while k < count
        invariant
            count == addresses.len(),
            1 <= k <= count,
            name_at == (count - 1) * tuple_size,
            place == (k - 1) * tuple_size,
            tuples@.len() == k,
            forall|i: int|
                0 <= i < k ==> {
                    &&& (#[trigger] tuples@[i]).place == if i == 0 {
                        None
                    } else {
                        Some(((i - 1) * tuple_size) as usize)
                    }
                    &&& tuples@[i].next == if i < count - 1 {
                        Some((i * tuple_size) as usize)
                    } else {
                        None
                    }
                    &&& tuples@[i].name == if i == 0 {
                        Some(((count - 1) * tuple_size) as usize)
                    } else {
                        None
                    }
                    &&& tuples@[i].ip == addresses@[i]
                },
        decreases count - k,
    {
        assert(k * tuple_size == (k - 1) * tuple_size + tuple_size) by (nonlinear_arith);
        assert(k * tuple_size <= (count - 1) * tuple_size) by (nonlinear_arith)
            requires
                k <= count - 1,
                0 <= tuple_size,
        ;
        let after = place + tuple_size;
        tuples.push(
            TupleSlot {
                place: Some(place),
                next: if k < count - 1 {
                    Some(after)
                } else {
                    None
                },
                name: None,
                ip: addresses[k],
            },
        );
        place = after;
        k += 1;
    }
    Ok(TuplePlan { tuples, name_at, size })
}

} // verus!
