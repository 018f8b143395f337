//! Plain descriptions of exercises a harness can drive a vsock device with.
//!
//! These types carry no behaviour of their own: they name, as plain values,
//! the operations of a vsock packet and the shape of a synthetic descriptor
//! table, so that a harness outside this crate can decode them from bytes,
//! materialise the descriptors into guest memory, and replay the operations
//! against a live packet.

use vstd::prelude::*;

use crate::descriptor::Descriptor;

verus! {

/// One operation that can be performed on a vsock packet: reading or
/// writing a header field, taking the header or data slice, or replacing
/// the header wholesale.
#[derive(Debug)]
pub enum VsockFunctionType {
    HeaderSlice,
    Len,
    DataSlice,
    SrcCid,
    SetSrcCid { cid: u64 },
    DstCid,
    SetDstCid { cid: u64 },
    SrcPort,
    SetSrcPort { port: u32 },
    DstPort,
    SetDstPort { port: u32 },
    IsEmpty,
    SetLen { len: u32 },
    Type_,
    SetType { type_: u16 },
    Op,
    SetOp { op: u16 },
    Flags,
    SetFlags { flags: u32 },
    SetFlag { flag: u32 },
    BufAlloc,
    SetBufAlloc { buf_alloc: u32 },
    FwdCnt,
    SetFwdCnt { fwd_cnt: u32 },
    SetHeaderFromRaw { bytes: Vec<u8> },
}

/// Which direction a vsock packet is assembled from: a receive-queue chain
/// or a transmit-queue chain.
#[derive(Debug, Copy, Clone)]
pub enum InitFunction {
    FromRX,
    FromTX,
}

/// The four raw fields of one synthetic descriptor-table entry, exactly as
/// a harness supplies them; every value is legal.
#[derive(Debug, Copy, Clone, PartialEq, Eq, Structural)]
pub struct FuzzingDescriptor {
    /// Guest-physical address of the segment.
    pub addr: u64,
    /// Byte length of the segment.
    pub len: u32,
    /// Raw flag bits.
    pub flags: u16,
    /// Table index of the following descriptor.
    pub next: u16,
}

impl FuzzingDescriptor {
    /// The descriptor-table entry these fields denote.
    pub fn to_descriptor(&self) -> (r: Descriptor)
        ensures
            r == (Descriptor {
                addr: self.addr,
                len: self.len,
                flags: self.flags,
                next: self.next,
            }),
    {
        Descriptor { addr: self.addr, len: self.len, flags: self.flags, next: self.next }
    }
}

/// One full exercise of a vsock device: the descriptor table to lay out,
/// the direction to assemble the packet from, and the operations to replay
/// on it.
#[derive(Debug)]
pub struct VsockInput {
    /// Ceiling for the packet's data buffer.
    pub pkt_max_data: u32,
    /// Which virtqueue direction the packet is assembled from.
    pub init_function: InitFunction,
    /// The synthetic descriptor table.
    pub descriptors: Vec<FuzzingDescriptor>,
    /// The operations to replay, in order.
    pub functions: Vec<VsockFunctionType>,
}

} // verus!
