//! The Icarus-family device protocol of the Block Erupter: the work payload, the nonce
//! reply, the USB-to-UART bridge setup and the read timing.

use vstd::prelude::*;
use crate::error::{usb_error, Error};
use crate::work::{le_bytes, lemma_le_bytes_injective, u32_from_le, u32_to_le};

verus! {

/// Request type of a vendor control transfer to the CP210x bridge.
pub const CP210X_TYPE_OUT: u8 = 0x41;
/// Request enabling the bridge's interface.
pub const CP210X_REQUEST_IFC_ENABLE: u8 = 0x00;
/// Request setting the line control.
pub const CP210X_REQUEST_DATA: u8 = 0x07;
/// Request setting the baud rate.
pub const CP210X_REQUEST_BAUD: u8 = 0x1e;
/// Value enabling the UART.
pub const CP210X_VALUE_UART_ENABLE: u16 = 0x0001;
/// Value of the line control.
pub const CP210X_VALUE_DATA: u16 = 0x0303;
/// Baud rate of the UART.
pub const CP210X_DATA_BAUD: u32 = 115200;

/// USB vendor of the device.
pub const ID_VENDOR: u16 = 0x10c4;
/// USB product of the device.
pub const ID_PRODUCT: u16 = 0xea60;
/// Interface the device is driven through.
pub const DEVICE_IFACE: u8 = 0;
/// Configuration the device is driven in.
pub const DEVICE_CONFIGURATION: u8 = 1;
/// Bulk endpoint work is written to.
pub const WRITE_ADDR: u8 = 0x01;
/// Bulk endpoint nonces are read from.
pub const READ_ADDR: u8 = 0x81;

/// Length of the work payload.
pub const WORK_PAYLOAD_LEN: usize = 64;
/// Length of a nonce reply.
pub const NONCE_REPLY_LEN: usize = 4;

/// Propagation delay of the USB device, in milliseconds.
pub const WAIT_TIMEOUT_MS: u64 = 100;
/// Margin, in milliseconds, by which reading stops before the chip has gone through all
/// nonces, in case the last read is late: one and a half times the propagation delay.
pub const READ_REDUCE_MS: u64 = 150;
/// Time, in milliseconds, the chip takes to go through all 2^32 nonces at its 336 MH/s.
pub const FULL_NONCE_TIME_MS: u64 = 12782;
/// Longest time, in milliseconds, to wait for nonces of one piece of work.
pub const MAX_READ_TIME_MS: u64 = FULL_NONCE_TIME_MS - READ_REDUCE_MS;

/// How long to wait for the next nonce when `elapsed_ms` have passed since the work was
/// sent: what is left of the read time, and never less than the propagation delay.
pub open spec fn nonce_timeout_spec(elapsed_ms: u64) -> u64 {
    if elapsed_ms >= MAX_READ_TIME_MS || MAX_READ_TIME_MS - elapsed_ms < WAIT_TIMEOUT_MS {
        WAIT_TIMEOUT_MS
    } else {
        (MAX_READ_TIME_MS - elapsed_ms) as u64
    }
}

pub fn nonce_timeout(elapsed_ms: u64) -> (r: u64)
    ensures
        r == nonce_timeout_spec(elapsed_ms),
        WAIT_TIMEOUT_MS <= r <= MAX_READ_TIME_MS,
{
    if elapsed_ms >= MAX_READ_TIME_MS || MAX_READ_TIME_MS - elapsed_ms < WAIT_TIMEOUT_MS {
        WAIT_TIMEOUT_MS
    } else {
        MAX_READ_TIME_MS - elapsed_ms
    }
}

/// The work the device is given: a midstate, the merkle root's last four bytes, the time
/// and the difficulty target of the header.
#[derive(Clone, Copy, Debug, PartialEq, Eq)]
pub struct WorkPayload {
    pub midstate: [u8; 32],
    pub merkle_root_tail: [u8; 4],
    pub ntime: u32,
    pub bits: u32,
}

/// The 64 bytes on the wire: midstate, 20 bytes of padding, merkle root tail, time and
/// bits, the integers little-endian.
pub open spec fn payload_bytes(p: WorkPayload) -> Seq<u8> {
    p.midstate@ + Seq::new(20, |i: int| 0u8) + p.merkle_root_tail@ + le_bytes(p.ntime) + le_bytes(p.bits)
}

/// Whether `p` is what the 64 bytes `b` hold.
pub open spec fn parses_as(b: Seq<u8>, p: WorkPayload) -> bool {
    &&& p.midstate@ == b.subrange(0, 32)
    &&& p.merkle_root_tail@ == b.subrange(52, 56)
    &&& le_bytes(p.ntime) == b.subrange(56, 60)
    &&& le_bytes(p.bits) == b.subrange(60, 64)
}

/// Reading back the bytes of a payload gives the payload.
pub proof fn lemma_payload_round_trip(p: WorkPayload, q: WorkPayload)
    requires
        parses_as(payload_bytes(p), q),
    ensures
        q == p,
{
    let b = payload_bytes(p);
    assert(b.subrange(0, 32) =~= p.midstate@);
    assert(b.subrange(52, 56) =~= p.merkle_root_tail@);
    assert(b.subrange(56, 60) =~= le_bytes(p.ntime));
    assert(b.subrange(60, 64) =~= le_bytes(p.bits));
    assert(q.midstate@ =~= p.midstate@);
    assert(q.merkle_root_tail@ =~= p.merkle_root_tail@);
    lemma_le_bytes_injective(q.ntime, p.ntime);
    lemma_le_bytes_injective(q.bits, p.bits);
    assert(q.midstate == p.midstate);
    assert(q.merkle_root_tail == p.merkle_root_tail);
}

/// The little-endian `u32` at offset `at` of a payload.
fn u32_at(bytes: &[u8; 64], at: usize) -> (r: u32)
    requires
        at + 4 <= 64,
    ensures
        le_bytes(r) == bytes@.subrange(at as int, at + 4),
{
    let four = [bytes[at], bytes[at + 1], bytes[at + 2], bytes[at + 3]];
    let r = u32_from_le(&four);
    assert(four@.subrange(0, 4) =~= bytes@.subrange(at as int, at + 4));
    r
}

impl WorkPayload {
    pub fn new(midstate: &[u8; 32], merkle_root_tail: [u8; 4], ntime: u32, bits: u32) -> (r: WorkPayload)
        ensures
            r == (WorkPayload { midstate: *midstate, merkle_root_tail, ntime, bits }),
    {
        WorkPayload { midstate: *midstate, merkle_root_tail, ntime, bits }
    }

    /// The payload as sent to the device.
    pub fn into_bytes(self) -> (r: [u8; 64])
        ensures
            r@ == payload_bytes(self),
    {
        let ghost expected = payload_bytes(self);
        let t = u32_to_le(self.ntime);
        let b = u32_to_le(self.bits);
        let mut buf = [0u8; 64];
        let mut i: usize = 0;
        assert(expected.len() == 64);
        while i < 64
            invariant
                i <= 64,
                buf@.len() == 64,
                expected == payload_bytes(self),
                expected.len() == 64,
                t@ == le_bytes(self.ntime),
                b@ == le_bytes(self.bits),
                forall|k: int| 0 <= k < i ==> buf@[k] == expected[k],
            decreases 64 - i,
        {
            let v = if i < 32 {
                self.midstate[i]
            } else if i < 52 {
                0u8
            } else if i < 56 {
                self.merkle_root_tail[i - 52]
            } else if i < 60 {
                t[i - 56]
            } else {
                b[i - 60]
            };
            assert(v == expected[i as int]);
            buf.set(i, v);
            i += 1;
        }
        assert(buf@ =~= expected);
        buf
    }

    /// The payload that the 64 bytes `bytes` hold; the padding is not looked at.
    pub fn from_bytes(bytes: &[u8; 64]) -> (r: WorkPayload)
        ensures
            parses_as(bytes@, r),
    {
        let mut midstate = [0u8; 32];
        let mut i: usize = 0;
        while i < 32
            invariant
                i <= 32,
                midstate@.len() == 32,
                bytes@.len() == 64,
                forall|k: int| 0 <= k < i ==> midstate@[k] == bytes@[k],
            decreases 32 - i,
        {
            midstate.set(i, bytes[i]);
            i += 1;
        }
        assert(midstate@ =~= bytes@.subrange(0, 32));
        let merkle_root_tail = [bytes[52], bytes[53], bytes[54], bytes[55]];
        assert(merkle_root_tail@ =~= bytes@.subrange(52, 56));
        let ntime = u32_at(bytes, 56);
        let bits = u32_at(bytes, 60);
        WorkPayload { midstate, merkle_root_tail, ntime, bits }
    }
}

/// The nonce in a reply of the device; a reply of another length than four bytes is a
/// protocol error.
pub fn nonce_from_reply(reply: &[u8]) -> (r: Result<u32, Error>)
    ensures
        reply@.len() == NONCE_REPLY_LEN ==> r is Ok && le_bytes(r->Ok_0) == reply@,
        reply@.len() != NONCE_REPLY_LEN ==> {
            &&& r is Err
            &&& r->Err_0.kind is Usb
            &&& r->Err_0.kind->Usb_0@ == "read incorrect number of bytes"@
            &&& r->Err_0.cause.is_none()
        },
{
    if reply.len() != NONCE_REPLY_LEN {
        return Err(usb_error("read incorrect number of bytes", None));
    }
    let n = u32_from_le(reply);
    assert(reply@.subrange(0, 4) =~= reply@);
    Ok(n)
}

/// A vendor control transfer to the USB-to-UART bridge, and what its failure is called.
#[derive(Clone, Debug, PartialEq, Eq)]
pub struct ControlTransfer {
    pub request_type: u8,
    pub request: u8,
    pub value: u16,
    pub index: u16,
    pub data: Vec<u8>,
    pub failure: String,
}

/// The transfers that bring the bridge's UART up, in order: enable it, set the line
/// control, set the baud rate.
pub fn uart_setup_transfers() -> (r: Vec<ControlTransfer>)
    ensures
        r@.len() == 3,
        forall|i: int| 0 <= i < 3 ==> (#[trigger] r@[i]).request_type == CP210X_TYPE_OUT && r@[i].index == 0,
        r@[0].request == CP210X_REQUEST_IFC_ENABLE,
        r@[0].value == CP210X_VALUE_UART_ENABLE,
        r@[0].data@.len() == 0,
        r@[0].failure@ == "cannot enable UART"@,
        r@[1].request == CP210X_REQUEST_DATA,
        r@[1].value == CP210X_VALUE_DATA,
        r@[1].data@.len() == 0,
        r@[1].failure@ == "cannot set data control"@,
        r@[2].request == CP210X_REQUEST_BAUD,
        r@[2].value == 0,
        r@[2].data@ == le_bytes(CP210X_DATA_BAUD),
        r@[2].failure@ == "cannot set baud rate"@,
{
    let mut r: Vec<ControlTransfer> = Vec::new();
    r.push(ControlTransfer {
        request_type: CP210X_TYPE_OUT,
        request: CP210X_REQUEST_IFC_ENABLE,
        value: CP210X_VALUE_UART_ENABLE,
        index: 0,
        data: Vec::new(),
        failure: "cannot enable UART".to_owned(),
    });
    r.push(ControlTransfer {
        request_type: CP210X_TYPE_OUT,
        request: CP210X_REQUEST_DATA,
        value: CP210X_VALUE_DATA,
        index: 0,
        data: Vec::new(),
        failure: "cannot set data control".to_owned(),
    });
    let baud = u32_to_le(CP210X_DATA_BAUD);
    let mut data: Vec<u8> = Vec::new();
    data.push(baud[0]);
    data.push(baud[1]);
    data.push(baud[2]);
    data.push(baud[3]);
    assert(data@ =~= baud@);
    r.push(ControlTransfer {
        request_type: CP210X_TYPE_OUT,
        request: CP210X_REQUEST_BAUD,
        value: 0,
        index: 0,
        data,
        failure: "cannot set baud rate".to_owned(),
    });
    r
}

} // verus!
