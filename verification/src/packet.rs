//! The magic-packet validator.
//!
//! A datagram is structurally valid when it is at least 102 bytes long, its
//! first 6 bytes are the synchronization header (six bytes of `0xFF`), and
//! bytes 6..102 consist of the same 6-byte hardware address repeated 16
//! times. Bytes beyond index 101 are ignored. An optional allow-list
//! restricts acceptance to addresses owned by this host.

use vstd::prelude::*;

verus! {

broadcast use vstd::array::group_array_axioms;

/// Total size of the inspected prefix: 6 header bytes plus 16 repetitions
/// of a 6-byte hardware address.
pub const EXPECTED_PACKET_SIZE: usize = 102;

/// Why a datagram was rejected. Exactly one reason is reported per
/// datagram, the first failure in validation order.
#[derive(Debug, Clone, Copy, PartialEq, Eq)]
pub enum RejectReason {
    /// The datagram is shorter than the 102 inspected bytes; `got` is the
    /// actual length, `want` the required minimum.
    SizeTooSmall { got: usize, want: usize },
    /// The first 6 bytes are not all `0xFF`.
    HeaderMismatch,
    /// One of the 16 repeated blocks differs from the candidate address.
    RepetitionMismatch,
    /// The packet is well-formed but its address is not in the allow-list.
    AddressNotLocal { mac: [u8; 6] },
}

impl RejectReason {
    /// The diagnostic label of this reason, one fixed line fragment per
    /// variant.
    pub open spec fn message_spec(&self) -> Seq<char> {
        match self {
            RejectReason::SizeTooSmall { .. } => "Invalid size"@,
            RejectReason::HeaderMismatch => "Invalid header"@,
            RejectReason::RepetitionMismatch => "Invalid MAC repetition"@,
            RejectReason::AddressNotLocal { .. } => "MAC address does not match any local interface"@,
        }
    }

    /// The human-readable label used in diagnostic records for this reason.
    pub fn message(&self) -> (s: &'static str)
        ensures
            s@ == self.message_spec(),
    {
        match self {
            RejectReason::SizeTooSmall { .. } => "Invalid size",
            RejectReason::HeaderMismatch => "Invalid header",
            RejectReason::RepetitionMismatch => "Invalid MAC repetition",
            RejectReason::AddressNotLocal { .. } => "MAC address does not match any local interface",
        }
    }
}

/// The first 6 bytes are the synchronization header `FF FF FF FF FF FF`.
pub open spec fn header_ok(b: Seq<u8>) -> bool {
    forall|i: int| 0 <= i < 6 ==> b[i] == 0xFFu8
}

/// The `i`-th 6-byte block after the header (block 0 is bytes 6..12).
pub open spec fn block_of(b: Seq<u8>, i: int) -> Seq<u8> {
    b.subrange(6 + 6 * i, 12 + 6 * i)
}

/// The candidate hardware address carried by the packet: bytes 6..12.
pub open spec fn packet_mac(b: Seq<u8>) -> Seq<u8> {
    block_of(b, 0)
}

/// Blocks 1..16 all repeat the candidate address.
pub open spec fn repetition_ok(b: Seq<u8>) -> bool {
    forall|i: int| 1 <= i < 16 ==> block_of(b, i) == packet_mac(b)
}

/// Length, header and repetition checks all pass on the first 102 bytes.
pub open spec fn structurally_valid(b: Seq<u8>) -> bool {
    &&& b.len() >= 102
    &&& header_ok(b)
    &&& repetition_ok(b)
}

/// `mac` is one of the addresses in `locals`.
pub open spec fn mac_in_list(mac: Seq<u8>, locals: Seq<[u8; 6]>) -> bool {
    exists|k: int| 0 <= k < locals.len() && locals[k]@ == mac
}

/// `r` is the outcome of the structural checks alone (no allow-list) on a
/// buffer whose view is `b`: the first failing check in validation order
/// determines the error, and on success the candidate address is returned.
pub open spec fn structure_to(b: Seq<u8>, r: Result<[u8; 6], RejectReason>) -> bool {
    if b.len() < 102 {
        r == Err::<[u8; 6], RejectReason>(RejectReason::SizeTooSmall {
            got: b.len() as usize,
            want: EXPECTED_PACKET_SIZE,
        })
    } else if !header_ok(b) {
        r == Err::<[u8; 6], RejectReason>(RejectReason::HeaderMismatch)
    } else if !repetition_ok(b) {
        r == Err::<[u8; 6], RejectReason>(RejectReason::RepetitionMismatch)
    } else {
        &&& r matches Ok(mac)
        &&& mac@ == packet_mac(b)
    }
}

/// `r` is the outcome of full validation, allow-list included, on a buffer
/// whose view is `b` with allow-list `locals`.
pub open spec fn validates_to(
    b: Seq<u8>,
    locals: Seq<[u8; 6]>,
    r: Result<[u8; 6], RejectReason>,
) -> bool {
    if !structurally_valid(b) {
        structure_to(b, r)
    } else if !mac_in_list(packet_mac(b), locals) {
        &&& r matches Err(RejectReason::AddressNotLocal { mac })
        &&& mac@ == packet_mac(b)
    } else {
        &&& r matches Ok(mac)
        &&& mac@ == packet_mac(b)
    }
}

/// Runs the structural checks on a datagram payload: length, header, and
/// the 16-fold repetition of the candidate address. On success returns the
/// candidate address; bytes beyond index 101 are ignored. This is the
/// validator of the mode without an allow-list.
pub fn check_packet_structure(packet: &[u8]) -> (r: Result<[u8; 6], RejectReason>)
    ensures
        structure_to(packet@, r),
{
    if packet.len() < EXPECTED_PACKET_SIZE {
        return Err(RejectReason::SizeTooSmall { got: packet.len(), want: EXPECTED_PACKET_SIZE });
    }
    let mut i: usize = 0;
    while i < 6
        invariant
            packet@.len() >= 102,
            i <= 6,
            forall|k: int| 0 <= k < i ==> packet@[k] == 0xFFu8,
        decreases 6 - i,
    {
        if packet[i] != 0xFF {
            return Err(RejectReason::HeaderMismatch);
        }
        i = i + 1;
    }
    let mut blk: usize = 1;
    while blk < 16
        invariant
            packet@.len() >= 102,
            1 <= blk <= 16,
            header_ok(packet@),
            forall|b: int| 1 <= b < blk ==> block_of(packet@, b) == packet_mac(packet@),
        decreases 16 - blk,
    {
        let mut j: usize = 0;
        while j < 6
            invariant
                packet@.len() >= 102,
                header_ok(packet@),
                1 <= blk < 16,
                j <= 6,
                forall|k: int| 0 <= k < j
                    ==> block_of(packet@, blk as int)[k] == packet_mac(packet@)[k],
            decreases 6 - j,
        {
            proof {
                assert(block_of(packet@, blk as int)[j as int]
                    == packet@[6 + 6 * (blk as int) + j]);
                assert(packet_mac(packet@)[j as int] == packet@[6 + j]);
            }
            if packet[6 + 6 * blk + j] != packet[6 + j] {
                proof {
                    assert(block_of(packet@, blk as int) != packet_mac(packet@));
                    assert(!repetition_ok(packet@));
                }
                return Err(RejectReason::RepetitionMismatch);
            }
            j = j + 1;
        }
        proof {
            assert(block_of(packet@, blk as int) =~= packet_mac(packet@));
        }
        blk = blk + 1;
    }
    let mac: [u8; 6] = [packet[6], packet[7], packet[8], packet[9], packet[10], packet[11]];
    proof {
        assert(mac@ =~= packet_mac(packet@));
    }
    Ok(mac)
}

/// Byte-exact equality of two hardware addresses.
fn mac_eq(a: &[u8; 6], b: &[u8; 6]) -> (r: bool)
    ensures
        r == (a@ == b@),
{
    let r = a[0] == b[0] && a[1] == b[1] && a[2] == b[2] && a[3] == b[3] && a[4] == b[4]
        && a[5] == b[5];
    proof {
        if r {
            assert(a@ =~= b@);
        }
    }
    r
}

/// Membership of an address in an allow-list, byte-exact.
pub fn contains_mac(list: &[[u8; 6]], mac: &[u8; 6]) -> (r: bool)
    ensures
        r == mac_in_list(mac@, list@),
{
    let mut k: usize = 0;
    while k < list.len()
        invariant
            k <= list@.len(),
            forall|m: int| 0 <= m < k ==> list@[m]@ != mac@,
        decreases list@.len() - k,
    {
        if mac_eq(&list[k], mac) {
            return true;
        }
        k = k + 1;
    }
    false
}

/// Validates a datagram payload in the allow-list mode: the structural
/// checks of `check_packet_structure`, and then membership of the candidate
/// address in `local_macs`. On success returns the candidate address.
pub fn validate_wol_packet(packet: &[u8], local_macs: &[[u8; 6]]) -> (r: Result<
    [u8; 6],
    RejectReason,
>)
    ensures
        validates_to(packet@, local_macs@, r),
{
    let mac = match check_packet_structure(packet) {
        Ok(m) => m,
        Err(e) => {
            return Err(e);
        },
    };
    if !contains_mac(local_macs, &mac) {
        return Err(RejectReason::AddressNotLocal { mac });
    }
    Ok(mac)
}

/// Law: the structural checks pin a unique outcome — at most one result
/// satisfies the structural relation for a given buffer.
pub proof fn lemma_structure_deterministic(
    b: Seq<u8>,
    r1: Result<[u8; 6], RejectReason>,
    r2: Result<[u8; 6], RejectReason>,
)
    requires
        structure_to(b, r1),
        structure_to(b, r2),
    ensures
        r1 == r2,
{
    if b.len() >= 102 && header_ok(b) && repetition_ok(b) {
        match (r1, r2) {
            (Ok(m1), Ok(m2)) => {
                assert(m1 =~= m2);
            },
            _ => {
            },
        }
    }
}

/// Law: validation has no hidden state — at most one outcome satisfies the
/// validation relation for a given buffer and allow-list, so validating
/// the same buffer twice yields the same outcome.
pub proof fn lemma_validation_deterministic(
    b: Seq<u8>,
    locals: Seq<[u8; 6]>,
    r1: Result<[u8; 6], RejectReason>,
    r2: Result<[u8; 6], RejectReason>,
)
    requires
        validates_to(b, locals, r1),
        validates_to(b, locals, r2),
    ensures
        r1 == r2,
{
    if !structurally_valid(b) {
        lemma_structure_deterministic(b, r1, r2);
    } else if !mac_in_list(packet_mac(b), locals) {
        match (r1, r2) {
            (
                Err(RejectReason::AddressNotLocal { mac: m1 }),
                Err(RejectReason::AddressNotLocal { mac: m2 }),
            ) => {
                assert(m1 =~= m2);
            },
            _ => {
            },
        }
    } else {
        match (r1, r2) {
            (Ok(m1), Ok(m2)) => {
                assert(m1 =~= m2);
            },
            _ => {
            },
        }
    }
}

/// Law: a buffer of at least 102 bytes that starts with the
/// synchronization header and carries the address `m` in all 16 blocks
/// passes the structural checks and yields exactly `m`.
pub proof fn lemma_repeated_address_accepted(b: Seq<u8>, m: [u8; 6])
    requires
        b.len() >= 102,
        header_ok(b),
        forall|i: int| 0 <= i < 16 ==> block_of(b, i) == m@,
    ensures
        structurally_valid(b),
        packet_mac(b) == m@,
        structure_to(b, Ok(m)),
{
    assert(block_of(b, 0) == m@);
}

/// Law: if any two of the 16 repeated blocks differ, the repetition check
/// fails, and a buffer that passes the length and header checks is
/// rejected with `RepetitionMismatch`, whatever the allow-list.
pub proof fn lemma_differing_block_rejected(
    b: Seq<u8>,
    locals: Seq<[u8; 6]>,
    i1: int,
    i2: int,
)
    requires
        b.len() >= 102,
        header_ok(b),
        0 <= i1 < 16,
        0 <= i2 < 16,
        block_of(b, i1) != block_of(b, i2),
    ensures
        !repetition_ok(b),
        structure_to(b, Err::<[u8; 6], RejectReason>(RejectReason::RepetitionMismatch)),
        validates_to(b, locals, Err::<[u8; 6], RejectReason>(RejectReason::RepetitionMismatch)),
{
    if repetition_ok(b) {
        assert(block_of(b, i1) == packet_mac(b));
        assert(block_of(b, i2) == packet_mac(b));
    }
}

/// Law: the allow-list decides structurally valid packets — a candidate
/// address absent from the list is rejected as not local, and the same
/// packet is accepted once its address is added to the list.
pub proof fn lemma_allow_list_filters(b: Seq<u8>, locals: Seq<[u8; 6]>, m: [u8; 6])
    requires
        structure_to(b, Ok(m)),
    ensures
        !mac_in_list(m@, locals) ==> validates_to(
            b,
            locals,
            Err::<[u8; 6], RejectReason>((RejectReason::AddressNotLocal { mac: m })),
        ),
        validates_to(b, locals.push(m), Ok(m)),
{
    assert(structurally_valid(b));
    assert(m@ == packet_mac(b));
    assert(locals.push(m)[locals.len() as int] == m);
    assert(mac_in_list(m@, locals.push(m)));
}

} // verus!
