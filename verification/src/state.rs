//! Fixed-width byte codecs for the two persisted records.
//!
//! A faucet record occupies 77 bytes: a one-byte initialization flag, an
//! optional admin key (a 4-byte little-endian tag, 0 or 1, followed by 32
//! key bytes; an absent key is encoded with tag 0 and a zeroed body), the
//! per-call cap as a little-endian `u64`, and the mint identity.
//!
//! An escrow record occupies 105 bytes: a one-byte initialization flag,
//! then the initiator, source-holding and destination identities, and the
//! expected amount as a little-endian `u64`.
//!
//! Decoding a buffer shorter than the fixed length is a fatal error,
//! never a partial read.

use vstd::prelude::*;
use vstd::bytes::*;
use vstd::slice::slice_subrange;

use crate::error::{EscrowError, EscrowFault, FaucetError, FaucetFault};

verus! {

/// The number of bytes of an encoded faucet record.
pub const FAUCET_RECORD_LEN: usize = 77;

/// The number of bytes of an encoded escrow record.
pub const ESCROW_RECORD_LEN: usize = 105;

/// The persisted state of one faucet.
#[derive(Clone, Copy, Debug, PartialEq, Eq)]
pub struct Faucet {
    /// Whether this record has been initiated.
    pub is_initialized: bool,
    /// The admin entitled to uncapped mints and to closing the faucet,
    /// fixed at initialization.
    pub admin: Option<[u8; 32]>,
    /// The mint this faucet issues, fixed at initialization.
    pub mint: [u8; 32],
    /// The per-call cap that bounds every non-admin mint.
    pub amount: u64,
}

/// The persisted state of one escrow swap.
#[derive(Clone, Copy, Debug, PartialEq, Eq)]
pub struct EscrowRecord {
    /// Whether this record has been initiated.
    pub initialized: bool,
    /// The party that opened the escrow.
    pub initiator_identity: [u8; 32],
    /// The temporary balance holder offered by the initiator.
    pub source_holding_identity: [u8; 32],
    /// Where the initiator wants to receive funds.
    pub destination_identity: [u8; 32],
    /// The amount the initiator expects to receive.
    pub expected_amount: u64,
}

// ---------------------------------------------------------------------
// Encode specifications
// ---------------------------------------------------------------------

/// The 36-byte encoding of an optional key.
pub open spec fn coption_key_bytes(k: Option<[u8; 32]>) -> Seq<u8> {
    match k {
        Some(key) => seq![1u8, 0u8, 0u8, 0u8] + key@,
        None => seq![0u8, 0u8, 0u8, 0u8] + Seq::new(32, |i: int| 0u8),
    }
}

/// The 77-byte encoding of a faucet record.
pub open spec fn faucet_record_bytes(f: Faucet) -> Seq<u8> {
    seq![if f.is_initialized { 1u8 } else { 0u8 }] + coption_key_bytes(f.admin)
        + spec_u64_to_le_bytes(f.amount) + f.mint@
}

/// The 105-byte encoding of an escrow record.
pub open spec fn escrow_record_bytes(r: EscrowRecord) -> Seq<u8> {
    seq![if r.initialized { 1u8 } else { 0u8 }] + r.initiator_identity@
        + r.source_holding_identity@ + r.destination_identity@
        + spec_u64_to_le_bytes(r.expected_amount)
}

// ---------------------------------------------------------------------
// Decode specifications: faucet
// ---------------------------------------------------------------------

/// Whether the admin field of an encoded faucet record carries the
/// absent tag.
pub open spec fn faucet_admin_tag_none(d: Seq<u8>) -> bool {
    d[1] == 0 && d[2] == 0 && d[3] == 0 && d[4] == 0
}

/// Whether the admin field of an encoded faucet record carries the
/// present tag.
pub open spec fn faucet_admin_tag_some(d: Seq<u8>) -> bool {
    d[1] == 1 && d[2] == 0 && d[3] == 0 && d[4] == 0
}

/// Whether a buffer decodes as a faucet record.
pub open spec fn faucet_record_valid(d: Seq<u8>) -> bool {
    &&& d.len() >= FAUCET_RECORD_LEN
    &&& d[0] == 0 || d[0] == 1
    &&& faucet_admin_tag_none(d) || faucet_admin_tag_some(d)
}

/// The fault reported for a buffer that does not decode as a faucet
/// record: a short buffer or a bad flag byte is malformed initialization
/// data; a bad optional-key tag is invalid account data.
pub open spec fn faucet_record_err(d: Seq<u8>) -> FaucetFault {
    if d.len() < FAUCET_RECORD_LEN {
        FaucetFault::Faucet(FaucetError::IncorrectInitializationData)
    } else if !(d[0] == 0 || d[0] == 1) {
        FaucetFault::Faucet(FaucetError::IncorrectInitializationData)
    } else {
        FaucetFault::InvalidAccountData
    }
}

/// The initialization flag stored in an encoded faucet record.
pub open spec fn stored_faucet_initialized(d: Seq<u8>) -> bool {
    d[0] == 1
}

/// The admin key stored in an encoded faucet record.
pub open spec fn stored_faucet_admin(d: Seq<u8>) -> Option<Seq<u8>> {
    if faucet_admin_tag_some(d) {
        Some(d.subrange(5, 37))
    } else {
        None
    }
}

/// The per-call cap stored in an encoded faucet record.
pub open spec fn stored_faucet_amount(d: Seq<u8>) -> u64 {
    spec_u64_from_le_bytes(d.subrange(37, 45))
}

/// The mint identity stored in an encoded faucet record.
pub open spec fn stored_faucet_mint(d: Seq<u8>) -> Seq<u8> {
    d.subrange(45, 77)
}

/// Whether `f` is the record stored in buffer `d`.
pub open spec fn faucet_record_matches(d: Seq<u8>, f: Faucet) -> bool {
    &&& f.is_initialized == stored_faucet_initialized(d)
    &&& match (f.admin, stored_faucet_admin(d)) {
        (Some(a), Some(s)) => a@ == s,
        (None, None) => true,
        _ => false,
    }
    &&& f.amount == stored_faucet_amount(d)
    &&& f.mint@ == stored_faucet_mint(d)
}

// ---------------------------------------------------------------------
// Decode specifications: escrow
// ---------------------------------------------------------------------

/// Whether a buffer decodes as an escrow record.
pub open spec fn escrow_record_valid(d: Seq<u8>) -> bool {
    &&& d.len() >= ESCROW_RECORD_LEN
    &&& d[0] == 0 || d[0] == 1
}

/// The fault reported for a buffer that does not decode as an escrow
/// record.
pub open spec fn escrow_record_err(d: Seq<u8>) -> EscrowFault {
    EscrowFault::Escrow(EscrowError::MissingInitializationData)
}

/// The initialization flag stored in an encoded escrow record.
pub open spec fn stored_escrow_initialized(d: Seq<u8>) -> bool {
    d[0] == 1
}

/// The initiator identity stored in an encoded escrow record.
pub open spec fn stored_escrow_initiator(d: Seq<u8>) -> Seq<u8> {
    d.subrange(1, 33)
}

/// The source-holding identity stored in an encoded escrow record.
pub open spec fn stored_escrow_source_holding(d: Seq<u8>) -> Seq<u8> {
    d.subrange(33, 65)
}

/// The destination identity stored in an encoded escrow record.
pub open spec fn stored_escrow_destination(d: Seq<u8>) -> Seq<u8> {
    d.subrange(65, 97)
}

/// The expected amount stored in an encoded escrow record.
pub open spec fn stored_escrow_amount(d: Seq<u8>) -> u64 {
    spec_u64_from_le_bytes(d.subrange(97, 105))
}

/// Whether `r` is the record stored in buffer `d`.
pub open spec fn escrow_record_matches(d: Seq<u8>, r: EscrowRecord) -> bool {
    &&& r.initialized == stored_escrow_initialized(d)
    &&& r.initiator_identity@ == stored_escrow_initiator(d)
    &&& r.source_holding_identity@ == stored_escrow_source_holding(d)
    &&& r.destination_identity@ == stored_escrow_destination(d)
    &&& r.expected_amount == stored_escrow_amount(d)
}

// ---------------------------------------------------------------------
// Byte-buffer helpers
// ---------------------------------------------------------------------

/// Copies a 32-byte identity out of a buffer.
fn read_key(src: &[u8], off: usize) -> (r: [u8; 32])
    requires
        off + 32 <= src@.len(),
    ensures
        r@ == src@.subrange(off as int, off as int + 32),
{
    let n: usize = src.len();
    let mut key = [0u8; 32];
    let mut i: usize = 0;
    while i < 32
        invariant
            off + 32 <= n,
            n == src@.len(),
            0 <= i <= 32,
            forall|j: int| 0 <= j < i ==> key@[j] == src@[off + j],
        decreases 32 - i,
    {
        key[i] = src[off + i];
        i += 1;
    }
    assert(key@ =~= src@.subrange(off as int, off as int + 32));
    key
}

/// Overwrites `dst[off..off + src.len()]` with `src`, leaving the rest
/// of the buffer unchanged.
fn copy_into(dst: &mut Vec<u8>, off: usize, src: &[u8])
    requires
        off + src@.len() <= old(dst)@.len(),
    ensures
        final(dst)@.len() == old(dst)@.len(),
        forall|i: int| 0 <= i < off ==> final(dst)@[i] == old(dst)@[i],
        forall|i: int|
            off + src@.len() <= i < final(dst)@.len() ==> final(dst)@[i] == old(dst)@[i],
        final(dst)@.subrange(off as int, off + src@.len()) == src@,
{
    let n = src.len();
    let dlen: usize = dst.len();
    let mut i: usize = 0;
    while i < n
        invariant
            n == src@.len(),
            off + n <= dlen,
            dlen == dst@.len(),
            dst@.len() == old(dst)@.len(),
            0 <= i <= n,
            forall|j: int| 0 <= j < off ==> dst@[j] == old(dst)@[j],
            forall|j: int| off + n <= j < dst@.len() ==> dst@[j] == old(dst)@[j],
            forall|j: int| off + i <= j < off + n ==> dst@[j] == old(dst)@[j],
            forall|j: int| 0 <= j < i ==> dst@[off + j] == src@[j],
        decreases n - i,
    {
        dst[off + i] = src[i];
        i += 1;
    }
    assert(dst@.subrange(off as int, off + src@.len()) =~= src@);
}

// ---------------------------------------------------------------------
// Faucet codec
// ---------------------------------------------------------------------

impl Faucet {
    /// Decodes a faucet record from a buffer of at least the fixed
    /// length; extra trailing bytes are ignored.
    pub fn unpack_from_slice(src: &[u8]) -> (r: Result<Faucet, FaucetFault>)
        ensures
            match r {
                Ok(f) => faucet_record_valid(src@) && faucet_record_matches(src@, f),
                Err(e) => !faucet_record_valid(src@) && e == faucet_record_err(src@),
            },
    {
        if src.len() < FAUCET_RECORD_LEN {
            return Err(FaucetFault::Faucet(FaucetError::IncorrectInitializationData));
        }
        let flag = src[0];
        if flag != 0 && flag != 1 {
            return Err(FaucetFault::Faucet(FaucetError::IncorrectInitializationData));
        }
        let t1 = src[1];
        let t2 = src[2];
        let t3 = src[3];
        let t4 = src[4];
        let admin: Option<[u8; 32]> = if t1 == 0 && t2 == 0 && t3 == 0 && t4 == 0 {
            None
        } else if t1 == 1 && t2 == 0 && t3 == 0 && t4 == 0 {
            Some(read_key(src, 5))
        } else {
            return Err(FaucetFault::InvalidAccountData);
        };
        let amount = u64_from_le_bytes(slice_subrange(src, 37, 45));
        let mint = read_key(src, 45);
        Ok(Faucet { is_initialized: flag == 1, admin, mint, amount })
    }

    /// Decodes a faucet record from a buffer of exactly the fixed
    /// length.
    pub fn unpack_unchecked(src: &[u8]) -> (r: Result<Faucet, FaucetFault>)
        ensures
            match r {
                Ok(f) => src@.len() == FAUCET_RECORD_LEN && faucet_record_valid(src@)
                    && faucet_record_matches(src@, f),
                Err(e) => if src@.len() != FAUCET_RECORD_LEN {
                    e == FaucetFault::InvalidAccountData
                } else {
                    !faucet_record_valid(src@) && e == faucet_record_err(src@)
                },
            },
    {
        if src.len() != FAUCET_RECORD_LEN {
            return Err(FaucetFault::InvalidAccountData);
        }
        Self::unpack_from_slice(src)
    }

    /// Decodes a faucet record of exactly the fixed length and requires
    /// it to be initiated.
    pub fn unpack(src: &[u8]) -> (r: Result<Faucet, FaucetFault>)
        ensures
            match r {
                Ok(f) => src@.len() == FAUCET_RECORD_LEN && faucet_record_valid(src@)
                    && stored_faucet_initialized(src@) && faucet_record_matches(src@, f),
                Err(e) => if src@.len() != FAUCET_RECORD_LEN {
                    e == FaucetFault::InvalidAccountData
                } else if !faucet_record_valid(src@) {
                    e == faucet_record_err(src@)
                } else {
                    !stored_faucet_initialized(src@) && e == FaucetFault::UninitializedAccount
                },
            },
    {
        let f = Self::unpack_unchecked(src)?;
        if f.is_initialized {
            Ok(f)
        } else {
            Err(FaucetFault::UninitializedAccount)
        }
    }

    /// Encodes this record into the first 77 bytes of `dst`, leaving the
    /// rest of the buffer unchanged.
    pub fn pack_into_slice(&self, dst: &mut Vec<u8>)
        requires
            old(dst)@.len() >= FAUCET_RECORD_LEN,
        ensures
            final(dst)@.len() == old(dst)@.len(),
            final(dst)@.subrange(0, FAUCET_RECORD_LEN as int) == faucet_record_bytes(*self),
            forall|i: int|
                FAUCET_RECORD_LEN <= i < final(dst)@.len() ==> final(dst)@[i] == old(dst)@[i],
    {
        proof {
            lemma_auto_spec_u64_to_from_le_bytes();
        }
        dst[0] = if self.is_initialized { 1 } else { 0 };
        match &self.admin {
            Some(key) => {
                dst[1] = 1;
                dst[2] = 0;
                dst[3] = 0;
                dst[4] = 0;
                copy_into(dst, 5, key.as_slice());
            },
            None => {
                dst[1] = 0;
                let zeros = [0u8; 32];
                dst[2] = 0;
                dst[3] = 0;
                dst[4] = 0;
                copy_into(dst, 5, zeros.as_slice());
                assert(zeros@ =~= Seq::new(32, |i: int| 0u8));
            },
        }
        let amount_bytes = u64_to_le_bytes(self.amount);
        copy_into(dst, 37, amount_bytes.as_slice());
        copy_into(dst, 45, self.mint.as_slice());
        assert(dst@.subrange(0, FAUCET_RECORD_LEN as int) =~= faucet_record_bytes(*self));
    }

    /// Encodes this record into a fresh buffer of exactly the fixed
    /// length.
    pub fn to_vec(&self) -> (r: Vec<u8>)
        ensures
            r@ == faucet_record_bytes(*self),
    {
        let mut buf: Vec<u8> = Vec::new();
        let mut i: usize = 0;
        while i < FAUCET_RECORD_LEN
            invariant
                0 <= i <= FAUCET_RECORD_LEN,
                buf@.len() == i,
            decreases FAUCET_RECORD_LEN - i,
        {
            buf.push(0);
            i += 1;
        }
        self.pack_into_slice(&mut buf);
        assert(buf@ =~= buf@.subrange(0, FAUCET_RECORD_LEN as int));
        buf
    }

    /// Encodes a record into a buffer that must have exactly the fixed
    /// length.
    pub fn pack(src: Faucet, dst: &mut Vec<u8>) -> (r: Result<(), FaucetFault>)
        ensures
            match r {
                Ok(()) => old(dst)@.len() == FAUCET_RECORD_LEN && final(dst)@
                    == faucet_record_bytes(src),
                Err(e) => old(dst)@.len() != FAUCET_RECORD_LEN && e
                    == FaucetFault::InvalidAccountData && final(dst)@ == old(dst)@,
            },
    {
        if dst.len() != FAUCET_RECORD_LEN {
            return Err(FaucetFault::InvalidAccountData);
        }
        src.pack_into_slice(dst);
        assert(dst@ =~= dst@.subrange(0, FAUCET_RECORD_LEN as int));
        Ok(())
    }
}

// ---------------------------------------------------------------------
// Escrow codec
// ---------------------------------------------------------------------

impl EscrowRecord {
    /// Decodes an escrow record from a buffer of at least the fixed
    /// length; extra trailing bytes are ignored.
    pub fn unpack_from_slice(src: &[u8]) -> (r: Result<EscrowRecord, EscrowFault>)
        ensures
            match r {
                Ok(rec) => escrow_record_valid(src@) && escrow_record_matches(src@, rec),
                Err(e) => !escrow_record_valid(src@) && e == escrow_record_err(src@),
            },
    {
        if src.len() < ESCROW_RECORD_LEN {
            return Err(EscrowFault::Escrow(EscrowError::MissingInitializationData));
        }
        let flag = src[0];
        if flag != 0 && flag != 1 {
            return Err(EscrowFault::Escrow(EscrowError::MissingInitializationData));
        }
        let initiator_identity = read_key(src, 1);
        let source_holding_identity = read_key(src, 33);
        let destination_identity = read_key(src, 65);
        let expected_amount = u64_from_le_bytes(slice_subrange(src, 97, 105));
        Ok(EscrowRecord {
            initialized: flag == 1,
            initiator_identity,
            source_holding_identity,
            destination_identity,
            expected_amount,
        })
    }

    /// Decodes an escrow record from a buffer of exactly the fixed
    /// length.
    pub fn unpack_unchecked(src: &[u8]) -> (r: Result<EscrowRecord, EscrowFault>)
        ensures
            match r {
                Ok(rec) => src@.len() == ESCROW_RECORD_LEN && escrow_record_valid(src@)
                    && escrow_record_matches(src@, rec),
                Err(e) => if src@.len() != ESCROW_RECORD_LEN {
                    e == EscrowFault::InvalidAccountData
                } else {
                    !escrow_record_valid(src@) && e == escrow_record_err(src@)
                },
            },
    {
        if src.len() != ESCROW_RECORD_LEN {
            return Err(EscrowFault::InvalidAccountData);
        }
        Self::unpack_from_slice(src)
    }

    /// Encodes this record into the first 105 bytes of `dst`, leaving
    /// the rest of the buffer unchanged.
    pub fn pack_into_slice(&self, dst: &mut Vec<u8>)
        requires
            old(dst)@.len() >= ESCROW_RECORD_LEN,
        ensures
            final(dst)@.len() == old(dst)@.len(),
            final(dst)@.subrange(0, ESCROW_RECORD_LEN as int) == escrow_record_bytes(*self),
            forall|i: int|
                ESCROW_RECORD_LEN <= i < final(dst)@.len() ==> final(dst)@[i] == old(dst)@[i],
    {
        proof {
            lemma_auto_spec_u64_to_from_le_bytes();
        }
        dst[0] = if self.initialized { 1 } else { 0 };
        copy_into(dst, 1, self.initiator_identity.as_slice());
        copy_into(dst, 33, self.source_holding_identity.as_slice());
        copy_into(dst, 65, self.destination_identity.as_slice());
        let amount_bytes = u64_to_le_bytes(self.expected_amount);
        copy_into(dst, 97, amount_bytes.as_slice());
        assert(dst@.subrange(0, ESCROW_RECORD_LEN as int) =~= escrow_record_bytes(*self));
    }

    /// Encodes this record into a fresh buffer of exactly the fixed
    /// length.
    pub fn to_vec(&self) -> (r: Vec<u8>)
        ensures
            r@ == escrow_record_bytes(*self),
    {
        let mut buf: Vec<u8> = Vec::new();
        let mut i: usize = 0;
        while i < ESCROW_RECORD_LEN
            invariant
                0 <= i <= ESCROW_RECORD_LEN,
                buf@.len() == i,
            decreases ESCROW_RECORD_LEN - i,
        {
            buf.push(0);
            i += 1;
        }
        self.pack_into_slice(&mut buf);
        assert(buf@ =~= buf@.subrange(0, ESCROW_RECORD_LEN as int));
        buf
    }
}

// ---------------------------------------------------------------------
// Round-trip laws
// ---------------------------------------------------------------------

/// Law: encoding a faucet record and decoding the bytes yields the same
/// record, bit for bit — the encoding is valid, it stores exactly the
/// record's fields, and no other record matches it.
pub proof fn lemma_faucet_record_round_trip(f: Faucet)
    ensures
        faucet_record_bytes(f).len() == FAUCET_RECORD_LEN,
        faucet_record_valid(faucet_record_bytes(f)),
        faucet_record_matches(faucet_record_bytes(f), f),
        forall|g: Faucet| faucet_record_matches(faucet_record_bytes(f), g) ==> g == f,
{
    lemma_auto_spec_u64_to_from_le_bytes();
    let d = faucet_record_bytes(f);
    assert(d.len() == 77);
    match f.admin {
        Some(a) => {
            assert(d.subrange(5, 37) =~= a@);
        },
        None => {
            assert(d[1] == 0 && d[2] == 0 && d[3] == 0 && d[4] == 0);
        },
    }
    assert(d.subrange(37, 45) =~= spec_u64_to_le_bytes(f.amount));
    assert(d.subrange(45, 77) =~= f.mint@);
    assert forall|g: Faucet| faucet_record_matches(d, g) implies g == f by {
        assert(g.mint =~= f.mint);
        match (g.admin, f.admin) {
            (Some(ga), Some(fa)) => {
                assert(ga =~= fa);
            },
            _ => {},
        }
    }
}

/// Law: encoding an escrow record and decoding the bytes yields the same
/// record, bit for bit — the encoding is valid, it stores exactly the
/// record's fields, and no other record matches it.
pub proof fn lemma_escrow_record_round_trip(r: EscrowRecord)
    ensures
        escrow_record_bytes(r).len() == ESCROW_RECORD_LEN,
        escrow_record_valid(escrow_record_bytes(r)),
        escrow_record_matches(escrow_record_bytes(r), r),
        forall|g: EscrowRecord| escrow_record_matches(escrow_record_bytes(r), g) ==> g == r,
{
    lemma_auto_spec_u64_to_from_le_bytes();
    let d = escrow_record_bytes(r);
    assert(d.len() == 105);
    assert(d.subrange(1, 33) =~= r.initiator_identity@);
    assert(d.subrange(33, 65) =~= r.source_holding_identity@);
    assert(d.subrange(65, 97) =~= r.destination_identity@);
    assert(d.subrange(97, 105) =~= spec_u64_to_le_bytes(r.expected_amount));
    assert forall|g: EscrowRecord| escrow_record_matches(d, g) implies g == r by {
        assert(g.initiator_identity =~= r.initiator_identity);
        assert(g.source_holding_identity =~= r.source_holding_identity);
        assert(g.destination_identity =~= r.destination_identity);
    }
}

} // verus!
