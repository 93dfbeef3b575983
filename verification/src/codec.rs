//! The fixed-width byte layout of proposal records, as the record store
//! persists them: every field little-endian, each enum a one-byte variant
//! tag followed by that variant's payload.
//!
//! [`proposal_to_bytes`] and [`proposal_from_bytes`] are exact inverses:
//! [`lemma_proposal_round_trip`] proves that decoding an encoding yields
//! the record back, for every kind and every status.

use vstd::prelude::*;
use vstd::bytes::{
    spec_u32_from_le_bytes, spec_u32_to_le_bytes, spec_u64_from_le_bytes, spec_u64_to_le_bytes,
    u32_from_le_bytes, u32_to_le_bytes, u64_from_le_bytes, u64_to_le_bytes,
};
use crate::identity::Identity;
use crate::proposal::{ProposalAccount, ProposalStatus, ProposalType};

verus! {

/// The two's-complement bit pattern of a signed timestamp, as an
/// unsigned value.
pub open spec fn i64_as_u64(x: i64) -> u64 {
    if x >= 0 {
        x as u64
    } else {
        (x + 0x10000000000000000) as u64
    }
}

/// Reads a signed timestamp back out of its two's-complement bit pattern.
pub open spec fn u64_as_i64(u: u64) -> i64 {
    if u < 0x8000000000000000 {
        u as i64
    } else {
        (u - 0x10000000000000000) as i64
    }
}

/// The two conversions are inverses.
pub proof fn lemma_i64_bits_round_trip(x: i64)
    ensures
        u64_as_i64(i64_as_u64(x)) == x,
{
}

/// Computes [`i64_as_u64`].
fn i64_bits(x: i64) -> (r: u64)
    ensures
        r == i64_as_u64(x),
{
    if x >= 0 {
        x as u64
    } else {
        let d: i64 = -(x + 1);
        u64::MAX - (d as u64)
    }
}

/// Computes [`u64_as_i64`].
fn i64_from_bits(u: u64) -> (r: i64)
    ensures
        r == u64_as_i64(u),
{
    if u < 0x8000000000000000 {
        u as i64
    } else {
        let d: u64 = u64::MAX - u;
        -(d as i64) - 1
    }
}

/// The encoding of a proposal's fixed-width head: the four identities,
/// the tally, the stake limit and the three timestamps.
pub open spec fn spec_encode_head(p: ProposalAccount) -> Seq<u8> {
    p.submitter@ + p.beneficiary@ + p.bene_member@ + p.group@ + spec_u32_to_le_bytes(p.positive)
        + spec_u32_to_le_bytes(p.negative) + spec_u64_to_le_bytes(p.limit) + spec_u64_to_le_bytes(
        i64_as_u64(p.deadline),
    ) + spec_u64_to_le_bytes(i64_as_u64(p.revoke_timeout)) + spec_u64_to_le_bytes(
        i64_as_u64(p.close_timeout),
    )
}

/// The encoding of a proposal's kind: its variant tag, then its payload.
pub open spec fn spec_encode_type(t: ProposalType) -> Seq<u8> {
    match t {
        ProposalType::Upgrade => seq![0u8],
        ProposalType::Downgrade => seq![1u8],
        ProposalType::UpdateGroup { max_manager } => seq![2u8] + spec_u32_to_le_bytes(max_manager),
        ProposalType::ReElection => seq![3u8],
        ProposalType::Withdraw { mint, receiver, amount } => seq![4u8] + mint@ + receiver@
            + spec_u64_to_le_bytes(amount),
    }
}

/// The encoding of a proposal's status: its variant tag, then its
/// timestamp if it carries one.
pub open spec fn spec_encode_status(s: ProposalStatus) -> Seq<u8> {
    match s {
        ProposalStatus::Progressing => seq![0u8],
        ProposalStatus::Passed { time } => seq![1u8] + spec_u64_to_le_bytes(i64_as_u64(time)),
        ProposalStatus::Rejected { time } => seq![2u8] + spec_u64_to_le_bytes(i64_as_u64(time)),
        ProposalStatus::Updated { time } => seq![3u8] + spec_u64_to_le_bytes(i64_as_u64(time)),
    }
}

/// The full encoding of a proposal record.
pub open spec fn spec_encode(p: ProposalAccount) -> Seq<u8> {
    spec_encode_head(p) + spec_encode_type(p.proposal_type) + spec_encode_status(p.status)
}

/// A proposal's kind with its identities as plain byte sequences: what
/// decoding recovers, independent of how identities are represented in
/// memory.
pub enum TypeModel {
    Upgrade,
    Downgrade,
    UpdateGroup { max_manager: u32 },
    ReElection,
    Withdraw { mint: Seq<u8>, receiver: Seq<u8>, amount: u64 },
}

/// A proposal record with its identities as plain byte sequences.
pub struct ProposalModel {
    pub submitter: Seq<u8>,
    pub beneficiary: Seq<u8>,
    pub bene_member: Seq<u8>,
    pub group: Seq<u8>,
    pub positive: u32,
    pub negative: u32,
    pub limit: u64,
    pub deadline: i64,
    pub revoke_timeout: i64,
    pub close_timeout: i64,
    pub proposal_type: TypeModel,
    pub status: ProposalStatus,
}

/// The model of a concrete proposal record.
pub open spec fn proposal_model(p: ProposalAccount) -> ProposalModel {
    ProposalModel {
        submitter: p.submitter@,
        beneficiary: p.beneficiary@,
        bene_member: p.bene_member@,
        group: p.group@,
        positive: p.positive,
        negative: p.negative,
        limit: p.limit,
        deadline: p.deadline,
        revoke_timeout: p.revoke_timeout,
        close_timeout: p.close_timeout,
        proposal_type: match p.proposal_type {
            ProposalType::Upgrade => TypeModel::Upgrade,
            ProposalType::Downgrade => TypeModel::Downgrade,
            ProposalType::UpdateGroup { max_manager } => TypeModel::UpdateGroup { max_manager },
            ProposalType::ReElection => TypeModel::ReElection,
            ProposalType::Withdraw { mint, receiver, amount } => TypeModel::Withdraw {
                mint: mint@,
                receiver: receiver@,
                amount,
            },
        },
        status: p.status,
    }
}

/// Parses a kind at offset `i`: the variant tag, then its payload.
/// Returns the kind's model and the offset just past it.
pub open spec fn spec_decode_type(s: Seq<u8>, i: int) -> Option<(TypeModel, int)> {
    if i >= s.len() {
        None
    } else if s[i] == 0 {
        Some((TypeModel::Upgrade, i + 1))
    } else if s[i] == 1 {
        Some((TypeModel::Downgrade, i + 1))
    } else if s[i] == 2 {
        if i + 5 <= s.len() {
            Some(
                (
                    TypeModel::UpdateGroup {
                        max_manager: spec_u32_from_le_bytes(s.subrange(i + 1, i + 5)),
                    },
                    i + 5,
                ),
            )
        } else {
            None
        }
    } else if s[i] == 3 {
        Some((TypeModel::ReElection, i + 1))
    } else if s[i] == 4 {
        if i + 73 <= s.len() {
            Some(
                (
                    TypeModel::Withdraw {
                        mint: s.subrange(i + 1, i + 33),
                        receiver: s.subrange(i + 33, i + 65),
                        amount: spec_u64_from_le_bytes(s.subrange(i + 65, i + 73)),
                    },
                    i + 73,
                ),
            )
        } else {
            None
        }
    } else {
        None
    }
}

/// Parses a status at offset `i`: the variant tag, then its timestamp if
/// it carries one.  Trailing bytes beyond the status are permitted.
pub open spec fn spec_decode_status(s: Seq<u8>, i: int) -> Option<ProposalStatus> {
    if i >= s.len() {
        None
    } else if s[i] == 0 {
        Some(ProposalStatus::Progressing)
    } else if s[i] == 1 || s[i] == 2 || s[i] == 3 {
        if i + 9 <= s.len() {
            let time = u64_as_i64(spec_u64_from_le_bytes(s.subrange(i + 1, i + 9)));
            if s[i] == 1 {
                Some(ProposalStatus::Passed { time })
            } else if s[i] == 2 {
                Some(ProposalStatus::Rejected { time })
            } else {
                Some(ProposalStatus::Updated { time })
            }
        } else {
            None
        }
    } else {
        None
    }
}

/// Parses a whole proposal record from the front of `s`; bytes past the
/// record are ignored, as the record store pads its cells.
pub open spec fn spec_decode(s: Seq<u8>) -> Option<ProposalModel> {
    if s.len() < 168 {
        None
    } else {
        match spec_decode_type(s, 168) {
            None => None,
            Some((t, j)) => match spec_decode_status(s, j) {
                None => None,
                Some(st) => Some(
                    ProposalModel {
                        submitter: s.subrange(0, 32),
                        beneficiary: s.subrange(32, 64),
                        bene_member: s.subrange(64, 96),
                        group: s.subrange(96, 128),
                        positive: spec_u32_from_le_bytes(s.subrange(128, 132)),
                        negative: spec_u32_from_le_bytes(s.subrange(132, 136)),
                        limit: spec_u64_from_le_bytes(s.subrange(136, 144)),
                        deadline: u64_as_i64(spec_u64_from_le_bytes(s.subrange(144, 152))),
                        revoke_timeout: u64_as_i64(spec_u64_from_le_bytes(s.subrange(152, 160))),
                        close_timeout: u64_as_i64(spec_u64_from_le_bytes(s.subrange(160, 168))),
                        proposal_type: t,
                        status: st,
                    },
                ),
            },
        }
    }
}

/// Appends an identity's 32 bytes.
fn push_id(out: &mut Vec<u8>, id: &Identity)
    ensures
        final(out)@ == old(out)@ + id@,
{
    let mut j: usize = 0;
    while j < 32
        invariant
            0 <= j <= 32,
            out@ == old(out)@ + id@.subrange(0, j as int),
        decreases 32 - j,
    {
        out.push(id[j]);
        proof {
            assert(out@ =~= old(out)@ + id@.subrange(0, j + 1));
        }
        j += 1;
    }
    proof {
        assert(id@.subrange(0, 32) =~= id@);
    }
}

/// Appends a `u32` little-endian.
fn push_u32(out: &mut Vec<u8>, x: u32)
    ensures
        final(out)@ == old(out)@ + spec_u32_to_le_bytes(x),
{
    let mut bytes = u32_to_le_bytes(x);
    out.append(&mut bytes);
}

/// Appends a `u64` little-endian.
fn push_u64(out: &mut Vec<u8>, x: u64)
    ensures
        final(out)@ == old(out)@ + spec_u64_to_le_bytes(x),
{
    let mut bytes = u64_to_le_bytes(x);
    out.append(&mut bytes);
}

/// Appends a timestamp as its two's-complement bit pattern,
/// little-endian.
fn push_i64(out: &mut Vec<u8>, x: i64)
    ensures
        final(out)@ == old(out)@ + spec_u64_to_le_bytes(i64_as_u64(x)),
{
    let bits = i64_bits(x);
    push_u64(out, bits);
}

/// Serializes a proposal record into its fixed-width layout.
pub fn proposal_to_bytes(p: &ProposalAccount) -> (r: Vec<u8>)
    ensures
        r@ == spec_encode(*p),
{
    let mut out: Vec<u8> = Vec::new();
    push_id(&mut out, &p.submitter);
    push_id(&mut out, &p.beneficiary);
    push_id(&mut out, &p.bene_member);
    push_id(&mut out, &p.group);
    push_u32(&mut out, p.positive);
    push_u32(&mut out, p.negative);
    push_u64(&mut out, p.limit);
    push_i64(&mut out, p.deadline);
    push_i64(&mut out, p.revoke_timeout);
    push_i64(&mut out, p.close_timeout);
    proof {
        assert(out@ =~= spec_encode_head(*p));
    }
    match p.proposal_type {
        ProposalType::Upgrade => {
            out.push(0u8);
        },
        ProposalType::Downgrade => {
            out.push(1u8);
        },
        ProposalType::UpdateGroup { max_manager } => {
            out.push(2u8);
            push_u32(&mut out, max_manager);
        },
        ProposalType::ReElection => {
            out.push(3u8);
        },
        ProposalType::Withdraw { mint, receiver, amount } => {
            out.push(4u8);
            push_id(&mut out, &mint);
            push_id(&mut out, &receiver);
            push_u64(&mut out, amount);
        },
    }
    proof {
        assert(out@ =~= spec_encode_head(*p) + spec_encode_type(p.proposal_type));
    }
    match p.status {
        ProposalStatus::Progressing => {
            out.push(0u8);
        },
        ProposalStatus::Passed { time } => {
            out.push(1u8);
            push_i64(&mut out, time);
        },
        ProposalStatus::Rejected { time } => {
            out.push(2u8);
            push_i64(&mut out, time);
        },
        ProposalStatus::Updated { time } => {
            out.push(3u8);
            push_i64(&mut out, time);
        },
    }
    proof {
        assert(out@ =~= spec_encode(*p));
    }
    out
}

/// Reads 32 bytes at offset `i` as an identity.
fn read_id(data: &[u8], i: usize) -> (r: Identity)
    requires
        i + 32 <= data@.len(),
    ensures
        r@ == data@.subrange(i as int, i as int + 32),
{
    let mut id: Identity = [0u8; 32];
    let n = data.len();
    let mut j: usize = 0;
    while j < 32
        invariant
            i + 32 <= data@.len(),
            data@.len() <= usize::MAX,
            0 <= j <= 32,
            forall|k: int| 0 <= k < j ==> id@[k] == data@[i + k],
        decreases 32 - j,
    {
        id[j] = *vstd::slice::slice_index_get(data, i + j);
        j += 1;
    }
    proof {
        assert(id@ =~= data@.subrange(i as int, i as int + 32));
    }
    id
}

/// Reads a little-endian `u32` at offset `i`.
fn read_u32(data: &[u8], i: usize) -> (x: u32)
    requires
        i + 4 <= data@.len(),
    ensures
        x == spec_u32_from_le_bytes(data@.subrange(i as int, i as int + 4)),
{
    let mut buf: [u8; 4] = [0u8; 4];
    let n = data.len();
    let mut j: usize = 0;
    while j < 4
        invariant
            i + 4 <= data@.len(),
            data@.len() <= usize::MAX,
            0 <= j <= 4,
            forall|k: int| 0 <= k < j ==> buf@[k] == data@[i + k],
        decreases 4 - j,
    {
        buf[j] = *vstd::slice::slice_index_get(data, i + j);
        j += 1;
    }
    proof {
        assert(buf@ =~= data@.subrange(i as int, i as int + 4));
    }
    u32_from_le_bytes(buf.as_slice())
}

/// Reads a little-endian `u64` at offset `i`.
fn read_u64(data: &[u8], i: usize) -> (x: u64)
    requires
        i + 8 <= data@.len(),
    ensures
        x == spec_u64_from_le_bytes(data@.subrange(i as int, i as int + 8)),
{
    let mut buf: [u8; 8] = [0u8; 8];
    let n = data.len();
    let mut j: usize = 0;
    while j < 8
        invariant
            i + 8 <= data@.len(),
            data@.len() <= usize::MAX,
            0 <= j <= 8,
            forall|k: int| 0 <= k < j ==> buf@[k] == data@[i + k],
        decreases 8 - j,
    {
        buf[j] = *vstd::slice::slice_index_get(data, i + j);
        j += 1;
    }
    proof {
        assert(buf@ =~= data@.subrange(i as int, i as int + 8));
    }
    u64_from_le_bytes(buf.as_slice())
}

/// Reads a little-endian timestamp at offset `i`.
fn read_i64(data: &[u8], i: usize) -> (x: i64)
    requires
        i + 8 <= data@.len(),
    ensures
        x == u64_as_i64(spec_u64_from_le_bytes(data@.subrange(i as int, i as int + 8))),
{
    let bits = read_u64(data, i);
    i64_from_bits(bits)
}

/// Parses a proposal record from the front of `data`; bytes past the
/// record are ignored.  Returns `None` exactly when `data` holds no valid
/// record: too short, or an unknown variant tag.
pub fn proposal_from_bytes(data: &[u8]) -> (r: Option<ProposalAccount>)
    ensures
        match r {
            Some(p) => spec_decode(data@) == Some(proposal_model(p)),
            None => spec_decode(data@) is None,
        },
{
    let n = data.len();
    if n < 169 {
        return None;
    }
    let ttag = *vstd::slice::slice_index_get(data, 168);
    let proposal_type: ProposalType;
    let j: usize;
    if ttag == 0 {
        proposal_type = ProposalType::Upgrade;
        j = 169;
    } else if ttag == 1 {
        proposal_type = ProposalType::Downgrade;
        j = 169;
    } else if ttag == 2 {
        if n < 173 {
            return None;
        }
        proposal_type = ProposalType::UpdateGroup { max_manager: read_u32(data, 169) };
        j = 173;
    } else if ttag == 3 {
        proposal_type = ProposalType::ReElection;
        j = 169;
    } else if ttag == 4 {
        if n < 241 {
            return None;
        }
        proposal_type = ProposalType::Withdraw {
            mint: read_id(data, 169),
            receiver: read_id(data, 201),
            amount: read_u64(data, 233),
        };
        j = 241;
    } else {
        return None;
    }
    if j >= n {
        return None;
    }
    let stag = *vstd::slice::slice_index_get(data, j);
    let status: ProposalStatus;
    if stag == 0 {
        status = ProposalStatus::Progressing;
    } else if stag == 1 || stag == 2 || stag == 3 {
        if j + 9 > n {
            return None;
        }
        let time = read_i64(data, j + 1);
        if stag == 1 {
            status = ProposalStatus::Passed { time };
        } else if stag == 2 {
            status = ProposalStatus::Rejected { time };
        } else {
            status = ProposalStatus::Updated { time };
        }
    } else {
        return None;
    }
    Some(
        ProposalAccount {
            submitter: read_id(data, 0),
            beneficiary: read_id(data, 32),
            bene_member: read_id(data, 64),
            group: read_id(data, 96),
            positive: read_u32(data, 128),
            negative: read_u32(data, 132),
            limit: read_u64(data, 136),
            deadline: read_i64(data, 144),
            revoke_timeout: read_i64(data, 152),
            close_timeout: read_i64(data, 160),
            proposal_type,
            status,
        },
    )
}

/// Decoding an encoding yields the record back, for every kind and every
/// status: the round trip of the fixed-width layout.
pub proof fn lemma_proposal_round_trip(p: ProposalAccount)
    ensures
        spec_decode(spec_encode(p)) == Some(proposal_model(p)),
{
    vstd::bytes::lemma_auto_spec_u32_to_from_le_bytes();
    vstd::bytes::lemma_auto_spec_u64_to_from_le_bytes();
    let h = spec_encode_head(p);
    let t = spec_encode_type(p.proposal_type);
    let st = spec_encode_status(p.status);
    let e = spec_encode(p);
    assert(h.len() == 168);
    assert(e.subrange(0, 32) =~= p.submitter@);
    assert(e.subrange(32, 64) =~= p.beneficiary@);
    assert(e.subrange(64, 96) =~= p.bene_member@);
    assert(e.subrange(96, 128) =~= p.group@);
    assert(e.subrange(128, 132) =~= spec_u32_to_le_bytes(p.positive));
    assert(e.subrange(132, 136) =~= spec_u32_to_le_bytes(p.negative));
    assert(e.subrange(136, 144) =~= spec_u64_to_le_bytes(p.limit));
    assert(e.subrange(144, 152) =~= spec_u64_to_le_bytes(i64_as_u64(p.deadline)));
    assert(e.subrange(152, 160) =~= spec_u64_to_le_bytes(i64_as_u64(p.revoke_timeout)));
    assert(e.subrange(160, 168) =~= spec_u64_to_le_bytes(i64_as_u64(p.close_timeout)));
    let j: int = 168 + t.len() as int;
    match p.proposal_type {
        ProposalType::Upgrade => {
            assert(e[168] == 0);
        },
        ProposalType::Downgrade => {
            assert(e[168] == 1);
        },
        ProposalType::UpdateGroup { max_manager } => {
            assert(e[168] == 2);
            assert(e.subrange(169, 173) =~= spec_u32_to_le_bytes(max_manager));
        },
        ProposalType::ReElection => {
            assert(e[168] == 3);
        },
        ProposalType::Withdraw { mint, receiver, amount } => {
            assert(e[168] == 4);
            assert(e.subrange(169, 201) =~= mint@);
            assert(e.subrange(201, 233) =~= receiver@);
            assert(e.subrange(233, 241) =~= spec_u64_to_le_bytes(amount));
        },
    }
    assert(spec_decode_type(e, 168) matches Some((tm, jj)) && jj == j && tm
        == proposal_model(p).proposal_type);
    match p.status {
        ProposalStatus::Progressing => {
            assert(e[j] == 0);
        },
        ProposalStatus::Passed { time } => {
            assert(e[j] == 1);
            assert(e.subrange(j + 1, j + 9) =~= spec_u64_to_le_bytes(i64_as_u64(time)));
        },
        ProposalStatus::Rejected { time } => {
            assert(e[j] == 2);
            assert(e.subrange(j + 1, j + 9) =~= spec_u64_to_le_bytes(i64_as_u64(time)));
        },
        ProposalStatus::Updated { time } => {
            assert(e[j] == 3);
            assert(e.subrange(j + 1, j + 9) =~= spec_u64_to_le_bytes(i64_as_u64(time)));
        },
    }
    assert(spec_decode_status(e, j) == Some(p.status));
}

/// Two records with the same model are the same record: the byte-sequence
/// view of an identity determines the identity.
pub proof fn lemma_model_determines_record(p: ProposalAccount, q: ProposalAccount)
    requires
        proposal_model(p) == proposal_model(q),
    ensures
        p == q,
{
    assert(p.submitter =~= q.submitter);
    assert(p.beneficiary =~= q.beneficiary);
    assert(p.bene_member =~= q.bene_member);
    assert(p.group =~= q.group);
    match (p.proposal_type, q.proposal_type) {
        (
            ProposalType::Withdraw { mint: m1, receiver: r1, amount: a1 },
            ProposalType::Withdraw { mint: m2, receiver: r2, amount: a2 },
        ) => {
            assert(m1 =~= m2);
            assert(r1 =~= r2);
        },
        _ => {},
    }
}

} // verus!
