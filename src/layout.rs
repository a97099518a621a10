use vstd::bytes::*;
use vstd::prelude::*;
use vstd::slice::*;
use vstd::utf8::*;

use crate::identity::{Identity, IDENTITY_LEN};
use crate::record::{AssetMetadata, AssetModel};

verus! {

broadcast use vstd::array::group_array_axioms;

/// Bytes of the discriminator that opens every asset account.
pub const DISCRIMINATOR_LEN: usize = 8;

/// Most bytes that `name`, `code` or `asset_type` may hold.
pub const MAX_TEXT_LEN: usize = 32;

/// Bytes of the fixed-size tail of a record: decimals, initial supply,
/// limit, the four flags and the owner.
pub const FIXED_LEN: usize = 1 + 8 + 9 + 4 + IDENTITY_LEN;

/// Bytes reserved for an asset account when it is created.
pub const ASSET_SPACE: usize = DISCRIMINATOR_LEN + 3 * (4 + MAX_TEXT_LEN) + FIXED_LEN;

/// Bytes to reserve for an asset account whose texts hold at most the given
/// numbers of bytes: discriminator, three length-prefixed texts and the
/// fixed-size tail.
pub fn space_for(max_name: usize, max_code: usize, max_asset_type: usize) -> (r: usize)
    requires
        DISCRIMINATOR_LEN + 12 + max_name + max_code + max_asset_type + FIXED_LEN <= usize::MAX,
    ensures
        r == DISCRIMINATOR_LEN + (4 + max_name) + (4 + max_code) + (4 + max_asset_type)
            + FIXED_LEN,
{
    DISCRIMINATOR_LEN + (4 + max_name) + (4 + max_code) + (4 + max_asset_type) + FIXED_LEN
}

/// The text whose SHA-256 digest gives the discriminator.
pub const ACCOUNT_NAMESPACE: &'static str = "account:AssetMetadata";

/// The SHA-256 digest of a byte sequence.
pub uninterp spec fn sha256_of(b: Seq<u8>) -> Seq<u8>;

/// Relies on solana_program::hash::hash (re-exported by anchor_lang): the
/// SHA-256 digest of the given bytes.
#[verifier::external_body]
fn sha256(b: &[u8]) -> (r: [u8; 32])
    ensures
        r@ == sha256_of(b@),
{
    anchor_lang::solana_program::hash::hash(b).to_bytes()
}

/// Relies on String::from_utf8: it succeeds exactly on valid UTF-8, and the
/// string then holds those bytes.
#[verifier::external_body]
fn text_from_utf8(v: Vec<u8>) -> (r: Option<String>)
    ensures
        r.is_some() == valid_utf8(v@),
        r matches Some(s) ==> encode_utf8(s@) == v@,
{
    String::from_utf8(v).ok()
}

// ---- the layout, as a function of the record's value ----

/// The first eight bytes of the digest of the account namespace.
pub open spec fn account_discriminator() -> Seq<u8> {
    Seq::new(DISCRIMINATOR_LEN as nat, |i: int| sha256_of(encode_utf8(ACCOUNT_NAMESPACE@))[i])
}

/// A text fits when its UTF-8 encoding is at most `MAX_TEXT_LEN` bytes.
pub open spec fn text_fits(s: Seq<char>) -> bool {
    encode_utf8(s).len() <= MAX_TEXT_LEN
}

/// All three texts of the record fit their reserved space.
pub open spec fn record_fits(m: AssetModel) -> bool {
    text_fits(m.name) && text_fits(m.code) && text_fits(m.asset_type)
}

/// A text as a 4-byte little-endian length followed by its UTF-8 bytes.
pub open spec fn text_field(s: Seq<char>) -> Seq<u8> {
    spec_u32_to_le_bytes(encode_utf8(s).len() as u32) + encode_utf8(s)
}

pub open spec fn flag_byte(b: bool) -> u8 {
    if b {
        1
    } else {
        0
    }
}

/// The optional limit as a presence byte and eight value bytes, which are
/// zero when the limit is absent.
pub open spec fn limit_field(l: Option<u64>) -> Seq<u8> {
    match l {
        None => Seq::new(9, |i: int| 0u8),
        Some(v) => seq![1u8] + spec_u64_to_le_bytes(v),
    }
}

/// The fixed-size tail of a record.
pub open spec fn fixed_field(m: AssetModel) -> Seq<u8> {
    seq![m.decimals] + spec_u64_to_le_bytes(m.initial_supply) + limit_field(m.limit) + seq![
        flag_byte(m.authorize_required),
        flag_byte(m.freeze_enabled),
        flag_byte(m.clawback_enabled),
        flag_byte(m.regulated),
    ] + m.owner
}

/// The encoding of a record, fields in declaration order.
pub open spec fn record_bytes(m: AssetModel) -> Seq<u8> {
    text_field(m.name) + text_field(m.code) + text_field(m.asset_type) + fixed_field(m)
}

/// The whole account after creation: discriminator, record, and zeros up to
/// `ASSET_SPACE`.
pub open spec fn account_image(m: AssetModel) -> Seq<u8> {
    account_discriminator() + record_bytes(m) + Seq::new(
        (ASSET_SPACE - DISCRIMINATOR_LEN - record_bytes(m).len()) as nat,
        |i: int| 0u8,
    )
}

// ---- reading a record back ----

/// A length-prefixed text at the start of `b`, and what follows it.
pub open spec fn parse_text(b: Seq<u8>) -> Option<(Seq<char>, Seq<u8>)> {
    if b.len() < 4 {
        None
    } else {
        let n = spec_u32_from_le_bytes(b.take(4)) as int;
        if b.len() < 4 + n || !valid_utf8(b.subrange(4, 4 + n)) {
            None
        } else {
            Some((decode_utf8(b.subrange(4, 4 + n)), b.skip(4 + n)))
        }
    }
}

/// The fixed-size tail at the start of `b`, completed with the three texts.
/// A presence byte or flag byte other than 0 or 1 is malformed.
pub open spec fn parse_fixed(
    b: Seq<u8>,
    name: Seq<char>,
    code: Seq<char>,
    asset_type: Seq<char>,
) -> Option<AssetModel> {
    if b.len() < FIXED_LEN || b[9] > 1 || b[18] > 1 || b[19] > 1 || b[20] > 1 || b[21] > 1 {
        None
    } else {
        Some(
            AssetModel {
                name,
                code,
                asset_type,
                decimals: b[0],
                initial_supply: spec_u64_from_le_bytes(b.subrange(1, 9)),
                limit: if b[9] == 0 {
                    None
                } else {
                    Some(spec_u64_from_le_bytes(b.subrange(10, 18)))
                },
                authorize_required: b[18] == 1,
                freeze_enabled: b[19] == 1,
                clawback_enabled: b[20] == 1,
                regulated: b[21] == 1,
                owner: b.subrange(22, 54),
            },
        )
    }
}

/// The record encoded at the start of `b`; bytes after it are ignored.
pub open spec fn parse_record(b: Seq<u8>) -> Option<AssetModel> {
    match parse_text(b) {
        None => None,
        Some((name, r1)) => match parse_text(r1) {
            None => None,
            Some((code, r2)) => match parse_text(r2) {
                None => None,
                Some((asset_type, r3)) => parse_fixed(r3, name, code, asset_type),
            },
        },
    }
}


// ---- executable encoding ----

/// The discriminator of an asset account.
pub fn discriminator() -> (r: Vec<u8>)
    ensures
        r@ == account_discriminator(),
{
    let digest = sha256(ACCOUNT_NAMESPACE.as_bytes());
    let mut out: Vec<u8> = Vec::new();
    let mut i: usize = 0;
    while i < DISCRIMINATOR_LEN
        invariant
            0 <= i <= DISCRIMINATOR_LEN,
            digest@ == sha256_of(encode_utf8(ACCOUNT_NAMESPACE@)),
            out@ =~= account_discriminator().take(i as int),
        decreases DISCRIMINATOR_LEN - i,
    {
        out.push(digest[i]);
        i = i + 1;
    }
    out
}

fn push_all(out: &mut Vec<u8>, src: &[u8])
    ensures
        final(out)@ == old(out)@ + src@,
{
    let mut i: usize = 0;
    while i < src.len()
        invariant
            0 <= i <= src@.len(),
            out@ =~= old(out)@ + src@.take(i as int),
        decreases src@.len() - i,
    {
        out.push(src[i]);
        i = i + 1;
    }
    assert(src@.take(src@.len() as int) =~= src@);
}

fn push_text(out: &mut Vec<u8>, s: &String)
    requires
        text_fits(s@),
    ensures
        final(out)@ == old(out)@ + text_field(s@),
{
    let bytes = s.as_str().as_bytes();
    let len_bytes = u32_to_le_bytes(bytes.len() as u32);
    push_all(out, len_bytes.as_slice());
    push_all(out, bytes);
    assert(final(out)@ =~= old(out)@ + text_field(s@));
}

fn flag_value(b: bool) -> (r: u8)
    ensures
        r == flag_byte(b),
{
    if b {
        1
    } else {
        0
    }
}

fn push_zeros(out: &mut Vec<u8>, n: usize)
    ensures
        final(out)@ == old(out)@ + Seq::new(n as nat, |i: int| 0u8),
{
    let mut k: usize = 0;
    while k < n
        invariant
            0 <= k <= n,
            out@ =~= old(out)@ + Seq::new(k as nat, |i: int| 0u8),
        decreases n - k,
    {
        out.push(0);
        k = k + 1;
    }
}

/// Lengths of the fixed-size encodings.
pub proof fn lemma_field_lengths(m: AssetModel)
    ensures
        limit_field(m.limit).len() == 9,
        m.owner.len() == IDENTITY_LEN ==> fixed_field(m).len() == FIXED_LEN,
        text_field(m.name).len() == 4 + encode_utf8(m.name).len(),
        text_field(m.code).len() == 4 + encode_utf8(m.code).len(),
        text_field(m.asset_type).len() == 4 + encode_utf8(m.asset_type).len(),
        m.owner.len() == IDENTITY_LEN && record_fits(m) ==> record_bytes(m).len() <= ASSET_SPACE
            - DISCRIMINATOR_LEN,
{
    lemma_auto_spec_u32_to_from_le_bytes();
    lemma_auto_spec_u64_to_from_le_bytes();
}

impl AssetMetadata {
    /// Whether the three texts fit the space reserved for them.
    pub fn fits(&self) -> (r: bool)
        ensures
            r == record_fits(self@),
    {
        self.name.as_str().as_bytes().len() <= MAX_TEXT_LEN
            && self.code.as_str().as_bytes().len() <= MAX_TEXT_LEN
            && self.asset_type.as_str().as_bytes().len() <= MAX_TEXT_LEN
    }

    fn push_fixed(&self, out: &mut Vec<u8>)
        ensures
            final(out)@ == old(out)@ + fixed_field(self@),
    {
        out.push(self.decimals);
        let supply = u64_to_le_bytes(self.initial_supply);
        push_all(out, supply.as_slice());
        match self.limit {
            None => {
                push_zeros(out, 9);
            },
            Some(v) => {
                out.push(1);
                let value = u64_to_le_bytes(v);
                push_all(out, value.as_slice());
            },
        }
        out.push(flag_value(self.authorize_required));
        out.push(flag_value(self.freeze_enabled));
        out.push(flag_value(self.clawback_enabled));
        out.push(flag_value(self.regulated));
        push_all(out, self.owner.bytes.as_slice());
        assert(final(out)@ =~= old(out)@ + fixed_field(self@));
    }

    /// The whole account: discriminator, encoding, and zeros up to
    /// `ASSET_SPACE`.
    pub fn account_data(&self) -> (r: Vec<u8>)
        requires
            record_fits(self@),
        ensures
            r@ == account_image(self@),
            r@.len() == ASSET_SPACE,
    {
        let mut out = discriminator();
        let body = self.encode();
        push_all(&mut out, body.as_slice());
        push_zeros(&mut out, ASSET_SPACE - DISCRIMINATOR_LEN - body.len());
        out
    }

    /// The record's encoding, without discriminator.
    pub fn encode(&self) -> (r: Vec<u8>)
        requires
            record_fits(self@),
        ensures
            r@ == record_bytes(self@),
            r@.len() <= ASSET_SPACE - DISCRIMINATOR_LEN,
    {
        let mut out: Vec<u8> = Vec::new();
        push_text(&mut out, &self.name);
        push_text(&mut out, &self.code);
        push_text(&mut out, &self.asset_type);
        self.push_fixed(&mut out);
        proof {
            lemma_field_lengths(self@);
        }
        assert(out@ =~= record_bytes(self@));
        out
    }
}

// ---- executable decoding ----

fn read_text(b: &[u8], pos: usize) -> (r: Option<(String, usize)>)
    requires
        pos <= b@.len(),
    ensures
        match r {
            None => parse_text(b@.skip(pos as int)) is None,
            Some((s, p)) => pos <= p <= b@.len() && parse_text(b@.skip(pos as int)) == Some(
                (s@, b@.skip(p as int)),
            ),
        },
{
    let ghost rest = b@.skip(pos as int);
    if b.len() - pos < 4 {
        return None;
    }
    let n = u32_from_le_bytes(slice_subrange(b, pos, pos + 4)) as usize;
    assert(b@.subrange(pos as int, pos + 4) =~= rest.take(4));
    if b.len() - pos - 4 < n {
        return None;
    }
    let end = pos + 4 + n;
    let t = slice_to_vec(slice_subrange(b, pos + 4, end));
    assert(t@ =~= rest.subrange(4, 4 + n));
    match text_from_utf8(t) {
        None => None,
        Some(s) => {
            proof {
                encode_utf8_decode_utf8(s@);
            }
            assert(rest.skip(4 + n) =~= b@.skip(end as int));
            Some((s, end))
        },
    }
}

fn read_u64(b: &[u8], pos: usize) -> (r: u64)
    requires
        pos + 8 <= b@.len() <= usize::MAX,
    ensures
        r == spec_u64_from_le_bytes(b@.subrange(pos as int, pos + 8)),
{
    u64_from_le_bytes(slice_subrange(b, pos, pos + 8))
}

fn read_fixed(b: &[u8], pos: usize, name: String, code: String, asset_type: String) -> (r:
    Option<AssetMetadata>)
    requires
        pos <= b@.len(),
    ensures
        match r {
            None => parse_fixed(b@.skip(pos as int), name@, code@, asset_type@) is None,
            Some(m) => parse_fixed(b@.skip(pos as int), name@, code@, asset_type@) == Some(m@),
        },
{
    let ghost t = b@.skip(pos as int);
    if b.len() - pos < FIXED_LEN {
        return None;
    }
    if b[pos + 9] > 1 || b[pos + 18] > 1 || b[pos + 19] > 1 || b[pos + 20] > 1 || b[pos + 21] > 1 {
        return None;
    }
    let initial_supply = read_u64(b, pos + 1);
    assert(b@.subrange(pos + 1, pos + 9) =~= t.subrange(1, 9));
    let limit = if b[pos + 9] == 0 {
        None
    } else {
        let v = read_u64(b, pos + 10);
        assert(b@.subrange(pos + 10, pos + 18) =~= t.subrange(10, 18));
        Some(v)
    };
    let mut owner = [0u8; 32];
    let mut i: usize = 0;
    while i < IDENTITY_LEN
        invariant
            0 <= i <= IDENTITY_LEN,
            pos + FIXED_LEN <= b@.len() <= usize::MAX,
            t == b@.skip(pos as int),
            owner@.len() == IDENTITY_LEN,
            forall|j: int| 0 <= j < i ==> owner@[j] == t[22 + j],
        decreases IDENTITY_LEN - i,
    {
        owner[i] = b[pos + 22 + i];
        i = i + 1;
    }
    assert(owner@ =~= t.subrange(22, 54));
    Some(
        AssetMetadata {
            name,
            code,
            asset_type,
            decimals: b[pos],
            initial_supply,
            limit,
            authorize_required: b[pos + 18] == 1,
            freeze_enabled: b[pos + 19] == 1,
            clawback_enabled: b[pos + 20] == 1,
            regulated: b[pos + 21] == 1,
            owner: Identity::new(owner),
        },
    )
}

/// Reads the record encoded at the start of `b`.
pub fn decode(b: &[u8]) -> (r: Option<AssetMetadata>)
    ensures
        match r {
            None => parse_record(b@) is None,
            Some(m) => parse_record(b@) == Some(m@),
        },
{
    assert(b@.skip(0) =~= b@);
    let (name, p1) = match read_text(b, 0) {
        None => return None,
        Some(x) => x,
    };
    let (code, p2) = match read_text(b, p1) {
        None => return None,
        Some(x) => x,
    };
    let (asset_type, p3) = match read_text(b, p2) {
        None => return None,
        Some(x) => x,
    };
    read_fixed(b, p3, name, code, asset_type)
}

} // verus!
