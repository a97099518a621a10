use vstd::bytes::*;
use vstd::prelude::*;
use vstd::utf8::*;

use crate::error::{AssetError, CustomError};
use crate::identity::IDENTITY_LEN;
use crate::layout::{
    account_discriminator, account_image, fixed_field, lemma_field_lengths, parse_fixed,
    parse_record, parse_text, record_bytes, record_fits, text_field, text_fits, ASSET_SPACE,
    DISCRIMINATOR_LEN,
};
use crate::program::{create_outcome, read_outcome};
use crate::record::AssetModel;

verus! {

/// A text field reads back as the text, followed by what came after it.
pub proof fn lemma_text_field_reads_back(s: Seq<char>, rest: Seq<u8>)
    requires
        text_fits(s),
    ensures
        parse_text(text_field(s) + rest) == Some((s, rest)),
{
    broadcast use encode_utf8_valid_utf8, encode_utf8_decode_utf8;

    lemma_auto_spec_u32_to_from_le_bytes();
    let e = encode_utf8(s);
    let b = text_field(s) + rest;
    assert(b.take(4) =~= spec_u32_to_le_bytes(e.len() as u32));
    assert(b.subrange(4, 4 + e.len() as int) =~= e);
    assert(b.skip(4 + e.len() as int) =~= rest);
}

/// The fixed-size tail reads back as the record's fixed fields.
pub proof fn lemma_fixed_field_reads_back(m: AssetModel, rest: Seq<u8>)
    requires
        m.owner.len() == IDENTITY_LEN,
    ensures
        parse_fixed(fixed_field(m) + rest, m.name, m.code, m.asset_type) == Some(m),
{
    lemma_auto_spec_u64_to_from_le_bytes();
    lemma_field_lengths(m);
    let b = fixed_field(m) + rest;
    assert(b.subrange(1, 9) =~= spec_u64_to_le_bytes(m.initial_supply));
    if let Some(v) = m.limit {
        assert(b.subrange(10, 18) =~= spec_u64_to_le_bytes(v));
    }
    assert(b.subrange(22, 54) =~= m.owner);
}

/// A record's encoding reads back as the record, whatever follows it.
pub proof fn lemma_record_reads_back(m: AssetModel, rest: Seq<u8>)
    requires
        m.owner.len() == IDENTITY_LEN,
        record_fits(m),
    ensures
        parse_record(record_bytes(m) + rest) == Some(m),
{
    let r3 = fixed_field(m) + rest;
    let r2 = text_field(m.asset_type) + r3;
    let r1 = text_field(m.code) + r2;
    assert(record_bytes(m) + rest =~= text_field(m.name) + r1);
    lemma_text_field_reads_back(m.name, r1);
    lemma_text_field_reads_back(m.code, r2);
    lemma_text_field_reads_back(m.asset_type, r3);
    lemma_fixed_field_reads_back(m, rest);
}

/// Creating a record in an empty slot and reading it back as its owner
/// yields exactly the record that was created.
pub proof fn lemma_create_then_read(m: AssetModel)
    requires
        m.owner.len() == IDENTITY_LEN,
        record_fits(m),
    ensures
        create_outcome(Seq::empty(), m) == Ok::<Seq<u8>, AssetError>(account_image(m)),
        read_outcome(account_image(m), m.owner) == Ok::<AssetModel, AssetError>(m),
{
    lemma_field_lengths(m);
    let image = account_image(m);
    let zeros = Seq::new(
        (ASSET_SPACE - DISCRIMINATOR_LEN - record_bytes(m).len()) as nat,
        |i: int| 0u8,
    );
    assert(image.take(DISCRIMINATOR_LEN as int) =~= account_discriminator());
    assert(image.skip(DISCRIMINATOR_LEN as int) =~= record_bytes(m) + zeros);
    lemma_record_reads_back(m, zeros);
}

/// Only the owner reads a created record: any other identity is refused
/// with `UnauthorizedAccess`, and learns nothing of the record.
pub proof fn lemma_only_owner_reads(m: AssetModel, reader: Seq<u8>)
    requires
        m.owner.len() == IDENTITY_LEN,
        record_fits(m),
    ensures
        reader != m.owner ==> read_outcome(account_image(m), reader) == Err::<
            AssetModel,
            AssetError,
        >(AssetError::Custom(CustomError::UnauthorizedAccess)),
        reader == m.owner ==> read_outcome(account_image(m), reader) == Ok::<
            AssetModel,
            AssetError,
        >(m),
{
    lemma_create_then_read(m);
}

/// Whatever a slot holds, a read that succeeds reports the reader as owner.
pub proof fn lemma_read_reports_reader(slot: Seq<u8>, reader: Seq<u8>)
    ensures
        read_outcome(slot, reader) matches Ok(m) ==> m.owner == reader,
{
}

/// The owner is fixed at creation: a later create on the same slot fails
/// and leaves it as it was, and every successful read, by anyone and as
/// often as it is made, reports the creator.
pub proof fn lemma_owner_fixed(m: AssetModel, later: AssetModel, reader: Seq<u8>)
    requires
        m.owner.len() == IDENTITY_LEN,
        record_fits(m),
    ensures
        create_outcome(account_image(m), later) == Err::<Seq<u8>, AssetError>(
            AssetError::AccountAlreadyInUse,
        ),
        read_outcome(account_image(m), reader) matches Ok(r) ==> r.owner == m.owner,
{
    lemma_field_lengths(m);
    lemma_only_owner_reads(m, reader);
}

/// A text at the maximum length is accepted; a longer one makes creation
/// fail, so no record is ever stored with a shortened text.
pub proof fn lemma_capacity_boundary(m: AssetModel)
    ensures
        create_outcome(Seq::empty(), m) is Ok <==> record_fits(m),
        !record_fits(m) ==> create_outcome(Seq::empty(), m) == Err::<Seq<u8>, AssetError>(
            AssetError::AccountDidNotSerialize,
        ),
{
}

/// An absent limit reads back as absent, a limit of zero as present with
/// value zero, and the two records are stored differently.
pub proof fn lemma_limit_fidelity(m: AssetModel)
    requires
        m.owner.len() == IDENTITY_LEN,
        record_fits(m),
    ensures
        read_outcome(account_image(AssetModel { limit: None, ..m }), m.owner) matches Ok(r)
            && r.limit is None,
        read_outcome(account_image(AssetModel { limit: Some(0), ..m }), m.owner) matches Ok(r)
            && r.limit == Some(0u64),
        account_image(AssetModel { limit: None, ..m }) != account_image(
            AssetModel { limit: Some(0), ..m },
        ),
{
    lemma_create_then_read(AssetModel { limit: None, ..m });
    lemma_create_then_read(AssetModel { limit: Some(0), ..m });
}

/// A slot is written once: after a successful create, any second create on
/// the same slot fails with `AccountAlreadyInUse` and changes nothing.
pub proof fn lemma_create_once(first: AssetModel, second: AssetModel)
    requires
        first.owner.len() == IDENTITY_LEN,
        record_fits(first),
    ensures
        create_outcome(Seq::empty(), first) matches Ok(d) && create_outcome(d, second) == Err::<
            Seq<u8>,
            AssetError,
        >(AssetError::AccountAlreadyInUse),
{
    lemma_create_then_read(first);
    lemma_field_lengths(first);
}

} // verus!
