//! The byte layout of the campaign record and of the amount payloads. The
//! fields are read and written by `borsh`; which fields, in which order, and
//! that they use a buffer up, is stated and proved here.

use vstd::prelude::*;
use vstd::bytes::*;
use vstd::utf8::*;
use borsh::BorshDeserialize;
use borsh::BorshSerialize;
use crate::account::Pubkey;
use crate::error::LedgerError;

verus! {

/// The record that a campaign account holds in its data buffer.
#[derive(Clone, Debug, PartialEq, Eq)]
pub struct CampaignRecord {
    /// The identity with the exclusive right to withdraw. Set at creation.
    pub admin: Pubkey,
    /// Display text; the ledger does not read it.
    pub name: String,
    /// Display text; the ledger does not read it.
    pub description: String,
    /// Display text; the ledger does not read it.
    pub image_link: String,
    /// The sum of what was donated. It counts; it is no balance.
    pub amount_donated: u64,
}

/// What a [`CampaignRecord`] is, as mathematics.
#[verifier::ext_equal]
pub struct CampaignRecordView {
    pub admin: Seq<u8>,
    pub name: Seq<char>,
    pub description: Seq<char>,
    pub image_link: Seq<char>,
    pub amount_donated: u64,
}

impl View for CampaignRecord {
    type V = CampaignRecordView;

    open spec fn view(&self) -> CampaignRecordView {
        CampaignRecordView {
            admin: self.admin@,
            name: self.name@,
            description: self.description@,
            image_link: self.image_link@,
            amount_donated: self.amount_donated,
        }
    }
}

/// Whether a string can be encoded: its UTF-8 form has a length that fits the
/// four-byte prefix.
pub open spec fn string_encodable(s: Seq<char>) -> bool {
    encode_utf8(s).len() <= u32::MAX
}

/// The encoding of a string: the length of its UTF-8 form in four
/// little-endian bytes, then that form.
pub open spec fn encode_string(s: Seq<char>) -> Seq<u8> {
    spec_u32_to_le_bytes(encode_utf8(s).len() as u32) + encode_utf8(s)
}

impl CampaignRecordView {
    /// Whether the record has an encoding.
    pub open spec fn encodable(self) -> bool {
        &&& self.admin.len() == 32
        &&& string_encodable(self.name)
        &&& string_encodable(self.description)
        &&& string_encodable(self.image_link)
    }

    /// The record with its counter set to zero.
    pub open spec fn zeroed(self) -> CampaignRecordView {
        CampaignRecordView { amount_donated: 0, ..self }
    }
}

/// The encoding of a record: its fields in order, the admin as it is, each
/// string with its length prefix, the counter in eight little-endian bytes.
pub open spec fn encode_record(v: CampaignRecordView) -> Seq<u8> {
    v.admin + encode_string(v.name) + encode_string(v.description) + encode_string(v.image_link)
        + spec_u64_to_le_bytes(v.amount_donated)
}

/// Whether `bytes` is the encoding of `v`.
pub open spec fn encodes(v: CampaignRecordView, bytes: Seq<u8>) -> bool {
    v.encodable() && encode_record(v) == bytes
}

/// The record that `bytes` encodes, if it encodes one. No buffer encodes two
/// records: see [`lemma_encoding_is_injective`].
pub open spec fn record_of(bytes: Seq<u8>) -> Option<CampaignRecordView> {
    if exists|v: CampaignRecordView| encodes(v, bytes) {
        Some(choose|v: CampaignRecordView| encodes(v, bytes))
    } else {
        None
    }
}

/// What reading an identity takes from the front of a buffer: its first
/// thirty-two bytes, and the rest.
pub open spec fn key_field(bytes: Seq<u8>) -> Option<(Seq<u8>, Seq<u8>)> {
    if bytes.len() < 32 {
        None
    } else {
        Some((bytes.subrange(0, 32), bytes.subrange(32, bytes.len() as int)))
    }
}

/// What reading a string takes from the front of a buffer: a four-byte
/// length, that many bytes of valid UTF-8, and the rest.
pub open spec fn string_field(bytes: Seq<u8>) -> Option<(Seq<char>, Seq<u8>)> {
    if bytes.len() < 4 {
        None
    } else {
        let n = spec_u32_from_le_bytes(bytes.subrange(0, 4)) as int;
        if bytes.len() - 4 < n || !valid_utf8(bytes.subrange(4, 4 + n)) {
            None
        } else {
            Some((decode_utf8(bytes.subrange(4, 4 + n)), bytes.subrange(4 + n, bytes.len() as int)))
        }
    }
}

/// What reading a counter takes from the front of a buffer: eight bytes, read
/// as a little-endian number, and the rest.
pub open spec fn u64_field(bytes: Seq<u8>) -> Option<(u64, Seq<u8>)> {
    if bytes.len() < 8 {
        None
    } else {
        Some((spec_u64_from_le_bytes(bytes.subrange(0, 8)), bytes.subrange(8, bytes.len() as int)))
    }
}

/// A record read field by field from a buffer that the fields use up.
pub open spec fn parse_record(bytes: Seq<u8>) -> Option<CampaignRecordView> {
    match key_field(bytes) {
        Some((admin, after_admin)) => match string_field(after_admin) {
            Some((name, after_name)) => match string_field(after_name) {
                Some((description, after_description)) => match string_field(after_description) {
                    Some((image_link, after_link)) => match u64_field(after_link) {
                        Some((amount_donated, rest)) => if rest.len() == 0 {
                            Some(
                                CampaignRecordView {
                                    admin,
                                    name,
                                    description,
                                    image_link,
                                    amount_donated,
                                },
                            )
                        } else {
                            None
                        },
                        None => None,
                    },
                    None => None,
                },
                None => None,
            },
            None => None,
        },
        None => None,
    }
}

proof fn lemma_key_field_joins(bytes: Seq<u8>)
    requires
        key_field(bytes) is Some,
    ensures
        key_field(bytes).unwrap().0.len() == 32,
        bytes == key_field(bytes).unwrap().0 + key_field(bytes).unwrap().1,
{
    let (key, rest) = key_field(bytes).unwrap();
    assert(bytes =~= key + rest);
}

proof fn lemma_key_field_splits(key: Seq<u8>, tail: Seq<u8>)
    requires
        key.len() == 32,
    ensures
        key_field(key + tail) == Some((key, tail)),
{
    let bytes = key + tail;
    assert(bytes.subrange(0, 32) =~= key);
    assert(bytes.subrange(32, bytes.len() as int) =~= tail);
}

proof fn lemma_string_field_joins(bytes: Seq<u8>)
    requires
        string_field(bytes) is Some,
    ensures
        string_encodable(string_field(bytes).unwrap().0),
        bytes == encode_string(string_field(bytes).unwrap().0) + string_field(bytes).unwrap().1,
{
    let (s, rest) = string_field(bytes).unwrap();
    let prefix = bytes.subrange(0, 4);
    let n = spec_u32_from_le_bytes(prefix) as int;
    let body = bytes.subrange(4, 4 + n);
    decode_utf8_encode_utf8(body);
    lemma_auto_spec_u32_to_from_le_bytes();
    assert(encode_utf8(s) == body);
    assert(spec_u32_to_le_bytes(spec_u32_from_le_bytes(prefix)) == prefix);
    assert(bytes =~= prefix + body + rest);
}

proof fn lemma_string_field_splits(s: Seq<char>, tail: Seq<u8>)
    requires
        string_encodable(s),
    ensures
        string_field(encode_string(s) + tail) == Some((s, tail)),
{
    let body = encode_utf8(s);
    let prefix = spec_u32_to_le_bytes(body.len() as u32);
    let bytes = encode_string(s) + tail;
    lemma_auto_spec_u32_to_from_le_bytes();
    encode_utf8_valid_utf8(s);
    encode_utf8_decode_utf8(s);
    assert(prefix.len() == 4);
    assert(bytes.subrange(0, 4) =~= prefix);
    let n = spec_u32_from_le_bytes(bytes.subrange(0, 4)) as int;
    assert(n == body.len());
    assert(bytes.subrange(4, 4 + n) =~= body);
    assert(bytes.subrange(4 + n, bytes.len() as int) =~= tail);
}

proof fn lemma_u64_field_joins(bytes: Seq<u8>)
    requires
        u64_field(bytes) is Some,
    ensures
        bytes == spec_u64_to_le_bytes(u64_field(bytes).unwrap().0) + u64_field(bytes).unwrap().1,
{
    let (x, rest) = u64_field(bytes).unwrap();
    let prefix = bytes.subrange(0, 8);
    lemma_auto_spec_u64_to_from_le_bytes();
    assert(spec_u64_to_le_bytes(spec_u64_from_le_bytes(prefix)) == prefix);
    assert(bytes =~= prefix + rest);
}

proof fn lemma_u64_field_splits(x: u64, tail: Seq<u8>)
    ensures
        u64_field(spec_u64_to_le_bytes(x) + tail) == Some((x, tail)),
{
    let prefix = spec_u64_to_le_bytes(x);
    let bytes = prefix + tail;
    lemma_auto_spec_u64_to_from_le_bytes();
    assert(prefix.len() == 8);
    assert(bytes.subrange(0, 8) =~= prefix);
    assert(bytes.subrange(8, bytes.len() as int) =~= tail);
}

/// A buffer that parses is the encoding of what it parses to.
pub proof fn lemma_parse_is_sound(bytes: Seq<u8>)
    requires
        parse_record(bytes) is Some,
    ensures
        encodes(parse_record(bytes).unwrap(), bytes),
{
    let (admin, after_admin) = key_field(bytes).unwrap();
    let (name, after_name) = string_field(after_admin).unwrap();
    let (description, after_description) = string_field(after_name).unwrap();
    let (image_link, after_link) = string_field(after_description).unwrap();
    let (amount_donated, rest) = u64_field(after_link).unwrap();
    lemma_key_field_joins(bytes);
    lemma_string_field_joins(after_admin);
    lemma_string_field_joins(after_name);
    lemma_string_field_joins(after_description);
    lemma_u64_field_joins(after_link);
    let v = parse_record(bytes).unwrap();
    assert(rest =~= Seq::<u8>::empty());
    assert(encode_record(v) =~= bytes);
}

/// The encoding of a record parses, and to that record.
pub proof fn lemma_parse_is_complete(v: CampaignRecordView)
    requires
        v.encodable(),
    ensures
        parse_record(encode_record(v)) == Some(v),
{
    let counter = spec_u64_to_le_bytes(v.amount_donated);
    let after_link = counter + Seq::<u8>::empty();
    let after_description = encode_string(v.image_link) + after_link;
    let after_name = encode_string(v.description) + after_description;
    let after_admin = encode_string(v.name) + after_name;
    assert(encode_record(v) =~= v.admin + after_admin);
    lemma_key_field_splits(v.admin, after_admin);
    lemma_string_field_splits(v.name, after_name);
    lemma_string_field_splits(v.description, after_description);
    lemma_string_field_splits(v.image_link, after_link);
    lemma_u64_field_splits(v.amount_donated, Seq::<u8>::empty());
    assert(parse_record(encode_record(v)).unwrap() =~= v);
}

/// The length of an encoding does not depend on the counter.
pub proof fn lemma_counter_keeps_length(v: CampaignRecordView, amount: u64)
    ensures
        encode_record(CampaignRecordView { amount_donated: amount, ..v }).len() == encode_record(
            v,
        ).len(),
{
    lemma_auto_spec_u64_to_from_le_bytes();
}

/// No buffer is the encoding of two records.
pub proof fn lemma_encoding_is_injective(v: CampaignRecordView, w: CampaignRecordView)
    requires
        v.encodable(),
        w.encodable(),
        encode_record(v) == encode_record(w),
    ensures
        v == w,
{
    lemma_parse_is_complete(v);
    lemma_parse_is_complete(w);
}

/// The record that a buffer encodes is the record that it parses to.
pub proof fn lemma_record_of_is_parse(bytes: Seq<u8>)
    ensures
        record_of(bytes) == parse_record(bytes),
{
    if parse_record(bytes) is Some {
        lemma_parse_is_sound(bytes);
        let v = parse_record(bytes).unwrap();
        let w = record_of(bytes).unwrap();
        assert(encodes(w, bytes));
        lemma_encoding_is_injective(v, w);
    } else {
        if exists|v: CampaignRecordView| encodes(v, bytes) {
            let v = choose|v: CampaignRecordView| encodes(v, bytes);
            lemma_parse_is_complete(v);
        }
    }
}

/// Decoding undoes encoding.
pub proof fn lemma_record_of_encoding(v: CampaignRecordView)
    requires
        v.encodable(),
    ensures
        record_of(encode_record(v)) == Some(v),
{
    lemma_parse_is_complete(v);
    lemma_record_of_is_parse(encode_record(v));
}

/// Calls `BorshDeserialize::deserialize` of `borsh` for an array of thirty-two
/// bytes. It takes the first thirty-two bytes of the buffer as they are and
/// leaves the rest, and fails on a shorter buffer.
#[verifier::external_body]
fn read_key<'a>(bytes: &'a [u8]) -> (r: Option<(Pubkey, &'a [u8])>)
    ensures
        match r {
            Some((key, rest)) => key_field(bytes@) == Some((key@, rest@)),
            None => key_field(bytes@) is None,
        },
{
    let mut rest = bytes;
    let key: Result<Pubkey, borsh::io::Error> = BorshDeserialize::deserialize(&mut rest);
    match key {
        Ok(key) => Some((key, rest)),
        Err(_) => None,
    }
}

/// Calls `BorshDeserialize::deserialize` of `borsh` for a `String`. It reads a
/// length from four little-endian bytes, then that many bytes, which must be
/// valid UTF-8, and leaves the rest. It fails where the buffer is shorter than
/// the length says or the bytes are not UTF-8.
#[verifier::external_body]
fn read_string<'a>(bytes: &'a [u8]) -> (r: Option<(String, &'a [u8])>)
    ensures
        match r {
            Some((s, rest)) => string_field(bytes@) == Some((s@, rest@)),
            None => string_field(bytes@) is None,
        },
{
    let mut rest = bytes;
    let s: Result<String, borsh::io::Error> = BorshDeserialize::deserialize(&mut rest);
    match s {
        Ok(s) => Some((s, rest)),
        Err(_) => None,
    }
}

/// Calls `BorshDeserialize::deserialize` of `borsh` for a `u64`. It reads
/// eight bytes as a little-endian number and leaves the rest, and fails on a
/// shorter buffer.
#[verifier::external_body]
fn read_u64<'a>(bytes: &'a [u8]) -> (r: Option<(u64, &'a [u8])>)
    ensures
        match r {
            Some((x, rest)) => u64_field(bytes@) == Some((x, rest@)),
            None => u64_field(bytes@) is None,
        },
{
    let mut rest = bytes;
    let x: Result<u64, borsh::io::Error> = BorshDeserialize::deserialize(&mut rest);
    match x {
        Ok(x) => Some((x, rest)),
        Err(_) => None,
    }
}

/// Calls `BorshSerialize::serialize` of `borsh` for an array of thirty-two
/// bytes, with a vector as the writer: the bytes are appended as they are.
#[verifier::external_body]
fn write_key(key: &Pubkey, out: &mut Vec<u8>)
    ensures
        final(out)@ == old(out)@ + key@,
{
    let _ = key.serialize(out);
}

/// Calls `BorshSerialize::serialize` of `borsh` for a `String`, with a vector
/// as the writer: the length of the string's UTF-8 form is appended in four
/// little-endian bytes, then that form. Where the length does not fit four
/// bytes the call fails and appends nothing.
#[verifier::external_body]
fn write_string(s: &String, out: &mut Vec<u8>) -> (written: bool)
    ensures
        written == string_encodable(s@),
        written ==> final(out)@ == old(out)@ + encode_string(s@),
        !written ==> final(out)@ == old(out)@,
{
    s.serialize(out).is_ok()
}

/// Calls `BorshSerialize::serialize` of `borsh` for a `u64`, with a vector as
/// the writer: the number is appended in eight little-endian bytes.
#[verifier::external_body]
fn write_u64(x: u64, out: &mut Vec<u8>)
    ensures
        final(out)@ == old(out)@ + spec_u64_to_le_bytes(x),
{
    let _ = x.serialize(out);
}

impl CampaignRecord {
    /// Decodes a record from a buffer that holds one and nothing else.
    pub fn decode(bytes: &[u8]) -> (r: Result<CampaignRecord, LedgerError>)
        ensures
            match r {
                Ok(record) => record_of(bytes@) == Some(record@),
                Err(e) => e == LedgerError::MalformedRecord && record_of(bytes@) is None,
            },
            r matches Ok(record) ==> encodes(record@, bytes@),
            r is Err ==> forall|v: CampaignRecordView| !encodes(v, bytes@),
    {
        proof {
            lemma_record_of_is_parse(bytes@);
            if parse_record(bytes@) is Some {
                lemma_parse_is_sound(bytes@);
            }
        }
        let (admin, rest) = match read_key(bytes) {
            Some(field) => field,
            None => return Err(LedgerError::MalformedRecord),
        };
        let (name, rest) = match read_string(rest) {
            Some(field) => field,
            None => return Err(LedgerError::MalformedRecord),
        };
        let (description, rest) = match read_string(rest) {
            Some(field) => field,
            None => return Err(LedgerError::MalformedRecord),
        };
        let (image_link, rest) = match read_string(rest) {
            Some(field) => field,
            None => return Err(LedgerError::MalformedRecord),
        };
        let (amount_donated, rest) = match read_u64(rest) {
            Some(field) => field,
            None => return Err(LedgerError::MalformedRecord),
        };
        if rest.len() != 0 {
            return Err(LedgerError::MalformedRecord);
        }
        Ok(CampaignRecord { admin, name, description, image_link, amount_donated })
    }

    /// Encodes the record. A record with a string too long for its length
    /// prefix has no encoding.
    pub fn encode(&self) -> (r: Result<Vec<u8>, LedgerError>)
        ensures
            match r {
                Ok(bytes) => self@.encodable() && bytes@ == encode_record(self@),
                Err(e) => e == LedgerError::MalformedRecord && !self@.encodable(),
            },
    {
        let mut out: Vec<u8> = Vec::new();
        write_key(&self.admin, &mut out);
        if !write_string(&self.name, &mut out) {
            return Err(LedgerError::MalformedRecord);
        }
        if !write_string(&self.description, &mut out) {
            return Err(LedgerError::MalformedRecord);
        }
        if !write_string(&self.image_link, &mut out) {
            return Err(LedgerError::MalformedRecord);
        }
        write_u64(self.amount_donated, &mut out);
        assert(out@ =~= encode_record(self@));
        Ok(out)
    }
}

/// The amount that a payload of eight bytes encodes. A payload of another
/// length encodes none.
pub open spec fn amount_of(bytes: Seq<u8>) -> Option<u64> {
    if bytes.len() == 8 {
        Some(spec_u64_from_le_bytes(bytes))
    } else {
        None
    }
}

/// The amount that a payload encodes is encoded by that payload alone.
pub proof fn lemma_amount_of_encoding(amount: u64)
    ensures
        amount_of(spec_u64_to_le_bytes(amount)) == Some(amount),
        forall|bytes: Seq<u8>|
            amount_of(bytes) == Some(amount) ==> bytes == spec_u64_to_le_bytes(amount),
{
    lemma_auto_spec_u64_to_from_le_bytes();
}

fn decode_amount(bytes: &[u8]) -> (r: Option<u64>)
    ensures
        r == amount_of(bytes@),
{
    match read_u64(bytes) {
        Some((amount, rest)) => {
            if rest.len() == 0 {
                assert(bytes@.subrange(0, 8) =~= bytes@);
                Some(amount)
            } else {
                None
            }
        },
        None => None,
    }
}

fn encode_amount(amount: u64) -> (bytes: Vec<u8>)
    ensures
        bytes@ == spec_u64_to_le_bytes(amount),
{
    let mut out: Vec<u8> = Vec::new();
    write_u64(amount, &mut out);
    assert(out@ =~= spec_u64_to_le_bytes(amount));
    out
}

/// The payload of a withdrawal: the amount that is to leave the campaign.
#[derive(Clone, Copy, Debug, PartialEq, Eq, Structural)]
pub struct WithdrawRequest {
    pub amount: u64,
}

impl WithdrawRequest {
    /// Decodes a request from a payload of exactly eight bytes.
    pub fn decode(bytes: &[u8]) -> (r: Result<WithdrawRequest, LedgerError>)
        ensures
            match r {
                Ok(request) => amount_of(bytes@) == Some(request.amount),
                Err(e) => e == LedgerError::MalformedRecord && amount_of(bytes@) is None,
            },
    {
        match decode_amount(bytes) {
            Some(amount) => Ok(WithdrawRequest { amount }),
            None => Err(LedgerError::MalformedRecord),
        }
    }

    /// Encodes the request in eight bytes.
    pub fn encode(&self) -> (bytes: Vec<u8>)
        ensures
            bytes@ == spec_u64_to_le_bytes(self.amount),
    {
        encode_amount(self.amount)
    }
}

/// The payload of a donation: the amount that is to reach the campaign.
#[derive(Clone, Copy, Debug, PartialEq, Eq, Structural)]
pub struct DonationRequest {
    pub amount: u64,
}

impl DonationRequest {
    /// Decodes a request from a payload of exactly eight bytes.
    pub fn decode(bytes: &[u8]) -> (r: Result<DonationRequest, LedgerError>)
        ensures
            match r {
                Ok(request) => amount_of(bytes@) == Some(request.amount),
                Err(e) => e == LedgerError::MalformedRecord && amount_of(bytes@) is None,
            },
    {
        match decode_amount(bytes) {
            Some(amount) => Ok(DonationRequest { amount }),
            None => Err(LedgerError::MalformedRecord),
        }
    }

    /// Encodes the request in eight bytes.
    pub fn encode(&self) -> (bytes: Vec<u8>)
        ensures
            bytes@ == spec_u64_to_le_bytes(self.amount),
    {
        encode_amount(self.amount)
    }
}

} // verus!
