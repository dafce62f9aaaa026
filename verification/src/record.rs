//! The fixed-layout contact record and its byte codec.

use crate::text::c_string;
use crate::text::text_bytes;
use vstd::prelude::*;
use vstd::slice::slice_subrange;
use vstd::slice::slice_to_vec;
use vstd::utf8::decode_utf8;
use vstd::utf8::valid_utf8;

verus! {

/// Width in bytes of each of the two name fields.
pub const NAME_BYTES: usize = 20;

/// Width in bytes of each of the two address fields.
pub const ADDRESS_BYTES: usize = 40;

/// Width in bytes of the phone field.
pub const PHONE_BYTES: usize = 16;

/// Width in bytes of the flag word.
pub const FLAGS_BYTES: usize = 2;

/// Total width in bytes of an encoded record: the five text fields and the
/// flag word, laid out contiguously in order, with no padding between them.
pub const RECORD_BYTES: usize = 138;

/// Offset in bytes of the first-name field within an encoded record.
pub const FIRST_NAME_OFFSET: usize = 0;

/// Offset in bytes of the last-name field within an encoded record.
pub const LAST_NAME_OFFSET: usize = 20;

/// Offset in bytes of the first address line within an encoded record.
pub const ADDRESS_1_OFFSET: usize = 40;

/// Offset in bytes of the second address line within an encoded record.
pub const ADDRESS_2_OFFSET: usize = 80;

/// Offset in bytes of the phone field within an encoded record.
pub const PHONE_OFFSET: usize = 120;

/// Offset in bytes of the flag word within an encoded record.
pub const FLAGS_OFFSET: usize = 136;

/// The mathematical content of a record: the raw bytes of each field.
#[verifier::ext_equal]
pub ghost struct SpeakerModel {
    /// Bytes of the first-name field.
    pub first_name: Seq<u8>,
    /// Bytes of the last-name field.
    pub last_name: Seq<u8>,
    /// Bytes of the first address line.
    pub address_line_1: Seq<u8>,
    /// Bytes of the second address line.
    pub address_line_2: Seq<u8>,
    /// Bytes of the phone field.
    pub phone: Seq<u8>,
    /// The two bytes of the flag word, in memory order.
    pub flags: Seq<u8>,
}

impl SpeakerModel {
    /// Every field has exactly its fixed width.
    pub open spec fn wf(self) -> bool {
        &&& self.first_name.len() == NAME_BYTES
        &&& self.last_name.len() == NAME_BYTES
        &&& self.address_line_1.len() == ADDRESS_BYTES
        &&& self.address_line_2.len() == ADDRESS_BYTES
        &&& self.phone.len() == PHONE_BYTES
        &&& self.flags.len() == FLAGS_BYTES
    }
}

/// The record encoded by a full-size byte sequence: each field is read from
/// its fixed offset.
pub open spec fn record_of_bytes(bytes: Seq<u8>) -> SpeakerModel
    recommends
        bytes.len() == RECORD_BYTES,
{
    SpeakerModel {
        first_name: bytes.subrange(FIRST_NAME_OFFSET as int, LAST_NAME_OFFSET as int),
        last_name: bytes.subrange(LAST_NAME_OFFSET as int, ADDRESS_1_OFFSET as int),
        address_line_1: bytes.subrange(ADDRESS_1_OFFSET as int, ADDRESS_2_OFFSET as int),
        address_line_2: bytes.subrange(ADDRESS_2_OFFSET as int, PHONE_OFFSET as int),
        phone: bytes.subrange(PHONE_OFFSET as int, FLAGS_OFFSET as int),
        flags: bytes.subrange(FLAGS_OFFSET as int, RECORD_BYTES as int),
    }
}

/// The encoding of a record: its fields concatenated in layout order.
pub open spec fn bytes_of_record(record: SpeakerModel) -> Seq<u8> {
    record.first_name + record.last_name + record.address_line_1 + record.address_line_2
        + record.phone + record.flags
}

/// Law: reading any full-size byte sequence as a record and writing the record
/// back reproduces the original bytes exactly. Every bit pattern of every
/// field is a legal value, so the codec loses nothing.
pub proof fn lemma_round_trip(bytes: Seq<u8>)
    requires
        bytes.len() == RECORD_BYTES,
    ensures
        bytes_of_record(record_of_bytes(bytes)) == bytes,
{
    assert(bytes_of_record(record_of_bytes(bytes)) =~= bytes);
}

/// Law: a well-formed record is reproduced exactly by writing it out and
/// reading the bytes back.
pub proof fn lemma_round_trip_record(record: SpeakerModel)
    requires
        record.wf(),
    ensures
        record_of_bytes(bytes_of_record(record)) == record,
{
    let bytes = bytes_of_record(record);
    assert(bytes.subrange(FIRST_NAME_OFFSET as int, LAST_NAME_OFFSET as int) =~= record.first_name);
    assert(bytes.subrange(LAST_NAME_OFFSET as int, ADDRESS_1_OFFSET as int) =~= record.last_name);
    assert(bytes.subrange(ADDRESS_1_OFFSET as int, ADDRESS_2_OFFSET as int)
        =~= record.address_line_1);
    assert(bytes.subrange(ADDRESS_2_OFFSET as int, PHONE_OFFSET as int) =~= record.address_line_2);
    assert(bytes.subrange(PHONE_OFFSET as int, FLAGS_OFFSET as int) =~= record.phone);
    assert(bytes.subrange(FLAGS_OFFSET as int, RECORD_BYTES as int) =~= record.flags);
}

/// Failure of reading a record from a byte source.
#[derive(Debug, PartialEq, Eq, Structural)]
pub enum CodecError {
    /// The source held fewer bytes than a full record.
    Truncated,
}

/// A contact record: five fixed-width text fields and a two-byte flag word.
#[derive(Debug)]
pub struct Speaker {
    first_name: Vec<u8>,
    last_name: Vec<u8>,
    addr1: Vec<u8>,
    addr2: Vec<u8>,
    phone: Vec<u8>,
    flags: Vec<u8>,
}

impl View for Speaker {
    type V = SpeakerModel;

    closed spec fn view(&self) -> SpeakerModel {
        SpeakerModel {
            first_name: self.first_name@,
            last_name: self.last_name@,
            address_line_1: self.addr1@,
            address_line_2: self.addr2@,
            phone: self.phone@,
            flags: self.flags@,
        }
    }
}

/// Relies on `u16::from_ne_bytes`: it assembles the two bytes in the
/// machine's native order, which is one of the two possible byte orders.
#[verifier::external_body]
fn u16_from_native_bytes(b0: u8, b1: u8) -> (r: u16)
    ensures
        r == b0 as int + 0x100 * (b1 as int) || r == b1 as int + 0x100 * (b0 as int),
{
    u16::from_ne_bytes([b0, b1])
}

/// Appends every byte of `field` to `out`, in order.
fn push_field(out: &mut Vec<u8>, field: &Vec<u8>)
    ensures
        final(out)@ == old(out)@ + field@,
{
    let mut j: usize = 0;
    while j < field.len()
        invariant
            0 <= j <= field@.len(),
            out@ == old(out)@ + field@.take(j as int),
        decreases field@.len() - j,
    {
        out.push(field[j]);
        proof {
            assert(old(out)@ + field@.take(j as int) + seq![field@[j as int]] =~= old(out)@
                + field@.take(j as int + 1));
        }
        j += 1;
    }
    proof {
        assert(old(out)@ + field@.take(field@.len() as int) =~= old(out)@ + field@);
    }
}

impl Speaker {
    /// Every field holds exactly its fixed width of bytes.
    #[verifier::type_invariant]
    spec fn inv(self) -> bool {
        self@.wf()
    }

    /// Reads a record from a byte source. The first full-size run of bytes is
    /// taken as the record, field by field at the fixed offsets; a source
    /// shorter than a full record is rejected whole, and no record is made.
    pub fn from_bytes(bytes: &[u8]) -> (r: Result<Speaker, CodecError>)
        ensures
            bytes@.len() >= RECORD_BYTES ==> (r matches Ok(s) && s@ == record_of_bytes(
                bytes@.take(RECORD_BYTES as int),
            )),
            bytes@.len() < RECORD_BYTES ==> (r matches Err(e) && e == CodecError::Truncated),
    {
        if bytes.len() < RECORD_BYTES {
            return Err(CodecError::Truncated);
        }
        let speaker = Speaker {
            first_name: slice_to_vec(slice_subrange(bytes, FIRST_NAME_OFFSET, LAST_NAME_OFFSET)),
            last_name: slice_to_vec(slice_subrange(bytes, LAST_NAME_OFFSET, ADDRESS_1_OFFSET)),
            addr1: slice_to_vec(slice_subrange(bytes, ADDRESS_1_OFFSET, ADDRESS_2_OFFSET)),
            addr2: slice_to_vec(slice_subrange(bytes, ADDRESS_2_OFFSET, PHONE_OFFSET)),
            phone: slice_to_vec(slice_subrange(bytes, PHONE_OFFSET, FLAGS_OFFSET)),
            flags: slice_to_vec(slice_subrange(bytes, FLAGS_OFFSET, RECORD_BYTES)),
        };
        proof {
            let full = bytes@.take(RECORD_BYTES as int);
            assert forall|a: int, b: int| 0 <= a <= b <= RECORD_BYTES implies full.subrange(a, b)
                =~= bytes@.subrange(a, b) by {}
            assert(speaker@ =~= record_of_bytes(full));
        }
        Ok(speaker)
    }

    /// Writes the record back out as its full-size byte encoding: the five
    /// text fields and the flag word concatenated at their fixed offsets.
    pub fn to_bytes(&self) -> (r: Vec<u8>)
        ensures
            r@ == bytes_of_record(self@),
            r@.len() == RECORD_BYTES,
    {
        proof {
            use_type_invariant(self);
        }
        let mut out: Vec<u8> = Vec::new();
        push_field(&mut out, &self.first_name);
        push_field(&mut out, &self.last_name);
        push_field(&mut out, &self.addr1);
        push_field(&mut out, &self.addr2);
        push_field(&mut out, &self.phone);
        push_field(&mut out, &self.flags);
        proof {
            assert(out@ =~= bytes_of_record(self@));
        }
        out
    }

    /// The first and last name as text, only when both fields extract
    /// successfully; when either fails to decode, the whole pair is absent.
    pub fn name(&self) -> (r: Option<(&str, &str)>)
        ensures
            r is Some <==> valid_utf8(text_bytes(self@.first_name)) && valid_utf8(
                text_bytes(self@.last_name),
            ),
            r matches Some(p) ==> p.0@ == decode_utf8(text_bytes(self@.first_name)) && p.1@
                == decode_utf8(text_bytes(self@.last_name)),
    {
        let first = match c_string(self.first_name.as_slice()) {
            Some(s) => s,
            None => {
                return None;
            },
        };
        let last = match c_string(self.last_name.as_slice()) {
            Some(s) => s,
            None => {
                return None;
            },
        };
        Some((first, last))
    }

    /// The first address line as text, when the field decodes.
    pub fn address_line_1(&self) -> (r: Option<&str>)
        ensures
            r is Some <==> valid_utf8(text_bytes(self@.address_line_1)),
            r matches Some(s) ==> s@ == decode_utf8(text_bytes(self@.address_line_1)),
    {
        c_string(self.addr1.as_slice())
    }

    /// The second address line as text, when the field decodes.
    pub fn address_line_2(&self) -> (r: Option<&str>)
        ensures
            r is Some <==> valid_utf8(text_bytes(self@.address_line_2)),
            r matches Some(s) ==> s@ == decode_utf8(text_bytes(self@.address_line_2)),
    {
        c_string(self.addr2.as_slice())
    }

    /// The phone field as text, when the field decodes.
    pub fn phone_number(&self) -> (r: Option<&str>)
        ensures
            r is Some <==> valid_utf8(text_bytes(self@.phone)),
            r matches Some(s) ==> s@ == decode_utf8(text_bytes(self@.phone)),
    {
        c_string(self.phone.as_slice())
    }

    /// The flag word, assembled from its two stored bytes in the machine's
    /// native byte order.
    pub fn flags(&self) -> (r: u16)
        ensures
            r == self@.flags[0] as int + 0x100 * (self@.flags[1] as int) || r == self@.flags[1]
                as int + 0x100 * (self@.flags[0] as int),
    {
        proof {
            use_type_invariant(self);
        }
        u16_from_native_bytes(self.flags[0], self.flags[1])
    }
}

} // verus!
