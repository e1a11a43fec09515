//! Fixed-size wire values of the protocol: operation codes, addresses and
//! sizes, and the errors of the codec.
//!
//! Every multi-byte integer is big-endian on the wire. A value of one byte is
//! followed by that byte with every bit flipped; a longer one by the exclusive
//! or of its bytes.

use crate::checksum;
use crate::text;
use std::ops::RangeInclusive;
use vstd::prelude::*;
use vstd::string::StringExecFns;
use vstd::std_specs::convert::FromSpecImpl;
use vstd::std_specs::convert::TryFromSpecImpl;

verus! {

/// `RangeInclusive::clone` of std: it returns a range; nothing is claimed of it.
pub assume_specification<Idx: Clone>[ <RangeInclusive<Idx> as Clone>::clone ](
    range: &RangeInclusive<Idx>,
) -> (copy: RangeInclusive<Idx>)
;

/// `RangeInclusive::start` of std: the lower bound that the range was made with.
pub assume_specification<Idx>[ RangeInclusive::<Idx>::start ](range: &RangeInclusive<Idx>) -> (start:
    &Idx)
    ensures
        *start == range@.start,
;

/// `RangeInclusive::end` of std: the upper bound that the range was made with.
pub assume_specification<Idx>[ RangeInclusive::<Idx>::end ](range: &RangeInclusive<Idx>) -> (end:
    &Idx)
    ensures
        *end == range@.end,
;

/// A value that has a wire form.
pub trait Encode {
    /// The bytes that stand for the value on the wire.
    spec fn wire(&self) -> Seq<u8>;

    /// Encodes the value for the wire.
    fn encode(&self) -> (bytes: Vec<u8>)
        ensures
            bytes@ == self.wire(),
    ;
}

/// A value that does not fit its wire format.
#[derive(Debug, Clone, PartialEq, Eq)]
pub enum Error {
    /// The count (first field) lies outside the counts that the wire format
    /// can carry (second field).
    Exceeded(usize, RangeInclusive<usize>),
}

impl Error {
    /// Whether this error says that `value` lies outside `lower..=upper`.
    pub open spec fn exceeded(self, value: usize, lower: usize, upper: usize) -> bool {
        self matches Error::Exceeded(v, range) && v == value && range@.start == lower && range@.end
            == upper && !range@.exhausted
    }

    /// The error in words.
    pub open spec fn spec_text(self) -> Seq<char> {
        match self {
            Error::Exceeded(value, range) => text::spec_decimal(value as nat)
                + " is not within valid range of size ("@ + text::spec_decimal(
                range@.start as nat,
            ) + "..="@ + text::spec_decimal(range@.end as nat) + ")"@,
        }
    }

    /// Writes the error in words: the count and the range that it lies
    /// outside of.
    pub fn to_string(&self) -> (words: String)
        ensures
            words@ == self.spec_text(),
    {
        match self {
            Error::Exceeded(value, range) => {
                let mut words = text::decimal(*value);
                words.append(" is not within valid range of size (");
                words.append(text::decimal(*range.start()).as_str());
                words.append("..=");
                words.append(text::decimal(*range.end()).as_str());
                words.append(")");
                words
            },
        }
    }
}

/// Bytes that are not the wire form of the value expected.
#[derive(Debug, Clone, Copy, PartialEq, Eq, Structural)]
pub enum FrameError {
    /// A reply was expected and this byte is none.
    BadReply(u8),
    /// A value of `expected` bytes was expected and `found` bytes were given.
    Length { expected: usize, found: usize },
}

impl FrameError {
    /// The error in words.
    pub open spec fn spec_text(self) -> Seq<char> {
        match self {
            FrameError::BadReply(byte) => "no reply has the byte "@ + text::spec_hex(byte),
            FrameError::Length { expected, found } => text::spec_decimal(expected as nat)
                + " bytes expected, "@ + text::spec_decimal(found as nat) + " found"@,
        }
    }

    /// Writes the error in words.
    pub fn to_string(&self) -> (words: String)
        ensures
            words@ == self.spec_text(),
    {
        match self {
            FrameError::BadReply(byte) => {
                let mut words = String::from_str("no reply has the byte ");
                words.append(text::hex(*byte).as_str());
                words
            },
            FrameError::Length { expected, found } => {
                let mut words = text::decimal(*expected);
                words.append(" bytes expected, ");
                words.append(text::decimal(*found).as_str());
                words.append(" found");
                words
            },
        }
    }
}

/// The four bytes of `value`, most significant first.
pub open spec fn spec_be_bytes(value: u32) -> Seq<u8> {
    seq![
        (value >> 24) as u8,
        ((value >> 16) & 0xff) as u8,
        ((value >> 8) & 0xff) as u8,
        (value & 0xff) as u8,
    ]
}

/// The value whose big-endian bytes are the first four of `bytes`.
pub open spec fn spec_from_be_bytes(bytes: Seq<u8>) -> u32 {
    ((bytes[0] as u32) << 24) | ((bytes[1] as u32) << 16) | ((bytes[2] as u32) << 8) | (
    bytes[3] as u32)
}

/// Reading the big-endian bytes of a value gives the value back.
pub proof fn lemma_be_bytes_round_trip(value: u32)
    ensures
        spec_from_be_bytes(spec_be_bytes(value)) == value,
{
    let b = spec_be_bytes(value);
    assert(((((value >> 24) as u8) as u32) << 24) | (((((value >> 16) & 0xff) as u8) as u32) << 16)
        | (((((value >> 8) & 0xff) as u8) as u32) << 8) | (((value & 0xff) as u8) as u32)
        == value) by (bit_vector);
}

/// Computes the four bytes of `value`, most significant first.
pub fn be_bytes(value: u32) -> (bytes: [u8; 4])
    ensures
        bytes@ == spec_be_bytes(value),
{
    assert(value >> 24 <= 0xff) by (bit_vector);
    assert((value >> 16) & 0xff <= 0xff) by (bit_vector);
    assert((value >> 8) & 0xff <= 0xff) by (bit_vector);
    assert(value & 0xff <= 0xff) by (bit_vector);
    let bytes = [
        (value >> 24) as u8,
        ((value >> 16) & 0xff) as u8,
        ((value >> 8) & 0xff) as u8,
        (value & 0xff) as u8,
    ];
    assert(bytes@ =~= spec_be_bytes(value));
    bytes
}

/// An operation code: one byte that names an operation of the target.
///
/// Every byte is an operation code; those that the protocol defines have a
/// name here.
#[derive(Debug, Clone, Copy, PartialEq, Eq, Structural, PartialOrd, Ord, Hash)]
pub struct Opcode(pub u8);

impl Opcode {
    /// Asks for the version and the operations that the target supports.
    #[allow(non_snake_case)]
    #[verifier::allow_in_spec]
    pub fn GET() -> Opcode
        returns
            Opcode(0x00),
    {
        Opcode(0x00)
    }

    /// Asks for the version and the option bytes.
    #[allow(non_snake_case)]
    #[verifier::allow_in_spec]
    pub fn GET_VERSION() -> Opcode
        returns
            Opcode(0x01),
    {
        Opcode(0x01)
    }

    /// Asks for the identifier of the chip.
    #[allow(non_snake_case)]
    #[verifier::allow_in_spec]
    pub fn GET_ID() -> Opcode
        returns
            Opcode(0x02),
    {
        Opcode(0x02)
    }

    /// Reads memory.
    #[allow(non_snake_case)]
    #[verifier::allow_in_spec]
    pub fn READ() -> Opcode
        returns
            Opcode(0x11),
    {
        Opcode(0x11)
    }

    /// Jumps to an address.
    #[allow(non_snake_case)]
    #[verifier::allow_in_spec]
    pub fn GO() -> Opcode
        returns
            Opcode(0x21),
    {
        Opcode(0x21)
    }

    /// Writes memory.
    #[allow(non_snake_case)]
    #[verifier::allow_in_spec]
    pub fn WRITE() -> Opcode
        returns
            Opcode(0x31),
    {
        Opcode(0x31)
    }

    /// Erases pages.
    #[allow(non_snake_case)]
    #[verifier::allow_in_spec]
    pub fn ERASE() -> Opcode
        returns
            Opcode(0x43),
    {
        Opcode(0x43)
    }

    /// Erases pages that are numbered with two bytes.
    #[allow(non_snake_case)]
    #[verifier::allow_in_spec]
    pub fn EXTENDED_ERASE() -> Opcode
        returns
            Opcode(0x44),
    {
        Opcode(0x44)
    }

    /// Protects sectors against writing.
    #[allow(non_snake_case)]
    #[verifier::allow_in_spec]
    pub fn WRITE_PROTECT() -> Opcode
        returns
            Opcode(0x63),
    {
        Opcode(0x63)
    }

    /// Lifts the protection against writing.
    #[allow(non_snake_case)]
    #[verifier::allow_in_spec]
    pub fn WRITE_UNPROTECT() -> Opcode
        returns
            Opcode(0x73),
    {
        Opcode(0x73)
    }

    /// Protects the memory against reading.
    #[allow(non_snake_case)]
    #[verifier::allow_in_spec]
    pub fn READ_PROTECT() -> Opcode
        returns
            Opcode(0x82),
    {
        Opcode(0x82)
    }

    /// Lifts the protection against reading.
    #[allow(non_snake_case)]
    #[verifier::allow_in_spec]
    pub fn READ_UNPROTECT() -> Opcode
        returns
            Opcode(0x92),
    {
        Opcode(0x92)
    }

    /// Asks for the checksum of a region of memory.
    #[allow(non_snake_case)]
    #[verifier::allow_in_spec]
    pub fn GET_CHECKSUM() -> Opcode
        returns
            Opcode(0xa1),
    {
        Opcode(0xa1)
    }

    /// A command that the target defines.
    #[allow(non_snake_case)]
    #[verifier::allow_in_spec]
    pub fn SPECIAL() -> Opcode
        returns
            Opcode(0x50),
    {
        Opcode(0x50)
    }

    /// A command with data that the target defines.
    #[allow(non_snake_case)]
    #[verifier::allow_in_spec]
    pub fn EXTENDED_SPECIAL() -> Opcode
        returns
            Opcode(0x51),
    {
        Opcode(0x51)
    }

    /// Returns the byte of the operation code.
    pub fn as_u8(&self) -> (byte: u8)
        ensures
            byte == self.0,
    {
        self.0
    }

    /// The name of the operation, where the protocol defines it.
    pub open spec fn spec_name(self) -> Option<Seq<char>> {
        if self.0 == 0x00 {
            Some("GET"@)
        } else if self.0 == 0x01 {
            Some("GET_VERSION"@)
        } else if self.0 == 0x02 {
            Some("GET_ID"@)
        } else if self.0 == 0x11 {
            Some("READ"@)
        } else if self.0 == 0x21 {
            Some("GO"@)
        } else if self.0 == 0x31 {
            Some("WRITE"@)
        } else if self.0 == 0x43 {
            Some("ERASE"@)
        } else if self.0 == 0x44 {
            Some("EXTENDED_ERASE"@)
        } else if self.0 == 0x63 {
            Some("WRITE_PROTECT"@)
        } else if self.0 == 0x73 {
            Some("WRITE_UNPROTECT"@)
        } else if self.0 == 0x82 {
            Some("READ_PROTECT"@)
        } else if self.0 == 0x92 {
            Some("READ_UNPROTECT"@)
        } else if self.0 == 0xa1 {
            Some("GET_CHECKSUM"@)
        } else if self.0 == 0x50 {
            Some("SPECIAL"@)
        } else if self.0 == 0x51 {
            Some("EXTENDED_SPECIAL"@)
        } else {
            None
        }
    }

    /// The operation in words: its name, or `UNKNOWN` with the byte in two
    /// hexadecimal digits.
    pub open spec fn spec_text(self) -> Seq<char> {
        match self.spec_name() {
            Some(name) => name,
            None => "UNKNOWN ("@ + text::spec_hex(self.0) + ")"@,
        }
    }

    /// Returns the name of the operation, where the protocol defines it.
    pub fn name(&self) -> (name: Option<&'static str>)
        ensures
            match self.spec_name() {
                Some(text) => name matches Some(found) && found@ == text,
                None => name is None,
            },
    {
        if self.0 == 0x00 {
            Some("GET")
        } else if self.0 == 0x01 {
            Some("GET_VERSION")
        } else if self.0 == 0x02 {
            Some("GET_ID")
        } else if self.0 == 0x11 {
            Some("READ")
        } else if self.0 == 0x21 {
            Some("GO")
        } else if self.0 == 0x31 {
            Some("WRITE")
        } else if self.0 == 0x43 {
            Some("ERASE")
        } else if self.0 == 0x44 {
            Some("EXTENDED_ERASE")
        } else if self.0 == 0x63 {
            Some("WRITE_PROTECT")
        } else if self.0 == 0x73 {
            Some("WRITE_UNPROTECT")
        } else if self.0 == 0x82 {
            Some("READ_PROTECT")
        } else if self.0 == 0x92 {
            Some("READ_UNPROTECT")
        } else if self.0 == 0xa1 {
            Some("GET_CHECKSUM")
        } else if self.0 == 0x50 {
            Some("SPECIAL")
        } else if self.0 == 0x51 {
            Some("EXTENDED_SPECIAL")
        } else {
            None
        }
    }

    /// Writes the operation in words: its name, or `UNKNOWN` with the byte in
    /// two hexadecimal digits.
    pub fn to_string(&self) -> (words: String)
        ensures
            words@ == self.spec_text(),
    {
        match self.name() {
            Some(name) => String::from_str(name),
            None => {
                let mut words = String::from_str("UNKNOWN (");
                words.append(text::hex(self.0).as_str());
                words.append(")");
                words
            },
        }
    }
}

impl Encode for Opcode {
    /// The byte, then the byte with every bit flipped.
    open spec fn wire(&self) -> Seq<u8> {
        seq![self.0, checksum::spec_single(self.0)]
    }

    fn encode(&self) -> (bytes: Vec<u8>)
        ensures
            bytes@.len() == 2,
            bytes@[0] == self.0,
            bytes@[1] == self.0 ^ 0xff,
    {
        let mut bytes = Vec::new();
        bytes.push(self.0);
        bytes.push(checksum::single(self.0));
        assert(bytes@ =~= self.wire());
        bytes
    }
}

impl FromSpecImpl<u8> for Opcode {
    open spec fn obeys_from_spec() -> bool {
        true
    }

    open spec fn from_spec(value: u8) -> Self {
        Opcode(value)
    }
}

impl From<u8> for Opcode {
    fn from(value: u8) -> (opcode: Self) {
        Opcode(value)
    }
}

/// An address in the memory of the target.
#[derive(Debug, Clone, Copy, PartialEq, Eq, Structural, PartialOrd, Ord)]
pub struct Address(pub u32);

impl Address {
    /// The check byte of the address: the exclusive or of its four bytes.
    pub open spec fn spec_checksum(self) -> u8 {
        let b = spec_be_bytes(self.0);
        b[0] ^ b[1] ^ b[2] ^ b[3]
    }

    /// Returns the address as a number.
    pub fn as_u32(&self) -> (value: u32)
        ensures
            value == self.0,
    {
        self.0
    }
}

impl Encode for Address {
    /// The four bytes, most significant first, then their exclusive or.
    open spec fn wire(&self) -> Seq<u8> {
        spec_be_bytes(self.0).push(self.spec_checksum())
    }

    fn encode(&self) -> (bytes: Vec<u8>)
        ensures
            bytes@.len() == 5,
            bytes@.take(4) == spec_be_bytes(self.0),
            bytes@[4] == bytes@[0] ^ bytes@[1] ^ bytes@[2] ^ bytes@[3],
            bytes@[4] == checksum::spec_iter(bytes@.take(4)),
    {
        let raw = be_bytes(self.0);
        let mut bytes = Vec::new();
        bytes.push(raw[0]);
        bytes.push(raw[1]);
        bytes.push(raw[2]);
        bytes.push(raw[3]);
        bytes.push(raw[0] ^ raw[1] ^ raw[2] ^ raw[3]);
        proof {
            assert(bytes@ =~= self.wire());
            assert(bytes@.take(4) =~= spec_be_bytes(self.0));
            lemma_iter_four(raw[0], raw[1], raw[2], raw[3]);
            assert(bytes@.take(4) =~= seq![raw[0], raw[1], raw[2], raw[3]]);
        }
        bytes
    }
}

/// The checksum of a run of four bytes is the exclusive or of the four.
pub proof fn lemma_iter_four(a: u8, b: u8, c: u8, d: u8)
    ensures
        checksum::spec_iter(seq![a, b, c, d]) == a ^ b ^ c ^ d,
{
    let s4 = seq![a, b, c, d];
    let s3 = seq![a, b, c];
    let s2 = seq![a, b];
    let s1 = seq![a];
    assert(s4.drop_last() =~= s3);
    assert(s3.drop_last() =~= s2);
    assert(s2.drop_last() =~= s1);
    checksum::lemma_iter_one(a);
    assert(checksum::spec_iter(s2) == a ^ b);
    assert(checksum::spec_iter(s3) == a ^ b ^ c);
}

impl FromSpecImpl<u32> for Address {
    open spec fn obeys_from_spec() -> bool {
        true
    }

    open spec fn from_spec(value: u32) -> Self {
        Address(value)
    }
}

impl From<u32> for Address {
    fn from(value: u32) -> (address: Self) {
        Address(value)
    }
}

impl FromSpecImpl<Address> for u32 {
    open spec fn obeys_from_spec() -> bool {
        true
    }

    open spec fn from_spec(address: Address) -> Self {
        address.0
    }
}

impl From<Address> for u32 {
    fn from(address: Address) -> (value: Self) {
        address.0
    }
}

/// The least count that a [`Size`] carries.
pub const SIZE_MIN: usize = 1;

/// The greatest count that a [`Size`] carries.
pub const SIZE_MAX: usize = 256;

/// A count of bytes from 1 to 256, as the read command carries it.
///
/// The wire holds the count less one, so that a byte spans the whole range.
#[derive(Debug, Clone, Copy, PartialEq, Eq, Structural, PartialOrd, Ord, Hash)]
pub struct Size(u8);

impl Size {
    /// The count that the size stands for.
    pub closed spec fn spec_count(self) -> int {
        self.0 + 1
    }

    /// The byte that the wire holds: the count less one.
    pub open spec fn spec_stored(self) -> u8 {
        (self.spec_count() - 1) as u8
    }

    /// The size that stands for `count`, for a count from 1 to 256.
    pub closed spec fn spec_new(count: int) -> Size {
        Size((count - 1) as u8)
    }

    /// Returns the count that the size stands for.
    pub fn count(&self) -> (count: usize)
        ensures
            count == self.spec_count(),
            SIZE_MIN <= count <= SIZE_MAX,
    {
        self.0 as usize + 1
    }

}

impl Encode for Size {
    /// The count less one, then that byte with every bit flipped.
    open spec fn wire(&self) -> Seq<u8> {
        seq![self.spec_stored(), checksum::spec_single(self.spec_stored())]
    }

    fn encode(&self) -> (bytes: Vec<u8>)
        ensures
            bytes@.len() == 2,
            bytes@[0] == self.spec_count() - 1,
            bytes@[1] == bytes@[0] ^ 0xff,
    {
        let mut bytes = Vec::new();
        bytes.push(self.0);
        bytes.push(checksum::single(self.0));
        assert(bytes@ =~= self.wire());
        bytes
    }
}

/// Every size stands for a count from 1 to 256, and the size made for a count
/// in that range stands for that count: making a size and reading its count
/// gives the count back, and so does the other way round.
pub proof fn lemma_size_round_trip(size: Size, count: int)
    ensures
        SIZE_MIN <= size.spec_count() <= SIZE_MAX,
        Size::spec_new(size.spec_count()) == size,
        SIZE_MIN <= count <= SIZE_MAX ==> Size::spec_new(count).spec_count() == count,
        SIZE_MIN <= count <= SIZE_MAX ==> Size::spec_new(count).wire()[0] == count - 1,
{
}

impl TryFromSpecImpl<usize> for Size {
    /// The error holds a range of std, which contracts know by its view alone:
    /// what `try_from` returns is stated on `try_from` itself.
    open spec fn obeys_try_from_spec() -> bool {
        false
    }

    open spec fn try_from_spec(value: usize) -> Result<Self, Error> {
        arbitrary()
    }
}

impl TryFrom<usize> for Size {
    type Error = Error;

    /// Makes the size that stands for `value`, which must lie from 1 to 256.
    fn try_from(value: usize) -> (made: Result<Self, Error>)
        ensures
            SIZE_MIN <= value <= SIZE_MAX ==> made == Ok::<Size, Error>(
                Size::spec_new(value as int),
            ),
            SIZE_MIN <= value <= SIZE_MAX ==> made.unwrap().spec_count() == value,
            !(SIZE_MIN <= value <= SIZE_MAX) ==> made is Err && made.unwrap_err().exceeded(
                value,
                SIZE_MIN,
                SIZE_MAX,
            ),
    {
        if SIZE_MIN <= value && value <= SIZE_MAX {
            Ok(Size((value - 1) as u8))
        } else {
            Err(Error::Exceeded(value, RangeInclusive::new(SIZE_MIN, SIZE_MAX)))
        }
    }
}

impl FromSpecImpl<Size> for usize {
    open spec fn obeys_from_spec() -> bool {
        true
    }

    open spec fn from_spec(size: Size) -> Self {
        size.spec_count() as usize
    }
}

impl From<Size> for usize {
    /// The count that the size stands for.
    fn from(size: Size) -> (count: Self) {
        size.count()
    }
}

impl FromSpecImpl<Size> for u8 {
    open spec fn obeys_from_spec() -> bool {
        true
    }

    open spec fn from_spec(size: Size) -> Self {
        size.spec_stored()
    }
}

impl From<Size> for u8 {
    /// The byte that the wire holds: the count less one.
    fn from(size: Size) -> (stored: Self) {
        size.0
    }
}

} // verus!
