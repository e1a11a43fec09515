//! What the target sends: the acknowledgement of one byte, and the answers
//! to the three commands that ask for information.

use crate::protocol::Encode;
use crate::protocol::FrameError;
use crate::protocol::Opcode;
use crate::text;
use vstd::prelude::*;
use vstd::string::StringExecFns;

verus! {

/// The byte that acknowledges.
pub const ACK: u8 = 0x79;

/// The byte that refuses.
pub const NACK: u8 = 0x1f;

/// The byte that says that the target is busy.
pub const BUSY: u8 = 0xaa;

/// The answer of the target to what it was sent.
#[derive(Debug, Clone, Copy, PartialEq, Eq, Structural)]
pub enum Reply {
    /// The target accepted.
    Ack,
    /// The target refused.
    NAck,
    /// The target is busy. Only some revisions of the protocol have this
    /// reply: see [`ReplySet`].
    Busy,
}

/// The replies that a target gives. Which it is depends on the revision of
/// the protocol that the target speaks; nothing on the wire tells.
#[derive(Debug, Clone, Copy, PartialEq, Eq, Structural)]
pub enum ReplySet {
    /// The target acknowledges or refuses.
    AckNAck,
    /// The target acknowledges, refuses, or says that it is busy.
    AckNAckBusy,
}

impl Default for ReplySet {
    fn default() -> (set: Self)
        ensures
            set == ReplySet::AckNAck,
    {
        ReplySet::AckNAck
    }
}

impl Reply {
    /// The reply that `byte` stands for: `79` acknowledges, `1f` refuses, and
    /// no other byte is a reply.
    pub open spec fn spec_decode(byte: u8) -> Result<Reply, FrameError> {
        if byte == ACK {
            Ok(Reply::Ack)
        } else if byte == NACK {
            Ok(Reply::NAck)
        } else {
            Err(FrameError::BadReply(byte))
        }
    }

    /// Decodes a reply from the one byte that carries it.
    pub fn decode(byte: u8) -> (reply: Result<Reply, FrameError>)
        ensures
            reply == Self::spec_decode(byte),
            reply == Ok::<Reply, FrameError>(Reply::Ack) <==> byte == 0x79,
            reply == Ok::<Reply, FrameError>(Reply::NAck) <==> byte == 0x1f,
            reply is Err <==> byte != 0x79 && byte != 0x1f,
    {
        if byte == ACK {
            Ok(Reply::Ack)
        } else if byte == NACK {
            Ok(Reply::NAck)
        } else {
            Err(FrameError::BadReply(byte))
        }
    }

    /// The reply that `byte` stands for among the replies of `set`: `79`
    /// acknowledges, `1f` refuses, `aa` says that the target is busy where the
    /// set has that reply, and no other byte is a reply.
    pub open spec fn spec_decode_in(set: ReplySet, byte: u8) -> Result<Reply, FrameError> {
        if byte == BUSY && set is AckNAckBusy {
            Ok(Reply::Busy)
        } else {
            Self::spec_decode(byte)
        }
    }

    /// Decodes a reply of a target that gives the replies of `set` from the
    /// one byte that carries it.
    pub fn decode_in(set: ReplySet, byte: u8) -> (reply: Result<Reply, FrameError>)
        ensures
            reply == Self::spec_decode_in(set, byte),
            reply == Ok::<Reply, FrameError>(Reply::Ack) <==> byte == 0x79,
            reply == Ok::<Reply, FrameError>(Reply::NAck) <==> byte == 0x1f,
            reply == Ok::<Reply, FrameError>(Reply::Busy) <==> byte == 0xaa && set is AckNAckBusy,
    {
        if byte == BUSY && matches!(set, ReplySet::AckNAckBusy) {
            Ok(Reply::Busy)
        } else {
            Reply::decode(byte)
        }
    }

    /// Whether the target accepted.
    pub fn is_ack(&self) -> (ack: bool)
        ensures
            ack == (*self is Ack),
    {
        matches!(self, Reply::Ack)
    }
}

impl Encode for Reply {
    /// The one byte of the reply.
    open spec fn wire(&self) -> Seq<u8> {
        match *self {
            Reply::Ack => seq![ACK],
            Reply::NAck => seq![NACK],
            Reply::Busy => seq![BUSY],
        }
    }

    fn encode(&self) -> (bytes: Vec<u8>) {
        let mut bytes = Vec::new();
        match self {
            Reply::Ack => bytes.push(ACK),
            Reply::NAck => bytes.push(NACK),
            Reply::Busy => bytes.push(BUSY),
        }
        assert(bytes@ =~= self.wire());
        bytes
    }
}

/// A reply is decoded from its wire form, among the replies that have it.
pub proof fn lemma_reply_round_trip(reply: Reply)
    ensures
        reply.wire().len() == 1,
        !(reply is Busy) ==> Reply::spec_decode(reply.wire()[0]) == Ok::<Reply, FrameError>(reply),
        Reply::spec_decode_in(ReplySet::AckNAckBusy, reply.wire()[0]) == Ok::<Reply, FrameError>(
            reply,
        ),
{
}

/// The version `version` in words: the major part, which the upper four
/// bits hold, a dot, and the minor part, which the lower four bits hold, both
/// in decimal digits.
pub open spec fn spec_version_text(version: u8) -> Seq<char> {
    text::spec_decimal((version / 16) as nat) + "."@ + text::spec_decimal((version % 16) as nat)
}

/// Writes the version `version` in words: major part, dot, minor part.
pub fn version_text(version: u8) -> (words: String)
    ensures
        words@ == spec_version_text(version),
{
    let mut words = text::decimal((version / 16) as usize);
    words.append(".");
    words.append(text::decimal((version % 16) as usize).as_str());
    words
}

/// The operation codes that `bytes` hold, one in each byte.
pub open spec fn spec_opcodes(bytes: Seq<u8>) -> Seq<Opcode> {
    Seq::new(bytes.len(), |i: int| Opcode(bytes[i]))
}

/// The number of bytes of an answer whose first byte is a length field that
/// counts all but two of them; 2 where not even the first byte is there.
pub open spec fn spec_counted_len(bytes: Seq<u8>) -> nat {
    if bytes.len() == 0 {
        2
    } else {
        (bytes[0] + 2) as nat
    }
}

/// What the target knows of itself: the version of its bootloader and the
/// operations that it supports.
///
/// On the wire: a length field of one byte, the version, and as many
/// operation codes as the length field says, a byte each.
#[derive(Debug, Clone)]
pub struct Bootloader {
    version: u8,
    opcodes: Vec<Opcode>,
}

impl Bootloader {
    /// The version, the major part in the upper four bits.
    pub closed spec fn spec_version(&self) -> u8 {
        self.version
    }

    /// The operations that the target supports.
    pub closed spec fn spec_opcodes(&self) -> Seq<Opcode> {
        self.opcodes@
    }

    /// The wire form of the answer that holds `version` and `opcodes`.
    pub open spec fn spec_wire(version: u8, opcodes: Seq<Opcode>) -> Seq<u8> {
        seq![opcodes.len() as u8, version] + Seq::new(opcodes.len(), |i: int| opcodes[i].0)
    }

    /// Whether `bytes` are the whole of one answer.
    pub open spec fn spec_well_formed(bytes: Seq<u8>) -> bool {
        bytes.len() == spec_counted_len(bytes)
    }

    /// Decodes the answer to the get command.
    ///
    /// The first byte says how many operation codes follow the version; the
    /// bytes must hold just that many.
    pub fn decode(bytes: &[u8]) -> (answer: Result<Bootloader, FrameError>)
        ensures
            Self::spec_well_formed(bytes@) ==> (answer matches Ok(bootloader)
                && bootloader.spec_version() == bytes@[1] && bootloader.spec_opcodes()
                == spec_opcodes(bytes@.skip(2))),
            !Self::spec_well_formed(bytes@) ==> answer == Err::<Bootloader, FrameError>(
                FrameError::Length {
                    expected: spec_counted_len(bytes@) as usize,
                    found: bytes@.len() as usize,
                },
            ),
    {
        let expected: usize = if bytes.len() == 0 {
            2
        } else {
            bytes[0] as usize + 2
        };
        if bytes.len() != expected {
            return Err(FrameError::Length { expected, found: bytes.len() });
        }
        let version = bytes[1];
        let mut opcodes: Vec<Opcode> = Vec::new();
        let mut i: usize = 2;
        while i < bytes.len()
            invariant
                2 <= i <= bytes@.len(),
                opcodes@ == spec_opcodes(bytes@.subrange(2, i as int)),
            decreases bytes@.len() - i,
        {
            opcodes.push(Opcode(bytes[i]));
            proof {
                assert(opcodes@ =~= spec_opcodes(bytes@.subrange(2, i + 1)));
            }
            i += 1;
        }
        proof {
            assert(bytes@.subrange(2, i as int) =~= bytes@.skip(2));
        }
        Ok(Bootloader { version, opcodes })
    }

    /// Returns the version, the major part in the upper four bits.
    #[inline]
    pub fn version(&self) -> (version: u8)
        ensures
            version == self.spec_version(),
    {
        self.version
    }

    /// Returns the major part of the version.
    #[inline]
    pub fn major(&self) -> (major: u8)
        ensures
            major == self.spec_version() >> 4,
            major == self.spec_version() / 16,
    {
        let version = self.version;
        assert(version >> 4 == version / 16) by (bit_vector);
        self.version >> 4
    }

    /// Returns the minor part of the version.
    #[inline]
    pub fn minor(&self) -> (minor: u8)
        ensures
            minor == self.spec_version() & 0xf,
            minor == self.spec_version() % 16,
    {
        let version = self.version;
        assert(version & 0xf == version % 16) by (bit_vector);
        self.version & 0xf
    }

    /// Writes the version in words: major part, dot, minor part.
    pub fn version_string(&self) -> (words: String)
        ensures
            words@ == spec_version_text(self.spec_version()),
    {
        version_text(self.version)
    }

    /// Returns the operations that the target supports.
    #[inline]
    pub fn opcodes(&self) -> (opcodes: &[Opcode])
        ensures
            opcodes@ == self.spec_opcodes(),
    {
        self.opcodes.as_slice()
    }

    /// Whether the target supports the operation.
    pub fn supports(&self, opcode: Opcode) -> (supported: bool)
        ensures
            supported == self.spec_opcodes().contains(opcode),
    {
        let mut i: usize = 0;
        while i < self.opcodes.len()
            invariant
                i <= self.opcodes@.len(),
                forall|k: int| 0 <= k < i ==> self.opcodes@[k] != opcode,
            decreases self.opcodes@.len() - i,
        {
            if self.opcodes[i].0 == opcode.0 {
                return true;
            }
            i += 1;
        }
        false
    }
}

/// An answer is decoded from its wire form: the wire form of a version and of
/// up to 255 operation codes is well formed, and holds them.
pub proof fn lemma_bootloader_round_trip(version: u8, opcodes: Seq<Opcode>)
    requires
        opcodes.len() <= 255,
    ensures
        Bootloader::spec_well_formed(Bootloader::spec_wire(version, opcodes)),
        Bootloader::spec_wire(version, opcodes)[1] == version,
        spec_opcodes(Bootloader::spec_wire(version, opcodes).skip(2)) == opcodes,
{
    let wire = Bootloader::spec_wire(version, opcodes);
    assert(spec_opcodes(wire.skip(2)) =~= opcodes);
}

/// The version of the bootloader, with the two option bytes.
///
/// On the wire: the version and the two option bytes, three bytes in all.
#[derive(Debug, Clone)]
pub struct Version {
    version: u8,
    options: [u8; 2],
}

impl Version {
    /// The version, the major part in the upper four bits.
    pub closed spec fn spec_version(&self) -> u8 {
        self.version
    }

    /// The two option bytes.
    pub closed spec fn spec_options(&self) -> Seq<u8> {
        self.options@
    }

    /// The wire form of the answer that holds `version` and `options`.
    pub open spec fn spec_wire(version: u8, options: Seq<u8>) -> Seq<u8> {
        seq![version] + options
    }

    /// Decodes the answer to the version command: three bytes.
    pub fn decode(bytes: &[u8]) -> (answer: Result<Version, FrameError>)
        ensures
            bytes@.len() == 3 ==> (answer matches Ok(version) && version.spec_version() == bytes@[0]
                && version.spec_options() == bytes@.skip(1)),
            bytes@.len() != 3 ==> answer == Err::<Version, FrameError>(
                FrameError::Length { expected: 3, found: bytes@.len() as usize },
            ),
    {
        if bytes.len() != 3 {
            return Err(FrameError::Length { expected: 3, found: bytes.len() });
        }
        let options = [bytes[1], bytes[2]];
        assert(options@ =~= bytes@.skip(1));
        Ok(Version { version: bytes[0], options })
    }

    /// Returns the version, the major part in the upper four bits.
    #[inline]
    pub fn version(&self) -> (version: u8)
        ensures
            version == self.spec_version(),
    {
        self.version
    }

    /// Returns the major part of the version.
    #[inline]
    pub fn major(&self) -> (major: u8)
        ensures
            major == self.spec_version() >> 4,
            major == self.spec_version() / 16,
    {
        let version = self.version;
        assert(version >> 4 == version / 16) by (bit_vector);
        self.version >> 4
    }

    /// Returns the minor part of the version.
    #[inline]
    pub fn minor(&self) -> (minor: u8)
        ensures
            minor == self.spec_version() & 0xf,
            minor == self.spec_version() % 16,
    {
        let version = self.version;
        assert(version & 0xf == version % 16) by (bit_vector);
        self.version & 0xf
    }

    /// Writes the version in words: major part, dot, minor part.
    pub fn version_string(&self) -> (words: String)
        ensures
            words@ == spec_version_text(self.spec_version()),
    {
        version_text(self.version)
    }

    /// Writes the version in words: major part, dot, minor part.
    pub fn to_string(&self) -> (words: String)
        ensures
            words@ == spec_version_text(self.spec_version()),
    {
        version_text(self.version)
    }

    /// Returns the two option bytes.
    #[inline]
    pub fn options(&self) -> (options: [u8; 2])
        ensures
            options@ == self.spec_options(),
    {
        self.options
    }
}

/// A version is decoded from its wire form: the wire form of a version and
/// two option bytes is three bytes, and holds them.
pub proof fn lemma_version_round_trip(version: u8, options: Seq<u8>)
    requires
        options.len() == 2,
    ensures
        Version::spec_wire(version, options).len() == 3,
        Version::spec_wire(version, options)[0] == version,
        Version::spec_wire(version, options).skip(1) == options,
{
    assert(Version::spec_wire(version, options).skip(1) =~= options);
}

/// The number whose bytes `bytes` are, most significant first.
pub open spec fn spec_be_value(bytes: Seq<u8>) -> nat
    decreases bytes.len(),
{
    if bytes.len() == 0 {
        0
    } else {
        spec_be_value(bytes.drop_last()) * 256 + bytes.last() as nat
    }
}

/// The bytes `bytes` behind as many zero bytes as make `len` bytes in all.
pub open spec fn spec_padded(bytes: Seq<u8>, len: nat) -> Seq<u8> {
    Seq::new((len - bytes.len()) as nat, |i: int| 0u8) + bytes
}

/// The number whose bytes `bytes` are is below 256 to the power of their
/// count, for up to eight bytes.
pub proof fn lemma_be_value_bound(bytes: Seq<u8>)
    requires
        bytes.len() <= 8,
    ensures
        bytes.len() <= 1 ==> spec_be_value(bytes) < 0x100,
        bytes.len() <= 2 ==> spec_be_value(bytes) < 0x1_0000,
        bytes.len() <= 3 ==> spec_be_value(bytes) < 0x100_0000,
        bytes.len() <= 4 ==> spec_be_value(bytes) < 0x1_0000_0000,
        bytes.len() <= 5 ==> spec_be_value(bytes) < 0x100_0000_0000,
        bytes.len() <= 6 ==> spec_be_value(bytes) < 0x1_0000_0000_0000,
        bytes.len() <= 7 ==> spec_be_value(bytes) < 0x100_0000_0000_0000,
        spec_be_value(bytes) < 0x1_0000_0000_0000_0000,
    decreases bytes.len(),
{
    if bytes.len() > 0 {
        lemma_be_value_bound(bytes.drop_last());
    }
}

/// Computes the number whose bytes `bytes` are, most significant first.
fn be_value(bytes: &[u8]) -> (value: u64)
    requires
        bytes@.len() <= 8,
    ensures
        value == spec_be_value(bytes@),
{
    let mut value: u64 = 0;
    let mut i: usize = 0;
    while i < bytes.len()
        invariant
            i <= bytes@.len() <= 8,
            value == spec_be_value(bytes@.take(i as int)),
        decreases bytes@.len() - i,
    {
        proof {
            assert(bytes@.take(i + 1).drop_last() =~= bytes@.take(i as int));
            lemma_be_value_bound(bytes@.take(i as int));
            lemma_be_value_bound(bytes@.take(i + 1));
        }
        value = value * 256 + bytes[i] as u64;
        i += 1;
    }
    proof {
        assert(bytes@.take(i as int) =~= bytes@);
    }
    value
}

/// The identifier of the chip: from 1 to 256 bytes.
///
/// On the wire: a length field of one byte that holds the number of bytes
/// less one, then the bytes.
#[derive(Debug)]
pub struct Id {
    id: Vec<u8>,
}

impl View for Id {
    type V = Seq<u8>;

    closed spec fn view(&self) -> Seq<u8> {
        self.id@
    }
}

impl Id {
    #[verifier::type_invariant]
    spec fn counted(self) -> bool {
        1 <= self.id@.len() <= 256
    }

    /// Whether `bytes` are the whole of one answer.
    pub open spec fn spec_well_formed(bytes: Seq<u8>) -> bool {
        bytes.len() == spec_counted_len(bytes)
    }

    /// The wire form of the answer that holds the identifier `id`.
    pub open spec fn spec_wire(id: Seq<u8>) -> Seq<u8> {
        seq![(id.len() - 1) as u8] + id
    }

    /// Decodes the answer to the id command.
    ///
    /// The first byte holds the number of bytes of the identifier, less one;
    /// the bytes must hold just that many after it.
    pub fn decode(bytes: &[u8]) -> (answer: Result<Id, FrameError>)
        ensures
            Self::spec_well_formed(bytes@) ==> (answer matches Ok(id) && id@ == bytes@.skip(1)),
            !Self::spec_well_formed(bytes@) ==> answer == Err::<Id, FrameError>(
                FrameError::Length {
                    expected: spec_counted_len(bytes@) as usize,
                    found: bytes@.len() as usize,
                },
            ),
    {
        let expected: usize = if bytes.len() == 0 {
            2
        } else {
            bytes[0] as usize + 2
        };
        if bytes.len() != expected {
            return Err(FrameError::Length { expected, found: bytes.len() });
        }
        let mut id: Vec<u8> = Vec::new();
        let mut i: usize = 1;
        while i < bytes.len()
            invariant
                1 <= i <= bytes@.len(),
                id@ == bytes@.subrange(1, i as int),
            decreases bytes@.len() - i,
        {
            id.push(bytes[i]);
            proof {
                assert(id@ =~= bytes@.subrange(1, i + 1));
            }
            i += 1;
        }
        proof {
            assert(bytes@.subrange(1, i as int) =~= bytes@.skip(1));
        }
        Ok(Id { id })
    }

    /// Gives the bytes of the identifier up: from 1 to 256 of them.
    #[inline]
    pub fn into_id(self) -> (id: Vec<u8>)
        ensures
            id@ == self@,
            1 <= id@.len() <= 256,
    {
        proof {
            use_type_invariant(&self);
        }
        self.id
    }

    /// Returns the bytes of the identifier: from 1 to 256 of them.
    #[inline]
    pub fn id(&self) -> (id: &[u8])
        ensures
            id@ == self@,
            1 <= id@.len() <= 256,
    {
        proof {
            use_type_invariant(self);
        }
        self.id.as_slice()
    }

    /// Returns the bytes of the identifier: from 1 to 256 of them.
    #[inline]
    pub fn as_slice(&self) -> (id: &[u8])
        ensures
            id@ == self@,
            1 <= id@.len() <= 256,
    {
        proof {
            use_type_invariant(self);
        }
        self.id.as_slice()
    }
}

impl Id {
    /// Returns the identifier in an array of `N` bytes, behind as many zero
    /// bytes as fill the array. The identifier must not be longer than the
    /// array.
    pub fn as_array<const N: usize>(&self) -> (array: [u8; N])
        requires
            self@.len() <= N,
        ensures
            array@ == spec_padded(self@, N as nat),
    {
        let mut array: [u8; N] = [0u8;N];
        let offset = N - self.id.len();
        let mut i: usize = 0;
        while i < self.id.len()
            invariant
                i <= self.id@.len(),
                offset + self.id@.len() == N,
                forall|k: int| 0 <= k < offset + i ==> array@[k] == spec_padded(self@, N as nat)[k],
                forall|k: int| offset + i <= k < N ==> array@[k] == 0u8,
            decreases self.id@.len() - i,
        {
            array[offset + i] = self.id[i];
            i += 1;
        }
        assert(array@ =~= spec_padded(self@, N as nat));
        array
    }

    /// Reads the identifier as a number, most significant byte first. The
    /// identifier must not be longer than two bytes.
    #[inline]
    pub fn as_u16(&self) -> (value: u16)
        requires
            self@.len() <= 2,
        ensures
            value == spec_be_value(self@),
    {
        proof {
            lemma_be_value_bound(self@);
        }
        be_value(self.id.as_slice()) as u16
    }

    /// Reads the identifier as a number, most significant byte first. The
    /// identifier must not be longer than four bytes.
    #[inline]
    pub fn as_u32(&self) -> (value: u32)
        requires
            self@.len() <= 4,
        ensures
            value == spec_be_value(self@),
    {
        proof {
            lemma_be_value_bound(self@);
        }
        be_value(self.id.as_slice()) as u32
    }

    /// Reads the identifier as a number, most significant byte first. The
    /// identifier must not be longer than eight bytes.
    #[inline]
    pub fn as_u64(&self) -> (value: u64)
        requires
            self@.len() <= 8,
        ensures
            value == spec_be_value(self@),
    {
        be_value(self.id.as_slice())
    }
}

impl Clone for Id {
    fn clone(&self) -> (copy: Self)
        ensures
            copy@ == self@,
    {
        proof {
            use_type_invariant(self);
        }
        let id = self.id.clone();
        assert(id@ =~= self.id@);
        Id { id }
    }
}

/// An identifier is decoded from its wire form: the wire form of 1 to 256
/// bytes is well formed, and holds them.
pub proof fn lemma_id_round_trip(id: Seq<u8>)
    requires
        1 <= id.len() <= 256,
    ensures
        Id::spec_well_formed(Id::spec_wire(id)),
        Id::spec_wire(id).skip(1) == id,
{
    assert(Id::spec_wire(id).skip(1) =~= id);
}

} // verus!
