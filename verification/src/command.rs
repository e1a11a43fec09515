//! The commands that the host sends, each with its wire form.

use crate::protocol::Address;
use crate::protocol::Encode;
use crate::protocol::Opcode;
use crate::protocol::Size;
use crate::slice::Data;
use crate::slice::ExtendedPage;
use crate::slice::ExtendedPageNo;
use crate::slice::Page;
use crate::slice::PageNo;
use crate::slice::Slice;
use vstd::prelude::*;

verus! {

/// The byte that opens a session: the target measures the baudrate on it.
pub const SYNCHRONIZE: u8 = 0x7f;

/// What an erase command erases.
#[derive(Debug, Clone)]
pub enum Erase {
    /// All of the flash memory.
    Global,
    /// The pages named.
    Specific(Slice<Page>),
}

impl Erase {
    /// Whether all of the memory is erased.
    pub fn is_global(self) -> (global: bool)
        ensures
            global == (self is Global),
    {
        matches!(self, Erase::Global)
    }

    /// Whether the pages named are erased.
    pub fn is_specific(self) -> (specific: bool)
        ensures
            specific == (self is Specific),
    {
        matches!(self, Erase::Specific(..))
    }

    /// Returns the pages named, if the erase names pages.
    pub fn pages(&self) -> (pages: Option<&[PageNo]>)
        ensures
            match *self {
                Erase::Global => pages is None,
                Erase::Specific(slice) => pages matches Some(items) && items@ == slice@,
            },
    {
        match self {
            Erase::Global => None,
            Erase::Specific(slice) => Some(slice.as_slice()),
        }
    }
}

impl Encode for Erase {
    /// `ff 00` for all of the memory; else the run of page numbers.
    open spec fn wire(&self) -> Seq<u8> {
        match *self {
            Erase::Global => seq![0xffu8, 0x00u8],
            Erase::Specific(slice) => slice.wire(),
        }
    }

    fn encode(&self) -> (bytes: Vec<u8>) {
        match self {
            Erase::Global => {
                let mut bytes = Vec::new();
                bytes.push(0xffu8);
                bytes.push(0x00u8);
                assert(bytes@ =~= self.wire());
                bytes
            },
            Erase::Specific(slice) => slice.encode(),
        }
    }
}

/// What an extended erase command erases.
#[derive(Debug, Clone)]
pub enum ExtendedErase {
    /// All of the flash memory.
    Global,
    /// The first bank.
    Bank1,
    /// The second bank.
    Bank2,
    /// The pages named.
    Specific(Slice<ExtendedPage>),
}

impl ExtendedErase {
    /// Whether all of the memory is erased.
    pub fn is_global(self) -> (global: bool)
        ensures
            global == (self is Global),
    {
        matches!(self, ExtendedErase::Global)
    }

    /// Whether the first bank is erased.
    pub fn is_bank1(self) -> (bank1: bool)
        ensures
            bank1 == (self is Bank1),
    {
        matches!(self, ExtendedErase::Bank1)
    }

    /// Whether the second bank is erased.
    pub fn is_bank2(self) -> (bank2: bool)
        ensures
            bank2 == (self is Bank2),
    {
        matches!(self, ExtendedErase::Bank2)
    }

    /// Whether the pages named are erased.
    pub fn is_specific(self) -> (specific: bool)
        ensures
            specific == (self is Specific),
    {
        matches!(self, ExtendedErase::Specific(..))
    }

    /// Returns the pages named, if the erase names pages.
    pub fn pages(&self) -> (pages: Option<&[ExtendedPageNo]>)
        ensures
            match *self {
                ExtendedErase::Specific(slice) => pages matches Some(items) && items@ == slice@,
                _ => pages is None,
            },
    {
        match self {
            ExtendedErase::Global => None,
            ExtendedErase::Bank1 => None,
            ExtendedErase::Bank2 => None,
            ExtendedErase::Specific(slice) => Some(slice.as_slice()),
        }
    }
}

impl Encode for ExtendedErase {
    /// `ff ff 00` for all of the memory, `ff fe 01` for the first bank,
    /// `ff fd 02` for the second; else the run of page numbers.
    open spec fn wire(&self) -> Seq<u8> {
        match *self {
            ExtendedErase::Global => seq![0xffu8, 0xffu8, 0x00u8],
            ExtendedErase::Bank1 => seq![0xffu8, 0xfeu8, 0x01u8],
            ExtendedErase::Bank2 => seq![0xffu8, 0xfdu8, 0x02u8],
            ExtendedErase::Specific(slice) => slice.wire(),
        }
    }

    fn encode(&self) -> (bytes: Vec<u8>) {
        match self {
            ExtendedErase::Global => {
                let mut bytes = Vec::new();
                bytes.push(0xffu8);
                bytes.push(0xffu8);
                bytes.push(0x00u8);
                assert(bytes@ =~= self.wire());
                bytes
            },
            ExtendedErase::Bank1 => {
                let mut bytes = Vec::new();
                bytes.push(0xffu8);
                bytes.push(0xfeu8);
                bytes.push(0x01u8);
                assert(bytes@ =~= self.wire());
                bytes
            },
            ExtendedErase::Bank2 => {
                let mut bytes = Vec::new();
                bytes.push(0xffu8);
                bytes.push(0xfdu8);
                bytes.push(0x02u8);
                assert(bytes@ =~= self.wire());
                bytes
            },
            ExtendedErase::Specific(slice) => slice.encode(),
        }
    }
}

/// A command of the host.
#[derive(Debug, Clone)]
pub enum Command {
    /// Asks for the version and the operations that the target supports.
    Get(),
    /// Asks for the version and the option bytes.
    Version(),
    /// Asks for the identifier of the chip.
    Id(),
    /// Reads `size` bytes of memory from `address` on.
    Read { address: Address, size: Size },
    /// Jumps to the address.
    Go(Address),
    /// Writes `data` to memory from `address` on.
    Write { address: Address, data: Data },
    /// Erases pages.
    Erase(Erase),
    /// Erases pages that are numbered with two bytes.
    ExtendedErase(ExtendedErase),
    /// Protects sectors against writing.
    WriteProtect(),
    /// Lifts the protection against writing.
    WriteUnprotect(),
    /// Protects the memory against reading.
    ReadProtect(),
    /// Lifts the protection against reading.
    ReadUnprotect(),
    /// Opens a session: one byte, with no operation code and no check byte.
    Synchronize,
}

impl Command {
    /// The operation code that the command starts with; the opening of a
    /// session has none.
    pub open spec fn spec_opcode(self) -> Option<Opcode> {
        match self {
            Command::Get() => Some(Opcode::GET()),
            Command::Version() => Some(Opcode::GET_VERSION()),
            Command::Id() => Some(Opcode::GET_ID()),
            Command::Read { .. } => Some(Opcode::READ()),
            Command::Go(_) => Some(Opcode::GO()),
            Command::Write { .. } => Some(Opcode::WRITE()),
            Command::Erase(_) => Some(Opcode::ERASE()),
            Command::ExtendedErase(_) => Some(Opcode::EXTENDED_ERASE()),
            Command::WriteProtect() => Some(Opcode::WRITE_PROTECT()),
            Command::WriteUnprotect() => Some(Opcode::WRITE_UNPROTECT()),
            Command::ReadProtect() => Some(Opcode::READ_PROTECT()),
            Command::ReadUnprotect() => Some(Opcode::READ_UNPROTECT()),
            Command::Synchronize => None,
        }
    }

    /// The fields that follow the operation code, each in its wire form, in
    /// the order in which they are sent.
    pub open spec fn spec_fields(self) -> Seq<Seq<u8>> {
        match self {
            Command::Read { address, size } => seq![address.wire(), size.wire()],
            Command::Go(address) => seq![address.wire()],
            Command::Write { address, data } => seq![address.wire(), data.wire()],
            Command::Erase(erase) => seq![erase.wire()],
            Command::ExtendedErase(erase) => seq![erase.wire()],
            _ => Seq::empty(),
        }
    }

    /// The pieces in which the command is sent where the target acknowledges
    /// each piece: the operation code, the address, and the size or the data
    /// of a read or a write are a piece each, and so are the operation code
    /// and the pages of an erase; every other command is one piece.
    pub open spec fn spec_exchanges(self) -> Seq<Seq<u8>> {
        match self {
            Command::Read { .. } | Command::Write { .. } | Command::Erase(_)
            | Command::ExtendedErase(_) => seq![self.spec_opcode().unwrap().wire()]
                + self.spec_fields(),
            _ => seq![self.wire()],
        }
    }

    /// Returns the operation code that the command starts with.
    pub fn opcode(&self) -> (opcode: Option<Opcode>)
        ensures
            opcode == self.spec_opcode(),
    {
        match self {
            Command::Get() => Some(Opcode::GET()),
            Command::Version() => Some(Opcode::GET_VERSION()),
            Command::Id() => Some(Opcode::GET_ID()),
            Command::Read { .. } => Some(Opcode::READ()),
            Command::Go(_) => Some(Opcode::GO()),
            Command::Write { .. } => Some(Opcode::WRITE()),
            Command::Erase(_) => Some(Opcode::ERASE()),
            Command::ExtendedErase(_) => Some(Opcode::EXTENDED_ERASE()),
            Command::WriteProtect() => Some(Opcode::WRITE_PROTECT()),
            Command::WriteUnprotect() => Some(Opcode::WRITE_UNPROTECT()),
            Command::ReadProtect() => Some(Opcode::READ_PROTECT()),
            Command::ReadUnprotect() => Some(Opcode::READ_UNPROTECT()),
            Command::Synchronize => None,
        }
    }

    /// Returns the fields that follow the operation code, each encoded.
    pub fn fields(&self) -> (fields: Vec<Vec<u8>>)
        ensures
            fields@.len() == self.spec_fields().len(),
            forall|i: int| 0 <= i < fields@.len() ==> (#[trigger] fields@[i])@ == self.spec_fields()[i],
    {
        let mut fields: Vec<Vec<u8>> = Vec::new();
        match self {
            Command::Read { address, size } => {
                fields.push(address.encode());
                fields.push(size.encode());
            },
            Command::Go(address) => {
                fields.push(address.encode());
            },
            Command::Write { address, data } => {
                fields.push(address.encode());
                fields.push(data.encode());
            },
            Command::Erase(erase) => {
                fields.push(erase.encode());
            },
            Command::ExtendedErase(erase) => {
                fields.push(erase.encode());
            },
            _ => {},
        }
        fields
    }

    /// Returns the pieces in which the command is sent where the target
    /// acknowledges each piece.
    pub fn exchanges(&self) -> (pieces: Vec<Vec<u8>>)
        ensures
            pieces@.len() == self.spec_exchanges().len(),
            forall|i: int|
                0 <= i < pieces@.len() ==> (#[trigger] pieces@[i])@ == self.spec_exchanges()[i],
    {
        match self {
            Command::Read { .. } | Command::Write { .. } | Command::Erase(_)
            | Command::ExtendedErase(_) => {
                let mut pieces: Vec<Vec<u8>> = Vec::new();
                match self.opcode() {
                    Some(opcode) => pieces.push(opcode.encode()),
                    None => {},
                }
                let mut fields = self.fields();
                let ghost head = pieces@;
                let ghost tail = fields@;
                pieces.append(&mut fields);
                assert(pieces@ =~= head + tail);
                pieces
            },
            _ => {
                let mut pieces: Vec<Vec<u8>> = Vec::new();
                pieces.push(self.encode());
                pieces
            },
        }
    }
}

/// The fields of `fields`, one after the other.
pub open spec fn spec_concat(fields: Seq<Seq<u8>>) -> Seq<u8>
    decreases fields.len(),
{
    if fields.len() == 0 {
        Seq::empty()
    } else {
        spec_concat(fields.drop_last()) + fields.last()
    }
}

/// The pieces in which a command is sent are its encoding, cut up: one after
/// the other they make the wire form of the command.
pub proof fn lemma_pieces_make_the_command(command: Command)
    ensures
        spec_concat(command.spec_exchanges()) == command.wire(),
{
    let pieces = command.spec_exchanges();
    let fields = command.spec_fields();
    let empty = Seq::<Seq<u8>>::empty();
    assert(spec_concat(empty) =~= Seq::<u8>::empty());
    if pieces.len() == 1 {
        assert(pieces.drop_last() =~= empty);
        assert(spec_concat(pieces) =~= pieces[0]);
        if fields.len() == 0 {
            assert(spec_concat(fields) =~= Seq::<u8>::empty());
            assert(pieces[0] =~= command.wire());
        }
    } else {
        let opcode = command.spec_opcode().unwrap().wire();
        if fields.len() == 1 {
            assert(fields.drop_last() =~= empty);
            assert(pieces.drop_last() =~= seq![opcode]);
            assert(seq![opcode].drop_last() =~= empty);
            assert(spec_concat(seq![opcode]) =~= opcode);
            assert(spec_concat(fields) =~= fields[0]);
            assert(spec_concat(pieces) =~= opcode + fields[0]);
        } else {
            assert(fields.len() == 2);
            assert(fields.drop_last() =~= seq![fields[0]]);
            assert(seq![fields[0]].drop_last() =~= empty);
            assert(spec_concat(seq![fields[0]]) =~= fields[0]);
            assert(spec_concat(fields) =~= fields[0] + fields[1]);
            assert(pieces.drop_last() =~= seq![opcode, fields[0]]);
            assert(seq![opcode, fields[0]].drop_last() =~= seq![opcode]);
            assert(seq![opcode].drop_last() =~= empty);
            assert(spec_concat(seq![opcode]) =~= opcode);
            assert(spec_concat(seq![opcode, fields[0]]) =~= opcode + fields[0]);
            assert(spec_concat(pieces) =~= opcode + fields[0] + fields[1]);
            assert(opcode + (fields[0] + fields[1]) =~= opcode + fields[0] + fields[1]);
        }
    }
}

impl Encode for Command {
    /// The operation code and the fields, one after the other; for the opening
    /// of a session, the one byte `7f`.
    open spec fn wire(&self) -> Seq<u8> {
        match self.spec_opcode() {
            Some(opcode) => opcode.wire() + spec_concat(self.spec_fields()),
            None => seq![SYNCHRONIZE],
        }
    }

    fn encode(&self) -> (bytes: Vec<u8>) {
        match self.opcode() {
            Some(opcode) => {
                let mut bytes = opcode.encode();
                let fields = self.fields();
                let mut i: usize = 0;
                while i < fields.len()
                    invariant
                        i <= fields@.len(),
                        fields@.len() == self.spec_fields().len(),
                        forall|k: int|
                            0 <= k < fields@.len() ==> (#[trigger] fields@[k])@
                                == self.spec_fields()[k],
                        bytes@ == opcode.wire() + spec_concat(self.spec_fields().take(i as int)),
                    decreases fields@.len() - i,
                {
                    proof {
                        assert(self.spec_fields().take(i + 1).drop_last() =~= self.spec_fields().take(
                            i as int,
                        ));
                    }
                    bytes.extend_from_slice(fields[i].as_slice());
                    i += 1;
                }
                proof {
                    assert(self.spec_fields().take(i as int) =~= self.spec_fields());
                }
                bytes
            },
            None => {
                let mut bytes = Vec::new();
                bytes.push(SYNCHRONIZE);
                assert(bytes@ =~= self.wire());
                bytes
            },
        }
    }
}

} // verus!
