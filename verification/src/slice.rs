//! Runs of items of bounded length, as the commands of variable size carry
//! them: a length field, the items, and the exclusive or of the items' bytes.

use crate::checksum;
use crate::protocol::Encode;
use crate::protocol::Error;
use std::ops::RangeInclusive;
use vstd::prelude::*;
use vstd::std_specs::convert::TryFromSpecImpl;

verus! {

/// The number of a page of flash memory.
pub type PageNo = u8;

/// The number of a page of flash memory, for targets with more than 256 pages.
pub type ExtendedPageNo = u16;

/// The number of a sector of flash memory.
pub type SectorNo = u8;

/// A kind of item that a [`Slice`] holds: how one item and the length of a run
/// are written, and how long a run may be.
pub trait SliceItem: Sized {
    /// The value of one item.
    type Repr: Copy;

    /// The least number of items in a run.
    spec fn spec_lower() -> usize;

    /// The greatest number of items in a run.
    spec fn spec_upper() -> usize;

    /// The wire form of one item.
    spec fn spec_item(item: Self::Repr) -> Seq<u8>;

    /// The wire form of the length field that holds `shifted`: the number of
    /// items less the least number.
    spec fn spec_size(shifted: usize) -> Seq<u8>;

    /// Returns the numbers of items that a run may have.
    fn size_range() -> (range: RangeInclusive<usize>)
        ensures
            range@.start == Self::spec_lower(),
            range@.end == Self::spec_upper(),
            !range@.exhausted,
            Self::spec_lower() <= Self::spec_upper(),
    ;

    /// Appends the length field that holds `shifted` to `out`.
    fn put_size(shifted: usize, out: &mut Vec<u8>)
        requires
            shifted <= Self::spec_upper() - Self::spec_lower(),
        ensures
            final(out)@ == old(out)@ + Self::spec_size(shifted),
    ;

    /// Appends the wire form of `item` to `out`.
    fn put_item(item: Self::Repr, out: &mut Vec<u8>)
        ensures
            final(out)@ == old(out)@ + Self::spec_item(item),
    ;
}

/// The two bytes of `value`, most significant first.
pub open spec fn spec_be16(value: u16) -> Seq<u8> {
    seq![(value >> 8) as u8, (value & 0xff) as u8]
}

/// Appends the two bytes of `value` to `out`, most significant first.
pub fn put_be16(value: u16, out: &mut Vec<u8>)
    ensures
        final(out)@ == old(out)@ + spec_be16(value),
{
    assert(value >> 8 <= 0xff) by (bit_vector);
    assert(value & 0xff <= 0xff) by (bit_vector);
    out.push((value >> 8) as u8);
    out.push((value & 0xff) as u8);
    assert(out@ =~= old(out)@ + spec_be16(value));
}

/// Bytes of memory: from 1 to 256 in a run, with a length field of one byte.
#[derive(Debug, Clone, Copy, PartialEq, Eq, PartialOrd, Ord, Hash)]
pub struct Byte;

/// Page numbers: from 1 to 256 in a run, with a length field of one byte.
#[derive(Debug, Clone, Copy, PartialEq, Eq, PartialOrd, Ord, Hash)]
pub struct Page;

/// Extended page numbers of two bytes each: from 1 to 0xff00 in a run, with a
/// length field of two bytes.
#[derive(Debug, Clone, Copy, PartialEq, Eq, PartialOrd, Ord, Hash)]
pub struct ExtendedPage;

/// Sector numbers: from 1 to 256 in a run, with a length field of one byte.
#[derive(Debug, Clone, Copy, PartialEq, Eq, PartialOrd, Ord, Hash)]
pub struct Sector;

impl SliceItem for Byte {
    type Repr = u8;

    open spec fn spec_lower() -> usize {
        1
    }

    open spec fn spec_upper() -> usize {
        256
    }

    open spec fn spec_item(item: u8) -> Seq<u8> {
        seq![item]
    }

    open spec fn spec_size(shifted: usize) -> Seq<u8> {
        seq![shifted as u8]
    }

    fn size_range() -> (range: RangeInclusive<usize>) {
        RangeInclusive::new(1, 256)
    }

    fn put_size(shifted: usize, out: &mut Vec<u8>) {
        out.push(shifted as u8);
        assert(out@ =~= old(out)@ + Self::spec_size(shifted));
    }

    fn put_item(item: u8, out: &mut Vec<u8>) {
        out.push(item);
        assert(out@ =~= old(out)@ + Self::spec_item(item));
    }
}

impl SliceItem for Page {
    type Repr = PageNo;

    open spec fn spec_lower() -> usize {
        1
    }

    open spec fn spec_upper() -> usize {
        256
    }

    open spec fn spec_item(item: PageNo) -> Seq<u8> {
        seq![item]
    }

    open spec fn spec_size(shifted: usize) -> Seq<u8> {
        seq![shifted as u8]
    }

    fn size_range() -> (range: RangeInclusive<usize>) {
        RangeInclusive::new(1, 256)
    }

    fn put_size(shifted: usize, out: &mut Vec<u8>) {
        out.push(shifted as u8);
        assert(out@ =~= old(out)@ + Self::spec_size(shifted));
    }

    fn put_item(item: PageNo, out: &mut Vec<u8>) {
        out.push(item);
        assert(out@ =~= old(out)@ + Self::spec_item(item));
    }
}

impl SliceItem for ExtendedPage {
    type Repr = ExtendedPageNo;

    open spec fn spec_lower() -> usize {
        1
    }

    open spec fn spec_upper() -> usize {
        0xff00
    }

    open spec fn spec_item(item: ExtendedPageNo) -> Seq<u8> {
        spec_be16(item)
    }

    open spec fn spec_size(shifted: usize) -> Seq<u8> {
        spec_be16(shifted as u16)
    }

    fn size_range() -> (range: RangeInclusive<usize>) {
        RangeInclusive::new(1, 0xff00)
    }

    fn put_size(shifted: usize, out: &mut Vec<u8>) {
        put_be16(shifted as u16, out);
    }

    fn put_item(item: ExtendedPageNo, out: &mut Vec<u8>) {
        put_be16(item, out);
    }
}

impl SliceItem for Sector {
    type Repr = SectorNo;

    open spec fn spec_lower() -> usize {
        1
    }

    open spec fn spec_upper() -> usize {
        256
    }

    open spec fn spec_item(item: SectorNo) -> Seq<u8> {
        seq![item]
    }

    open spec fn spec_size(shifted: usize) -> Seq<u8> {
        seq![shifted as u8]
    }

    fn size_range() -> (range: RangeInclusive<usize>) {
        RangeInclusive::new(1, 256)
    }

    fn put_size(shifted: usize, out: &mut Vec<u8>) {
        out.push(shifted as u8);
        assert(out@ =~= old(out)@ + Self::spec_size(shifted));
    }

    fn put_item(item: SectorNo, out: &mut Vec<u8>) {
        out.push(item);
        assert(out@ =~= old(out)@ + Self::spec_item(item));
    }
}

/// The wire form of `items`, one after the other.
pub open spec fn spec_payload<T: SliceItem>(items: Seq<T::Repr>) -> Seq<u8>
    decreases items.len(),
{
    if items.len() == 0 {
        Seq::empty()
    } else {
        spec_payload::<T>(items.drop_last()) + T::spec_item(items.last())
    }
}

/// The wire form of a run of `items`: the length field, which holds the number
/// of items less the least number; the items; and the exclusive or of the
/// items' bytes.
pub open spec fn spec_wire<T: SliceItem>(items: Seq<T::Repr>) -> Seq<u8> {
    T::spec_size((items.len() - T::spec_lower()) as usize) + spec_payload::<T>(items).push(
        checksum::spec_iter(spec_payload::<T>(items)),
    )
}

/// The wire form of a run of items of any kind starts with the length field,
/// which holds the number of items less the least number of the kind, and
/// ends with the exclusive or of the bytes between.
pub proof fn lemma_wire_parts<T: SliceItem>(items: Seq<T::Repr>)
    ensures
        ({
            let size = T::spec_size((items.len() - T::spec_lower()) as usize);
            let wire = spec_wire::<T>(items);
            &&& wire.len() == size.len() + spec_payload::<T>(items).len() + 1
            &&& wire.take(size.len() as int) == size
            &&& wire.subrange(size.len() as int, wire.len() - 1) == spec_payload::<T>(items)
            &&& wire.last() == checksum::spec_iter(spec_payload::<T>(items))
        }),
{
    let size = T::spec_size((items.len() - T::spec_lower()) as usize);
    let wire = spec_wire::<T>(items);
    assert(wire.take(size.len() as int) =~= size);
    assert(wire.subrange(size.len() as int, wire.len() - 1) =~= spec_payload::<T>(items));
}

/// The bytes of a run of items of one byte each are the items.
pub proof fn lemma_payload_of_bytes(items: Seq<u8>)
    ensures
        spec_payload::<Byte>(items) == items,
        spec_payload::<Page>(items) == items,
        spec_payload::<Sector>(items) == items,
    decreases items.len(),
{
    if items.len() > 0 {
        lemma_payload_of_bytes(items.drop_last());
        assert(items.drop_last() + seq![items.last()] =~= items);
    } else {
        assert(items =~= Seq::<u8>::empty());
    }
}

/// The wire form of a run of bytes: a length field of one byte that holds
/// the number of bytes less one, the bytes, and their exclusive or.
pub proof fn lemma_wire_of_bytes(items: Seq<u8>)
    requires
        spec_fits::<Byte>(items.len()),
    ensures
        spec_wire::<Byte>(items) == seq![(items.len() - 1) as u8] + items + seq![
            checksum::spec_iter(items),
        ],
        spec_wire::<Byte>(items).len() == items.len() + 2,
        spec_wire::<Byte>(items)[0] == items.len() - 1,
{
    lemma_payload_of_bytes(items);
    assert(spec_wire::<Byte>(items) =~= seq![(items.len() - 1) as u8] + items + seq![
        checksum::spec_iter(items),
    ]);
}

/// The wire form of a run of extended page numbers starts with a length
/// field of two bytes that holds the number of pages less one, most
/// significant byte first.
pub proof fn lemma_wire_of_extended_pages(items: Seq<ExtendedPageNo>)
    requires
        spec_fits::<ExtendedPage>(items.len()),
    ensures
        spec_wire::<ExtendedPage>(items).take(2) == spec_be16((items.len() - 1) as u16),
        spec_wire::<ExtendedPage>(items).last() == checksum::spec_iter(
            spec_payload::<ExtendedPage>(items),
        ),
{
    assert(spec_wire::<ExtendedPage>(items).take(2) =~= spec_be16((items.len() - 1) as u16));
}

/// Whether a run of `len` items of kind `T` can be written.
pub open spec fn spec_fits<T: SliceItem>(len: nat) -> bool {
    T::spec_lower() <= len <= T::spec_upper()
}

/// A run of items of kind `T`, whose length the wire format of that kind can
/// carry.
#[derive(Debug)]
pub struct Slice<T: SliceItem> {
    inner: Vec<T::Repr>,
}

/// Bytes of memory, as the write command carries them.
pub type Data = Slice<Byte>;

/// Page numbers, as the erase command carries them.
pub type PageNos = Slice<Page>;

/// Page numbers, as the extended erase command carries them.
pub type ExtendedPageNos = Slice<ExtendedPage>;

/// Sector numbers, as the protection commands carry them.
pub type SectorNos = Slice<Sector>;

impl<T: SliceItem> View for Slice<T> {
    type V = Seq<T::Repr>;

    closed spec fn view(&self) -> Seq<T::Repr> {
        self.inner@
    }
}

impl<T: SliceItem> Slice<T> {
    #[verifier::type_invariant]
    spec fn within_range(self) -> bool {
        spec_fits::<T>(self.inner@.len())
    }

    /// Returns the number of items, which lies in the range of their kind.
    pub fn len(&self) -> (len: usize)
        ensures
            len == self@.len(),
            spec_fits::<T>(self@.len()),
    {
        proof {
            use_type_invariant(self);
        }
        self.inner.len()
    }

    /// Gives the items up.
    pub fn into_inner(self) -> (items: Vec<T::Repr>)
        ensures
            items@ == self@,
            spec_fits::<T>(items@.len()),
    {
        proof {
            use_type_invariant(&self);
        }
        self.inner
    }

    /// Returns the items.
    pub fn as_slice(&self) -> (items: &[T::Repr])
        ensures
            items@ == self@,
            spec_fits::<T>(items@.len()),
    {
        proof {
            use_type_invariant(self);
        }
        self.inner.as_slice()
    }

    /// Makes a run of `items`, where their number lies in the range of their
    /// kind.
    pub fn new(items: Vec<T::Repr>) -> (made: Result<Self, Error>)
        ensures
            spec_fits::<T>(items@.len()) ==> (made matches Ok(slice) && slice@ == items@),
            !spec_fits::<T>(items@.len()) ==> (made matches Err(error) && error.exceeded(
                items@.len() as usize,
                T::spec_lower(),
                T::spec_upper(),
            )),
    {
        let range = T::size_range();
        let len = items.len();
        if *range.start() <= len && len <= *range.end() {
            Ok(Slice { inner: items })
        } else {
            Err(Error::Exceeded(len, range))
        }
    }

}

impl<T: SliceItem> Encode for Slice<T> {
    /// The length field, the items, the check byte.
    open spec fn wire(&self) -> Seq<u8> {
        spec_wire::<T>(self@)
    }

    fn encode(&self) -> (bytes: Vec<u8>) {
        proof {
            use_type_invariant(self);
        }
        let range = T::size_range();
        let mut bytes: Vec<u8> = Vec::new();
        T::put_size(self.inner.len() - *range.start(), &mut bytes);
        let ghost head = bytes@;
        let mut payload: Vec<u8> = Vec::new();
        let mut i: usize = 0;
        while i < self.inner.len()
            invariant
                i <= self.inner@.len(),
                payload@ == spec_payload::<T>(self.inner@.take(i as int)),
            decreases self.inner@.len() - i,
        {
            proof {
                assert(self.inner@.take(i + 1).drop_last() =~= self.inner@.take(i as int));
            }
            T::put_item(self.inner[i], &mut payload);
            i += 1;
        }
        proof {
            assert(self.inner@.take(i as int) =~= self.inner@);
        }
        let sum = checksum::iter(payload.as_slice());
        bytes.extend_from_slice(payload.as_slice());
        bytes.push(sum);
        proof {
            assert(bytes@ =~= head + spec_payload::<T>(self@).push(sum));
        }
        bytes
    }
}

impl<T: SliceItem> Clone for Slice<T> {
    fn clone(&self) -> (copy: Self)
        ensures
            copy@ == self@,
    {
        proof {
            use_type_invariant(self);
        }
        let mut items: Vec<T::Repr> = Vec::new();
        let mut i: usize = 0;
        while i < self.inner.len()
            invariant
                i <= self.inner@.len(),
                items@ == self.inner@.take(i as int),
            decreases self.inner@.len() - i,
        {
            items.push(self.inner[i]);
            proof {
                assert(items@ =~= self.inner@.take(i + 1));
            }
            i += 1;
        }
        proof {
            assert(self.inner@.take(i as int) =~= self.inner@);
        }
        Slice { inner: items }
    }
}

impl<T: SliceItem> TryFromSpecImpl<Vec<T::Repr>> for Slice<T> {
    /// The error holds a range of std, which contracts know by its view alone:
    /// what `try_from` returns is stated on `try_from` itself.
    open spec fn obeys_try_from_spec() -> bool {
        false
    }

    open spec fn try_from_spec(items: Vec<T::Repr>) -> Result<Self, Error> {
        arbitrary()
    }
}

impl<T: SliceItem> TryFrom<Vec<T::Repr>> for Slice<T> {
    type Error = Error;

    /// Makes a run of `items`, where their number lies in the range of their
    /// kind.
    fn try_from(items: Vec<T::Repr>) -> (made: Result<Self, Error>)
        ensures
            spec_fits::<T>(items@.len()) ==> (made matches Ok(slice) && slice@ == items@),
            !spec_fits::<T>(items@.len()) ==> (made matches Err(error) && error.exceeded(
                items@.len() as usize,
                T::spec_lower(),
                T::spec_upper(),
            )),
    {
        Slice::new(items)
    }
}

impl<'a, T: SliceItem> TryFromSpecImpl<&'a [T::Repr]> for Slice<T> {
    /// The error holds a range of std, which contracts know by its view alone:
    /// what `try_from` returns is stated on `try_from` itself.
    open spec fn obeys_try_from_spec() -> bool {
        false
    }

    open spec fn try_from_spec(items: &'a [T::Repr]) -> Result<Self, Error> {
        arbitrary()
    }
}

impl<'a, T: SliceItem> TryFrom<&'a [T::Repr]> for Slice<T> {
    type Error = Error;

    /// Makes a run of a copy of `items`, where their number lies in the range
    /// of their kind.
    fn try_from(items: &'a [T::Repr]) -> (made: Result<Self, Error>)
        ensures
            spec_fits::<T>(items@.len()) ==> (made matches Ok(slice) && slice@ == items@),
            !spec_fits::<T>(items@.len()) ==> (made matches Err(error) && error.exceeded(
                items@.len() as usize,
                T::spec_lower(),
                T::spec_upper(),
            )),
    {
        let mut copy: Vec<T::Repr> = Vec::new();
        let mut i: usize = 0;
        while i < items.len()
            invariant
                i <= items@.len(),
                copy@ == items@.take(i as int),
            decreases items@.len() - i,
        {
            copy.push(items[i]);
            proof {
                assert(copy@ =~= items@.take(i + 1));
            }
            i += 1;
        }
        proof {
            assert(items@.take(i as int) =~= items@);
        }
        Slice::new(copy)
    }
}

} // verus!
