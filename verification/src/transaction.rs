//! Cutting a region of memory into transfers, and counting flash pages.

use crate::error::{agrees, Error, ErrorView};
use vstd::arithmetic::div_mod::{lemma_basic_div, lemma_div_plus_one};
use vstd::prelude::*;

verus! {

/// Size of a flash page, in bytes.
pub const PAGE_SIZE: u32 = 0x1_0000;

/// First address of the flash region whose pages can be erased.
pub const FLASH_FIRST: u32 = 0x0801_0000;

/// Last address at which an erase may start.
pub const FLASH_LAST: u32 = 0x0801_FFFE;

/// The longest region whose page count fits the counter.
pub const MAX_PAGED_LENGTH: u32 = 0xFFFF_0000;

/// The number of pages that a region of `length` bytes touches: the whole
/// pages, and one more for a rest.
pub open spec fn page_count(length: u32) -> int {
    length / PAGE_SIZE + if length % PAGE_SIZE != 0 { 1int } else { 0int }
}

/// The outcome of counting the pages to erase.
pub open spec fn spec_calculate_pages(address: u32, length: u32) -> Result<u16, ErrorView> {
    if length == 0 {
        Err(ErrorView::Argument("Length must be > 0"@))
    } else if FLASH_FIRST <= address <= FLASH_LAST {
        Ok(page_count(length) as u16)
    } else {
        Err(ErrorView::Address(address))
    }
}

/// Counts the pages to erase for a region that starts at `address`. A
/// length of 0 is an `Argument` error, a start outside the flash region an
/// `Address` error.
pub fn calculate_pages(address: u32, length: u32) -> (pages: Result<u16, Error>)
    requires
        length <= MAX_PAGED_LENGTH,
    ensures
        agrees(pages, spec_calculate_pages(address, length)),
        pages matches Ok(count) ==> count == page_count(length) && count >= 1,
{
    if length == 0 {
        return Err(Error::Argument("Length must be > 0".to_owned()));
    }
    if address >= FLASH_FIRST && address <= FLASH_LAST {
        let whole: u32 = length / PAGE_SIZE;
        let rest: u32 = if length % PAGE_SIZE != 0 { 1 } else { 0 };
        Ok((whole + rest) as u16)
    } else {
        Err(Error::Address(address))
    }
}

/// The quotient of `n` by `d`, rounded up.
pub open spec fn ceil_div(n: int, d: int) -> int
    recommends
        d > 0,
{
    (n + d - 1) / d
}

/// The page count is the length divided by the page size, rounded up: a
/// rest is counted once.
pub proof fn lemma_page_count_is_ceiling(length: u32)
    ensures
        page_count(length) == ceil_div(length as int, PAGE_SIZE as int),
        length > 0 ==> page_count(length) >= 1,
        page_count(length) * PAGE_SIZE >= length,
        page_count(length) <= 0x1_0000,
{
}

/// One transfer of a region: its transaction number, where it starts and
/// how many bytes it carries.
pub struct Chunk {
    pub transaction: int,
    pub address: int,
    pub size: int,
}

/// A cursor over a region of memory that is moved in transfers of at most
/// `xfer_max` bytes.
#[derive(Debug, Clone, Copy, PartialEq, Eq, Structural)]
pub struct Transaction {
    /// Number of the current transfer; the first is 2.
    pub transaction: u16,
    /// Where the current transfer starts.
    pub address: u32,
    /// Bytes that follow the current transfer.
    pub pending: u32,
    /// Size of the current transfer; 0 when nothing is left.
    pub xfer: u16,
    /// The most that one transfer carries.
    pub xfer_max: u16,
}

impl Transaction {
    /// The cursor with the next transfer size taken out of what is pending.
    pub open spec fn spec_set_xfer(self) -> Transaction {
        let size = if self.pending >= self.xfer_max {
            self.xfer_max as int
        } else {
            self.pending as int
        };
        Transaction {
            transaction: self.transaction,
            address: self.address,
            pending: (self.pending - size) as u32,
            xfer: size as u16,
            xfer_max: self.xfer_max,
        }
    }

    /// The cursor at the first transfer of a region.
    pub open spec fn spec_new(address: u32, pending: u32, xfer_max: u16) -> Transaction {
        (Transaction { transaction: 2, address, pending, xfer: xfer_max, xfer_max }).spec_set_xfer()
    }

    /// The cursor after one step.
    pub open spec fn spec_next(self) -> Transaction {
        if self.pending == 0 {
            Transaction {
                transaction: self.transaction,
                address: self.address,
                pending: 0,
                xfer: 0,
                xfer_max: self.xfer_max,
            }
        } else {
            let taken = self.spec_set_xfer();
            Transaction {
                transaction: (self.transaction + 1) as u16,
                address: (self.address + self.xfer) as u32,
                pending: taken.pending,
                xfer: taken.xfer,
                xfer_max: self.xfer_max,
            }
        }
    }

    /// Whether a step stays within the transaction counter and the address
    /// space.
    pub open spec fn can_advance(self) -> bool {
        self.pending > 0 ==> self.transaction < u16::MAX && self.address + self.xfer <= u32::MAX
    }

    /// The transfer that the cursor stands at.
    pub open spec fn current(self) -> Chunk {
        Chunk {
            transaction: self.transaction as int,
            address: self.address as int,
            size: self.xfer as int,
        }
    }

    /// The transfers from the current one to the last, in order.
    pub open spec fn transfers(self) -> Seq<Chunk>
        decreases self.pending, self.xfer,
    {
        if self.xfer == 0 {
            Seq::empty()
        } else {
            seq![self.current()] + self.spec_next().transfers()
        }
    }

    /// Whether the cursor is in a state that stepping from `new` reaches:
    /// only the last transfer may be short, and none is empty while bytes
    /// are pending.
    pub open spec fn regular(self) -> bool {
        &&& self.xfer_max > 0
        &&& self.xfer <= self.xfer_max
        &&& self.pending > 0 ==> self.xfer == self.xfer_max
    }

    /// Starts at the first transfer of the `pending` bytes at `address`:
    /// transaction 2, of `xfer_max` bytes or of all that is pending if that
    /// is less.
    pub fn new(address: u32, pending: u32, xfer_max: u16) -> (cursor: Transaction)
        ensures
            cursor == Transaction::spec_new(address, pending, xfer_max),
            cursor.transaction == 2,
            cursor.address == address,
            cursor.xfer_max == xfer_max,
            cursor.xfer == if pending >= xfer_max { xfer_max as int } else { pending as int },
            cursor.xfer + cursor.pending == pending,
    {
        let mut cursor = Transaction { transaction: 2, address, pending, xfer: xfer_max, xfer_max };
        cursor.set_xfer();
        cursor
    }

    /// Takes the size of the next transfer out of what is pending: `xfer_max`
    /// bytes, or all that is pending if that is less.
    pub fn set_xfer(&mut self)
        ensures
            *final(self) == old(self).spec_set_xfer(),
            final(self).xfer <= old(self).xfer_max,
            final(self).xfer + final(self).pending == old(self).pending,
    {
        if self.pending >= self.xfer_max as u32 {
            self.xfer = self.xfer_max;
            self.pending -= self.xfer_max as u32;
        } else {
            self.xfer = self.pending as u16;
            self.pending = 0;
        }
    }

    /// Steps to the next transfer. With nothing pending the region is
    /// exhausted: the size becomes 0 and the result is `None`. Otherwise the
    /// address moves past the transfer just made, the transaction number
    /// grows by one and the next size is taken out of what is pending.
    pub fn next(&mut self) -> (more: Option<()>)
        requires
            old(self).can_advance(),
        ensures
            *final(self) == old(self).spec_next(),
            more is Some <==> old(self).pending > 0,
            more is None ==> final(self).xfer == 0,
    {
        if self.pending == 0 {
            self.xfer = 0;
            return None;
        }
        let made: u32 = self.xfer as u32;
        self.set_xfer();
        self.address += made;
        self.transaction += 1;
        Some(())
    }
}

/// The bytes that a sequence of transfers carries in all.
pub open spec fn total_size(chunks: Seq<Chunk>) -> int
    decreases chunks.len(),
{
    if chunks.len() == 0 {
        0
    } else {
        chunks[0].size + total_size(chunks.drop_first())
    }
}

/// The `index`-th transfer of a region, counted from 0, written out: the
/// transaction numbers start at 2, every transfer but the last is full.
pub open spec fn chunk_at(address: int, length: int, xfer_max: int, index: int) -> Chunk {
    let rest = length - index * xfer_max;
    Chunk {
        transaction: 2 + index,
        address: address + index * xfer_max,
        size: if rest >= xfer_max { xfer_max } else { rest },
    }
}

proof fn lemma_ceil_div_step(n: int, d: int)
    requires
        d > 0,
    ensures
        ceil_div(n + d, d) == 1 + ceil_div(n, d),
        0 < n <= d ==> ceil_div(n, d) == 1,
        ceil_div(0, d) == 0,
{
    lemma_div_plus_one(n + d - 1, d);
    lemma_basic_div(d - 1, d);
    if 0 < n <= d {
        lemma_basic_div(n - 1, d);
        lemma_div_plus_one(n - 1, d);
    }
}

proof fn lemma_total_size_push_front(first: Chunk, rest: Seq<Chunk>)
    ensures
        total_size(seq![first] + rest) == first.size + total_size(rest),
{
    let all = seq![first] + rest;
    assert(all.drop_first() =~= rest);
}

/// From any regular cursor, stepping until nothing is left makes as many
/// transfers as the bytes not yet moved need, and moves exactly those bytes,
/// none of them in a transfer larger than `xfer_max`.
pub proof fn lemma_transfers_from(cursor: Transaction)
    requires
        cursor.regular(),
    ensures
        cursor.transfers().len() == ceil_div(cursor.xfer + cursor.pending, cursor.xfer_max as int),
        total_size(cursor.transfers()) == cursor.xfer + cursor.pending,
        forall|i: int|
            0 <= i < cursor.transfers().len() ==> 0 < (#[trigger] cursor.transfers()[i]).size
                <= cursor.xfer_max,
    decreases cursor.pending, cursor.xfer,
{
    let max = cursor.xfer_max as int;
    if cursor.xfer == 0 {
        lemma_ceil_div_step(0, max);
        assert(cursor.transfers() =~= Seq::<Chunk>::empty());
    } else {
        let after = cursor.spec_next();
        lemma_transfers_from(after);
        lemma_total_size_push_front(cursor.current(), after.transfers());
        if cursor.pending == 0 {
            lemma_ceil_div_step(cursor.xfer as int, max);
            assert(after.transfers() =~= Seq::<Chunk>::empty());
        } else {
            lemma_ceil_div_step(cursor.pending as int, max);
        }
        assert forall|i: int| 0 <= i < cursor.transfers().len() implies 0 < (
        #[trigger] cursor.transfers()[i]).size <= cursor.xfer_max by {
            if i > 0 {
                assert(cursor.transfers()[i] == after.transfers()[i - 1]);
            }
        }
    }
}

/// Stepping through a region of `length` bytes, `length` above 0, in
/// transfers of at most `xfer_max` bytes, `xfer_max` above 0, makes exactly
/// `length / xfer_max` transfers, rounded up, which carry `length` bytes in
/// all, and none carries more than `xfer_max`.
pub proof fn lemma_cursor_exhaustion(address: u32, length: u32, xfer_max: u16)
    requires
        length > 0,
        xfer_max > 0,
    ensures
        ({
            let chunks = Transaction::spec_new(address, length, xfer_max).transfers();
            &&& chunks.len() == ceil_div(length as int, xfer_max as int)
            &&& chunks.len() >= 1
            &&& total_size(chunks) == length
            &&& forall|i: int| 0 <= i < chunks.len() ==> 0 < (#[trigger] chunks[i]).size <= xfer_max
        }),
{
    let cursor = Transaction::spec_new(address, length, xfer_max);
    lemma_transfers_from(cursor);
    assert(cursor.transfers().len() >= 1) by {
        assert(cursor.xfer > 0);
    }
}

/// Whether a region can be stepped through without leaving the address
/// space or running out of transaction numbers.
pub open spec fn region_fits(address: u32, length: u32, xfer_max: u16) -> bool {
    &&& address + length <= u32::MAX
    &&& xfer_max > 0 ==> ceil_div(length as int, xfer_max as int) <= u16::MAX - 1
}

proof fn lemma_transfers_positions(cursor: Transaction, index: int)
    requires
        cursor.regular(),
        0 <= index < cursor.transfers().len(),
        cursor.address + cursor.xfer + cursor.pending <= u32::MAX,
        cursor.transaction + cursor.transfers().len() <= u16::MAX + 1,
    ensures
        cursor.transfers()[index].transaction == cursor.transaction + index,
        cursor.transfers()[index].address == cursor.address + index * cursor.xfer_max,
        cursor.transfers()[index].size == if cursor.xfer + cursor.pending - index
            * cursor.xfer_max >= cursor.xfer_max {
            cursor.xfer_max as int
        } else {
            cursor.xfer + cursor.pending - index * cursor.xfer_max
        },
    decreases index,
{
    let max = cursor.xfer_max as int;
    if index > 0 {
        let after = cursor.spec_next();
        assert(cursor.transfers()[index] == after.transfers()[index - 1]);
        assert(cursor.pending > 0) by {
            if cursor.pending == 0 {
                assert(after.transfers() =~= Seq::<Chunk>::empty());
            }
        }
        lemma_transfers_positions(after, index - 1);
        assert((index - 1) * max + max == index * max) by (nonlinear_arith);
    } else {
        assert(0 * max == 0) by (nonlinear_arith);
    }
}

/// In a region that fits, the transfers carry the transaction numbers 2, 3,
/// 4 and so on without a gap, each starts where the one before ended, and
/// all but the last are full: the `index`-th is `chunk_at` of `index`.
pub proof fn lemma_cursor_transfers(address: u32, length: u32, xfer_max: u16, index: int)
    requires
        xfer_max > 0,
        region_fits(address, length, xfer_max),
        0 <= index < ceil_div(length as int, xfer_max as int),
    ensures
        Transaction::spec_new(address, length, xfer_max).transfers().len() == ceil_div(
            length as int,
            xfer_max as int,
        ),
        Transaction::spec_new(address, length, xfer_max).transfers()[index] == chunk_at(
            address as int,
            length as int,
            xfer_max as int,
            index,
        ),
{
    let cursor = Transaction::spec_new(address, length, xfer_max);
    lemma_transfers_from(cursor);
    lemma_transfers_positions(cursor, index);
}

/// A cursor made by `new` for a region that fits can always take its next
/// step, and so can every cursor that stepping reaches.
pub proof fn lemma_cursor_can_advance(cursor: Transaction)
    requires
        cursor.regular(),
        cursor.address + cursor.xfer + cursor.pending <= u32::MAX,
        cursor.transaction + cursor.transfers().len() <= u16::MAX + 1,
    ensures
        cursor.can_advance(),
        cursor.spec_next().regular(),
        cursor.pending > 0 ==> cursor.spec_next().address + cursor.spec_next().xfer
            + cursor.spec_next().pending <= u32::MAX,
        cursor.pending > 0 ==> cursor.spec_next().transaction
            + cursor.spec_next().transfers().len() <= u16::MAX + 1,
{
    if cursor.pending > 0 {
        let after = cursor.spec_next();
        assert(cursor.transfers() =~= seq![cursor.current()] + after.transfers());
        assert(after.xfer > 0);
        assert(after.transfers() =~= seq![after.current()] + after.spec_next().transfers());
    }
}

} // verus!
