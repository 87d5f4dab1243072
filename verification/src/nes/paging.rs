//! Paging: maps an address space onto banks of memory.
//!
//! The address space is cut into 1 KB pages. Each page points into a bank of
//! memory; a bank of `n` KB covers `n` consecutive pages, so the same bank can
//! be seen through several windows (mirroring) and windows can be remapped at
//! run time (bank switching).

use vstd::prelude::*;

verus! {

pub const SIZE_1K: usize = 1024;
pub const SIZE_2K: usize = 2048;
pub const SIZE_4K: usize = 4096;
pub const SIZE_8K: usize = 8192;
pub const SIZE_16K: usize = 16384;
pub const SIZE_32K: usize = 32768;
pub const SIZE_64K: usize = 65536;
pub const SIZE_128K: usize = 131072;
pub const SIZE_256K: usize = 262144;

/// The granularity of the page table.
pub const PAGE_SIZE: usize = 1024;

/// The floor of the base 2 logarithm (0 for 0 and 1).
pub open spec fn spec_log2(x: nat) -> nat
    decreases x,
{
    if x <= 1 {
        0
    } else {
        1 + spec_log2(x / 2)
    }
}

proof fn lemma_log2_below(x: nat)
    requires
        x >= 1,
    ensures
        spec_log2(x) < x,
    decreases x,
{
    if x > 1 {
        lemma_log2_below(x / 2);
    }
}

proof fn lemma_log2_upper(x: nat, n: nat)
    requires
        x >= 1,
        x < vstd::arithmetic::power2::pow2(n),
    ensures
        spec_log2(x) < n,
    decreases n,
{
    if n == 0 {
        vstd::arithmetic::power2::lemma2_to64();
    } else {
        vstd::arithmetic::power2::lemma_pow2_unfold(n);
        if x > 1 {
            lemma_log2_upper(x / 2, (n - 1) as nat);
        }
    }
}

/// The logarithm of a `usize` is below its width.
proof fn lemma_log2_usize(x: usize)
    requires
        x >= 1,
    ensures
        spec_log2(x as nat) < usize::BITS,
{
    vstd::arithmetic::power2::lemma2_to64();
    vstd::arithmetic::power2::lemma2_to64_rest();
    if usize::BITS == 32 {
        assert(usize::MAX == 0xffff_ffff);
        lemma_log2_upper(x as nat, 32);
    } else {
        assert(usize::MAX == 0xffff_ffff_ffff_ffff);
        lemma_log2_upper(x as nat, 64);
    }
}

/// The bank sizes a banking region can have: a power of two from 1 KB to
/// 64 KB, the whole of a 16 bit address space.
pub open spec fn is_bank_size(bank_size: usize) -> bool {
    bank_size == SIZE_1K || bank_size == SIZE_2K || bank_size == SIZE_4K || bank_size == SIZE_8K
        || bank_size == SIZE_16K || bank_size == SIZE_32K || bank_size == SIZE_64K
}

/// Floor of the base 2 logarithm of `x`.
pub fn log_2(x: usize) -> (r: usize)
    requires
        x > 0,
    ensures
        r == spec_log2(x as nat),
    no_unwind
{
    let mut v: usize = x;
    let mut r: usize = 0;
    proof {
        lemma_log2_below(x as nat);
    }
    while v > 1
        invariant
            1 <= v <= x,
            r + spec_log2(v as nat) == spec_log2(x as nat),
            spec_log2(x as nat) < x,
        decreases v,
    {
        v = v / 2;
        r = r + 1;
    }
    r
}

proof fn lemma_bank_size_log2(bank_size: usize)
    requires
        is_bank_size(bank_size),
    ensures
        bank_size == SIZE_1K ==> spec_log2(bank_size as nat) == 10,
        bank_size == SIZE_2K ==> spec_log2(bank_size as nat) == 11,
        bank_size == SIZE_4K ==> spec_log2(bank_size as nat) == 12,
        bank_size == SIZE_8K ==> spec_log2(bank_size as nat) == 13,
        bank_size == SIZE_16K ==> spec_log2(bank_size as nat) == 14,
        bank_size == SIZE_32K ==> spec_log2(bank_size as nat) == 15,
        bank_size == SIZE_64K ==> spec_log2(bank_size as nat) == 16,
{
    reveal_with_fuel(spec_log2, 18);
    assert(spec_log2(1024) == 10);
    assert(spec_log2(2048) == 11);
    assert(spec_log2(4096) == 12);
    assert(spec_log2(8192) == 13);
    assert(spec_log2(16384) == 14);
    assert(spec_log2(32768) == 15);
    assert(spec_log2(65536) == 16);
}

proof fn lemma_index_bits(address: usize)
    by (bit_vector)
    ensures
        (address & !(1023usize)) >> 10usize == address / 1024,
        (address & !(2047usize)) >> 11usize == address / 2048,
        (address & !(4095usize)) >> 12usize == address / 4096,
        (address & !(8191usize)) >> 13usize == address / 8192,
        (address & !(16383usize)) >> 14usize == address / 16384,
        (address & !(32767usize)) >> 15usize == address / 32768,
        (address & !(65535usize)) >> 16usize == address / 65536,
{
}

/// Which bank of `bank_size` bytes `address` falls in.
pub fn get_bank_index(address: usize, bank_size: usize) -> (r: usize)
    requires
        is_bank_size(bank_size),
    ensures
        r == address / bank_size,
{
    let index_shift = log_2(bank_size);
    proof {
        lemma_bank_size_log2(bank_size);
        lemma_index_bits(address);
    }
    (address & !(bank_size - 1)) >> index_shift
}

/// One page table entry: the offset bits kept from the address and the bank
/// bits put in front of them.
#[derive(PartialEq, Eq, Structural, Debug, Clone, Copy)]
pub struct Bank {
    pub offset_mask: usize,
    pub index_mask: usize,
}

impl Bank {
    pub open spec fn spec_new(bank_size: usize, bank_index: usize) -> Bank {
        Bank {
            offset_mask: (bank_size - 1) as usize,
            index_mask: bank_index << spec_log2(bank_size as nat),
        }
    }

    /// The entry for bank `bank_index` of a memory cut into banks of
    /// `bank_size` bytes.
    pub fn new(bank_size: usize, bank_index: usize) -> (r: Bank)
        requires
            bank_size > 0,
        ensures
            r == Bank::spec_new(bank_size, bank_index),
        no_unwind
    {
        let shift = log_2(bank_size);
        proof {
            lemma_log2_usize(bank_size);
        }
        Bank { offset_mask: bank_size - 1, index_mask: bank_index << shift }
    }
}

/// The address a bank entry gives for an offset into the mapped space.
pub open spec fn spec_bank_translate(bank: Bank, offset: usize) -> u16 {
    ((offset & bank.offset_mask) | bank.index_mask) as u16
}

/// Address `offset` within bank `mem_bank_index` of `bank_size` bytes, as a
/// 16 bit address.
pub open spec fn spec_banked_address(mem_bank_index: usize, bank_size: usize, offset: int) -> u16 {
    (mem_bank_index * bank_size + offset % (bank_size as int)) as u16
}

proof fn lemma_bank_bits(x: usize, i: usize)
    by (bit_vector)
    ensures
        ((x & 1023usize) | (i << 10usize)) as u16 == (i * 1024 + x % 1024) as u16,
        ((x & 2047usize) | (i << 11usize)) as u16 == (i * 2048 + x % 2048) as u16,
        ((x & 4095usize) | (i << 12usize)) as u16 == (i * 4096 + x % 4096) as u16,
        ((x & 8191usize) | (i << 13usize)) as u16 == (i * 8192 + x % 8192) as u16,
        ((x & 16383usize) | (i << 14usize)) as u16 == (i * 16384 + x % 16384) as u16,
        ((x & 32767usize) | (i << 15usize)) as u16 == (i * 32768 + x % 32768) as u16,
        ((x & 65535usize) | (i << 16usize)) as u16 == (i * 65536 + x % 65536) as u16,
{
}

/// A bank entry of a supported size puts the offset within the bank after
/// the bank's start.
pub proof fn lemma_bank_entry_translate(bank_size: usize, mem_bank_index: usize, offset: usize)
    requires
        is_bank_size(bank_size),
    ensures
        spec_bank_translate(Bank::spec_new(bank_size, mem_bank_index), offset)
            == spec_banked_address(mem_bank_index, bank_size, offset as int),
{
    lemma_bank_size_log2(bank_size);
    lemma_bank_bits(offset, mem_bank_index);
}

/// A page table mapping an address space of `SIZE_IN_KBS` KB, starting at
/// `base_address`, onto memory.
#[derive(PartialEq, Eq, Debug, Clone)]
pub struct AddressMapper<const SIZE_IN_KBS: usize> {
    page_table: Vec<Bank>,
    base_address: u16,
}

impl<const SIZE_IN_KBS: usize> AddressMapper<SIZE_IN_KBS> {
    /// The page table entries, one per KB of the address space.
    pub closed spec fn pages(&self) -> Seq<Bank> {
        self.page_table@
    }

    /// The first address of the mapped space.
    pub closed spec fn base(&self) -> u16 {
        self.base_address
    }

    pub open spec fn wf(&self) -> bool {
        self.pages().len() == SIZE_IN_KBS
    }

    /// The identity mapping: page `i` points at the `i`-th KB of memory.
    pub open spec fn spec_identity_pages() -> Seq<Bank> {
        Seq::new(SIZE_IN_KBS as nat, |i: int| Bank::spec_new(PAGE_SIZE, i as usize))
    }

    fn identity_table() -> (r: Vec<Bank>)
        ensures
            r@ == Self::spec_identity_pages(),
    {
        let mut table: Vec<Bank> = Vec::new();
        let mut i: usize = 0;
        while i < SIZE_IN_KBS
            invariant
                i <= SIZE_IN_KBS,
                table@ == Self::spec_identity_pages().subrange(0, i as int),
            decreases SIZE_IN_KBS - i,
        {
            table.push(Bank::new(PAGE_SIZE, i));
            i = i + 1;
        }
        table
    }

    /// An identity mapping of an address space that starts at 0.
    pub fn new() -> (r: Self)
        ensures
            r.wf(),
            r.pages() == Self::spec_identity_pages(),
            r.base() == 0,
    {
        AddressMapper { page_table: Self::identity_table(), base_address: 0 }
    }

    /// An identity mapping of an address space that starts at `base_address`.
    pub fn with_base(base_address: u16) -> (r: Self)
        ensures
            r.wf(),
            r.pages() == Self::spec_identity_pages(),
            r.base() == base_address,
    {
        AddressMapper { page_table: Self::identity_table(), base_address }
    }

    /// Back to the identity mapping.
    pub fn clear(&mut self)
        ensures
            final(self).wf(),
            final(self).pages() == Self::spec_identity_pages(),
            final(self).base() == old(self).base(),
    {
        self.page_table = Self::identity_table();
    }

    /// The page table after window `addr_bank_index` (of `bank_size` bytes) is
    /// pointed at memory bank `mem_bank_index`.
    pub open spec fn spec_with_region(
        pages: Seq<Bank>,
        addr_bank_index: usize,
        mem_bank_index: usize,
        bank_size: usize,
    ) -> Seq<Bank> {
        let pages_per_bank = bank_size / PAGE_SIZE;
        let start = addr_bank_index * pages_per_bank;
        Seq::new(
            pages.len(),
            |p: int|
                if start <= p < start + pages_per_bank {
                    Bank::spec_new(bank_size, mem_bank_index)
                } else {
                    pages[p]
                },
        )
    }

    /// Points window `addr_bank_index` of the address space, `bank_size`
    /// bytes wide, at bank `mem_bank_index` of memory.
    pub fn set_banking_region(&mut self, addr_bank_index: usize, mem_bank_index: usize, bank_size: usize)
        requires
            old(self).wf(),
            (addr_bank_index + 1) * (bank_size / PAGE_SIZE) <= SIZE_IN_KBS,
        ensures
            final(self).wf(),
            final(self).base() == old(self).base(),
            final(self).pages() == Self::spec_with_region(old(self).pages(), addr_bank_index, mem_bank_index, bank_size),
        no_unwind
    {
        let pages_per_bank = bank_size / PAGE_SIZE;
        proof {
            assert(addr_bank_index * pages_per_bank + pages_per_bank == (addr_bank_index + 1) * pages_per_bank) by (nonlinear_arith);
        }
        let start_page = addr_bank_index * pages_per_bank;
        let end_page = start_page + pages_per_bank;
        let ghost old_pages = self.page_table@;

        let mut b = start_page;
        while b < end_page
            invariant
                start_page <= b <= end_page,
                end_page == start_page + pages_per_bank,
                end_page <= SIZE_IN_KBS,
                pages_per_bank == bank_size / PAGE_SIZE,
                start_page == addr_bank_index * pages_per_bank,
                self.page_table@.len() == SIZE_IN_KBS,
                self.base_address == old(self).base_address,
                old_pages.len() == SIZE_IN_KBS,
                forall|p: int|
                    0 <= p < SIZE_IN_KBS ==> #[trigger] self.page_table@[p] == (if start_page <= p < b {
                        Bank::spec_new(bank_size, mem_bank_index)
                    } else {
                        old_pages[p]
                    }),
            decreases end_page - b,
        {
            let bank = Bank::new(bank_size, mem_bank_index);
            self.page_table[b] = bank;
            b = b + 1;
        }
        assert(self.page_table@ =~= Self::spec_with_region(old_pages, addr_bank_index, mem_bank_index, bank_size));
    }

    /// Points window `addr_bank_index` at the last bank of a memory of
    /// `mem_size` bytes.
    pub fn set_banking_region_to_last_bank(&mut self, addr_bank_index: usize, bank_size: usize, mem_size: usize)
        requires
            old(self).wf(),
            bank_size > 0,
            mem_size >= bank_size,
            (addr_bank_index + 1) * (bank_size / PAGE_SIZE) <= SIZE_IN_KBS,
        ensures
            final(self).wf(),
            final(self).base() == old(self).base(),
            final(self).pages() == Self::spec_with_region(
                old(self).pages(),
                addr_bank_index,
                (mem_size / bank_size - 1) as usize,
                bank_size,
            ),
        no_unwind
    {
        proof {
            vstd::arithmetic::div_mod::lemma_div_is_ordered(bank_size as int, mem_size as int, bank_size as int);
            vstd::arithmetic::div_mod::lemma_div_basics(bank_size as int);
        }
        let last_bank = mem_size / bank_size - 1;
        self.set_banking_region(addr_bank_index, last_bank, bank_size);
    }

    /// The offset of `address` from the start of the mapped space.
    pub open spec fn spec_offset(&self, address: u16) -> usize {
        (address - self.base()) as usize
    }

    /// `address` lies in the mapped space.
    pub open spec fn in_range(&self, address: u16) -> bool {
        self.base() <= address && (address - self.base()) / (PAGE_SIZE as int) < SIZE_IN_KBS
    }

    /// The memory address that `address` is mapped to.
    pub open spec fn spec_translate(&self, address: u16) -> u16 {
        let offset = self.spec_offset(address);
        spec_bank_translate(self.pages()[(offset / PAGE_SIZE) as int], offset)
    }

    /// The memory address that `address` is mapped to.
    pub fn translate_address(&self, address: u16) -> (r: u16)
        requires
            self.wf(),
            self.in_range(address),
        ensures
            r == self.spec_translate(address),
    {
        let offset = (address - self.base_address) as usize;
        let page_index = get_bank_index(offset, PAGE_SIZE);
        let bank = self.page_table[page_index];
        ((offset & bank.offset_mask) | bank.index_mask) as u16
    }
}

/// After a window is pointed at a bank, every address in the window reads the
/// bank at the same offset, and every address outside it is mapped as before.
pub proof fn lemma_banking_region_translate<const N: usize>(
    before: AddressMapper<N>,
    after: AddressMapper<N>,
    addr_bank_index: usize,
    mem_bank_index: usize,
    bank_size: usize,
    address: u16,
)
    requires
        before.wf(),
        is_bank_size(bank_size),
        after.base() == before.base(),
        after.pages() == AddressMapper::<N>::spec_with_region(before.pages(), addr_bank_index, mem_bank_index, bank_size),
        before.in_range(address),
    ensures
        after.in_range(address),
        before.spec_offset(address) / bank_size == addr_bank_index ==> after.spec_translate(address)
            == spec_banked_address(mem_bank_index, bank_size, before.spec_offset(address) as int),
        before.spec_offset(address) / bank_size != addr_bank_index ==> after.spec_translate(address)
            == before.spec_translate(address),
{
    let offset = before.spec_offset(address) as int;
    let page = offset / (PAGE_SIZE as int);
    let ppb = (bank_size / PAGE_SIZE) as int;
    assert(ppb >= 1);
    assert(bank_size == ppb * PAGE_SIZE);
    // page / ppb == offset / bank_size
    assert(page / ppb == offset / ((PAGE_SIZE as int) * ppb)) by {
        vstd::arithmetic::div_mod::lemma_div_denominator(offset as int, PAGE_SIZE as int, ppb as int);
    }
    assert((addr_bank_index * ppb <= page < addr_bank_index * ppb + ppb) <==> (page / ppb == addr_bank_index)) by {
        let a = addr_bank_index as int;
        if a * ppb <= page < a * ppb + ppb {
            vstd::arithmetic::div_mod::lemma_fundamental_div_mod_converse(page, ppb, a, page - a * ppb);
        } else {
            vstd::arithmetic::div_mod::lemma_fundamental_div_mod(page, ppb);
            vstd::arithmetic::mul::lemma_mul_is_commutative(ppb, page / ppb);
        }
    }
    if offset / (bank_size as int) == addr_bank_index {
        lemma_bank_entry_translate(bank_size, mem_bank_index, before.spec_offset(address));
    }
}

} // verus!
