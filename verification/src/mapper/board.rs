//! The memories every cartridge board carries, shared by all mappers.

use vstd::prelude::*;

verus! {

/// PRG ROM, CHR memory and PRG RAM of one board. Over `Vec<u8>` this is the
/// board itself; over `Seq<u8>` it is its model.
#[verifier::ext_equal]
pub struct Board<T = Vec<u8>> {
    pub prg_rom: T,
    pub chr: T,
    pub chr_is_ram: bool,
    pub prg_ram: T,
}

impl View for Board<Vec<u8>> {
    type V = Board<Seq<u8>>;

    open spec fn view(&self) -> Board<Seq<u8>> {
        Board {
            prg_rom: self.prg_rom@,
            chr: self.chr@,
            chr_is_ram: self.chr_is_ram,
            prg_ram: self.prg_ram@,
        }
    }
}

/// A memory of `n` zero bytes.
pub open spec fn zeroes(n: nat) -> Seq<u8> {
    Seq::new(n, |i: int| 0u8)
}

/// `memory` with `bytes` laid over it from `start` on.
pub open spec fn overlay(memory: Seq<u8>, start: int, bytes: Seq<u8>) -> Seq<u8> {
    Seq::new(
        memory.len(),
        |i: int|
            if start <= i < start + bytes.len() {
                bytes[i - start]
            } else {
                memory[i]
            },
    )
}

/// How many whole banks of `size` bytes a memory of `len` bytes holds, and at
/// least one.
pub open spec fn bank_count(len: nat, size: nat) -> nat {
    if len / size == 0 {
        1
    } else {
        len / size
    }
}

/// The byte of PRG RAM seen at `addr` ($6000-$7FFF), zero where there is none.
pub open spec fn ram_value(ram: Seq<u8>, addr: u16) -> u8 {
    if addr - 0x6000 < ram.len() {
        ram[addr - 0x6000]
    } else {
        0
    }
}

/// PRG RAM after a write at `addr` ($6000-$7FFF); a write past its end is lost.
pub open spec fn ram_after(ram: Seq<u8>, addr: u16, data: u8) -> Seq<u8> {
    if addr - 0x6000 < ram.len() {
        ram.update(addr - 0x6000, data)
    } else {
        ram
    }
}

/// Offset of `addr` ($8000-$FFFF) into an unbanked PRG image, a 16 KB image
/// appearing in both halves.
pub open spec fn fixed_prg_index(len: nat, addr: u16) -> int {
    if len == 0x4000 && addr >= 0xc000 {
        addr - 0xc000
    } else {
        addr - 0x8000
    }
}

/// Allocates `n` zero bytes.
pub fn zeroed(n: usize) -> (r: Vec<u8>)
    ensures
        r@ == zeroes(n as nat),
{
    let r = vec![0u8; n];
    assert(r@ =~= zeroes(n as nat));
    r
}

/// Copies a byte vector.
pub fn copied(v: &Vec<u8>) -> (r: Vec<u8>)
    ensures
        r@ == v@,
{
    let r = v.clone();
    assert(r@ =~= v@);
    r
}

pub fn count_banks(len: usize, size: usize) -> (r: usize)
    requires
        size > 0,
    ensures
        r == bank_count(len as nat, size as nat),
        r > 0,
{
    let banks = len / size;
    if banks == 0 {
        1
    } else {
        banks
    }
}

/// A board with at least one whole bank has every counted bank in full.
pub proof fn lemma_banks_fit(len: nat, size: nat, bank: int, offset: int)
    requires
        size > 0,
        len >= size,
        0 <= bank < bank_count(len, size),
        0 <= offset < size,
    ensures
        0 <= bank * size,
        bank * size + offset < len,
{
    vstd::arithmetic::div_mod::lemma_fundamental_div_mod(len as int, size as int);
    assert(len / size >= 1) by (nonlinear_arith)
        requires
            len >= size,
            size > 0,
    ;
    let banks = len / size;
    assert(bank * size + size <= banks * size) by (nonlinear_arith)
        requires
            0 <= bank < banks,
            size > 0,
    ;
    assert(0 <= bank * size) by (nonlinear_arith)
        requires
            0 <= bank,
            size > 0,
    ;
    assert(banks * size == size * banks) by (nonlinear_arith);
}

impl Board<Vec<u8>> {
    pub fn duplicate(&self) -> (r: Self)
        ensures
            r@ == self@,
    {
        Board {
            prg_rom: copied(&self.prg_rom),
            chr: copied(&self.chr),
            chr_is_ram: self.chr_is_ram,
            prg_ram: copied(&self.prg_ram),
        }
    }

    pub fn read_ram(&self, addr: u16) -> (r: u8)
        requires
            addr >= 0x6000,
        ensures
            r == ram_value(self.prg_ram@, addr),
    {
        let index = (addr - 0x6000) as usize;
        if index < self.prg_ram.len() {
            self.prg_ram[index]
        } else {
            0
        }
    }

    pub fn write_ram(&mut self, addr: u16, data: u8)
        requires
            addr >= 0x6000,
        ensures
            final(self)@ == (Board { prg_ram: ram_after(old(self)@.prg_ram, addr, data), ..old(
                self,
            )@ }),
    {
        let index = (addr - 0x6000) as usize;
        if index < self.prg_ram.len() {
            self.prg_ram[index] = data;
        }
    }

    pub fn read_fixed_prg(&self, addr: u16) -> (r: u8)
        requires
            addr >= 0x8000,
            fixed_prg_index(self.prg_rom@.len(), addr) < self.prg_rom@.len(),
        ensures
            r == self.prg_rom@[fixed_prg_index(self.prg_rom@.len(), addr)],
    {
        if self.prg_rom.len() == 0x4000 && addr >= 0xc000 {
            self.prg_rom[(addr - 0xc000) as usize]
        } else {
            self.prg_rom[(addr - 0x8000) as usize]
        }
    }

    /// The PRG RAM of a board that has any.
    pub fn prg_ram_slice(&self) -> (r: Option<&[u8]>)
        ensures
            match r {
                Some(ram) => self@.prg_ram.len() > 0 && ram@ == self@.prg_ram,
                None => self@.prg_ram.len() == 0,
            },
    {
        if self.prg_ram.len() == 0 {
            None
        } else {
            Some(self.prg_ram.as_slice())
        }
    }

    /// The CHR RAM of a board that has any.
    pub fn chr_ram_slice(&self) -> (r: Option<&[u8]>)
        ensures
            match r {
                Some(ram) => self@.chr_is_ram && ram@ == self@.chr,
                None => !self@.chr_is_ram,
            },
    {
        if self.chr_is_ram {
            Some(self.chr.as_slice())
        } else {
            None
        }
    }

    pub fn store_prg_ram(&mut self, start: usize, bytes: &[u8])
        requires
            start + bytes@.len() <= old(self)@.prg_ram.len(),
        ensures
            final(self)@ == (Board {
                prg_ram: overlay(old(self)@.prg_ram, start as int, bytes@),
                ..old(self)@
            }),
    {
        let ghost before = self.prg_ram@;
        let len = self.prg_ram.len();
        let mut i: usize = 0;
        while i < bytes.len()
            invariant
                i <= bytes.len(),
                start + bytes@.len() <= before.len() == len,
                self.prg_ram@ == overlay(before, start as int, bytes@.take(i as int)),
                self.prg_rom@ == old(self).prg_rom@,
                self.chr@ == old(self).chr@,
                self.chr_is_ram == old(self).chr_is_ram,
            decreases bytes.len() - i,
        {
            self.prg_ram[start + i] = bytes[i];
            i += 1;
        }
        assert(bytes@.take(i as int) =~= bytes@);
    }

    pub fn store_chr_ram(&mut self, start: usize, bytes: &[u8])
        requires
            start + bytes@.len() <= old(self)@.chr.len(),
        ensures
            final(self)@ == (Board {
                chr: overlay(old(self)@.chr, start as int, bytes@),
                ..old(self)@
            }),
    {
        let ghost before = self.chr@;
        let len = self.chr.len();
        let mut i: usize = 0;
        while i < bytes.len()
            invariant
                i <= bytes.len(),
                start + bytes@.len() <= before.len() == len,
                self.chr@ == overlay(before, start as int, bytes@.take(i as int)),
                self.prg_rom@ == old(self).prg_rom@,
                self.prg_ram@ == old(self).prg_ram@,
                self.chr_is_ram == old(self).chr_is_ram,
            decreases bytes.len() - i,
        {
            self.chr[start + i] = bytes[i];
            i += 1;
        }
        assert(bytes@.take(i as int) =~= bytes@);
    }
}

} // verus!
