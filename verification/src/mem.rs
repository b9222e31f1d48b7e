//! The addressable memory and its banks.
//!
//! The built-in memory backs all 65536 addresses and is bank 0. Further
//! banks are configured one by one and numbered from 1. While such a bank is
//! active it takes the place of the built-in memory inside the window that
//! starts at `BANK_START` and is `BANK_SIZE` bytes long; outside the window
//! every bank sees the built-in memory, the stack included. A bank may be
//! shorter than the window: the rest of the window is then not addressable
//! while that bank is active.

use vstd::prelude::*;
use crate::error::Error;

verus! {

/// Number of addresses of the built-in memory.
pub const MEMORY: usize = 65536;

/// First address of the window that the active bank replaces.
pub const BANK_START: u16 = 0x8000;

/// Length of the window, and the largest size of a bank.
pub const BANK_SIZE: u16 = 0x4000;

/// Most banks that can be configured beside the built-in memory.
pub const BANKS: usize = 255;

/// The address that the stack pointer holds while the stack is empty.
pub const STACK: u16 = 0xFC00;

/// The last address a push may fill.
pub const STACK_END: u16 = 0xFEFF;

/// Whether `addr` lies in the window that banks replace.
pub open spec fn in_window(addr: u16) -> bool {
    BANK_START <= addr < BANK_START + BANK_SIZE
}

/// The memory as a mathematical value.
#[verifier::ext_equal]
pub struct MemView {
    /// The built-in memory, one byte per address.
    pub base: Seq<u8>,
    /// The configured banks; bank `k` is `banks[k - 1]`.
    pub banks: Seq<Seq<u8>>,
    /// The active bank; 0 is the built-in memory.
    pub active: u8,
}

impl MemView {
    /// The shape every memory has.
    pub open spec fn wf(self) -> bool {
        &&& self.base.len() == MEMORY
        &&& self.banks.len() <= BANKS
        &&& self.active <= self.banks.len()
        &&& forall|k: int|
            0 <= k < self.banks.len() ==> (#[trigger] self.banks[k]).len() <= BANK_SIZE
    }

    /// Whether an access to `addr` goes to the active bank, not to the
    /// built-in memory.
    pub open spec fn banked(self, addr: u16) -> bool {
        self.active != 0 && in_window(addr)
    }

    /// Whether `addr` is addressable while the active bank is selected.
    pub open spec fn backed(self, addr: u16) -> bool {
        self.banked(addr) ==> addr - BANK_START < self.banks[self.active - 1].len()
    }

    /// The byte at `addr`, or why there is none.
    pub open spec fn read(self, addr: u16) -> Result<u8, Error> {
        if !self.backed(addr) {
            Err(Error::MemoryAccessError)
        } else if self.banked(addr) {
            Ok(self.banks[self.active - 1][addr - BANK_START])
        } else {
            Ok(self.base[addr as int])
        }
    }

    /// The memory after `val` was stored at `addr`, or why it cannot be.
    pub open spec fn write(self, addr: u16, val: u8) -> Result<MemView, Error> {
        if !self.backed(addr) {
            Err(Error::MemoryAccessError)
        } else if self.banked(addr) {
            let k = self.active - 1;
            Ok(
                MemView {
                    banks: self.banks.update(k, self.banks[k].update(addr - BANK_START, val)),
                    ..self
                },
            )
        } else {
            Ok(MemView { base: self.base.update(addr as int, val), ..self })
        }
    }

    /// The memory after `bank` was made the active one, or why it cannot be.
    pub open spec fn select(self, bank: u8) -> Result<MemView, Error> {
        if bank <= self.banks.len() {
            Ok(MemView { active: bank, ..self })
        } else {
            Err(Error::MemoryAccessError)
        }
    }

    /// The memory with one more bank of `size` zero bytes.
    pub open spec fn with_bank(self, size: u16) -> MemView {
        MemView { banks: self.banks.push(Seq::new(size as nat, |i: int| 0u8)), ..self }
    }

    /// The memory with `image` copied to the start of the built-in memory.
    pub open spec fn with_image(self, image: Seq<u8>) -> MemView {
        MemView {
            base: Seq::new(
                self.base.len(),
                |i: int| if i < image.len() { image[i] } else { self.base[i] },
            ),
            ..self
        }
    }
}

/// The memory of one machine.
pub struct Mem {
    base: Vec<u8>,
    banks: Vec<Vec<u8>>,
    active: u8,
}

impl View for Mem {
    type V = MemView;

    closed spec fn view(&self) -> MemView {
        MemView {
            base: self.base@,
            banks: Seq::new(self.banks@.len(), |k: int| self.banks@[k]@),
            active: self.active,
        }
    }
}

impl Mem {
    /// A memory of zero bytes with no bank beside the built-in one.
    pub fn new() -> (mem: Mem)
        ensures
            mem@.wf(),
            mem@.base == Seq::new(MEMORY as nat, |i: int| 0u8),
            mem@.banks.len() == 0,
            mem@.active == 0,
    {
        let mem = Mem { base: vec![0u8; MEMORY], banks: Vec::new(), active: 0 };
        assert(mem@.base =~= Seq::new(MEMORY as nat, |i: int| 0u8));
        mem
    }

    /// The active bank.
    pub fn bank(&self) -> (bank: u8)
        ensures
            bank == self@.active,
    {
        self.active
    }

    /// The number of banks configured beside the built-in memory.
    pub fn banks(&self) -> (n: usize)
        ensures
            n == self@.banks.len(),
    {
        self.banks.len()
    }

    /// Configures one more bank of `size` zero bytes and returns its number.
    ///
    /// Nothing is configured, and `None` is returned, when `size` is larger
    /// than the window or all 255 banks exist.
    pub fn add_bank(&mut self, size: u16) -> (id: Option<u8>)
        requires
            old(self)@.wf(),
        ensures
            final(self)@.wf(),
            size <= BANK_SIZE && old(self)@.banks.len() < BANKS ==> id == Some(
                (old(self)@.banks.len() + 1) as u8,
            ) && final(self)@ == old(self)@.with_bank(size),
            size > BANK_SIZE || old(self)@.banks.len() >= BANKS ==> id is None && final(self)@
                == old(self)@,
    {
        if size > BANK_SIZE || self.banks.len() >= BANKS {
            return None;
        }
        let bank: Vec<u8> = vec![0u8; size as usize];
        assert(bank@ =~= Seq::new(size as nat, |i: int| 0u8));
        self.banks.push(bank);
        assert(self@.banks =~= old(self)@.with_bank(size).banks);
        Some(self.banks.len() as u8)
    }

    /// Reads the byte at `addr` through the active bank.
    ///
    /// Fails with `MemoryAccessError` exactly when the active bank does not
    /// back `addr`.
    pub fn get(&self, addr: u16) -> (r: Result<u8, Error>)
        requires
            self@.wf(),
        ensures
            r == self@.read(addr),
    {
        if self.active != 0 && addr >= BANK_START && addr - BANK_START < BANK_SIZE {
            let k: usize = (self.active - 1) as usize;
            let off: usize = (addr - BANK_START) as usize;
            if off < self.banks[k].len() {
                Ok(self.banks[k][off])
            } else {
                Err(Error::MemoryAccessError)
            }
        } else {
            Ok(self.base[addr as usize])
        }
    }

    /// Stores `val` at `addr` through the active bank.
    ///
    /// Fails with `MemoryAccessError`, and stores nothing, exactly when the
    /// active bank does not back `addr`.
    pub fn set(&mut self, addr: u16, val: u8) -> (r: Result<(), Error>)
        requires
            old(self)@.wf(),
        ensures
            final(self)@.wf(),
            match old(self)@.write(addr, val) {
                Ok(after) => r == Ok::<(), Error>(()) && final(self)@ == after,
                Err(e) => r == Err::<(), Error>(e) && final(self)@ == old(self)@,
            },
    {
        if self.active != 0 && addr >= BANK_START && addr - BANK_START < BANK_SIZE {
            let k: usize = (self.active - 1) as usize;
            let off: usize = (addr - BANK_START) as usize;
            if off < self.banks[k].len() {
                self.banks[k][off] = val;
                assert(self@.banks =~~= old(self)@.write(addr, val)->Ok_0.banks);
                Ok(())
            } else {
                Err(Error::MemoryAccessError)
            }
        } else {
            self.base[addr as usize] = val;
            assert(self@.banks =~~= old(self)@.banks);
            Ok(())
        }
    }

    /// Makes `bank` the active bank.
    ///
    /// Fails with `MemoryAccessError`, and leaves the active bank as it is,
    /// exactly when `bank` is neither 0 nor the number of a configured bank.
    pub fn select(&mut self, bank: u8) -> (r: Result<(), Error>)
        requires
            old(self)@.wf(),
        ensures
            final(self)@.wf(),
            match old(self)@.select(bank) {
                Ok(after) => r == Ok::<(), Error>(()) && final(self)@ == after,
                Err(e) => r == Err::<(), Error>(e) && final(self)@ == old(self)@,
            },
    {
        if bank as usize <= self.banks.len() {
            self.active = bank;
            assert(self@.banks =~~= old(self)@.banks);
            Ok(())
        } else {
            Err(Error::MemoryAccessError)
        }
    }

    /// Copies `image` to the start of the built-in memory, whatever bank is
    /// active.
    ///
    /// Fails with `MemoryAccessError`, and copies nothing, exactly when the
    /// image is longer than the memory.
    pub fn load(&mut self, image: &Vec<u8>) -> (r: Result<(), Error>)
        requires
            old(self)@.wf(),
        ensures
            final(self)@.wf(),
            image@.len() <= MEMORY ==> r == Ok::<(), Error>(())
                && final(self)@ == old(self)@.with_image(image@),
            image@.len() > MEMORY ==> r == Err::<(), Error>(Error::MemoryAccessError)
                && final(self)@ == old(self)@,
    {
        if image.len() > MEMORY {
            return Err(Error::MemoryAccessError);
        }
        let mut i: usize = 0;
        while i < image.len()
            invariant
                i <= image@.len() <= MEMORY,
                self.base@.len() == MEMORY,
                self.banks == old(self).banks,
                self.active == old(self).active,
                forall|j: int| 0 <= j < i ==> self.base@[j] == image@[j],
                forall|j: int| i <= j < MEMORY ==> self.base@[j] == old(self).base@[j],
            decreases image@.len() - i,
        {
            self.base[i] = image[i];
            i += 1;
        }
        assert(self@.base =~= old(self)@.with_image(image@).base);
        assert(self@.banks =~~= old(self)@.banks);
        Ok(())
    }
}

} // verus!
