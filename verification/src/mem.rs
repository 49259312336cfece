use vstd::prelude::*;

verus! {

/// Flat 4096-byte store. The reserved low region starts with the sixteen
/// built-in five-byte font sprites at address 0; the loaded program lives at
/// 0x200. Every access is taken modulo 4096, so reads and writes are total.
pub struct MemoryBank {
    pub bytes: Vec<u8>,
}

/// Byte `a` of the built-in font block (digit `a / 5`, sprite row `a % 5`).
pub open spec fn font_byte(a: int) -> u8 {
    if a == 0 {
        0xF0
    } else if a == 1 {
        0x90
    } else if a == 2 {
        0x90
    } else if a == 3 {
        0x90
    } else if a == 4 {
        0xF0
    } else if a == 5 {
        0x20
    } else if a == 6 {
        0x60
    } else if a == 7 {
        0x20
    } else if a == 8 {
        0x20
    } else if a == 9 {
        0x70
    } else if a == 10 {
        0xF0
    } else if a == 11 {
        0x10
    } else if a == 12 {
        0xF0
    } else if a == 13 {
        0x80
    } else if a == 14 {
        0xF0
    } else if a == 15 {
        0xF0
    } else if a == 16 {
        0x10
    } else if a == 17 {
        0xF0
    } else if a == 18 {
        0x10
    } else if a == 19 {
        0xF0
    } else if a == 20 {
        0x90
    } else if a == 21 {
        0x90
    } else if a == 22 {
        0xF0
    } else if a == 23 {
        0x10
    } else if a == 24 {
        0x10
    } else if a == 25 {
        0xF0
    } else if a == 26 {
        0x80
    } else if a == 27 {
        0xF0
    } else if a == 28 {
        0x10
    } else if a == 29 {
        0xF0
    } else if a == 30 {
        0xF0
    } else if a == 31 {
        0x80
    } else if a == 32 {
        0xF0
    } else if a == 33 {
        0x90
    } else if a == 34 {
        0xF0
    } else if a == 35 {
        0xF0
    } else if a == 36 {
        0x10
    } else if a == 37 {
        0x20
    } else if a == 38 {
        0x40
    } else if a == 39 {
        0x40
    } else if a == 40 {
        0xF0
    } else if a == 41 {
        0x90
    } else if a == 42 {
        0xF0
    } else if a == 43 {
        0x90
    } else if a == 44 {
        0xF0
    } else if a == 45 {
        0xF0
    } else if a == 46 {
        0x90
    } else if a == 47 {
        0xF0
    } else if a == 48 {
        0x10
    } else if a == 49 {
        0xF0
    } else if a == 50 {
        0xF0
    } else if a == 51 {
        0x90
    } else if a == 52 {
        0xF0
    } else if a == 53 {
        0x90
    } else if a == 54 {
        0x90
    } else if a == 55 {
        0xE0
    } else if a == 56 {
        0x90
    } else if a == 57 {
        0xE0
    } else if a == 58 {
        0x90
    } else if a == 59 {
        0xE0
    } else if a == 60 {
        0xF0
    } else if a == 61 {
        0x80
    } else if a == 62 {
        0x80
    } else if a == 63 {
        0x80
    } else if a == 64 {
        0xF0
    } else if a == 65 {
        0xE0
    } else if a == 66 {
        0x90
    } else if a == 67 {
        0x90
    } else if a == 68 {
        0x90
    } else if a == 69 {
        0xE0
    } else if a == 70 {
        0xF0
    } else if a == 71 {
        0x80
    } else if a == 72 {
        0xF0
    } else if a == 73 {
        0x80
    } else if a == 74 {
        0xF0
    } else if a == 75 {
        0xF0
    } else if a == 76 {
        0x80
    } else if a == 77 {
        0xF0
    } else if a == 78 {
        0x80
    } else if a == 79 {
        0x80
    } else {
        0
    }
}

/// Memory contents right after construction or reset: the 80 font bytes,
/// then zeroes.
pub open spec fn mem_init() -> Seq<u8> {
    Seq::new(4096, |a: int| if a < 80 { font_byte(a) } else { 0u8 })
}

/// Memory contents after a program of `rom.len()` bytes is copied in at 0x200.
pub open spec fn mem_with_rom(mem: Seq<u8>, rom: Seq<u8>) -> Seq<u8> {
    Seq::new(4096, |a: int| if 0x200 <= a < 0x200 + rom.len() { rom[a - 0x200] } else { mem[a] })
}

/// Executable mirror of `font_byte`.
fn font_byte_at(a: usize) -> (r: u8)
    requires
        a < 80,
    ensures
        r == font_byte(a as int),
{
    if a == 0 {
        0xF0
    } else if a == 1 {
        0x90
    } else if a == 2 {
        0x90
    } else if a == 3 {
        0x90
    } else if a == 4 {
        0xF0
    } else if a == 5 {
        0x20
    } else if a == 6 {
        0x60
    } else if a == 7 {
        0x20
    } else if a == 8 {
        0x20
    } else if a == 9 {
        0x70
    } else if a == 10 {
        0xF0
    } else if a == 11 {
        0x10
    } else if a == 12 {
        0xF0
    } else if a == 13 {
        0x80
    } else if a == 14 {
        0xF0
    } else if a == 15 {
        0xF0
    } else if a == 16 {
        0x10
    } else if a == 17 {
        0xF0
    } else if a == 18 {
        0x10
    } else if a == 19 {
        0xF0
    } else if a == 20 {
        0x90
    } else if a == 21 {
        0x90
    } else if a == 22 {
        0xF0
    } else if a == 23 {
        0x10
    } else if a == 24 {
        0x10
    } else if a == 25 {
        0xF0
    } else if a == 26 {
        0x80
    } else if a == 27 {
        0xF0
    } else if a == 28 {
        0x10
    } else if a == 29 {
        0xF0
    } else if a == 30 {
        0xF0
    } else if a == 31 {
        0x80
    } else if a == 32 {
        0xF0
    } else if a == 33 {
        0x90
    } else if a == 34 {
        0xF0
    } else if a == 35 {
        0xF0
    } else if a == 36 {
        0x10
    } else if a == 37 {
        0x20
    } else if a == 38 {
        0x40
    } else if a == 39 {
        0x40
    } else if a == 40 {
        0xF0
    } else if a == 41 {
        0x90
    } else if a == 42 {
        0xF0
    } else if a == 43 {
        0x90
    } else if a == 44 {
        0xF0
    } else if a == 45 {
        0xF0
    } else if a == 46 {
        0x90
    } else if a == 47 {
        0xF0
    } else if a == 48 {
        0x10
    } else if a == 49 {
        0xF0
    } else if a == 50 {
        0xF0
    } else if a == 51 {
        0x90
    } else if a == 52 {
        0xF0
    } else if a == 53 {
        0x90
    } else if a == 54 {
        0x90
    } else if a == 55 {
        0xE0
    } else if a == 56 {
        0x90
    } else if a == 57 {
        0xE0
    } else if a == 58 {
        0x90
    } else if a == 59 {
        0xE0
    } else if a == 60 {
        0xF0
    } else if a == 61 {
        0x80
    } else if a == 62 {
        0x80
    } else if a == 63 {
        0x80
    } else if a == 64 {
        0xF0
    } else if a == 65 {
        0xE0
    } else if a == 66 {
        0x90
    } else if a == 67 {
        0x90
    } else if a == 68 {
        0x90
    } else if a == 69 {
        0xE0
    } else if a == 70 {
        0xF0
    } else if a == 71 {
        0x80
    } else if a == 72 {
        0xF0
    } else if a == 73 {
        0x80
    } else if a == 74 {
        0xF0
    } else if a == 75 {
        0xF0
    } else if a == 76 {
        0x80
    } else if a == 77 {
        0xF0
    } else if a == 78 {
        0x80
    } else if a == 79 {
        0x80
    } else {
        0
    }
}

impl MemoryBank {
    pub open spec fn wf(self) -> bool {
        self.bytes@.len() == 4096
    }

    pub fn new() -> (r: MemoryBank)
        ensures
            r.wf(),
            r.bytes@ == mem_init(),
    {
        let mut bytes: Vec<u8> = Vec::new();
        let mut a: usize = 0;
        while a < 4096
            invariant
                a <= 4096,
                bytes@.len() == a,
                forall|j: int| 0 <= j < a ==> bytes@[j] == mem_init()[j],
            decreases 4096 - a,
        {
            if a < 80 {
                bytes.push(font_byte_at(a));
            } else {
                bytes.push(0);
            }
            a += 1;
        }
        proof {
            assert(bytes@ =~= mem_init());
        }
        MemoryBank { bytes }
    }

    /// Reads the byte at `addr`, masked to the 4096-byte address space.
    pub fn read(&self, addr: u16) -> (r: u8)
        requires
            self.wf(),
        ensures
            r == self.bytes@[(addr as int) % 4096],
    {
        self.bytes[(addr % 4096) as usize]
    }

    /// Writes the byte at `addr`, masked to the 4096-byte address space.
    pub fn write(&mut self, addr: u16, val: u8)
        requires
            old(self).wf(),
        ensures
            final(self).wf(),
            final(self).bytes@ == old(self).bytes@.update((addr as int) % 4096, val),
    {
        self.bytes.set((addr % 4096) as usize, val);
    }

    /// Copies a program into memory at 0x200. The reserved low region and
    /// everything past the program are untouched.
    pub fn load(&mut self, rom: &Vec<u8>)
        requires
            old(self).wf(),
            rom@.len() <= 3584,
        ensures
            final(self).wf(),
            final(self).bytes@ == mem_with_rom(old(self).bytes@, rom@),
    {
        let mut k: usize = 0;
        while k < rom.len()
            invariant
                old(self).wf(),
                self.wf(),
                rom@.len() <= 3584,
                k <= rom@.len(),
                forall|j: int| 0 <= j < k ==> self.bytes@[0x200 + j] == rom@[j],
                forall|j: int| 0 <= j < 4096 && !(0x200 <= j < 0x200 + k) ==> self.bytes@[j] == old(self).bytes@[j],
            decreases rom@.len() - k,
        {
            self.bytes.set(0x200 + k, rom[k]);
            k += 1;
        }
        proof {
            assert(self.bytes@ =~= mem_with_rom(old(self).bytes@, rom@));
        }
    }
}

} // verus!
