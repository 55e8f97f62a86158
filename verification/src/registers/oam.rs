use vstd::prelude::*;

verus! {

/// Object attribute memory and its cursor: 256 bytes of sprite state,
/// written through a cursor that auto-increments and wraps.
pub struct OamRegisters {
    pub oam_addr: u8,
    pub oam_data: Vec<u8>,
}

impl OamRegisters {
    pub open spec fn wf(&self) -> bool {
        self.oam_data@.len() == 256
    }

    pub fn new() -> (r: OamRegisters)
        ensures
            r.wf(),
            r.oam_addr == 0,
            forall|i: int| 0 <= i < 256 ==> r.oam_data@[i] == 0,
    {
        let mut data: Vec<u8> = Vec::new();
        let mut i: usize = 0;
        while i < 256
            invariant
                data@.len() == i,
                i <= 256,
                forall|j: int| 0 <= j < i ==> data@[j] == 0,
            decreases 256 - i,
        {
            data.push(0);
            i = i + 1;
        }
        OamRegisters { oam_addr: 0, oam_data: data }
    }

    /// Place the cursor.
    pub fn write_addr(&mut self, data: u8)
        ensures
            final(self).oam_addr == data,
            final(self).oam_data == old(self).oam_data,
    {
        self.oam_addr = data;
    }

    /// Write one byte at the cursor, then advance it (wrapping).
    pub fn write_data(&mut self, data: u8)
        requires
            old(self).wf(),
        ensures
            final(self).wf(),
            final(self).oam_data@ == old(self).oam_data@.update(
                old(self).oam_addr as int,
                data,
            ),
            final(self).oam_addr == (old(self).oam_addr + 1) % 256,
    {
        let idx = self.oam_addr as usize;
        self.oam_data.set(idx, data);
        self.oam_addr = self.oam_addr.wrapping_add(1);
    }

    /// Block-copy 256 bytes starting at the current cursor, wrapping at the
    /// end of the table; the cursor comes back to where it started.
    pub fn write_dma(&mut self, data: &[u8; 256])
        requires
            old(self).wf(),
        ensures
            final(self).wf(),
            final(self).oam_addr == old(self).oam_addr,
            forall|k: int|
                0 <= k < 256 ==> final(self).oam_data@[k] == data@[(k - old(self).oam_addr + 256)
                    % 256],
    {
        let ghost addr0 = self.oam_addr as int;
        let ghost orig = self.oam_data@;
        let mut i: usize = 0;
        while i < 256
            invariant
                self.wf(),
                i <= 256,
                0 <= addr0 < 256,
                self.oam_addr == (addr0 + i) % 256,
                forall|k: int|
                    0 <= k < 256 ==> self.oam_data@[k] == (if (k - addr0 + 256) % 256 < i {
                        data@[(k - addr0 + 256) % 256]
                    } else {
                        orig[k]
                    }),
            decreases 256 - i,
        {
            let idx = self.oam_addr as usize;
            self.oam_data.set(idx, data[i]);
            proof {
                assert((idx - addr0 + 256) % 256 == i as int);
            }
            self.oam_addr = self.oam_addr.wrapping_add(1);
            i = i + 1;
        }
    }

    /// Read the byte at the cursor; reads do not advance the cursor.
    pub fn get_data(&self) -> (r: u8)
        requires
            self.wf(),
        ensures
            r == self.oam_data@[self.oam_addr as int],
    {
        self.oam_data[self.oam_addr as usize]
    }
}

} // verus!
