//! Direct memory access: a write to the DMA trigger register copies 160
//! bytes from `data * 0x100` into sprite attribute memory.
use crate::bus::{dma_source_bytes, read8, Bus, BusView};
use vstd::prelude::*;

verus! {

/// Performs the OAM copy for a write of `data` to the DMA register; a call
/// with any other address does nothing.
pub fn dma(bus: &mut Bus, address: u16, data: u8)
    requires
        old(bus).wf(),
    ensures
        final(bus).wf(),
        address == 0xFF46 ==> final(bus)@ == (BusView {
            oam_ram: dma_source_bytes(old(bus)@, data),
            ..old(bus)@
        }),
        address != 0xFF46 ==> final(bus)@ == old(bus)@,
{
    if address == 0xFF46 {
        let source_address_start: u16 = (data as u16) * 0x100;
        let mut i: usize = 0;
        while i < 160
            invariant
                bus.wf(),
                source_address_start == data * 0x100,
                i <= 160,
                bus@ == (BusView { oam_ram: bus@.oam_ram, ..old(bus)@ }),
                forall|j: int|
                    0 <= j < i ==> bus@.oam_ram[j] == read8(
                        old(bus)@,
                        (data * 0x100 + j) as u16,
                    ),
                forall|j: int| i <= j < 160 ==> bus@.oam_ram[j] == old(bus)@.oam_ram[j],
            decreases 160 - i,
        {
            let source = source_address_start + i as u16;
            let byte = bus.read(source);
            proof {
                if 0xFE00 <= source < 0xFEA0 {
                    assert(source - 0xFE00 == i);
                }
                assert(read8(bus@, source) == read8(old(bus)@, source));
            }
            bus.memory.oam_ram.set(i, byte);
            i = i + 1;
        }
        proof {
            assert(bus@.oam_ram =~= dma_source_bytes(old(bus)@, data));
            assert(bus@ =~= (BusView { oam_ram: dma_source_bytes(old(bus)@, data), ..old(bus)@ }));
        }
    }
}

} // verus!
