use vstd::prelude::*;
use super::Pinout;

verus! {

/// A device that answers the CPU's read and write cycles.
///
/// Implementors decide what a read returns and what a write does; the CPU's
/// contracts therefore speak of the pinout that comes back from the bus.
/// `ready` is the implementor's own well-formedness, which every access
/// keeps; `spec_requests` logs every request the bus is handed, the
/// pinout as the CPU drove it. `spec_clock` is a count that the devices on the bus advance on
/// their own clocks only (on the NES, the PPU's frame and dot counters): no
/// cpu access moves it.
pub trait Bus {
    spec fn ready(&self) -> bool;

    spec fn spec_clock(&self) -> int;

    /// The requests the bus has been handed, oldest first.
    spec fn spec_requests(&self) -> Seq<Pinout>;

    fn read(&mut self, pinout: Pinout) -> (r: Pinout)
        requires
            old(self).ready(),
        ensures
            final(self).ready(),
            final(self).spec_clock() == old(self).spec_clock(),
            final(self).spec_requests() == old(self).spec_requests().push(pinout),
    ;

    fn write(&mut self, pinout: Pinout) -> (r: Pinout)
        requires
            old(self).ready(),
        ensures
            final(self).ready(),
            final(self).spec_clock() == old(self).spec_clock(),
            final(self).spec_requests() == old(self).spec_requests().push(pinout),
    ;
}

} // verus!
