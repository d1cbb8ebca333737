use vstd::prelude::*;

verus! {

/// A machine's input and output ports, as the processor's IN and OUT
/// instructions see them.
pub trait MachineIO {
    /// The ports that `machine_in` serves.
    spec fn input_port(&self, port: u8) -> bool;

    /// The ports that `machine_out` serves.
    spec fn output_port(&self, port: u8) -> bool;

    /// The byte read from an input port.
    fn machine_in(&mut self, port: u8) -> u8
        requires
            old(self).input_port(port),
    ;

    /// Write a byte to an output port.
    fn machine_out(&mut self, port: u8, val: u8)
        requires
            old(self).output_port(port),
    ;
}

} // verus!
