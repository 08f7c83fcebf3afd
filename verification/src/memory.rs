//! Where GPU memory lives, and how CPU data reaches mapped memory.

use vstd::prelude::*;

verus! {

/// Where an allocation is placed.
pub trait AllocMode {
    /// Whether the CPU maps the memory to write into it.
    fn host_visible() -> bool;
}

/// Memory the CPU maps and writes: staging buffers, uniforms.
#[derive(Debug)]
pub struct HostVisible;

/// Video memory the CPU cannot reach.
#[derive(Debug)]
pub struct DeviceLocal;

impl AllocMode for HostVisible {
    fn host_visible() -> (b: bool)
        ensures
            b,
    {
        true
    }
}

impl AllocMode for DeviceLocal {
    fn host_visible() -> (b: bool)
        ensures
            !b,
    {
        false
    }
}

/// Copies `data` to the start of the mapped memory, leaving the rest as it
/// was.
pub fn copy_to_mapped(mapped: &mut [u8], data: &[u8])
    requires
        data.len() <= old(mapped).len(),
    ensures
        final(mapped)@ == data@ + old(mapped)@.subrange(data.len() as int, old(mapped)@.len() as int),
{
    let mut i: usize = 0;
    while i < data.len()
        invariant
            i <= data.len(),
            data.len() <= mapped.len(),
            mapped@.len() == old(mapped)@.len(),
            forall|k: int| 0 <= k < i ==> mapped@[k] == data@[k],
            forall|k: int| i <= k < mapped@.len() ==> mapped@[k] == old(mapped)@[k],
        decreases data.len() - i,
    {
        mapped[i] = data[i];
        i = i + 1;
    }
    proof {
        assert(mapped@ =~= data@ + old(mapped)@.subrange(data.len() as int, old(mapped)@.len() as int));
    }
}

} // verus!
