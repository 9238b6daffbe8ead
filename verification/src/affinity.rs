//! The set of CPUs that serve one queue.

use vstd::prelude::*;

verus! {

/// Number of CPUs that an affinity mask covers.
pub const AFFINITY_CPUS: usize = 1024;

/// The CPUs of one queue, held in a `bitmaps::Bitmap` of 1024 bits. The
/// bitmap is read and written through the calls below only.
#[verifier::external_body]
#[derive(Debug)]
pub struct UblkQueueAffinity {
    affinity: bitmaps::Bitmap<1024>,
}

/// The indices of the bits that are set in the bitmap.
pub uninterp spec fn affinity_cpus(a: UblkQueueAffinity) -> Set<int>;

/// Whether bit `cpu` is set in a mask of bytes, bit 0 of byte 0 being CPU 0.
pub open spec fn spec_cpu_in_mask(mask: Seq<u8>, cpu: int) -> bool {
    0 <= cpu < mask.len() * 8 && (mask[cpu / 8] >> ((cpu % 8) as u8)) & 1 == 1
}

/// `list` holds exactly the members of `cpus`, in rising order.
pub open spec fn is_cpu_list(cpus: Set<int>, list: Seq<usize>) -> bool {
    &&& forall|i: int, j: int| 0 <= i < j < list.len() ==> list[i] < list[j]
    &&& forall|i: int| 0 <= i < list.len() ==> cpus.contains(#[trigger] list[i] as int)
    &&& forall|c: int| #[trigger]
        cpus.contains(c) ==> exists|i: int| 0 <= i < list.len() && list[i] == c
}

impl Default for UblkQueueAffinity {
    fn default() -> (r: Self)
        ensures
            affinity_cpus(r) == Set::<int>::empty(),
    {
        UblkQueueAffinity::new()
    }
}

impl UblkQueueAffinity {
    /// Calls `Bitmap::new`, which gives a bitmap with every bit clear.
    #[verifier::external_body]
    pub fn new() -> (r: UblkQueueAffinity)
        ensures
            affinity_cpus(r) == Set::<int>::empty(),
    {
        UblkQueueAffinity { affinity: bitmaps::Bitmap::new() }
    }

    /// Length in bytes of the mask that the driver fills.
    pub fn buf_len(&self) -> (r: usize)
        ensures
            r == 128,
    {
        1024 / 8
    }

    /// Calls `Bitmap::set`, which sets or clears bit `cpu` and returns what
    /// the bit was before.
    #[verifier::external_body]
    fn set_bit(&mut self, cpu: usize, on: bool) -> (was: bool)
        requires
            cpu < 1024,
        ensures
            was == affinity_cpus(*old(self)).contains(cpu as int),
            affinity_cpus(*final(self)) == if on {
                affinity_cpus(*old(self)).insert(cpu as int)
            } else {
                affinity_cpus(*old(self)).remove(cpu as int)
            },
    {
        self.affinity.set(cpu, on)
    }

    /// Iterates over the bitmap, which yields the indices of the set bits
    /// from the lowest to the highest, each below 1024.
    #[verifier::external_body]
    pub fn to_bits_vec(&self) -> (r: Vec<usize>)
        ensures
            is_cpu_list(affinity_cpus(*self), r@),
            forall|i: int| 0 <= i < r@.len() ==> r@[i] < 1024,
    {
        self.affinity.into_iter().collect()
    }

    /// The affinity that a mask of bytes stands for: CPU `c` belongs to it
    /// when bit `c % 8` of byte `c / 8` is set. `None` when the mask is not
    /// 128 bytes long.
    pub fn from_bytes(mask: &Vec<u8>) -> (r: Option<UblkQueueAffinity>)
        ensures
            r is Some <==> mask@.len() == 128,
            r is Some ==> forall|c: int|
                affinity_cpus(r->Some_0).contains(c) <==> spec_cpu_in_mask(mask@, c),
    {
        if mask.len() != 128 {
            return None;
        }
        let mut a = UblkQueueAffinity::new();
        let mut cpu: usize = 0;
        while cpu < 1024
            invariant
                cpu <= 1024,
                mask@.len() == 128,
                forall|c: int|
                    affinity_cpus(a).contains(c) <==> (c < cpu && spec_cpu_in_mask(mask@, c)),
            decreases 1024 - cpu,
        {
            let byte: u8 = mask[cpu / 8];
            let sh: u8 = (cpu % 8) as u8;
            let on: bool = (byte >> sh) & 1 == 1;
            a.set_bit(cpu, on);
            cpu = cpu + 1;
        }
        Some(a)
    }
}

} // verus!
