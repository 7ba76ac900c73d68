use vstd::prelude::*;

verus! {

/// The lowest-numbered CPU that the thread may run on, given its affinity
/// mask (entry `i` tells whether CPU `i` is allowed), or nothing when the
/// mask could not be read or allows no CPU.
pub fn first_allowed_cpu(affinity: &Option<Vec<bool>>) -> (cpu: Option<usize>)
    ensures
        match cpu {
            Some(i) => affinity matches Some(mask) && i < mask@.len() && mask@[i as int]
                && forall|j: int| 0 <= j < i ==> !mask@[j],
            None => affinity matches Some(mask) ==> forall|j: int| 0 <= j < mask@.len() ==> !mask@[j],
        },
{
    match affinity {
        None => None,
        Some(mask) => {
            let mut i: usize = 0;
            while i < mask.len()
                invariant
                    i <= mask@.len(),
                    *affinity == Some(*mask),
                    forall|j: int| 0 <= j < i ==> !mask@[j],
                decreases mask@.len() - i,
            {
                if mask[i] {
                    return Some(i);
                }
                i = i + 1;
            }
            None
        },
    }
}

} // verus!
