//! Moving bytes between buffers.

use vstd::prelude::*;

verus! {

/// The smaller of two sizes.
pub open spec fn squash_min(a: int, b: int) -> int {
    if a <= b {
        a
    } else {
        b
    }
}

/// Copies the `count` bytes of `source` that start at `from` to the front of
/// `target`, and leaves the rest of `target` as it was.
pub fn squash_buffer_copy(target: &mut [u8], source: &[u8], from: usize, count: usize)
    requires
        count <= old(target)@.len(),
        from + count <= source@.len(),
    ensures
        final(target)@.len() == old(target)@.len(),
        final(target)@.subrange(0, count as int) == source@.subrange(
            from as int,
            from + count,
        ),
        final(target)@.subrange(count as int, old(target)@.len() as int) == old(
            target,
        )@.subrange(count as int, old(target)@.len() as int),
{
    let limit: usize = source.len();
    let mut i: usize = 0;
    while i < count
        invariant
            i <= count,
            count <= target@.len(),
            from + count <= source@.len(),
            limit == source@.len(),
            target@.len() == old(target)@.len(),
            target@.subrange(0, i as int) == source@.subrange(from as int, from + i),
            target@.subrange(count as int, target@.len() as int) == old(target)@.subrange(
                count as int,
                old(target)@.len() as int,
            ),
        decreases count - i,
    {
        let ghost before = target@;
        target[i] = source[from + i];
        proof {
            assert(target@.subrange(0, i + 1) =~= source@.subrange(from as int, from + i + 1)) by {
                assert forall|k: int| 0 <= k < i + 1 implies target@[k] == source@[from + k] by {
                    if k < i {
                        assert(before.subrange(0, i as int)[k] == source@.subrange(
                            from as int,
                            from + i,
                        )[k]);
                    }
                }
            }
        }
        i = i + 1;
    }
}

/// Appends the first `count` bytes of `source` to `target`.
pub fn squash_buffer_append(target: &mut Vec<u8>, source: &[u8], count: usize)
    requires
        count <= source@.len(),
    ensures
        final(target)@ == old(target)@ + source@.subrange(0, count as int),
{
    let mut i: usize = 0;
    while i < count
        invariant
            i <= count <= source@.len(),
            target@ == old(target)@ + source@.subrange(0, i as int),
        decreases count - i,
    {
        target.push(source[i]);
        i = i + 1;
    }
}

/// A buffer of `size` zero bytes.
pub fn squash_buffer_zeroed(size: usize) -> (buffer: Vec<u8>)
    ensures
        buffer@.len() == size,
        forall|i: int| 0 <= i < size ==> buffer@[i] == 0u8,
{
    let mut buffer: Vec<u8> = Vec::new();
    let mut i: usize = 0;
    while i < size
        invariant
            i <= size,
            buffer@.len() == i,
            forall|k: int| 0 <= k < i ==> buffer@[k] == 0u8,
        decreases size - i,
    {
        buffer.push(0u8);
        i = i + 1;
    }
    buffer
}

} // verus!
