//! Copying bytes between buffers, and into the pages of a user image.

use vstd::prelude::*;
use crate::process::PAGE_SIZE;

verus! {

/// Copies the first `n` bytes of `src` to the start of `dest`, leaves the
/// rest of `dest` as it is, and hands `dest` back.
pub fn memcpy<'a>(dest: &'a mut [u8], src: &[u8], n: usize) -> (out: &'a mut [u8])
    requires
        n <= old(dest)@.len(),
        n <= src@.len(),
    ensures
        out@ == src@.subrange(0, n as int) + old(dest)@.subrange(n as int, old(dest)@.len() as int),
        final(dest)@ == final(out)@,
{
    let mut i: usize = 0;
    while i < n
        invariant
            i <= n,
            n <= src@.len(),
            dest@.len() == old(dest)@.len(),
            n <= dest@.len(),
            forall|j: int| 0 <= j < i ==> dest@[j] == src@[j],
            forall|j: int| i <= j < dest@.len() ==> dest@[j] == old(dest)@[j],
        decreases n - i,
    {
        dest[i] = src[i];
        i += 1;
    }
    dest
}

/// Where in its page the address `va` lies.
pub open spec fn page_offset(va: usize) -> int {
    va as int % PAGE_SIZE as int
}

/// The first page of a segment that is loaded at `va`, once the segment's
/// bytes `image` are mapped into it: what lies below `va` in the page stays,
/// and from `va` to the end of the page stand the first bytes of the image.
/// A segment that begins on a page boundary has no such page.
pub open spec fn head_mapped(va: usize, image: Seq<u8>, page: Seq<u8>) -> Seq<u8> {
    let offset = page_offset(va);
    if offset == 0 {
        page
    } else {
        page.subrange(0, offset) + image.subrange(0, PAGE_SIZE - offset)
    }
}

/// Maps the head of a segment: where the segment's address `va` is not on a
/// page boundary, the first bytes of `image` are copied into `page`, from
/// the place of `va` in it to its end. Otherwise nothing is copied.
pub fn map(va: usize, image: &[u8], page: &mut [u8])
    requires
        old(page)@.len() == PAGE_SIZE,
        page_offset(va) != 0 ==> image@.len() >= PAGE_SIZE - page_offset(va),
    ensures
        final(page)@ == head_mapped(va, image@, old(page)@),
{
    let size: usize = PAGE_SIZE as usize;
    let offset: usize = va % size;
    if offset > 0 {
        let count: usize = size - offset;
        let mut i: usize = 0;
        while i < count
            invariant
                i <= count,
                count == size - offset,
                0 < offset < size,
                size == PAGE_SIZE,
                count <= image@.len(),
                page@.len() == size,
                forall|j: int| 0 <= j < offset + i ==> page@[j] == if j < offset {
                    old(page)@[j]
                } else {
                    image@[j - offset]
                },
            decreases count - i,
        {
            page[offset + i] = image[i];
            i += 1;
        }
    }
}

} // verus!
