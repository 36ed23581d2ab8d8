//! Layout arithmetic of the allocation shim.
//!
//! The parser engine allocates with the classic `malloc` / `realloc` / `free`
//! triad, which does not hand the size back at release time, while the host
//! allocator must be given, at release, exactly the layout it allocated with.
//! Each block therefore starts with a header that records the size the engine
//! asked for; the engine sees the address just past the header. Everything
//! here is plain arithmetic on sizes: the pointer work stays with the caller.
use vstd::layout::{align_of, layout_for_type_is_valid, size_of, valid_layout};
use vstd::prelude::*;

verus! {

/// What to ask the host allocator for: a size in bytes and an alignment.
#[derive(Clone, Copy, Debug, PartialEq, Eq, Structural)]
pub struct BlockLayout {
    pub size: usize,
    pub align: usize,
}

/// The steps of a resize: the layout the block was allocated with, the size
/// to grow or shrink it to, and how many payload bytes survive.
#[derive(Clone, Copy, Debug, PartialEq, Eq, Structural)]
pub struct ResizePlan {
    pub old: BlockLayout,
    pub new_size: usize,
    pub kept: usize,
}

/// Bytes in front of the payload; they hold the requested size.
pub open spec fn header_bytes() -> nat {
    size_of::<usize>()
}

/// The alignment of every block: that of the host's word.
pub open spec fn block_alignment() -> nat {
    align_of::<usize>()
}

/// The layout of a block whose payload is `requested` bytes, or `None` when
/// the host allocator cannot describe one (the size with its header does not
/// fit, or rounded up to the alignment it passes `isize::MAX`).
pub open spec fn layout_of_request(requested: nat) -> Option<BlockLayout> {
    let total = header_bytes() + requested;
    if total <= usize::MAX && valid_layout(total as usize, block_alignment() as usize) {
        Some(BlockLayout { size: total as usize, align: block_alignment() as usize })
    } else {
        None
    }
}

/// The payload size that the header of a block of layout `l` records.
pub open spec fn recorded_size(l: BlockLayout) -> int {
    l.size - header_bytes()
}

/// The plan to resize a block whose header records `old_requested` to a
/// payload of `new_requested` bytes.
pub open spec fn resize_of(old_requested: nat, new_requested: nat) -> Option<ResizePlan> {
    match (layout_of_request(old_requested), layout_of_request(new_requested)) {
        (Some(old), Some(new)) => Some(
            ResizePlan {
                old,
                new_size: new.size,
                kept: if old_requested <= new_requested {
                    old_requested as usize
                } else {
                    new_requested as usize
                },
            },
        ),
        _ => None,
    }
}

/// The alignment of every block.
pub fn block_align() -> (r: usize)
    ensures
        r == block_alignment(),
        vstd::arithmetic::power2::is_pow2(r as int),
{
    layout_for_type_is_valid::<usize>();
    core::mem::align_of::<usize>()
}

/// The length of the header, which is also the offset of the payload from
/// the start of the block. It is a multiple of the alignment, so the payload
/// is as aligned as the block, and it holds a `usize`.
pub fn header_len() -> (r: usize)
    ensures
        r == header_bytes(),
        4 <= r <= 8,
        r as nat % block_alignment() == 0,
        r <= isize::MAX - (isize::MAX as int) % (block_alignment() as int),
{
    layout_for_type_is_valid::<usize>();
    broadcast use vstd::layout::layout_of_primitives;

    core::mem::size_of::<usize>()
}

/// The layout to allocate for a payload of `requested` bytes, and also the
/// layout to release a block with, given the size its header records.
pub fn layout_for(requested: usize) -> (r: Option<BlockLayout>)
    ensures
        r == layout_of_request(requested as nat),
        r is Some <==> requested + header_bytes() <= isize::MAX - (isize::MAX as int) % (
        block_alignment() as int),
{
    let header = header_len();
    let align = block_align();
    layout_for_type_is_valid::<usize>();
    match requested.checked_add(header) {
        None => None,
        Some(total) => {
            let limit = isize::MAX as usize;
            if total <= limit - limit % align {
                Some(BlockLayout { size: total, align })
            } else {
                None
            }
        },
    }
}

/// How to resize a block whose header records `old_requested` to a payload of
/// `new_requested` bytes; `None` when no block of the new size can be had.
pub fn plan_resize(old_requested: usize, new_requested: usize) -> (r: Option<ResizePlan>)
    requires
        layout_of_request(old_requested as nat) is Some,
    ensures
        r == resize_of(old_requested as nat, new_requested as nat),
        r is None <==> layout_of_request(new_requested as nat) is None,
{
    let old = match layout_for(old_requested) {
        Some(l) => l,
        None => { return None; },
    };
    match layout_for(new_requested) {
        None => None,
        Some(new) => {
            let kept = if old_requested <= new_requested {
                old_requested
            } else {
                new_requested
            };
            Some(ResizePlan { old, new_size: new.size, kept })
        },
    }
}

/// Releasing a block rebuilds, from the size its header records, exactly the
/// layout the block was allocated with.
pub proof fn lemma_release_matches_allocation(requested: nat)
    requires
        layout_of_request(requested) is Some,
    ensures
        recorded_size(layout_of_request(requested).unwrap()) == requested,
        layout_of_request(recorded_size(layout_of_request(requested).unwrap()) as nat)
            == layout_of_request(requested),
{
}

/// Resizing keeps the payload: the host's reallocation keeps the first
/// `min(old size, new size)` bytes of the block, which cover the header and
/// the first `min(old, new)` payload bytes, so that growing a block keeps all
/// of its old payload. The block that results is released with the layout of
/// its new payload size.
pub proof fn lemma_resize_keeps_payload(old_requested: nat, new_requested: nat)
    requires
        layout_of_request(old_requested) is Some,
        layout_of_request(new_requested) is Some,
    ensures
        resize_of(old_requested, new_requested) is Some,
        ({
            let p = resize_of(old_requested, new_requested).unwrap();
            &&& header_bytes() + p.kept <= p.old.size
            &&& header_bytes() + p.kept <= p.new_size
            &&& old_requested <= new_requested ==> p.kept == old_requested
            &&& layout_of_request(new_requested) == Some(
                BlockLayout { size: p.new_size, align: p.old.align },
            )
        }),
{
}

} // verus!
