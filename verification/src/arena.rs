//! The bump arena that serves allocations while a graph is captured.

use crate::arith::law_padding;
use crate::arith::padded;
use crate::error::Error;
use crate::error::ErrorOf;
use vstd::prelude::*;

verus! {

/// The bytes that a request for `bytes` bytes takes up: the next multiple of 256.
pub open spec fn aligned(bytes: int) -> int {
    padded(bytes, 256)
}

/// Rounds `bytes` up to the next multiple of 256.
pub fn arena_align(bytes: usize) -> (r: usize)
    requires
        bytes + 255 <= usize::MAX,
    ensures
        r == aligned(bytes as int),
{
    let x: usize = bytes + 255;
    assert(x & !255 == x - x % 256) by (bit_vector);
    (bytes + 255) & !255
}

/// A fixed range of device memory that is handed out from front to back.
#[derive(Debug)]
pub struct CaptureArena {
    base_ptr: u64,
    total_bytes: usize,
    cursor: usize,
}

/// The state of an arena.
pub struct ArenaView {
    /// Device address of the first byte.
    pub base_ptr: u64,
    /// Bytes in all.
    pub total_bytes: usize,
    /// First byte that has not been handed out.
    pub cursor: usize,
}

impl View for CaptureArena {
    type V = ArenaView;

    closed spec fn view(&self) -> ArenaView {
        ArenaView {
            base_ptr: self.base_ptr,
            total_bytes: self.total_bytes,
            cursor: self.cursor,
        }
    }
}

/// The cursor after a request for `bytes` bytes; it stops at the last address.
pub open spec fn bump_cursor(cursor: usize, bytes: int) -> usize {
    if cursor + aligned(bytes) <= usize::MAX {
        (cursor + aligned(bytes)) as usize
    } else {
        usize::MAX
    }
}

/// An arena after a request for `bytes` bytes, granted or not.
pub open spec fn bump_after(a: ArenaView, bytes: int) -> ArenaView {
    ArenaView { cursor: bump_cursor(a.cursor, bytes), ..a }
}

/// What a request for `bytes` bytes gets: the offset of its first byte, or the refusal of an arena
/// that is exhausted.
pub open spec fn bump_result(a: ArenaView, bytes: int) -> Result<usize, ErrorOf<Seq<usize>>> {
    if a.cursor + bytes <= a.total_bytes {
        Ok(a.cursor)
    } else {
        Err(
            ErrorOf::ArenaExhausted {
                offset: a.cursor,
                bytes: bytes as usize,
                total_bytes: a.total_bytes,
            },
        )
    }
}

/// A failed or succeeded request for an offset, as a mathematical value.
pub open spec fn result_offset(r: Result<usize, Error>) -> Result<usize, ErrorOf<Seq<usize>>> {
    match r {
        Ok(o) => Ok(o),
        Err(e) => Err(e@),
    }
}

impl CaptureArena {
    /// An arena of `total_bytes` bytes at `base_ptr`.
    pub fn new(base_ptr: u64, total_bytes: usize) -> (r: CaptureArena)
        ensures
            r@ == (ArenaView { base_ptr, total_bytes, cursor: 0 }),
    {
        CaptureArena { base_ptr, total_bytes, cursor: 0 }
    }

    /// The device address of the first byte.
    pub fn base_ptr(&self) -> (r: u64)
        ensures
            r == self@.base_ptr,
    {
        self.base_ptr
    }

    /// Takes room for `len` elements of `elem_size` bytes each, and gives the offset of the first.
    /// A request that is refused uses up room too.
    pub fn bump_alloc(&mut self, len: usize, elem_size: usize) -> (r: Result<usize, Error>)
        requires
            len * elem_size + 255 <= usize::MAX,
        ensures
            final(self)@ == bump_after(old(self)@, len * elem_size),
            result_offset(r) == bump_result(old(self)@, len * elem_size),
    {
        assert(0 <= len * elem_size) by (nonlinear_arith);
        let bytes: usize = len * elem_size;
        let aligned: usize = arena_align(bytes);
        proof {
            law_padding(bytes as int, 256);
        }
        let offset: usize = self.cursor;
        self.cursor = offset.saturating_add(aligned);
        if bytes > self.total_bytes || offset > self.total_bytes - bytes {
            return Err(
                ErrorOf::ArenaExhausted { offset, bytes, total_bytes: self.total_bytes },
            );
        }
        Ok(offset)
    }
}

/// Bytes that an arena needs for requests of these sizes.
pub open spec fn arena_total(sizes: Seq<usize>) -> nat
    decreases sizes.len(),
{
    if sizes.len() == 0 {
        0
    } else {
        (arena_total(sizes.drop_last()) + aligned(sizes.last() as int)) as nat
    }
}

/// Each size can be aligned, and the sum of the aligned sizes fits the machine.
pub open spec fn arena_fits(sizes: Seq<usize>) -> bool {
    &&& forall|i: int| 0 <= i < sizes.len() ==> #[trigger] sizes[i] + 255 <= usize::MAX
    &&& arena_total(sizes) <= usize::MAX
}

proof fn lemma_total_grows(sizes: Seq<usize>, i: int)
    requires
        0 <= i <= sizes.len(),
    ensures
        arena_total(sizes.take(i)) <= arena_total(sizes),
    decreases sizes.len() - i,
{
    if i == sizes.len() {
        assert(sizes.take(i) =~= sizes);
    } else {
        lemma_total_grows(sizes, i + 1);
        let t = sizes.take(i + 1);
        assert(t.drop_last() =~= sizes.take(i));
        law_padding(t.last() as int, 256);
    }
}

/// Adds up the aligned sizes; nothing where they exceed the machine.
pub fn sum_aligned(sizes: &[usize]) -> (r: Option<usize>)
    ensures
        match r {
            Some(total) => arena_fits(sizes@) && total == arena_total(sizes@),
            None => !arena_fits(sizes@),
        },
{
    let mut total: usize = 0;
    let mut i: usize = 0;
    assert(sizes@.take(0) =~= Seq::<usize>::empty());
    while i < sizes.len()
        invariant
            i <= sizes@.len(),
            total == arena_total(sizes@.take(i as int)),
            forall|j: int| 0 <= j < i ==> #[trigger] sizes@[j] + 255 <= usize::MAX,
        decreases sizes@.len() - i,
    {
        if sizes[i] > usize::MAX - 255 {
            return None;
        }
        let aligned: usize = arena_align(sizes[i]);
        proof {
            let t = sizes@.take(i + 1);
            assert(t.drop_last() =~= sizes@.take(i as int));
            assert(t.last() == sizes@[i as int]);
            lemma_total_grows(sizes@, i + 1);
        }
        if aligned > usize::MAX - total {
            return None;
        }
        total = total + aligned;
        i = i + 1;
    }
    assert(sizes@.take(i as int) =~= sizes@);
    Some(total)
}

/// An arena after requests of these sizes, in order.
pub open spec fn bump_all(a: ArenaView, sizes: Seq<usize>) -> ArenaView
    decreases sizes.len(),
{
    if sizes.len() == 0 {
        a
    } else {
        bump_after(bump_all(a, sizes.drop_last()), sizes.last() as int)
    }
}

/// An arena that nothing was taken from yet.
pub open spec fn fresh_arena(base_ptr: u64, total_bytes: usize) -> ArenaView {
    ArenaView { base_ptr, total_bytes, cursor: 0 }
}

proof fn lemma_cursor(base_ptr: u64, total_bytes: usize, sizes: Seq<usize>)
    requires
        arena_total(sizes) <= usize::MAX,
    ensures
        bump_all(fresh_arena(base_ptr, total_bytes), sizes).cursor == arena_total(sizes),
        bump_all(fresh_arena(base_ptr, total_bytes), sizes).total_bytes == total_bytes,
        bump_all(fresh_arena(base_ptr, total_bytes), sizes).base_ptr == base_ptr,
        arena_total(sizes) % 256 == 0,
    decreases sizes.len(),
{
    if sizes.len() > 0 {
        lemma_total_grows(sizes, sizes.len() - 1);
        assert(sizes.take(sizes.len() - 1) =~= sizes.drop_last());
        lemma_cursor(base_ptr, total_bytes, sizes.drop_last());
        law_padding(sizes.last() as int, 256);
    }
}

/// An arena that was sized by the requests of one pass grants the same requests in a second pass,
/// every one of them.
pub proof fn law_arena_replay(base_ptr: u64, sizes: Seq<usize>, i: int)
    requires
        arena_fits(sizes),
        0 <= i < sizes.len(),
    ensures
        bump_result(
            bump_all(fresh_arena(base_ptr, arena_total(sizes) as usize), sizes.take(i)),
            sizes[i] as int,
        ) == Ok::<usize, ErrorOf<Seq<usize>>>(arena_total(sizes.take(i)) as usize),
{
    lemma_total_grows(sizes, i);
    lemma_total_grows(sizes, i + 1);
    lemma_cursor(base_ptr, arena_total(sizes) as usize, sizes.take(i));
    let t = sizes.take(i + 1);
    assert(t.drop_last() =~= sizes.take(i));
    assert(t.last() == sizes[i]);
    law_padding(sizes[i] as int, 256);
}

/// What an arena has handed out it does not hand out again: whatever was asked for in between,
/// granted or not, a granted request starts where an earlier granted one has ended, or later.
/// Every granted range lies within the arena.
pub proof fn law_arena_ranges_disjoint(
    a: ArenaView,
    first: usize,
    between: Seq<usize>,
    second: usize,
)
    requires
        bump_result(a, first as int) is Ok,
        bump_result(bump_all(bump_after(a, first as int), between), second as int) is Ok,
    ensures
        bump_result(a, first as int)->Ok_0 + first <= bump_result(
            bump_all(bump_after(a, first as int), between),
            second as int,
        )->Ok_0,
        bump_result(bump_all(bump_after(a, first as int), between), second as int)->Ok_0 + second
            <= a.total_bytes,
{
    law_padding(first as int, 256);
    lemma_cursor_grows(bump_after(a, first as int), between);
}

proof fn lemma_cursor_grows(a: ArenaView, sizes: Seq<usize>)
    ensures
        bump_all(a, sizes).cursor >= a.cursor,
        bump_all(a, sizes).total_bytes == a.total_bytes,
    decreases sizes.len(),
{
    if sizes.len() > 0 {
        lemma_cursor_grows(a, sizes.drop_last());
        law_padding(sizes.last() as int, 256);
    }
}

/// Every granted request of a pass starts at a multiple of the alignment.
pub proof fn law_arena_offsets_aligned(
    base_ptr: u64,
    total_bytes: usize,
    sizes: Seq<usize>,
    next: usize,
)
    requires
        arena_total(sizes) <= usize::MAX,
        bump_result(bump_all(fresh_arena(base_ptr, total_bytes), sizes), next as int) is Ok,
    ensures
        bump_result(
            bump_all(fresh_arena(base_ptr, total_bytes), sizes),
            next as int,
        )->Ok_0 as int % 256 == 0,
{
    lemma_cursor(base_ptr, total_bytes, sizes);
}

/// Aligning rounds up to a multiple of 256 by less than 256, and leaves multiples as they are.
pub proof fn law_arena_align(bytes: int)
    requires
        bytes >= 0,
    ensures
        aligned(bytes) % 256 == 0,
        bytes <= aligned(bytes) < bytes + 256,
        bytes % 256 == 0 ==> aligned(bytes) == bytes,
{
    law_padding(bytes, 256);
}

/// A request is granted exactly where it fits what has not been handed out, whatever it is rounded
/// up to, and it gets the first byte of that. It moves the next request to the first multiple of
/// 256 behind it, counted from its own start, and so does one that is refused, which is told what
/// it asked for and what there is. Address and size of the arena stay.
pub proof fn law_arena_grants_what_fits(a: ArenaView, bytes: usize)
    ensures
        ({
            let after = bump_after(a, bytes as int);
            let moved = after.cursor - a.cursor;
            &&& bump_result(a, bytes as int) == if a.cursor + bytes <= a.total_bytes {
                Ok::<usize, ErrorOf<Seq<usize>>>(a.cursor)
            } else {
                Err(
                    ErrorOf::ArenaExhausted {
                        offset: a.cursor,
                        bytes,
                        total_bytes: a.total_bytes,
                    },
                )
            }
            &&& after.base_ptr == a.base_ptr
            &&& after.total_bytes == a.total_bytes
            &&& after.cursor < usize::MAX ==> moved % 256 == 0 && bytes <= moved < bytes + 256
            &&& a.cursor + bytes + 256 <= usize::MAX ==> moved % 256 == 0 && bytes <= moved < bytes
                + 256
            &&& a.cursor <= after.cursor
        }),
{
    law_padding(bytes as int, 256);
}

/// The memory for requests is the sum of what each takes up: a request more adds its own size
/// rounded up to a multiple of 256, wherever it comes among the others.
pub proof fn law_arena_total_adds_up(a: Seq<usize>, b: Seq<usize>)
    ensures
        arena_total(a + b) == arena_total(a) + arena_total(b),
        arena_total(Seq::<usize>::empty()) == 0,
        forall|n: usize|
            #[trigger] arena_total(seq![n]) % 256 == 0 && n <= arena_total(seq![n]) < n + 256,
    decreases b.len(),
{
    assert forall|n: usize| #[trigger] arena_total(seq![n]) % 256 == 0 && n <= arena_total(seq![n])
        < n + 256 by {
        assert(seq![n].drop_last() =~= Seq::<usize>::empty());
        assert(arena_total(Seq::<usize>::empty()) == 0);
        law_padding(n as int, 256);
    }
    if b.len() == 0 {
        assert(a + b =~= a);
    } else {
        law_arena_total_adds_up(a, b.drop_last());
        assert((a + b).drop_last() =~= a + b.drop_last());
        law_padding(b.last() as int, 256);
    }
}

/// Requests of ordinary size fit: where each is at most `most` bytes and there is room for as many of
/// that size, rounded up, an arena can be sized by them.
pub proof fn law_ordinary_requests_fit(sizes: Seq<usize>, most: int)
    requires
        forall|i: int| 0 <= i < sizes.len() ==> #[trigger] sizes[i] <= most,
        (sizes.len() + 1) * (most + 256) <= usize::MAX,
        most >= 0,
    ensures
        arena_fits(sizes),
        arena_total(sizes) <= sizes.len() * (most + 256),
    decreases sizes.len(),
{
    assert(most + 256 <= (sizes.len() + 1) * (most + 256)) by (nonlinear_arith)
        requires
            most >= 0,
    ;
    if sizes.len() > 0 {
        let front = sizes.drop_last();
        assert(sizes.len() * (most + 256) == front.len() * (most + 256) + (most + 256))
            by (nonlinear_arith)
            requires
                sizes.len() == front.len() + 1,
        ;
        assert((front.len() + 1) * (most + 256) <= (sizes.len() + 1) * (most + 256))
            by (nonlinear_arith)
            requires
                front.len() <= sizes.len(),
                most >= 0,
        ;
        assert forall|i: int| 0 <= i < front.len() implies #[trigger] front[i] <= most by {
            assert(front[i] == sizes[i]);
        }
        law_ordinary_requests_fit(front, most);
        law_padding(sizes.last() as int, 256);
        assert(sizes[sizes.len() - 1] <= most);
    }
    assert((sizes.len() + 1) * (most + 256) == sizes.len() * (most + 256) + (most + 256))
        by (nonlinear_arith);
}

} // verus!
