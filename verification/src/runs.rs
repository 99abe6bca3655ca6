//! Work that is cut into consecutive runs of bounded length.

use crate::arith::ceil_quot;
use crate::arith::lemma_ceil_quot;
use crate::launch::Span;
use vstd::prelude::*;

verus! {

/// Units of the `i`th run out of `units` in runs of `chunk`.
pub open spec fn run_units(units: int, chunk: int, i: int) -> int {
    if units - i * chunk < chunk {
        units - i * chunk
    } else {
        chunk
    }
}

/// The part of a buffer that the `i`th run takes when each unit takes `width` elements.
pub open spec fn run_span(units: int, chunk: int, width: int, i: int) -> Span {
    Span {
        start: (i * chunk * width) as usize,
        len: (run_units(units, chunk, i) * width) as usize,
    }
}

/// The runs over `units` units of `width` elements follow one another without gap or overlap, from
/// the start of a buffer of `total` elements to its end.
pub open spec fn runs_tile(units: int, chunk: int, width: int, total: int) -> bool {
    let count = ceil_quot(units, chunk);
    &&& count > 0
    &&& run_span(units, chunk, width, 0).start == 0
    &&& forall|i: int, j: int|
        0 <= i && j == i + 1 && j < count ==> (#[trigger] run_span(units, chunk, width, i)).start
            + run_span(units, chunk, width, i).len == (#[trigger] run_span(
            units,
            chunk,
            width,
            j,
        )).start
    &&& run_span(units, chunk, width, count - 1).start + run_span(
        units,
        chunk,
        width,
        count - 1,
    ).len == total
}

/// The runs are full but for the last one, which ends where the units end.
pub proof fn lemma_run(units: int, chunk: int, i: int)
    requires
        units >= 0,
        chunk > 0,
        0 <= i < ceil_quot(units, chunk),
    ensures
        0 <= i * chunk < units,
        0 < run_units(units, chunk, i) <= chunk,
        i * chunk + run_units(units, chunk, i) <= units,
        i + 1 < ceil_quot(units, chunk) ==> i * chunk + run_units(units, chunk, i) == (i + 1)
            * chunk && run_units(units, chunk, i) == chunk,
        i + 1 == ceil_quot(units, chunk) ==> i * chunk + run_units(units, chunk, i) == units,
{
    lemma_ceil_quot(units, chunk);
    let c = ceil_quot(units, chunk);
    assert((i + 1) * chunk == i * chunk + chunk) by (nonlinear_arith);
    assert(0 <= i * chunk) by (nonlinear_arith)
        requires
            0 <= i,
            chunk > 0,
    ;
    assert((i + 1) * chunk <= c * chunk) by (nonlinear_arith)
        requires
            i + 1 <= c,
            chunk > 0,
    ;
    if i + 1 < c {
        assert((i + 2) * chunk <= c * chunk) by (nonlinear_arith)
            requires
                i + 2 <= c,
                chunk > 0,
        ;
        assert((i + 2) * chunk == i * chunk + chunk + chunk) by (nonlinear_arith);
    }
}

/// Part of the units take no more room than all of them.
pub proof fn lemma_part(part: int, units: int, width: int)
    requires
        0 <= part <= units,
        width >= 0,
    ensures
        0 <= part * width <= units * width,
{
    assert(0 <= part * width <= units * width) by (nonlinear_arith)
        requires
            0 <= part <= units,
            width >= 0,
    ;
}

/// The part that a run takes lies within the buffer.
pub proof fn lemma_run_span(units: int, chunk: int, width: int, i: int)
    requires
        units >= 0,
        chunk > 0,
        width >= 0,
        units * width <= usize::MAX,
        0 <= i < ceil_quot(units, chunk),
    ensures
        run_span(units, chunk, width, i).start == i * chunk * width,
        run_span(units, chunk, width, i).len == run_units(units, chunk, i) * width,
        run_span(units, chunk, width, i).start + run_span(units, chunk, width, i).len == (i * chunk
            + run_units(units, chunk, i)) * width,
        run_span(units, chunk, width, i).start + run_span(units, chunk, width, i).len <= units
            * width,
{
    lemma_run(units, chunk, i);
    let first = i * chunk;
    let len = run_units(units, chunk, i);
    lemma_part(first, units, width);
    lemma_part(len, units, width);
    lemma_part(first + len, units, width);
    assert((first + len) * width == first * width + len * width) by (nonlinear_arith);
}

/// Runs over a positive number of units tile their buffer.
pub proof fn lemma_runs_tile(units: int, chunk: int, width: int)
    requires
        units > 0,
        chunk > 0,
        width >= 0,
        units * width <= usize::MAX,
    ensures
        runs_tile(units, chunk, width, units * width),
{
    lemma_ceil_quot(units, chunk);
    let count = ceil_quot(units, chunk);
    assert(count > 0) by (nonlinear_arith)
        requires
            0 < units <= count * chunk,
            chunk > 0,
    ;
    lemma_run_span(units, chunk, width, 0);
    assert(0 * chunk * width == 0);
    assert forall|i: int, j: int| 0 <= i && j == i + 1 && j < count implies (#[trigger] run_span(
        units,
        chunk,
        width,
        i,
    )).start + run_span(units, chunk, width, i).len == (#[trigger] run_span(
        units,
        chunk,
        width,
        j,
    )).start by {
        lemma_run(units, chunk, i);
        lemma_run_span(units, chunk, width, i);
        lemma_run_span(units, chunk, width, j);
    }
    lemma_run(units, chunk, count - 1);
    lemma_run_span(units, chunk, width, count - 1);
}

} // verus!
