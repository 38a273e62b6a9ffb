//! Overflow-checked scratch sizing and the execution-mode selector.
//!
//! Scratch-size computations combine element sizes, element counts, an
//! alignment reserve and a worker count; for large cryptographic
//! parameter sets the intermediate products and sums can exceed the
//! representable range.  Every step is overflow-checked, and an overflow
//! is reported as `SizeOverflow` — never as a wrapped or truncated size.

use vstd::prelude::*;

verus! {

/// Whether a computed scratch size is trustworthy.  The stable numeric
/// codes of the variants, in declaration order, are 0 for `Valid` and 1
/// for `SizeOverflow` (see `code`).
#[derive(Copy, Clone, Debug, PartialEq, Eq, Structural)]
pub enum ScratchStatus {
    Valid,
    SizeOverflow,
}

/// Execution-mode selector, threaded identically through the sizing call
/// and the execution call of one logical operation: `No` selects strictly
/// sequential execution with no per-worker replication, `Rayon` a
/// work-stealing strategy whose scratch layout reserves space per worker.
/// The stable numeric codes of the variants, in declaration order, are 0
/// for `No` and 1 for `Rayon` (see `code`).
#[derive(Copy, Clone, Debug, PartialEq, Eq, Structural)]
pub enum Parallelism {
    No,
    Rayon,
}

impl ScratchStatus {
    /// The fixed numeric code of this status in the binary contract.
    pub fn code(&self) -> (c: u32)
        ensures
            c == 0 <==> *self is Valid,
            c == 1 <==> *self is SizeOverflow,
    {
        match self {
            ScratchStatus::Valid => 0,
            ScratchStatus::SizeOverflow => 1,
        }
    }
}

impl Parallelism {
    /// The fixed numeric code of this mode in the binary contract.
    pub fn code(&self) -> (c: u32)
        ensures
            c == 0 <==> *self is No,
            c == 1 <==> *self is Rayon,
    {
        match self {
            Parallelism::No => 0,
            Parallelism::Rayon => 1,
        }
    }

    /// How many copies of the per-worker scratch region the mode lays
    /// out: one for sequential execution, one per worker for `Rayon`.
    pub open spec fn spec_worker_copies(self, worker_count: int) -> int {
        match self {
            Parallelism::No => 1,
            Parallelism::Rayon => worker_count,
        }
    }

    /// Executable form of `spec_worker_copies`.
    pub fn worker_copies(&self, worker_count: usize) -> (c: usize)
        ensures
            c == self.spec_worker_copies(worker_count as int),
    {
        match self {
            Parallelism::No => 1,
            Parallelism::Rayon => worker_count,
        }
    }
}

/// The exact scratch size that one logical operation needs, as an
/// unbounded integer: each worker copy holds `elem_bytes * elem_count`
/// payload bytes plus `align` reserve bytes for aligning its base.
pub open spec fn spec_scratch_size(
    elem_bytes: int,
    elem_count: int,
    align: int,
    worker_count: int,
    mode: Parallelism,
) -> int {
    (elem_bytes * elem_count + align) * mode.spec_worker_copies(worker_count)
}

/// Computes the scratch size for one logical operation, with every step
/// overflow-checked.  Returns `Valid` together with the exact size
/// whenever that size is representable, and `SizeOverflow` with no size
/// (zero in its place) exactly otherwise.
pub fn scratch_size(
    elem_bytes: usize,
    elem_count: usize,
    align: usize,
    worker_count: usize,
    mode: Parallelism,
) -> (r: (ScratchStatus, usize))
    ensures
        r.0 is Valid <==> spec_scratch_size(
            elem_bytes as int,
            elem_count as int,
            align as int,
            worker_count as int,
            mode,
        ) <= usize::MAX,
        r.0 is Valid ==> r.1 == spec_scratch_size(
            elem_bytes as int,
            elem_count as int,
            align as int,
            worker_count as int,
            mode,
        ),
        r.0 is SizeOverflow ==> r.1 == 0,
{
    let copies = mode.worker_copies(worker_count);
    if copies == 0 {
        proof {
            assert(spec_scratch_size(
                elem_bytes as int,
                elem_count as int,
                align as int,
                worker_count as int,
                mode,
            ) == 0) by (nonlinear_arith)
                requires
                    mode.spec_worker_copies(worker_count as int) == 0,
            ;
        }
        return (ScratchStatus::Valid, 0);
    }
    let payload = match elem_bytes.checked_mul(elem_count) {
        Some(p) => p,
        None => {
            proof {
                lemma_grows_with_copies(
                    elem_bytes as int,
                    elem_count as int,
                    align as int,
                    copies as int,
                );
            }
            return (ScratchStatus::SizeOverflow, 0);
        },
    };
    let per_worker = match payload.checked_add(align) {
        Some(s) => s,
        None => {
            proof {
                lemma_grows_with_copies(
                    elem_bytes as int,
                    elem_count as int,
                    align as int,
                    copies as int,
                );
            }
            return (ScratchStatus::SizeOverflow, 0);
        },
    };
    match per_worker.checked_mul(copies) {
        Some(total) => (ScratchStatus::Valid, total),
        None => (ScratchStatus::SizeOverflow, 0),
    }
}

/// With at least one worker copy, the total scratch size is at least the
/// per-worker payload and at least the per-worker region, so an overflow
/// in an intermediate step already exceeds every representable total.
proof fn lemma_grows_with_copies(elem_bytes: int, elem_count: int, align: int, copies: int)
    requires
        0 <= elem_bytes,
        0 <= elem_count,
        0 <= align,
        1 <= copies,
    ensures
        (elem_bytes * elem_count + align) * copies >= elem_bytes * elem_count + align,
        elem_bytes * elem_count + align >= elem_bytes * elem_count,
{
    assert((elem_bytes * elem_count + align) * copies >= elem_bytes * elem_count + align)
        by (nonlinear_arith)
        requires
            0 <= elem_bytes,
            0 <= elem_count,
            0 <= align,
            1 <= copies,
    ;
}

/// Mode consistency: for identical logical inputs with a positive
/// alignment reserve, `Rayon` sizing is strictly larger than `No` sizing
/// whenever the workload has more than one worker, and exactly equal for
/// a single-worker workload.
pub proof fn lemma_mode_consistency(elem_bytes: int, elem_count: int, align: int, worker_count: int)
    requires
        0 <= elem_bytes,
        0 <= elem_count,
        1 <= align,
    ensures
        worker_count > 1 ==> spec_scratch_size(
            elem_bytes,
            elem_count,
            align,
            worker_count,
            Parallelism::Rayon,
        ) > spec_scratch_size(elem_bytes, elem_count, align, worker_count, Parallelism::No),
        worker_count == 1 ==> spec_scratch_size(
            elem_bytes,
            elem_count,
            align,
            worker_count,
            Parallelism::Rayon,
        ) == spec_scratch_size(elem_bytes, elem_count, align, worker_count, Parallelism::No),
{
    let per_worker = elem_bytes * elem_count + align;
    assert(per_worker >= 1) by (nonlinear_arith)
        requires
            per_worker == elem_bytes * elem_count + align,
            0 <= elem_bytes,
            0 <= elem_count,
            1 <= align,
    ;
    assert(worker_count > 1 ==> per_worker * worker_count > per_worker * 1) by (nonlinear_arith)
        requires
            per_worker >= 1,
    ;
}

} // verus!

