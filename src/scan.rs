//! The scan buffer: for one of the four scan phases, the four interleaved
//! framebuffer rows that the panel shows together, packed for one transfer.

use vstd::prelude::*;

verus! {

/// The order in which the four interleaved rows of a phase follow each other
/// within each 4-byte group of the scan buffer; it depends on the wiring.
#[derive(Clone, Copy, Debug, PartialEq, Eq)]
pub enum ScanOrder {
    /// Rows `phase`, `phase + 4`, `phase + 8`, `phase + 12`.
    Ascending,
    /// Rows `phase + 12`, `phase + 8`, `phase + 4`, `phase`.
    Descending,
}

/// The row offset, from the phase, of byte `k` of a 4-byte group.
pub open spec fn row_offset(order: ScanOrder, k: int) -> int {
    match order {
        ScanOrder::Ascending => 4 * k,
        ScanOrder::Descending => 12 - 4 * k,
    }
}

/// The framebuffer byte that lands at position `j` of the scan buffer.
pub open spec fn scan_source(stride: nat, phase: nat, order: ScanOrder, j: int) -> int {
    (phase + row_offset(order, j % 4)) * stride + j / 4
}

/// The scan buffer of `frame` for `phase`: byte `i` of each of the four rows
/// `phase + 4k` forms the `i`-th group of four bytes.
pub open spec fn scan_cache(frame: Seq<u8>, stride: nat, phase: nat, order: ScanOrder) -> Seq<u8> {
    Seq::new(4 * stride, |j: int| frame[scan_source(stride, phase, order, j)])
}

/// Every byte of the scan buffer is read from within the frame.
pub proof fn lemma_scan_source_in_frame(stride: nat, phase: nat, order: ScanOrder, j: int)
    requires
        phase < 4,
        0 <= j < 4 * stride,
    ensures
        0 <= scan_source(stride, phase, order, j) < 16 * stride,
{
    let row = phase + row_offset(order, j % 4);
    assert(0 <= row < 16);
    assert(0 <= j / 4 < stride);
    assert(0 <= row * stride + j / 4 < 16 * stride) by (nonlinear_arith)
        requires 0 <= row < 16, 0 <= j / 4 < stride;
}

/// A frame whose bytes all hold one value gives a scan buffer of that value
/// alone, in every phase and order: an all-dark frame sends only set bits,
/// an all-lit one only clear bits.
pub proof fn lemma_uniform_frame_scan(
    frame: Seq<u8>,
    stride: nat,
    phase: nat,
    order: ScanOrder,
    v: u8,
)
    requires
        frame.len() == 16 * stride,
        phase < 4,
        forall|i: int| 0 <= i < frame.len() ==> frame[i] == v,
    ensures
        scan_cache(frame, stride, phase, order).len() == 4 * stride,
        forall|j: int|
            0 <= j < 4 * stride ==> #[trigger] scan_cache(frame, stride, phase, order)[j] == v,
{
    assert forall|j: int| 0 <= j < 4 * stride implies #[trigger] scan_cache(
        frame,
        stride,
        phase,
        order,
    )[j] == v by {
        lemma_scan_source_in_frame(stride, phase, order, j);
    }
}

/// Overwrites `cache` with the scan buffer of `frame` for `phase`.
pub fn fill_scan_cache(
    cache: &mut Vec<u8>,
    frame: &Vec<u8>,
    stride: usize,
    phase: u8,
    order: ScanOrder,
)
    requires
        old(cache).len() == 4 * stride,
        frame.len() == 16 * stride,
        phase < 4,
    ensures
        final(cache)@ == scan_cache(frame@, stride as nat, phase as nat, order),
{
    let s = phase as usize;
    let rows: [usize; 4] = match order {
        ScanOrder::Ascending => [s, s + 4, s + 8, s + 12],
        ScanOrder::Descending => [s + 12, s + 8, s + 4, s],
    };
    let mut i: usize = 0;
    while i < stride
        invariant
            i <= stride,
            cache.len() == 4 * stride,
            frame.len() == 16 * stride,
            phase < 4,
            s == phase,
            forall|k: int| 0 <= k < 4 ==> rows@[k] == phase + row_offset(order, k),
            forall|j: int|
                0 <= j < 4 * i ==> cache@[j] == scan_cache(
                    frame@,
                    stride as nat,
                    phase as nat,
                    order,
                )[j],
        decreases stride - i,
    {
        let mut k: usize = 0;
        while k < 4
            invariant
                i < stride,
                k <= 4,
                cache.len() == 4 * stride,
                frame.len() == 16 * stride,
                phase < 4,
                forall|q: int| 0 <= q < 4 ==> rows@[q] == phase + row_offset(order, q),
                forall|j: int|
                    0 <= j < 4 * i + k ==> cache@[j] == scan_cache(
                        frame@,
                        stride as nat,
                        phase as nat,
                        order,
                    )[j],
            decreases 4 - k,
        {
            let j: usize = 4 * i + k;
            proof {
                lemma_scan_source_in_frame(stride as nat, phase as nat, order, j as int);
                assert(j % 4 == k && j / 4 == i);
                assert(rows[k as int] * stride + i == scan_source(
                    stride as nat,
                    phase as nat,
                    order,
                    j as int,
                ));
            }
            let b = frame[rows[k] * stride + i];
            cache.set(j, b);
            k = k + 1;
        }
        i = i + 1;
    }
    assert(cache@ =~= scan_cache(frame@, stride as nat, phase as nat, order));
}

} // verus!
