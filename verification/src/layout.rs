//! Buffer layouts shared by the C entry points: interleaved complex
//! buffers, per-edge signals flattened edge after edge, and x-fastest
//! multi-dimensional grids.
//!
//! Every function here is generic in the element type: the layouts move
//! values around without looking at them.

use vstd::prelude::*;
use crate::status::SemiflowStatus;
use vstd::arithmetic::div_mod::lemma_fundamental_div_mod_converse;

verus! {

/// `buf` read as `[re0, im0, re1, im1, ...]`: the real parts.
pub open spec fn spec_real_parts<T>(buf: Seq<T>) -> Seq<T> {
    Seq::new(buf.len() / 2, |i: int| buf[2 * i])
}

/// `buf` read as `[re0, im0, re1, im1, ...]`: the imaginary parts.
pub open spec fn spec_imag_parts<T>(buf: Seq<T>) -> Seq<T> {
    Seq::new(buf.len() / 2, |i: int| buf[2 * i + 1])
}

/// `buf` read as `[re0, im0, re1, im1, ...]`: the `(re, im)` pairs.
pub open spec fn spec_pairs<T>(buf: Seq<T>) -> Seq<(T, T)> {
    Seq::new(buf.len() / 2, |i: int| (buf[2 * i], buf[2 * i + 1]))
}

/// Splits an interleaved buffer `[re0, im0, re1, im1, ...]` into its real
/// and imaginary parts. A trailing odd element is ignored.
pub fn deinterleave<T: Copy>(buf: &[T]) -> (parts: (Vec<T>, Vec<T>))
    ensures
        parts.0@ == spec_real_parts(buf@),
        parts.1@ == spec_imag_parts(buf@),
{
    let n = buf.len() / 2;
    let mut re: Vec<T> = Vec::new();
    let mut im: Vec<T> = Vec::new();
    let mut i: usize = 0;
    while i < n
        invariant
            n == buf@.len() / 2,
            buf@.len() == buf.len(),
            i <= n,
            re@.len() == i,
            im@.len() == i,
            forall|k: int| 0 <= k < i ==> re@[k] == buf@[2 * k],
            forall|k: int| 0 <= k < i ==> im@[k] == buf@[2 * k + 1],
        decreases n - i,
    {
        re.push(buf[2 * i]);
        im.push(buf[2 * i + 1]);
        i = i + 1;
    }
    assert(re@ =~= spec_real_parts(buf@));
    assert(im@ =~= spec_imag_parts(buf@));
    (re, im)
}

/// Splits an interleaved buffer `[re0, im0, re1, im1, ...]` into
/// `(re, im)` pairs. A trailing odd element is ignored.
pub fn deinterleave_pairs<T: Copy>(buf: &[T]) -> (pairs: Vec<(T, T)>)
    ensures
        pairs@ == spec_pairs(buf@),
{
    let n = buf.len() / 2;
    let mut out: Vec<(T, T)> = Vec::new();
    let mut i: usize = 0;
    while i < n
        invariant
            n == buf@.len() / 2,
            buf@.len() == buf.len(),
            i <= n,
            out@.len() == i,
            forall|k: int| 0 <= k < i ==> out@[k] == (buf@[2 * k], buf@[2 * k + 1]),
        decreases n - i,
    {
        out.push((buf[2 * i], buf[2 * i + 1]));
        i = i + 1;
    }
    assert(out@ =~= spec_pairs(buf@));
    out
}

/// `dst` after writing `re[i]` at `2i` and `im[i]` at `2i + 1` for every
/// `i` below the shorter of the two parts; the rest of `dst` is kept.
pub open spec fn spec_interleaved_into<T>(dst: Seq<T>, re: Seq<T>, im: Seq<T>) -> Seq<T> {
    let m = if re.len() <= im.len() { re.len() } else { im.len() };
    Seq::new(
        dst.len(),
        |j: int|
            if j < 2 * m {
                if j % 2 == 0 {
                    re[j / 2]
                } else {
                    im[j / 2]
                }
            } else {
                dst[j]
            },
    )
}

/// Writes `(re, im)` into the interleaved buffer `dst`, pair by pair, for
/// as many pairs as the shorter part holds.
pub fn interleave_into<T: Copy>(dst: &mut Vec<T>, re: &[T], im: &[T])
    requires
        2 * re@.len() <= old(dst)@.len() || 2 * im@.len() <= old(dst)@.len(),
    ensures
        final(dst)@ == spec_interleaved_into(old(dst)@, re@, im@),
{
    let m = if re.len() <= im.len() { re.len() } else { im.len() };
    let dl = dst.len();
    let mut i: usize = 0;
    while i < m
        invariant
            dl == dst@.len(),
            m == (if re@.len() <= im@.len() { re@.len() } else { im@.len() }),
            re@.len() == re.len(),
            im@.len() == im.len(),
            2 * m <= dst@.len(),
            dst@.len() == old(dst)@.len(),
            i <= m,
            forall|j: int|
                0 <= j < dst@.len() ==> #[trigger] dst@[j] == (if j < 2 * i {
                    if j % 2 == 0 {
                        re@[j / 2]
                    } else {
                        im@[j / 2]
                    }
                } else {
                    old(dst)@[j]
                }),
        decreases m - i,
    {
        dst.set(2 * i, re[i]);
        dst.set(2 * i + 1, im[i]);
        i = i + 1;
    }
    assert(dst@ =~= spec_interleaved_into(old(dst)@, re@, im@));
}

/// `dst` after writing the pairs of `vals` into it interleaved.
pub open spec fn spec_pairs_into<T>(dst: Seq<T>, vals: Seq<(T, T)>) -> Seq<T> {
    Seq::new(
        dst.len(),
        |j: int|
            if j < 2 * vals.len() {
                if j % 2 == 0 {
                    vals[j / 2].0
                } else {
                    vals[j / 2].1
                }
            } else {
                dst[j]
            },
    )
}

/// Writes `(re, im)` pairs into the interleaved buffer `dst`.
pub fn pairs_into<T: Copy>(dst: &mut Vec<T>, vals: &[(T, T)])
    requires
        2 * vals@.len() <= old(dst)@.len(),
    ensures
        final(dst)@ == spec_pairs_into(old(dst)@, vals@),
{
    let dl = dst.len();
    let mut i: usize = 0;
    while i < vals.len()
        invariant
            dl == dst@.len(),
            vals@.len() == vals.len(),
            2 * vals@.len() <= dst@.len(),
            dst@.len() == old(dst)@.len(),
            i <= vals@.len(),
            forall|j: int|
                0 <= j < dst@.len() ==> #[trigger] dst@[j] == (if j < 2 * i {
                    if j % 2 == 0 {
                        vals@[j / 2].0
                    } else {
                        vals@[j / 2].1
                    }
                } else {
                    old(dst)@[j]
                }),
        decreases vals@.len() - i,
    {
        let (r, c) = vals[i];
        dst.set(2 * i, r);
        dst.set(2 * i + 1, c);
        i = i + 1;
    }
    assert(dst@ =~= spec_pairs_into(old(dst)@, vals@));
}

/// Splitting an even-length interleaved buffer and writing the parts back
/// into a buffer of the same length gives the same buffer back.
pub proof fn lemma_interleave_roundtrip<T>(buf: Seq<T>, dst: Seq<T>)
    requires
        buf.len() % 2 == 0,
        dst.len() == buf.len(),
    ensures
        spec_interleaved_into(dst, spec_real_parts(buf), spec_imag_parts(buf)) == buf,
{
    let re = spec_real_parts(buf);
    let im = spec_imag_parts(buf);
    let r = spec_interleaved_into(dst, re, im);
    assert forall|j: int| 0 <= j < buf.len() implies r[j] == buf[j] by {
        if j % 2 == 0 {
            assert(2 * (j / 2) == j);
        } else {
            assert(2 * (j / 2) + 1 == j);
        }
    }
    assert(r =~= buf);
}

/// Interleaving two equally long parts and splitting the result gives the
/// two parts back.
pub proof fn lemma_deinterleave_roundtrip<T>(dst: Seq<T>, re: Seq<T>, im: Seq<T>)
    requires
        re.len() == im.len(),
        dst.len() == 2 * re.len(),
    ensures
        spec_real_parts(spec_interleaved_into(dst, re, im)) == re,
        spec_imag_parts(spec_interleaved_into(dst, re, im)) == im,
{
    let b = spec_interleaved_into(dst, re, im);
    assert forall|i: int| 0 <= i < re.len() implies spec_real_parts(b)[i] == re[i] by {
        assert((2 * i) % 2 == 0);
        assert((2 * i) / 2 == i);
    }
    assert forall|i: int| 0 <= i < im.len() implies spec_imag_parts(b)[i] == im[i] by {
        assert((2 * i + 1) % 2 == 1);
        assert((2 * i + 1) / 2 == i);
    }
    assert(spec_real_parts(b) =~= re);
    assert(spec_imag_parts(b) =~= im);
}

/// Reading pairs out of an even-length buffer and writing them back into a
/// buffer of the same length gives the same buffer back.
pub proof fn lemma_pairs_roundtrip<T>(buf: Seq<T>, dst: Seq<T>)
    requires
        buf.len() % 2 == 0,
        dst.len() == buf.len(),
    ensures
        spec_pairs_into(dst, spec_pairs(buf)) == buf,
{
    let r = spec_pairs_into(dst, spec_pairs(buf));
    assert forall|j: int| 0 <= j < buf.len() implies r[j] == buf[j] by {
        if j % 2 == 0 {
            assert(2 * (j / 2) == j);
        } else {
            assert(2 * (j / 2) + 1 == j);
        }
    }
    assert(r =~= buf);
}

/// Position `e * n + k` of a row-major layout with rows of length `n`
/// names row `e` and column `k`.
pub proof fn lemma_row_major_split(e: int, k: int, n: int)
    requires
        0 <= e,
        0 <= k < n,
    ensures
        (e * n + k) / n == e,
        (e * n + k) % n == k,
{
    lemma_fundamental_div_mod_converse(e * n + k, n, e, k);
}

/// A position below `rows * n` splits into a row below `rows` and a column
/// below `n`.
pub proof fn lemma_row_major_bounds(j: int, rows: int, n: int)
    requires
        0 < n,
        0 <= j < rows * n,
    ensures
        0 <= j / n < rows,
        0 <= j % n < n,
        j == (j / n) * n + j % n,
{
    assert(j == n * (j / n) + j % n) by (nonlinear_arith)
        requires
            0 < n,
    {
        vstd::arithmetic::div_mod::lemma_fundamental_div_mod(j, n);
    }
    assert(0 <= j % n < n) by {
        vstd::arithmetic::div_mod::lemma_mod_pos_bound(j, n);
    }
    assert(n * (j / n) == (j / n) * n) by (nonlinear_arith);
    assert(0 <= j / n) by (nonlinear_arith)
        requires
            0 < n,
            0 <= j,
            j == n * (j / n) + j % n,
            j % n < n,
    ;
    assert(j / n < rows) by (nonlinear_arith)
        requires
            0 < n,
            j < rows * n,
            j == n * (j / n) + j % n,
            0 <= j % n,
    ;
}

/// The contents of each vector of a sequence of vectors.
pub open spec fn rows_of<T>(v: Seq<Vec<T>>) -> Seq<Seq<T>> {
    v.map_values(|r: Vec<T>| r@)
}

/// `dst` after copying the rows of `rows`, each of length `n`, one after
/// the other into its front; the rest of `dst` is kept.
pub open spec fn spec_gathered<T>(dst: Seq<T>, rows: Seq<Seq<T>>, n: int) -> Seq<T> {
    Seq::new(
        dst.len(),
        |j: int|
            if j < rows.len() * n {
                rows[j / n][j % n]
            } else {
                dst[j]
            },
    )
}

/// The rows of length `n` read out of the front of `flat`, one per row of
/// `rows`.
pub open spec fn spec_scattered<T>(rows: Seq<Seq<T>>, flat: Seq<T>, n: int) -> Seq<Seq<T>> {
    Seq::new(rows.len(), |e: int| Seq::new(n as nat, |k: int| flat[e * n + k]))
}

/// Copies per-edge values, each edge holding `n_per_edge` of them, into
/// the flat buffer `dst`, edge after edge.
pub fn gather_flat<T: Copy>(per_edge: &Vec<Vec<T>>, dst: &mut Vec<T>, n_per_edge: usize)
    requires
        forall|e: int| 0 <= e < per_edge@.len() ==> #[trigger] per_edge@[e]@.len() == n_per_edge,
        per_edge@.len() * n_per_edge <= old(dst)@.len(),
    ensures
        final(dst)@ == spec_gathered(old(dst)@, rows_of(per_edge@), n_per_edge as int),
{
    let ghost n = n_per_edge as int;
    let ghost rows = rows_of(per_edge@);
    let n_edges = per_edge.len();
    let dl = dst.len();
    let mut e: usize = 0;
    while e < n_edges
        invariant
            dl == dst@.len(),
            n == n_per_edge,
            rows == rows_of(per_edge@),
            n_edges == per_edge@.len(),
            forall|f: int| 0 <= f < per_edge@.len() ==> #[trigger] per_edge@[f]@.len() == n_per_edge,
            n_edges * n <= old(dst)@.len(),
            dst@.len() == old(dst)@.len(),
            e <= n_edges,
            forall|j: int|
                0 <= j < dst@.len() ==> #[trigger] dst@[j] == (if j < e * n {
                    rows[j / n][j % n]
                } else {
                    old(dst)@[j]
                }),
        decreases n_edges - e,
    {
        assert((e + 1) * n <= n_edges * n) by (nonlinear_arith)
            requires
                e + 1 <= n_edges,
                0 <= n,
        ;
        assert((e + 1) * n == e * n + n) by (nonlinear_arith);
        let base = e * n_per_edge;
        let mut k: usize = 0;
        while k < n_per_edge
            invariant
                dl == dst@.len(),
                n == n_per_edge,
                rows == rows_of(per_edge@),
                n_edges == per_edge@.len(),
                forall|f: int| 0 <= f < per_edge@.len() ==> #[trigger] per_edge@[f]@.len() == n_per_edge,
                e < n_edges,
                base == e * n,
                (e + 1) * n == e * n + n,
                e * n + n <= old(dst)@.len(),
                dst@.len() == old(dst)@.len(),
                k <= n,
                forall|j: int|
                    0 <= j < dst@.len() ==> #[trigger] dst@[j] == (if j < e * n + k {
                        rows[j / n][j % n]
                    } else {
                        old(dst)@[j]
                    }),
            decreases n - k,
        {
            proof {
                lemma_row_major_split(e as int, k as int, n);
            }
            let v = per_edge[e][k];
            dst.set(base + k, v);
            k = k + 1;
        }
        e = e + 1;
    }
    assert(dst@ =~= spec_gathered(old(dst)@, rows, n));
}

/// Copies a flat buffer back into per-edge values, edge `e` receiving the
/// `n_per_edge` values that start at `e * n_per_edge`.
pub fn scatter_flat<T: Copy>(per_edge: &mut Vec<Vec<T>>, flat: &[T], n_per_edge: usize)
    requires
        forall|e: int|
            0 <= e < old(per_edge)@.len() ==> #[trigger] old(per_edge)@[e]@.len() == n_per_edge,
        old(per_edge)@.len() * n_per_edge <= flat@.len(),
    ensures
        rows_of(final(per_edge)@) == spec_scattered(rows_of(old(per_edge)@), flat@, n_per_edge as int),
{
    let ghost n = n_per_edge as int;
    let n_edges = per_edge.len();
    let mut e: usize = 0;
    while e < n_edges
        invariant
            n == n_per_edge,
            n_edges == per_edge@.len(),
            per_edge@.len() == old(per_edge)@.len(),
            n_edges * n <= flat@.len(),
            flat@.len() == flat.len(),
            e <= n_edges,
            forall|f: int|
                0 <= f < per_edge@.len() ==> #[trigger] per_edge@[f]@ == (if f < e {
                    Seq::new(n as nat, |k: int| flat@[f * n + k])
                } else {
                    old(per_edge)@[f]@
                }),
        decreases n_edges - e,
    {
        assert((e + 1) * n <= n_edges * n) by (nonlinear_arith)
            requires
                e + 1 <= n_edges,
                0 <= n,
        ;
        assert((e + 1) * n == e * n + n) by (nonlinear_arith);
        let base = e * n_per_edge;
        let mut row: Vec<T> = Vec::new();
        let mut k: usize = 0;
        while k < n_per_edge
            invariant
                n == n_per_edge,
                base == e * n,
                e * n + n <= flat@.len(),
                flat@.len() == flat.len(),
                k <= n,
                row@.len() == k,
                forall|m: int| 0 <= m < k ==> row@[m] == flat@[e * n + m],
            decreases n - k,
        {
            row.push(flat[base + k]);
            k = k + 1;
        }
        assert(row@ =~= Seq::new(n as nat, |k: int| flat@[e * n + k]));
        per_edge.set(e, row);
        e = e + 1;
    }
    assert(rows_of(per_edge@) =~= spec_scattered(rows_of(old(per_edge)@), flat@, n));
}

/// Scattering a flat buffer into edges and gathering them back into the
/// same buffer leaves the buffer as it was.
pub proof fn lemma_scatter_then_gather<T>(rows: Seq<Seq<T>>, flat: Seq<T>, n: int)
    requires
        0 < n,
        rows.len() * n <= flat.len(),
    ensures
        spec_gathered(flat, spec_scattered(rows, flat, n), n) == flat,
{
    let s = spec_scattered(rows, flat, n);
    let g = spec_gathered(flat, s, n);
    assert forall|j: int| 0 <= j < flat.len() implies g[j] == flat[j] by {
        if j < rows.len() * n {
            lemma_row_major_bounds(j, rows.len() as int, n);
        }
    }
    assert(g =~= flat);
}

/// Gathering edges of length `n` into a buffer and scattering the buffer
/// back gives the same edges.
pub proof fn lemma_gather_then_scatter<T>(rows: Seq<Seq<T>>, dst: Seq<T>, n: int)
    requires
        0 <= n,
        forall|e: int| 0 <= e < rows.len() ==> #[trigger] rows[e].len() == n,
        rows.len() * n <= dst.len(),
    ensures
        spec_scattered(rows, spec_gathered(dst, rows, n), n) == rows,
{
    let g = spec_gathered(dst, rows, n);
    let s = spec_scattered(rows, g, n);
    assert forall|e: int| 0 <= e < rows.len() implies s[e] == rows[e] by {
        assert forall|k: int| 0 <= k < n implies s[e][k] == rows[e][k] by {
            lemma_row_major_split(e, k, n);
            assert(e * n + k < rows.len() * n) by (nonlinear_arith)
                requires
                    0 <= k < n,
                    0 <= e < rows.len(),
            ;
        }
        assert(s[e] =~= rows[e]);
    }
    assert(s =~= rows);
}

/// The last entry index in `lo..hi` whose column index is `c`.
pub open spec fn last_entry_with_col(col_idx: Seq<usize>, lo: int, hi: int, c: int) -> Option<int>
    decreases hi - lo,
{
    if hi <= lo {
        None
    } else if col_idx[hi - 1] == c {
        Some(hi - 1)
    } else {
        last_entry_with_col(col_idx, lo, hi - 1, c)
    }
}

/// A compressed-sparse-row matrix of `n` rows: `row_ptr` has `n + 1`
/// non-decreasing offsets, and every stored entry has a column below `n`
/// and a value.
pub open spec fn csr_well_formed(n: int, row_ptr: Seq<usize>, col_idx: Seq<usize>, n_vals: int) -> bool {
    &&& row_ptr.len() == n + 1
    &&& forall|r: int| 0 <= r < n ==> #[trigger] row_ptr[r] <= row_ptr[r + 1]
    &&& row_ptr[n] <= col_idx.len()
    &&& row_ptr[n] <= n_vals
    &&& forall|k: int| row_ptr[0] <= k < row_ptr[n] ==> #[trigger] col_idx[k] < n
}

/// Whether `row_ptr` and `col_idx` describe a well-formed CSR matrix of `n`
/// rows with `n_vals` stored values.
pub fn csr_is_well_formed(n: usize, row_ptr: &[usize], col_idx: &[usize], n_vals: usize) -> (b: bool)
    ensures
        b == csr_well_formed(n as int, row_ptr@, col_idx@, n_vals as int),
{
    let len = row_ptr.len();
    assert(row_ptr@.len() == len);
    if n == usize::MAX || len != n + 1 {
        return false;
    }
    let mut r: usize = 0;
    while r < n
        invariant
            row_ptr@.len() == n + 1,
            r <= n,
            forall|q: int| 0 <= q < r ==> #[trigger] row_ptr@[q] <= row_ptr@[q + 1],
        decreases n - r,
    {
        if row_ptr[r] > row_ptr[r + 1] {
            return false;
        }
        r = r + 1;
    }
    let lo = row_ptr[0];
    let hi = row_ptr[n];
    if hi > col_idx.len() || hi > n_vals {
        return false;
    }
    let mut k: usize = lo;
    while k < hi
        invariant
            row_ptr@.len() == n + 1,
            lo == row_ptr@[0],
            hi == row_ptr@[n as int],
            hi <= col_idx@.len(),
            lo <= k,
            forall|j: int| lo <= j < k ==> #[trigger] col_idx@[j] < n,
        decreases hi - k,
    {
        if col_idx[k] >= n {
            return false;
        }
        k = k + 1;
    }
    true
}

/// The dense row-major entry at position `p` of a CSR matrix of `n` rows:
/// the value of the last stored entry of row `p / n` in column `p % n`, or
/// `zero` when the row stores none.
pub open spec fn spec_dense_entry<T>(
    n: int,
    row_ptr: Seq<usize>,
    col_idx: Seq<usize>,
    vals: Seq<T>,
    zero: T,
    p: int,
) -> T {
    match last_entry_with_col(col_idx, row_ptr[p / n] as int, row_ptr[p / n + 1] as int, p % n) {
        Some(k) => vals[k],
        None => zero,
    }
}

/// The `n * n` row-major dense form of a CSR matrix of `n` rows.
pub open spec fn spec_dense<T>(
    n: int,
    row_ptr: Seq<usize>,
    col_idx: Seq<usize>,
    vals: Seq<T>,
    zero: T,
) -> Seq<T> {
    Seq::new((n * n) as nat, |p: int| spec_dense_entry(n, row_ptr, col_idx, vals, zero, p))
}

/// Expands a CSR matrix of `n` rows into a dense row-major `n * n` buffer.
///
/// Fails with `OutOfDomain` when `n * n` does not fit in `usize`.
pub fn csr_to_dense<T: Copy>(
    n: usize,
    row_ptr: &[usize],
    col_idx: &[usize],
    vals: &[T],
    zero: T,
) -> (r: Result<Vec<T>, SemiflowStatus>)
    requires
        csr_well_formed(n as int, row_ptr@, col_idx@, vals@.len() as int),
    ensures
        match r {
            Ok(d) => n * n <= usize::MAX && d@ == spec_dense(n as int, row_ptr@, col_idx@, vals@, zero),
            Err(s) => s == SemiflowStatus::OutOfDomain && n * n > usize::MAX,
        },
{
    let size = match n.checked_mul(n) {
        Some(s) => s,
        None => {
            return Err(SemiflowStatus::OutOfDomain);
        },
    };
    let ghost ni = n as int;
    let mut buf: Vec<T> = Vec::new();
    let mut i: usize = 0;
    while i < size
        invariant
            size == n * n,
            i <= size,
            buf@.len() == i,
            forall|p: int| 0 <= p < i ==> buf@[p] == zero,
        decreases size - i,
    {
        buf.push(zero);
        i = i + 1;
    }
    let mut row: usize = 0;
    while row < n
        invariant
            ni == n,
            size == n * n,
            buf@.len() == size,
            csr_well_formed(ni, row_ptr@, col_idx@, vals@.len() as int),
            row_ptr@.len() == row_ptr.len(),
            col_idx@.len() == col_idx.len(),
            vals@.len() == vals.len(),
            row <= n,
            forall|p: int|
                0 <= p < size ==> #[trigger] buf@[p] == (if p / ni < row {
                    spec_dense_entry(ni, row_ptr@, col_idx@, vals@, zero, p)
                } else {
                    zero
                }),
        decreases n - row,
    {
        let lo = row_ptr[row];
        let hi = row_ptr[row + 1];
        proof {
            assert(row_ptr@[row as int] <= row_ptr@[row + 1]);
            lemma_row_ptr_range(ni, row_ptr@, row as int);
        }
        let mut k: usize = lo;
        while k < hi
            invariant
                ni == n,
                size == n * n,
                buf@.len() == size,
                csr_well_formed(ni, row_ptr@, col_idx@, vals@.len() as int),
                row_ptr@.len() == row_ptr.len(),
                col_idx@.len() == col_idx.len(),
                vals@.len() == vals.len(),
                row < n,
                lo == row_ptr@[row as int],
                hi == row_ptr@[row + 1],
                row_ptr@[0] <= lo <= k <= hi <= row_ptr@[ni],
                forall|p: int|
                    0 <= p < size ==> #[trigger] buf@[p] == (if p / ni < row {
                        spec_dense_entry(ni, row_ptr@, col_idx@, vals@, zero, p)
                    } else if p / ni == row {
                        match last_entry_with_col(col_idx@, lo as int, k as int, p % ni) {
                            Some(e) => vals@[e],
                            None => zero,
                        }
                    } else {
                        zero
                    }),
            decreases hi - k,
        {
            let col = col_idx[k];
            proof {
                assert(col < n);
                lemma_row_major_split(row as int, col as int, ni);
                assert(row * ni + col < ni * ni) by (nonlinear_arith)
                    requires
                        0 <= row < ni,
                        0 <= col < ni,
                ;
            }
            let pos = row * n + col;
            let ghost old_buf = buf@;
            buf.set(pos, vals[k]);
            proof {
                assert forall|p: int| 0 <= p < size implies #[trigger] buf@[p] == (if p / ni < row {
                    spec_dense_entry(ni, row_ptr@, col_idx@, vals@, zero, p)
                } else if p / ni == row {
                    match last_entry_with_col(col_idx@, lo as int, k + 1, p % ni) {
                        Some(e) => vals@[e],
                        None => zero,
                    }
                } else {
                    zero
                }) by {
                    lemma_row_major_bounds(p, ni, ni);
                    if p == pos {
                    } else {
                        assert(old_buf[p] == buf@[p]);
                        if p / ni == row {
                            assert(p % ni != col);
                        }
                    }
                }
            }
            k = k + 1;
        }
        proof {
            assert forall|p: int| 0 <= p < size implies #[trigger] buf@[p] == (if p / ni < row + 1 {
                spec_dense_entry(ni, row_ptr@, col_idx@, vals@, zero, p)
            } else {
                zero
            }) by {
                lemma_row_major_bounds(p, ni, ni);
            }
        }
        row = row + 1;
    }
    proof {
        assert forall|p: int| 0 <= p < size implies #[trigger] buf@[p] == spec_dense_entry(
            ni,
            row_ptr@,
            col_idx@,
            vals@,
            zero,
            p,
        ) by {
            lemma_row_major_bounds(p, ni, ni);
        }
    }
    assert(buf@ =~= spec_dense(ni, row_ptr@, col_idx@, vals@, zero));
    Ok(buf)
}

/// The offsets of every row of a well-formed CSR matrix lie between the
/// first and the last offset.
proof fn lemma_row_ptr_range(n: int, row_ptr: Seq<usize>, r: int)
    requires
        0 <= r < n,
        row_ptr.len() == n + 1,
        forall|q: int| 0 <= q < n ==> #[trigger] row_ptr[q] <= row_ptr[q + 1],
    ensures
        row_ptr[0] <= row_ptr[r],
        row_ptr[r + 1] <= row_ptr[n],
    decreases n - r,
{
    lemma_row_ptr_prefix(n, row_ptr, r);
    if r + 1 < n {
        lemma_row_ptr_range(n, row_ptr, r + 1);
    }
}

proof fn lemma_row_ptr_prefix(n: int, row_ptr: Seq<usize>, r: int)
    requires
        0 <= r <= n,
        row_ptr.len() == n + 1,
        forall|q: int| 0 <= q < n ==> #[trigger] row_ptr[q] <= row_ptr[q + 1],
    ensures
        row_ptr[0] <= row_ptr[r],
    decreases r,
{
    if r > 0 {
        lemma_row_ptr_prefix(n, row_ptr, r - 1);
        assert(row_ptr[r - 1] <= row_ptr[r]);
    }
}

/// The flat position of node `(i, j)` of an x-fastest `nx * ny` grid.
pub fn flat_index_2d(i: usize, j: usize, nx: usize, ny: usize) -> (f: usize)
    requires
        i < nx,
        j < ny,
        nx * ny <= usize::MAX,
    ensures
        f == i + j * nx,
        f < nx * ny,
{
    assert(i + j * nx < nx * ny) by (nonlinear_arith)
        requires
            i < nx,
            j < ny,
    ;
    assert(j * nx <= nx * ny) by (nonlinear_arith)
        requires
            j < ny,
    ;
    i + j * nx
}

/// The flat position of node `(i, j, k)` of an x-fastest `nx * ny * nz`
/// grid.
pub fn flat_index_3d(i: usize, j: usize, k: usize, nx: usize, ny: usize, nz: usize) -> (f: usize)
    requires
        i < nx,
        j < ny,
        k < nz,
        nx * ny * nz <= usize::MAX,
    ensures
        f == i + j * nx + k * (nx * ny),
        f < nx * ny * nz,
{
    assert(nx * ny <= nx * ny * nz) by (nonlinear_arith)
        requires
            k < nz,
    ;
    assert(i + j * nx < nx * ny) by (nonlinear_arith)
        requires
            i < nx,
            j < ny,
    ;
    assert(i + j * nx + k * (nx * ny) < nx * ny * nz) by (nonlinear_arith)
        requires
            i + j * nx < nx * ny,
            k < nz,
    ;
    assert(k * (nx * ny) <= nx * ny * nz) by (nonlinear_arith)
        requires
            k < nz,
    ;
    let plane = nx * ny;
    i + j * nx + k * plane
}

/// The node `(i, j)` at flat position `f` of an x-fastest grid with rows
/// of `nx` nodes.
pub fn unflatten_2d(f: usize, nx: usize) -> (ij: (usize, usize))
    requires
        nx > 0,
    ensures
        ij.0 == f % nx,
        ij.1 == f / nx,
{
    (f % nx, f / nx)
}

/// Flattening a node of an x-fastest grid and splitting the position again
/// gives the node back, so distinct nodes have distinct positions.
pub proof fn lemma_flat_index_2d_inverse(i: int, j: int, nx: int)
    requires
        0 <= i < nx,
        0 <= j,
    ensures
        (i + j * nx) % nx == i,
        (i + j * nx) / nx == j,
{
    lemma_row_major_split(j, i, nx);
}

/// Every position below `nx * ny` is the flat position of exactly the
/// node its split names.
pub proof fn lemma_unflatten_2d_inverse(f: int, nx: int, ny: int)
    requires
        0 < nx,
        0 <= f < nx * ny,
    ensures
        0 <= f % nx < nx,
        0 <= f / nx < ny,
        f % nx + (f / nx) * nx == f,
{
    assert(nx * ny == ny * nx) by (nonlinear_arith);
    lemma_row_major_bounds(f, ny, nx);
}

/// The position of entry `(r, c)` of the `d * d` row-major block stored
/// for point `flat` of a grid of `n_pts` points.
pub fn block_entry_index(flat: usize, r: usize, c: usize, d: usize, n_pts: usize) -> (idx: usize)
    requires
        flat < n_pts,
        r < d,
        c < d,
        n_pts * (d * d) <= usize::MAX,
    ensures
        idx == flat * (d * d) + r * d + c,
        idx < n_pts * (d * d),
{
    assert(r * d + c < d * d) by (nonlinear_arith)
        requires
            r < d,
            c < d,
    ;
    assert(flat * (d * d) + r * d + c < n_pts * (d * d)) by (nonlinear_arith)
        requires
            flat < n_pts,
            r * d + c < d * d,
    ;
    assert(d * d <= n_pts * (d * d)) by (nonlinear_arith)
        requires
            flat < n_pts,
    ;
    assert(flat * (d * d) <= n_pts * (d * d)) by (nonlinear_arith)
        requires
            flat < n_pts,
    ;
    let dd = d * d;
    flat * dd + r * d + c
}

/// The position of component `r` of the `d`-vector stored for point
/// `flat` of a grid of `n_pts` points.
pub fn vector_entry_index(flat: usize, r: usize, d: usize, n_pts: usize) -> (idx: usize)
    requires
        flat < n_pts,
        r < d,
        n_pts * d <= usize::MAX,
    ensures
        idx == flat * d + r,
        idx < n_pts * d,
{
    assert(flat * d + r < n_pts * d) by (nonlinear_arith)
        requires
            flat < n_pts,
            r < d,
    ;
    flat * d + r
}

/// Distinct `(point, row, column)` triples of a block layout occupy
/// distinct positions.
pub proof fn lemma_block_entry_injective(f1: int, r1: int, c1: int, f2: int, r2: int, c2: int, d: int)
    requires
        0 <= f1,
        0 <= f2,
        0 <= r1 < d,
        0 <= c1 < d,
        0 <= r2 < d,
        0 <= c2 < d,
        f1 * (d * d) + r1 * d + c1 == f2 * (d * d) + r2 * d + c2,
    ensures
        f1 == f2,
        r1 == r2,
        c1 == c2,
{
    assert(r1 * d + c1 < d * d) by (nonlinear_arith)
        requires
            0 <= r1 < d,
            0 <= c1 < d,
    ;
    assert(r2 * d + c2 < d * d) by (nonlinear_arith)
        requires
            0 <= r2 < d,
            0 <= c2 < d,
    ;
    assert(0 <= r1 * d + c1) by (nonlinear_arith)
        requires
            0 <= r1,
            0 <= c1,
            0 <= d,
    ;
    assert(0 <= r2 * d + c2) by (nonlinear_arith)
        requires
            0 <= r2,
            0 <= c2,
            0 <= d,
    ;
    lemma_row_major_split(f1, r1 * d + c1, d * d);
    lemma_row_major_split(f2, r2 * d + c2, d * d);
    lemma_row_major_split(r1, c1, d);
    lemma_row_major_split(r2, c2, d);
}

/// The left node `i0` of the linear-interpolation cell of an axis of `n`
/// nodes that holds the point whose floored node coordinate is `i_floor`:
/// capped at the last full cell, so that `i0` and `i0 + 1` are nodes.
pub fn interp_cell(i_floor: usize, n: usize) -> (i0: usize)
    requires
        2 <= n,
    ensures
        i0 == (if i_floor < n - 2 {
            i_floor as int
        } else {
            n - 2
        }),
        i0 + 1 < n,
{
    if i_floor < n - 2 {
        i_floor
    } else {
        n - 2
    }
}

/// The lower-left node `(i0, j0)` of the bilinear-interpolation cell of
/// an `nx * ny` grid that holds the point whose floored node coordinates
/// are `(i_floor, j_floor)`: the linear-interpolation cell on each axis,
/// so that the cell's four corners `(i0 | i0 + 1, j0 | j0 + 1)` are nodes.
pub fn bilinear_cell(i_floor: usize, j_floor: usize, nx: usize, ny: usize) -> (cell: (usize, usize))
    requires
        2 <= nx,
        2 <= ny,
    ensures
        cell.0 == (if i_floor < nx - 2 {
            i_floor as int
        } else {
            nx - 2
        }),
        cell.1 == (if j_floor < ny - 2 {
            j_floor as int
        } else {
            ny - 2
        }),
        cell.0 + 1 < nx,
        cell.1 + 1 < ny,
{
    (interp_cell(i_floor, nx), interp_cell(j_floor, ny))
}

/// The grid node nearest a rounded coordinate: `rounded` clamped to
/// `0..=n - 1`.
pub fn clamp_node(rounded: isize, n: usize) -> (idx: usize)
    requires
        1 <= n <= isize::MAX,
    ensures
        idx == (if rounded < 0 {
            0
        } else if rounded > n - 1 {
            n - 1
        } else {
            rounded as int
        }),
        idx < n,
{
    let hi = (n - 1) as isize;
    if rounded < 0 {
        0
    } else if rounded > hi {
        n - 1
    } else {
        rounded as usize
    }
}

/// An index kept inside a table of `len` entries: `idx`, or the last
/// entry when `idx` runs past it (`0` for an empty table).
pub fn clamp_to_len(idx: usize, len: usize) -> (r: usize)
    ensures
        r == (if len == 0 {
            0
        } else if idx < len - 1 {
            idx as int
        } else {
            len - 1
        }),
        len > 0 ==> r < len,
{
    let last = if len == 0 { 0 } else { len - 1 };
    if idx < last {
        idx
    } else {
        last
    }
}

/// Column indices stored as `u32`, widened to `usize`.
pub fn widen_indices(idx: &[u32]) -> (r: Vec<usize>)
    ensures
        r@.len() == idx@.len(),
        forall|i: int| 0 <= i < idx@.len() ==> #[trigger] r@[i] == idx@[i] as usize,
{
    let mut out: Vec<usize> = Vec::new();
    let mut i: usize = 0;
    while i < idx.len()
        invariant
            i <= idx@.len(),
            out@.len() == i,
            forall|m: int| 0 <= m < i ==> #[trigger] out@[m] == idx@[m] as usize,
        decreases idx@.len() - i,
    {
        out.push(idx[i] as usize);
        i = i + 1;
    }
    out
}

} // verus!
