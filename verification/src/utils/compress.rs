//! Row-displacement compression of a sparse table into `base`, `next` and
//! `check` vectors, with a bitmap of taken slots.
use crate::lex::types::ClassID;
use bitvec::vec::BitVec;
use vstd::prelude::*;
use vstd::std_specs::cmp::PartialEqSpec;

verus! {

/// The bitmap of taken slots, a `bitvec` bit-vector. Verus does not take a
/// declaration of `BitVec` itself (its parameters are bound by traits of the
/// crate), so it is held here, out of Verus's sight, and reached only through
/// the functions below.
#[verifier::external_body]
pub struct SlotBitmap {
    bits: BitVec,
}

/// The bits the bitmap holds, first bit first.
pub uninterp spec fn bits_of(b: SlotBitmap) -> Seq<bool>;

/// The most bits a bit-vector can hold (`BitSlice::MAX_BITS`).
pub open spec fn max_bits() -> nat {
    (usize::MAX / 8) as nat
}

/// `BitVec::repeat`: a bit-vector of `len` copies of `bit`. The crate panics
/// past `max_bits()` bits.
#[verifier::external_body]
fn bits_repeat(bit: bool, len: usize) -> (r: SlotBitmap)
    requires
        len <= max_bits(),
    ensures
        bits_of(r) == Seq::new(len as nat, |_i: int| bit),
{
    SlotBitmap { bits: BitVec::repeat(bit, len) }
}

/// `BitSlice::len`: the number of bits held.
#[verifier::external_body]
fn bits_len(b: &SlotBitmap) -> (r: usize)
    ensures
        r == bits_of(*b).len(),
{
    b.bits.len()
}

/// `BitSlice::first_zero`: the index of the first bit cleared to `0`, or
/// `None` if every bit is set.
#[verifier::external_body]
fn bits_first_zero(b: &SlotBitmap) -> (r: Option<usize>)
    ensures
        match r {
            Some(i) => i < bits_of(*b).len() && !bits_of(*b)[i as int] && forall|j: int|
                0 <= j < i ==> #[trigger] bits_of(*b)[j],
            None => forall|j: int| 0 <= j < bits_of(*b).len() ==> #[trigger] bits_of(*b)[j],
        },
{
    b.bits.first_zero()
}

/// `BitVec::resize`: grows with copies of `value`, or truncates, to
/// `new_len` bits. The crate panics past `max_bits()` bits.
#[verifier::external_body]
fn bits_resize(b: &mut SlotBitmap, new_len: usize, value: bool)
    requires
        new_len <= max_bits(),
    ensures
        bits_of(*final(b)) == (if new_len > bits_of(*old(b)).len() {
            bits_of(*old(b)) + Seq::new((new_len - bits_of(*old(b)).len()) as nat, |_i: int| value)
        } else {
            bits_of(*old(b)).take(new_len as int)
        }),
{
    b.bits.resize(new_len, value)
}

/// `BitSlice::set`: writes one bit; the crate panics on an index out of
/// bounds.
#[verifier::external_body]
fn bits_set(b: &mut SlotBitmap, index: usize, value: bool)
    requires
        index < bits_of(*old(b)).len(),
    ensures
        bits_of(*final(b)) == bits_of(*old(b)).update(index as int, value),
{
    b.bits.set(index, value)
}

/// Indexing a bit-slice: the bit at `index`; the crate panics on an index
/// out of bounds.
#[verifier::external_body]
fn bits_get(b: &SlotBitmap, index: usize) -> (r: bool)
    requires
        index < bits_of(*b).len(),
    ensures
        r == bits_of(*b)[index as int],
{
    b.bits[index]
}

/// Whether bit `i` is set, reading past the end as cleared.
pub open spec fn bit_at(bits: Seq<bool>, i: int) -> bool {
    0 <= i < bits.len() && bits[i]
}

/// `after` holds the set bits of `before`, and no others.
pub open spec fn same_bits(before: Seq<bool>, after: Seq<bool>) -> bool {
    &&& before.len() <= after.len()
    &&& forall|i: int| #[trigger] bit_at(after, i) == bit_at(before, i)
}

/// Whether a table cell is kept by the compression: it differs from the
/// zero value.
pub open spec fn is_kept<T: PartialEq>(x: T, zero: T) -> bool {
    !x.eq_spec(&zero)
}

/// Cell (`row`, `col`) of `matrix` when it is kept; `None` for a cleared
/// cell or a column past the end of the row.
pub open spec fn matrix_cell<T: PartialEq>(matrix: Seq<Vec<T>>, zero: T, row: int, col: int) -> Option<T> {
    if 0 <= col < matrix[row]@.len() && is_kept(matrix[row]@[col], zero) {
        Some(matrix[row]@[col])
    } else {
        None
    }
}

/// Cell (`row`, `col`) read back from a compressed table: the slot at the
/// row's base plus the column, when its check names the row.
pub open spec fn compressed_cell<T>(
    base: Seq<Option<usize>>,
    next: Seq<T>,
    check: Seq<Option<usize>>,
    row: int,
    col: int,
) -> Option<T> {
    match base[row] {
        Some(o) => if 0 <= o + col < check.len() && check[o + col] == Some(row as usize) {
            Some(next[o + col])
        } else {
            None
        },
        None => None,
    }
}

/// Whether slot `p` of a compressed table is taken by some row.
pub open spec fn slot_used(check: Seq<Option<usize>>, p: int) -> bool {
    0 <= p < check.len() && check[p] is Some
}

/// `(base, next, check)` is a compression of `matrix`: every cell reads
/// back as it was, a row has no base exactly when it keeps no cell, every
/// taken slot holds a kept cell of the row it names, and every free slot of
/// `next` holds the zero value.
pub open spec fn compresses<T: PartialEq>(
    matrix: Seq<Vec<T>>,
    zero: T,
    base: Seq<Option<usize>>,
    next: Seq<T>,
    check: Seq<Option<usize>>,
) -> bool {
    &&& base.len() == matrix.len()
    &&& forall|row: int, col: int|
        0 <= row < matrix.len() && 0 <= col ==> #[trigger] compressed_cell(base, next, check, row, col)
            == matrix_cell(matrix, zero, row, col)
    &&& forall|row: int|
        0 <= row < matrix.len() ==> (#[trigger] base[row] is None <==> forall|col: int|
            0 <= col ==> #[trigger] matrix_cell(matrix, zero, row, col) is None)
    &&& forall|p: int| #[trigger] slot_used(check, p) ==> slot_owner_ok(matrix, zero, base, next, check, p)
    &&& forall|p: int| 0 <= p < next.len() && !slot_used(check, p) ==> #[trigger] next[p] == zero
}

/// Taken slot `p` lies in `next` and holds a kept cell of the row its check
/// names, at that row's base.
pub open spec fn slot_owner_ok<T: PartialEq>(
    matrix: Seq<Vec<T>>,
    zero: T,
    base: Seq<Option<usize>>,
    next: Seq<T>,
    check: Seq<Option<usize>>,
    p: int,
) -> bool {
    let r = check[p].unwrap() as int;
    &&& p < next.len()
    &&& 0 <= r < matrix.len()
    &&& base[r] is Some
    &&& base[r].unwrap() <= p
    &&& matrix_cell(matrix, zero, r, p - base[r].unwrap()) == Some(next[p])
}

/// Whether slot `i` is `offset + e` for one of the first `k` edges `e`.
pub open spec fn covers(edges: Seq<usize>, k: int, offset: int, i: int) -> bool {
    exists|j: int| 0 <= j < k && i == offset + #[trigger] edges[j]
}

/// Whether `offset` is free for `edges`: no slot `offset + e` is set.
pub open spec fn fits_at(bits: Seq<bool>, edges: Seq<usize>, offset: int) -> bool {
    forall|j: int| 0 <= j < edges.len() ==> !#[trigger] bit_at(bits, offset + edges[j])
}

/// Whether every slot `offset + e` is free, growing the bitmap with cleared
/// bits so that each slot looked at lies inside it.
fn try_allocate(bitmap: &mut SlotBitmap, edges: &Vec<ClassID>, offset: usize, max_edge: usize) -> (r: bool)
    requires
        forall|j: int| 0 <= j < edges.len() ==> #[trigger] edges@[j] <= max_edge,
        offset + 2 * max_edge + 1 <= max_bits(),
    ensures
        same_bits(bits_of(*old(bitmap)), bits_of(*final(bitmap))),
        bits_of(*final(bitmap)).len() <= bits_of(*old(bitmap)).len() || bits_of(*final(bitmap)).len() <= offset + 2
            * max_edge + 1,
        r == fits_at(bits_of(*old(bitmap)), edges@, offset as int),
        r ==> forall|j: int| 0 <= j < edges.len() ==> offset + #[trigger] edges@[j] < bits_of(*final(bitmap)).len(),
{
    let ghost b0 = bits_of(*bitmap);
    let mut k: usize = 0;
    while k < edges.len()
        invariant
            k <= edges.len(),
            forall|j: int| 0 <= j < edges.len() ==> #[trigger] edges@[j] <= max_edge,
            offset + 2 * max_edge + 1 <= max_bits(),
            b0 == bits_of(*old(bitmap)),
            same_bits(b0, bits_of(*bitmap)),
            bits_of(*bitmap).len() <= b0.len() || bits_of(*bitmap).len() <= offset + 2 * max_edge + 1,
            forall|j: int| 0 <= j < k ==> !#[trigger] bit_at(b0, offset + edges@[j]),
            forall|j: int| 0 <= j < k ==> offset + #[trigger] edges@[j] < bits_of(*bitmap).len(),
        decreases edges.len() - k,
    {
        let pos = edges[k] + offset;
        if pos >= bits_len(bitmap) {
            let ghost before = bits_of(*bitmap);
            bits_resize(bitmap, pos + max_edge + 1, false);
            proof {
                assert forall|i: int| #[trigger] bit_at(bits_of(*bitmap), i) == bit_at(before, i) by {
                    if 0 <= i < before.len() {
                        assert(bits_of(*bitmap)[i] == before[i]);
                    }
                }
            }
        }
        let occupied = bits_get(bitmap, pos);
        assert(bit_at(bits_of(*bitmap), pos as int) == occupied);
        if occupied {
            assert(bit_at(b0, offset + edges@[k as int]));
            return false;
        }
        k = k + 1;
    }
    true
}

/// Bit `x` is the first cleared bit of `bits`, reading past the end as
/// cleared.
pub open spec fn first_zero_at(bits: Seq<bool>, x: int) -> bool {
    &&& 0 <= x
    &&& !bit_at(bits, x)
    &&& forall|q: int| 0 <= q < x ==> #[trigger] bit_at(bits, q)
}

/// Finds the first offset, from the first cleared bit on, at which every
/// slot `offset + e` is free, and sets those slots.
fn alloc_base(bitmap: &mut SlotBitmap, edges: &Vec<ClassID>, max_edge: usize, Ghost(h): Ghost<nat>) -> (offset: usize)
    requires
        edges.len() > 0,
        forall|j: int| 0 <= j < edges.len() ==> #[trigger] edges@[j] <= max_edge,
        forall|i: int| #[trigger] bit_at(bits_of(*old(bitmap)), i) ==> i < h,
        h + 2 * max_edge + 2 <= max_bits(),
    ensures
        offset <= h,
        fits_at(bits_of(*old(bitmap)), edges@, offset as int),
        exists|x: int|
            #[trigger] first_zero_at(bits_of(*old(bitmap)), x) && x <= offset && forall|o2: int|
                x <= o2 < offset ==> !#[trigger] fits_at(bits_of(*old(bitmap)), edges@, o2),
        forall|j: int| 0 <= j < edges.len() ==> offset + #[trigger] edges@[j] < bits_of(*final(bitmap)).len(),
        bits_of(*old(bitmap)).len() <= bits_of(*final(bitmap)).len(),
        bits_of(*final(bitmap)).len() <= bits_of(*old(bitmap)).len() || bits_of(*final(bitmap)).len() <= h + 2
            * max_edge + 2,
        forall|i: int| #[trigger] bit_at(bits_of(*final(bitmap)), i) == (bit_at(bits_of(*old(bitmap)), i) || covers(
            edges@,
            edges.len() as int,
            offset as int,
            i,
        )),
{
    let ghost b0 = bits_of(*bitmap);
    let len = bits_len(bitmap);
    let mut offset: usize = match bits_first_zero(bitmap) {
        Some(x) => {
            proof {
                if x > h {
                    assert(bit_at(b0, h as int));
                }
            }
            x
        },
        None => {
            proof {
                if len > 0 {
                    assert(bit_at(b0, len - 1));
                }
            }
            bits_resize(bitmap, len + max_edge + 1, false);
            proof {
                assert(!bits_of(*bitmap)[len as int]);
                assert forall|j: int| 0 <= j < len implies #[trigger] bits_of(*bitmap)[j] by {
                    assert(b0[j]);
                }
            }
            let z = bits_first_zero(bitmap);
            proof {
                if z is None {
                    assert(bits_of(*bitmap)[len as int]);
                }
            }
            let x = z.unwrap();
            proof {
                if x < len {
                    assert(b0[x as int]);
                }
                if x > len {
                    assert(bits_of(*bitmap)[len as int]);
                }
            }
            x
        },
    };
    let ghost start = offset as int;
    proof {
        assert forall|i: int| #[trigger] bit_at(bits_of(*bitmap), i) == bit_at(b0, i) by {
            if 0 <= i < b0.len() {
                assert(bits_of(*bitmap)[i] == b0[i]);
            }
        }
        assert(first_zero_at(b0, start));
    }
    loop
        invariant
            first_zero_at(b0, start),
            start <= offset,
            forall|o2: int| start <= o2 < offset ==> !#[trigger] fits_at(b0, edges@, o2),
            forall|j: int| 0 <= j < edges.len() ==> #[trigger] edges@[j] <= max_edge,
            forall|i: int| #[trigger] bit_at(b0, i) ==> i < h,
            h + 2 * max_edge + 2 <= max_bits(),
            b0 == bits_of(*old(bitmap)),
            offset <= h,
            same_bits(b0, bits_of(*bitmap)),
            bits_of(*bitmap).len() <= b0.len() || bits_of(*bitmap).len() <= h + 2 * max_edge + 2,
        ensures
            first_zero_at(b0, start),
            start <= offset,
            forall|o2: int| start <= o2 < offset ==> !#[trigger] fits_at(b0, edges@, o2),
            offset <= h,
            same_bits(b0, bits_of(*bitmap)),
            bits_of(*bitmap).len() <= b0.len() || bits_of(*bitmap).len() <= h + 2 * max_edge + 2,
            fits_at(b0, edges@, offset as int),
            forall|j: int| 0 <= j < edges.len() ==> offset + #[trigger] edges@[j] < bits_of(*bitmap).len(),
        decreases h - offset,
    {
        let ghost before = bits_of(*bitmap);
        let free = try_allocate(bitmap, edges, offset, max_edge);
        proof {
            assert forall|i: int| #[trigger] bit_at(bits_of(*bitmap), i) == bit_at(b0, i) by {
                assert(bit_at(bits_of(*bitmap), i) == bit_at(before, i));
            }
            assert forall|j: int| 0 <= j < edges.len() implies #[trigger] bit_at(before, offset + edges@[j])
                == bit_at(b0, offset + edges@[j]) by {
                assert(bit_at(bits_of(*bitmap), offset + edges@[j]) == bit_at(before, offset + edges@[j]));
            }
            if free {
                assert forall|j: int| 0 <= j < edges.len() implies !#[trigger] bit_at(b0, offset + edges@[j]) by {
                    assert(!bit_at(before, offset + edges@[j]));
                }
            } else {
                let j = choose|j: int| 0 <= j < edges.len() && #[trigger] bit_at(before, offset + edges@[j]);
                assert(bit_at(b0, offset + edges@[j]));
            }
            assert(free == fits_at(b0, edges@, offset as int));
        }
        if free {
            break;
        }
        proof {
            let j = choose|j: int| 0 <= j < edges.len() && #[trigger] bit_at(b0, offset + edges@[j]);
            assert(offset + edges@[j] < h);
        }
        offset = offset + 1;
    }
    let ghost b1 = bits_of(*bitmap);
    let total = bits_len(bitmap);
    let mut k: usize = 0;
    while k < edges.len()
        invariant
            k <= edges.len(),
            b1.len() == total,
            bits_of(*bitmap).len() == total,
            forall|j: int| 0 <= j < edges.len() ==> offset + #[trigger] edges@[j] < total,
            forall|i: int| #[trigger] bit_at(bits_of(*bitmap), i) == (bit_at(b1, i) || covers(
                edges@,
                k as int,
                offset as int,
                i,
            )),
        decreases edges.len() - k,
    {
        let ghost before = bits_of(*bitmap);
        let pos = offset + edges[k];
        bits_set(bitmap, pos, true);
        proof {
            assert forall|i: int| #[trigger] bit_at(bits_of(*bitmap), i) == (bit_at(b1, i) || covers(
                edges@,
                k + 1,
                offset as int,
                i,
            )) by {
                if i == pos {
                    assert(covers(edges@, k + 1, offset as int, i));
                } else {
                    if 0 <= i < before.len() {
                        assert(bits_of(*bitmap)[i] == before[i]);
                    }
                    assert(bit_at(bits_of(*bitmap), i) == bit_at(before, i));
                    if covers(edges@, k + 1, offset as int, i) {
                        let j = choose|j: int| 0 <= j < k + 1 && i == offset + #[trigger] edges@[j];
                        assert(covers(edges@, k as int, offset as int, i));
                    }
                }
            }
        }
        k = k + 1;
    }
    offset
}

/// `cols` lists, in increasing order, the columns of `row` whose cells are
/// kept.
pub open spec fn lists_kept<T: PartialEq>(cols: Seq<usize>, row: Seq<T>, zero: T) -> bool {
    &&& forall|j: int| 0 <= j < cols.len() ==> #[trigger] cols[j] < row.len() && is_kept(row[cols[j] as int], zero)
    &&& forall|c: int| 0 <= c < row.len() && is_kept(#[trigger] row[c], zero) ==> cols.contains(c as usize)
    &&& forall|a: int, b: int| 0 <= a < b < cols.len() ==> cols[a] < cols[b]
}

/// The kept cell (`r`, `c`) sits in the slot at `o + c`, and the slot's
/// check names `r`.
pub open spec fn cell_in_slot<T>(next: Seq<T>, check: Seq<Option<usize>>, r: int, o: int, c: int, x: T) -> bool {
    &&& 0 <= o + c < check.len()
    &&& o + c < next.len()
    &&& check[o + c] == Some(r as usize)
    &&& next[o + c] == x
}

/// The state of a compression under way: the set bits are exactly the
/// taken slots, each taken slot holds a kept cell of the row it names, every
/// kept cell of a row with a base sits in its slot, and every free slot of
/// `next` holds the zero value.
pub open spec fn layout_ok<T: PartialEq>(
    matrix: Seq<Vec<T>>,
    zero: T,
    base: Seq<Option<usize>>,
    next: Seq<T>,
    check: Seq<Option<usize>>,
    bits: Seq<bool>,
) -> bool {
    &&& base.len() == matrix.len()
    &&& forall|p: int| #[trigger] bit_at(bits, p) == slot_used(check, p)
    &&& forall|p: int| #[trigger] slot_used(check, p) ==> slot_owner_ok(matrix, zero, base, next, check, p)
    &&& forall|r: int, c: int|
        0 <= r < matrix.len() && base[r] is Some && #[trigger] matrix_cell(matrix, zero, r, c) is Some ==> cell_in_slot(
            next,
            check,
            r,
            base[r].unwrap() as int,
            c,
            matrix_cell(matrix, zero, r, c).unwrap(),
        )
    &&& forall|p: int| 0 <= p < next.len() && !slot_used(check, p) ==> #[trigger] next[p] == zero
}

/// The number of kept cells among the first `n` cells of `row`.
pub open spec fn kept_count<T: PartialEq>(row: Seq<T>, zero: T, n: int) -> nat
    decreases n,
{
    if n <= 0 {
        0
    } else {
        kept_count(row, zero, n - 1) + if is_kept(row[n - 1], zero) {
            1nat
        } else {
            0nat
        }
    }
}

/// The number of kept cells of row `r`.
pub open spec fn row_kept<T: PartialEq>(matrix: Seq<Vec<T>>, zero: T, r: int) -> nat {
    kept_count(matrix[r]@, zero, matrix[r]@.len() as int)
}

/// The columns of `row` whose cells differ from `zero_value`, in increasing
/// order.
fn kept_cols<T: Eq + Copy>(row: &Vec<T>, zero_value: T) -> (r: Vec<ClassID>)
    requires
        <T as PartialEqSpec>::obeys_eq_spec(),
    ensures
        lists_kept(r@, row@, zero_value),
        r.len() == kept_count(row@, zero_value, row.len() as int),
{
    let mut out: Vec<ClassID> = Vec::new();
    let mut idx: usize = 0;
    while idx < row.len()
        invariant
            idx <= row.len(),
            <T as PartialEqSpec>::obeys_eq_spec(),
            forall|j: int| 0 <= j < out.len() ==> #[trigger] out@[j] < idx && is_kept(row@[out@[j] as int], zero_value),
            forall|c: int| 0 <= c < idx && is_kept(#[trigger] row@[c], zero_value) ==> out@.contains(c as usize),
            forall|a: int, b: int| 0 <= a < b < out.len() ==> out@[a] < out@[b],
            out.len() == kept_count(row@, zero_value, idx as int),
        decreases row.len() - idx,
    {
        let ghost before = out@;
        if row[idx].ne(&zero_value) {
            out.push(idx);
            proof {
                assert(out@[out.len() - 1] == idx);
            }
        }
        proof {
            assert forall|c: int| 0 <= c < idx + 1 && is_kept(#[trigger] row@[c], zero_value) implies out@.contains(
                c as usize,
            ) by {
                if c == idx {
                    assert(out@[out.len() - 1] == idx);
                } else {
                    assert(before.contains(c as usize));
                    let j = choose|j: int| 0 <= j < before.len() && #[trigger] before[j] == c as usize;
                    assert(out@[j] == before[j]);
                }
            }
        }
        idx = idx + 1;
    }
    out
}

/// A vector of `n` copies of `value`.
fn filled<V: Copy>(value: V, n: usize) -> (r: Vec<V>)
    ensures
        r@ == Seq::new(n as nat, |_i: int| value),
{
    let mut out: Vec<V> = Vec::new();
    while out.len() < n
        invariant
            out.len() <= n,
            out@ == Seq::new(out.len() as nat, |_i: int| value),
        decreases n - out.len(),
    {
        out.push(value);
        assert(out@ =~= Seq::new(out.len() as nat, |_i: int| value));
    }
    out
}

/// Grows `v` with copies of `value`, or truncates it, to `len` items.
fn resize_vec<V: Copy>(v: &mut Vec<V>, len: usize, value: V)
    ensures
        final(v)@ == (if len > old(v)@.len() {
            old(v)@ + Seq::new((len - old(v)@.len()) as nat, |_i: int| value)
        } else {
            old(v)@.take(len as int)
        }),
{
    if len > v.len() {
        let ghost start = v@;
        while v.len() < len
            invariant
                start.len() <= v.len() <= len,
                v@ == start + Seq::new((v.len() - start.len()) as nat, |_i: int| value),
            decreases len - v.len(),
        {
            v.push(value);
            assert(v@ =~= start + Seq::new((v.len() - start.len()) as nat, |_i: int| value));
        }
    } else {
        v.truncate(len);
    }
}

/// Row `a` comes before row `b` when ordered by decreasing count, rows of
/// equal count last row first.
pub open spec fn count_before(counts: Seq<usize>, a: int, b: int) -> bool {
    counts[a] > counts[b] || (counts[a] == counts[b] && a > b)
}

/// The rows `0 .. counts.len()`, ordered by decreasing count; rows of equal
/// count come last row first.
fn rows_by_count(counts: &Vec<usize>) -> (order: Vec<usize>)
    ensures
        order.len() == counts.len(),
        forall|j: int| 0 <= j < order.len() ==> #[trigger] order@[j] < counts.len(),
        forall|x: usize| x < counts.len() ==> #[trigger] order@.contains(x),
        order@.no_duplicates(),
        forall|a: int, b: int|
            0 <= a < b < order.len() ==> count_before(counts@, #[trigger] order@[a] as int, #[trigger] order@[b] as int),
{
    let mut order: Vec<usize> = Vec::new();
    let mut row: usize = 0;
    while row < counts.len()
        invariant
            row <= counts.len(),
            order.len() == row,
            forall|j: int| 0 <= j < order.len() ==> #[trigger] order@[j] < row,
            forall|x: usize| x < row ==> #[trigger] order@.contains(x),
            order@.no_duplicates(),
            forall|a: int, b: int|
                0 <= a < b < order.len() ==> count_before(counts@, #[trigger] order@[a] as int, #[trigger] order@[b] as int),
        decreases counts.len() - row,
    {
        let mut p: usize = 0;
        while p < order.len() && counts[order[p]] > counts[row]
            invariant
                p <= order.len(),
                row < counts.len(),
                forall|j: int| 0 <= j < order.len() ==> #[trigger] order@[j] < row,
                forall|j: int| 0 <= j < p ==> counts@[#[trigger] order@[j] as int] > counts@[row as int],
            decreases order.len() - p,
        {
            p = p + 1;
        }
        let ghost old_order = order@;
        order.insert(p, row);
        proof {
            old_order.insert_ensures(p as int, row);
            assert forall|j: int| 0 <= j < order.len() implies #[trigger] order@[j] < row + 1 by {
                if j < p {
                    assert(order@[j] == old_order[j]);
                } else if j > p {
                    assert(order@[j] == old_order[j - 1]);
                }
            }
            assert forall|x: usize| x < row + 1 implies #[trigger] order@.contains(x) by {
                if x == row {
                    assert(order@[p as int] == row);
                } else {
                    assert(old_order.contains(x));
                    let j = choose|j: int| 0 <= j < old_order.len() && old_order[j] == x;
                    if j < p {
                        assert(order@[j] == x);
                    } else {
                        assert(order@[j + 1] == x);
                    }
                }
            }
            assert forall|a: int, b: int| 0 <= a < order.len() && 0 <= b < order.len() && a != b implies order@[a]
                != order@[b] by {
                let ia = if a < p { a } else if a > p { a - 1 } else { -1 };
                let ib = if b < p { b } else if b > p { b - 1 } else { -1 };
                if ia >= 0 {
                    assert(order@[a] == old_order[ia]);
                }
                if ib >= 0 {
                    assert(order@[b] == old_order[ib]);
                }
                if ia >= 0 && ib >= 0 {
                    assert(old_order[ia] != old_order[ib]);
                }
            }
            assert forall|a: int, b: int| 0 <= a < b < order.len() implies count_before(
                counts@,
                #[trigger] order@[a] as int,
                #[trigger] order@[b] as int,
            ) by {
                if b < p {
                    assert(order@[a] == old_order[a] && order@[b] == old_order[b]);
                } else if b == p {
                    assert(order@[a] == old_order[a]);
                } else if a > p {
                    assert(order@[a] == old_order[a - 1] && order@[b] == old_order[b - 1]);
                } else if a == p {
                    assert(order@[b] == old_order[b - 1]);
                    assert(!(counts@[old_order[p as int] as int] > counts@[row as int]));
                    if b - 1 > p {
                        assert(count_before(counts@, old_order[p as int] as int, old_order[b - 1] as int));
                    }
                } else {
                    assert(order@[a] == old_order[a] && order@[b] == old_order[b - 1]);
                }
            }
        }
        row = row + 1;
    }
    order
}

/// Places one row that keeps at least one cell: finds a free base for its
/// columns, widens `next` and `check` to hold them, and writes its cells.
/// Returns a bound on the set bits afterwards.
fn place_row<T: Eq + Copy>(
    matrix: &Vec<Vec<T>>,
    zero_value: T,
    row: usize,
    cols: &Vec<ClassID>,
    bitmap: &mut SlotBitmap,
    base: &mut Vec<Option<usize>>,
    next: &mut Vec<T>,
    check: &mut Vec<Option<usize>>,
    Ghost(h): Ghost<nat>,
    Ghost(w): Ghost<nat>,
) -> (h2: Ghost<nat>)
    requires
        row < matrix.len(),
        cols.len() > 0,
        lists_kept(cols@, matrix@[row as int]@, zero_value),
        layout_ok(matrix@, zero_value, old(base)@, old(next)@, old(check)@, bits_of(*old(bitmap))),
        old(base)@[row as int] is None,
        forall|p: int| #[trigger] bit_at(bits_of(*old(bitmap)), p) ==> p < h,
        matrix@[row as int]@.len() + 1 <= w,
        h + 3 * w <= max_bits(),
    ensures
        layout_ok(matrix@, zero_value, final(base)@, final(next)@, final(check)@, bits_of(*final(bitmap))),
        final(base)@ == old(base)@.update(row as int, final(base)@[row as int]),
        final(base)@[row as int] is Some,
        forall|p: int| #[trigger] bit_at(bits_of(*final(bitmap)), p) ==> p < h2@,
        h <= h2@ <= h + w,
        bits_of(*final(bitmap)).len() <= bits_of(*old(bitmap)).len() || bits_of(*final(bitmap)).len() <= h + 2 * w,
        fits_at(bits_of(*old(bitmap)), cols@, final(base)@[row as int].unwrap() as int),
        exists|x: int|
            #[trigger] first_zero_at(bits_of(*old(bitmap)), x) && x <= final(base)@[row as int].unwrap() && forall|
                o2: int,
            | x <= o2 < final(base)@[row as int].unwrap() ==> !#[trigger] fits_at(bits_of(*old(bitmap)), cols@, o2),
        ({
            let ms = final(base)@[row as int].unwrap() + cols@[cols.len() - 1] + 1;
            &&& final(next)@.len() == if ms > old(next)@.len() {
                ms
            } else {
                old(next)@.len() as int
            }
            &&& final(check)@.len() == if ms > old(next)@.len() || ms > old(check)@.len() {
                ms
            } else {
                old(check)@.len() as int
            }
        }),
{
    let ghost m = matrix@;
    let ghost bits0 = bits_of(*bitmap);
    let ghost base0 = base@;
    let ghost next0 = next@;
    let ghost check0 = check@;
    let n = cols.len();
    let max_row = cols[n - 1];
    proof {
        assert forall|j: int| 0 <= j < n implies #[trigger] cols@[j] <= max_row by {
            if j < n - 1 {
                assert(cols@[j] < cols@[n - 1]);
            }
        }
        assert(cols@[n - 1] < m[row as int]@.len());
    }
    let offset = alloc_base(bitmap, cols, max_row, Ghost(h));
    let ghost bits1 = bits_of(*bitmap);
    let max_size = offset + max_row + 1;
    if max_size > next.len() {
        resize_vec(next, max_size, zero_value);
        resize_vec(check, max_size, None);
    }
    if max_size > check.len() {
        resize_vec(check, max_size, None);
    }
    let ghost next1 = next@;
    let ghost check1 = check@;
    proof {
        assert forall|p: int| #[trigger] slot_used(check1, p) == slot_used(check0, p) by {
            if slot_used(check0, p) {
                assert(bit_at(bits0, p));
                assert(slot_owner_ok(m, zero_value, base0, next0, check0, p));
                assert(check1[p] == check0[p]);
            }
            if slot_used(check1, p) && p < check0.len() {
                assert(check1[p] == check0[p]);
            }
        }
        assert forall|p: int| 0 <= p < next0.len() implies #[trigger] next1[p] == next0[p] by {}
        assert forall|p: int| 0 <= p < check0.len() && slot_used(check0, p) implies #[trigger] check1[p] == check0[p] by {
            assert(slot_owner_ok(m, zero_value, base0, next0, check0, p));
        }
    }
    base.set(row, Some(offset));
    let mut k: usize = 0;
    while k < n
        invariant
            k <= n,
            n == cols.len(),
            m == matrix@,
            row < m.len(),
            lists_kept(cols@, m[row as int]@, zero_value),
            forall|j: int| 0 <= j < n ==> #[trigger] cols@[j] <= max_row,
            max_size == offset + max_row + 1,
            next@.len() == next1.len(),
            check@.len() == check1.len(),
            max_size <= next1.len(),
            max_size <= check1.len(),
            base@ == base0.update(row as int, Some(offset)),
            base0.len() == m.len(),
            base0[row as int] is None,
            layout_ok(m, zero_value, base0, next0, check0, bits0),
            forall|p: int| #[trigger] slot_used(check1, p) == slot_used(check0, p),
            forall|p: int| 0 <= p < next0.len() ==> #[trigger] next1[p] == next0[p],
            forall|p: int| 0 <= p < check0.len() && slot_used(check0, p) ==> #[trigger] check1[p] == check0[p],
            forall|p: int| 0 <= p < next1.len() && p >= next0.len() ==> #[trigger] next1[p] == zero_value,
            fits_at(bits0, cols@, offset as int),
            forall|p: int| #[trigger] slot_used(check@, p) == (slot_used(check1, p) || covers(cols@, k as int, offset as int, p)),
            forall|p: int| 0 <= p < check@.len() && !covers(cols@, k as int, offset as int, p) ==> #[trigger] check@[p] == check1[p],
            forall|p: int| 0 <= p < next@.len() && !covers(cols@, k as int, offset as int, p) ==> #[trigger] next@[p] == next1[p],
            forall|j: int| 0 <= j < k ==> #[trigger] check@[offset + cols@[j]] == Some(row) && next@[offset + cols@[j]] == m[row as int]@[cols@[j] as int],
        decreases n - k,
    {
        let edge = cols[k];
        let pos = offset + edge;
        let x = matrix[row][edge];
        let ghost before_check = check@;
        let ghost before_next = next@;
        next.set(pos, x);
        check.set(pos, Some(row));
        proof {
            assert forall|p: int| #[trigger] slot_used(check@, p) == (slot_used(check1, p) || covers(cols@, k + 1, offset as int, p)) by {
                if p == pos {
                    assert(covers(cols@, k + 1, offset as int, p));
                } else {
                    if covers(cols@, k + 1, offset as int, p) {
                        let j = choose|j: int| 0 <= j < k + 1 && p == offset + #[trigger] cols@[j];
                        assert(covers(cols@, k as int, offset as int, p));
                    }
                    assert(slot_used(check@, p) == slot_used(before_check, p));
                }
            }
            assert forall|p: int| 0 <= p < check@.len() && !covers(cols@, k + 1, offset as int, p) implies #[trigger] check@[p] == check1[p] by {
                if covers(cols@, k as int, offset as int, p) {
                    let j = choose|j: int| 0 <= j < k && p == offset + #[trigger] cols@[j];
                    assert(covers(cols@, k + 1, offset as int, p));
                }
                assert(p != pos) by {
                    if p == pos {
                        assert(covers(cols@, k + 1, offset as int, p));
                    }
                }
            }
            assert forall|p: int| 0 <= p < next@.len() && !covers(cols@, k + 1, offset as int, p) implies #[trigger] next@[p] == next1[p] by {
                if covers(cols@, k as int, offset as int, p) {
                    let j = choose|j: int| 0 <= j < k && p == offset + #[trigger] cols@[j];
                    assert(covers(cols@, k + 1, offset as int, p));
                }
                assert(p != pos) by {
                    if p == pos {
                        assert(covers(cols@, k + 1, offset as int, p));
                    }
                }
            }
            assert forall|j: int| 0 <= j < k + 1 implies #[trigger] check@[offset + cols@[j]] == Some(row) && next@[offset + cols@[j]] == m[row as int]@[cols@[j] as int] by {
                if j < k {
                    assert(cols@[j] != edge) by {
                        assert(cols@[j] < cols@[k as int]);
                    }
                    assert(check@[offset + cols@[j]] == before_check[offset + cols@[j]]);
                    assert(next@[offset + cols@[j]] == before_next[offset + cols@[j]]);
                } else {
                    assert(check@[pos as int] == Some(row));
                    assert(next@[pos as int] == x);
                }
            }
        }
        k = k + 1;
    }
    proof {
        let bits = bits_of(*bitmap);
        let fb = base@;
        let fnext = next@;
        let fcheck = check@;
        assert forall|p: int| #[trigger] covers(cols@, n as int, offset as int, p) implies 0 <= p < fcheck.len()
            && fcheck[p] == Some(row) && fnext[p] == m[row as int]@[p - offset] && p < fnext.len() && cols@.contains((p - offset) as usize) by {
            let j = choose|j: int| 0 <= j < n && p == offset + #[trigger] cols@[j];
            assert(check@[offset + cols@[j]] == Some(row));
        }
        assert forall|p: int| #[trigger] bit_at(bits, p) == slot_used(fcheck, p) by {
            assert(bit_at(bits0, p) == slot_used(check0, p));
        }
        assert forall|p: int| #[trigger] slot_used(fcheck, p) implies slot_owner_ok(m, zero_value, fb, fnext, fcheck, p) by {
            if covers(cols@, n as int, offset as int, p) {
                let j = choose|j: int| 0 <= j < n && p == offset + #[trigger] cols@[j];
                assert(fcheck[p] == Some(row));
                assert(matrix_cell(m, zero_value, row as int, p - offset) == Some(fnext[p]));
            } else {
                assert(slot_used(check0, p));
                assert(slot_owner_ok(m, zero_value, base0, next0, check0, p));
                let r = check0[p].unwrap() as int;
                assert(fcheck[p] == check0[p]);
                assert(r != row) by {
                    assert(base0[r] is Some);
                }
                assert(fnext[p] == next0[p]);
            }
        }
        assert forall|r: int, c: int| 0 <= r < m.len() && fb[r] is Some && #[trigger] matrix_cell(m, zero_value, r, c) is Some implies cell_in_slot(
            fnext,
            fcheck,
            r,
            fb[r].unwrap() as int,
            c,
            matrix_cell(m, zero_value, r, c).unwrap(),
        ) by {
            if r == row {
                assert(m[r]@.len() > c >= 0);
                assert(cols@.contains(c as usize));
                let j = choose|j: int| 0 <= j < n && cols@[j] == c as usize;
                assert(check@[offset + cols@[j]] == Some(row));
            } else {
                assert(base0[r] is Some);
                let o = base0[r].unwrap() as int;
                assert(cell_in_slot(next0, check0, r, o, c, matrix_cell(m, zero_value, r, c).unwrap()));
                assert(slot_used(check0, o + c));
                assert(bit_at(bits0, o + c));
                assert(!covers(cols@, n as int, offset as int, o + c)) by {
                    if covers(cols@, n as int, offset as int, o + c) {
                        let j = choose|j: int| 0 <= j < n && o + c == offset + #[trigger] cols@[j];
                        assert(!bit_at(bits0, offset + cols@[j]));
                    }
                }
            }
        }
        assert forall|p: int| 0 <= p < fnext.len() && !slot_used(fcheck, p) implies #[trigger] fnext[p] == zero_value by {
            assert(!covers(cols@, n as int, offset as int, p));
            if p < next0.len() {
                assert(!slot_used(check0, p));
            }
        }
        assert forall|p: int| #[trigger] bit_at(bits, p) implies p < (if h >= max_size { h } else { max_size as nat }) by {
            if !bit_at(bits0, p) {
                let j = choose|j: int| 0 <= j < n && p == offset + #[trigger] cols@[j];
            }
        }
    }
    Ghost(if h >= max_size { h } else { max_size as nat })
}

/// Row `a` is placed before row `b`: it keeps more cells, or as many and is
/// the later row.
pub open spec fn placed_before<T: PartialEq>(matrix: Seq<Vec<T>>, zero: T, a: int, b: int) -> bool {
    row_kept(matrix, zero, a) > row_kept(matrix, zero, b) || (row_kept(matrix, zero, a) == row_kept(
        matrix,
        zero,
        b,
    ) && a > b)
}

/// Row `r` has a base, and one of its kept cells lands on slot `p`.
pub open spec fn row_takes<T: PartialEq>(matrix: Seq<Vec<T>>, zero: T, base: Seq<Option<usize>>, r: int, p: int) -> bool {
    base[r] is Some && matrix_cell(matrix, zero, r, p - base[r].unwrap()) is Some
}

/// Slot `p` is taken by some row with a base.
pub open spec fn slot_taken<T: PartialEq>(matrix: Seq<Vec<T>>, zero: T, base: Seq<Option<usize>>, p: int) -> bool {
    exists|r: int| 0 <= r < matrix.len() && #[trigger] row_takes(matrix, zero, base, r, p)
}

/// Every slot taken by a row with a base lies below `len`.
pub open spec fn slots_below<T: PartialEq>(matrix: Seq<Vec<T>>, zero: T, base: Seq<Option<usize>>, len: int) -> bool {
    forall|r: int, p: int| 0 <= r < matrix.len() && #[trigger] row_takes(matrix, zero, base, r, p) ==> p < len
}

/// Slot `p` is taken by a row placed before `row`.
pub open spec fn taken_before<T: PartialEq>(
    matrix: Seq<Vec<T>>,
    zero: T,
    base: Seq<Option<usize>>,
    row: int,
    p: int,
) -> bool {
    exists|r: int| 0 <= r < matrix.len() && placed_before(matrix, zero, r, row) && #[trigger] row_takes(matrix, zero, base, r, p)
}

/// At offset `o` every kept cell of `row` lands on a slot that no row placed
/// before it takes.
pub open spec fn fits_row<T: PartialEq>(matrix: Seq<Vec<T>>, zero: T, base: Seq<Option<usize>>, row: int, o: int) -> bool {
    forall|c: int| #[trigger] matrix_cell(matrix, zero, row, c) is Some ==> !taken_before(matrix, zero, base, row, o + c)
}

/// Slot `p` is the first one that no row placed before `row` takes.
pub open spec fn first_free_before<T: PartialEq>(
    matrix: Seq<Vec<T>>,
    zero: T,
    base: Seq<Option<usize>>,
    row: int,
    p: int,
) -> bool {
    &&& 0 <= p
    &&& !taken_before(matrix, zero, base, row, p)
    &&& forall|q: int| 0 <= q < p ==> #[trigger] taken_before(matrix, zero, base, row, q)
}

/// `o` is the first offset, from the first free slot on, at which `row`
/// fits among the rows placed before it.
pub open spec fn first_fit<T: PartialEq>(matrix: Seq<Vec<T>>, zero: T, base: Seq<Option<usize>>, row: int, o: int) -> bool {
    &&& fits_row(matrix, zero, base, row, o)
    &&& exists|p0: int|
        #[trigger] first_free_before(matrix, zero, base, row, p0) && p0 <= o && forall|o2: int|
            p0 <= o2 < o ==> !#[trigger] fits_row(matrix, zero, base, row, o2)
}

/// With `order` sorted by decreasing count, ties last row first, the rows
/// placed before `order[i]` are those that come before it in `order`.
proof fn lemma_placed_before_is_earlier<T: PartialEq>(
    matrix: Seq<Vec<T>>,
    zero: T,
    counts: Seq<usize>,
    order: Seq<usize>,
    i: int,
)
    requires
        0 <= i < order.len(),
        matrix.len() <= usize::MAX,
        counts.len() == matrix.len(),
        order.len() == matrix.len(),
        forall|j: int| 0 <= j < matrix.len() ==> #[trigger] counts[j] == row_kept(matrix, zero, j),
        forall|j: int| 0 <= j < order.len() ==> #[trigger] order[j] < matrix.len(),
        forall|x: usize| x < matrix.len() ==> #[trigger] order.contains(x),
        forall|a: int, b: int|
            0 <= a < b < order.len() ==> count_before(counts, #[trigger] order[a] as int, #[trigger] order[b] as int),
    ensures
        forall|r: int|
            0 <= r < matrix.len() ==> (placed_before(matrix, zero, r, order[i] as int) <==> #[trigger] order.take(
                i,
            ).contains(r as usize)),
{
    assert forall|r: int| 0 <= r < matrix.len() implies (placed_before(matrix, zero, r, order[i] as int)
        <==> #[trigger] order.take(i).contains(r as usize)) by {
        assert(order.contains(r as usize));
        let j = choose|j: int| 0 <= j < order.len() && order[j] == r as usize;
        assert(order[j] as int == r);
        assert(counts[r] == row_kept(matrix, zero, r));
        assert(counts[order[i] as int] == row_kept(matrix, zero, order[i] as int));
        if j < i {
            assert(count_before(counts, order[j] as int, order[i] as int));
            assert(order.take(i)[j] == r as usize);
        } else {
            if j > i {
                assert(count_before(counts, order[i] as int, order[j] as int));
            }
            if order.take(i).contains(r as usize) {
                let k = choose|k: int| 0 <= k < i && order.take(i)[k] == r as usize;
                assert(order[k] == r as usize);
                assert(count_before(counts, order[k] as int, order[i] as int));
                if j > i {
                    assert(count_before(counts, order[k] as int, order[j] as int));
                }
            }
        }
    }
}

/// When every row with a base is placed before `row`, the set bits of a
/// compression under way are the slots taken before `row`.
proof fn lemma_bits_are_taken<T: PartialEq>(
    matrix: Seq<Vec<T>>,
    zero: T,
    base: Seq<Option<usize>>,
    next: Seq<T>,
    check: Seq<Option<usize>>,
    bits: Seq<bool>,
    row: int,
)
    requires
        layout_ok(matrix, zero, base, next, check, bits),
        forall|x: int| 0 <= x < matrix.len() && #[trigger] base[x] is Some ==> placed_before(matrix, zero, x, row),
    ensures
        forall|p: int| #[trigger] bit_at(bits, p) == taken_before(matrix, zero, base, row, p),
{
    assert forall|p: int| #[trigger] bit_at(bits, p) == taken_before(matrix, zero, base, row, p) by {
        if bit_at(bits, p) {
            assert(slot_used(check, p));
            assert(slot_owner_ok(matrix, zero, base, next, check, p));
            let r = check[p].unwrap() as int;
            assert(row_takes(matrix, zero, base, r, p));
        }
        if taken_before(matrix, zero, base, row, p) {
            let r = choose|r: int|
                0 <= r < matrix.len() && placed_before(matrix, zero, r, row) && #[trigger] row_takes(matrix, zero, base, r, p);
            let o = base[r].unwrap() as int;
            assert(matrix_cell(matrix, zero, r, p - o) is Some);
            assert(cell_in_slot(next, check, r, o, p - o, matrix_cell(matrix, zero, r, p - o).unwrap()));
            assert(slot_used(check, p));
        }
    }
}

/// What is taken before row `x`, and so where `x` first fits, depends only
/// on the bases of the rows placed before `x`.
proof fn lemma_first_fit_same<T: PartialEq>(
    matrix: Seq<Vec<T>>,
    zero: T,
    b1: Seq<Option<usize>>,
    b2: Seq<Option<usize>>,
    x: int,
)
    requires
        b1.len() == matrix.len(),
        b2.len() == matrix.len(),
        forall|r: int| 0 <= r < matrix.len() && placed_before(matrix, zero, r, x) ==> #[trigger] b1[r] == b2[r],
    ensures
        forall|p: int| #[trigger] taken_before(matrix, zero, b1, x, p) == taken_before(matrix, zero, b2, x, p),
        forall|o: int| #[trigger] first_fit(matrix, zero, b1, x, o) == first_fit(matrix, zero, b2, x, o),
{
    assert forall|p: int| #[trigger] taken_before(matrix, zero, b1, x, p) == taken_before(matrix, zero, b2, x, p) by {
        if taken_before(matrix, zero, b1, x, p) {
            let r = choose|r: int|
                0 <= r < matrix.len() && placed_before(matrix, zero, r, x) && #[trigger] row_takes(matrix, zero, b1, r, p);
            assert(b1[r] == b2[r]);
            assert(row_takes(matrix, zero, b2, r, p));
        }
        if taken_before(matrix, zero, b2, x, p) {
            let r = choose|r: int|
                0 <= r < matrix.len() && placed_before(matrix, zero, r, x) && #[trigger] row_takes(matrix, zero, b2, r, p);
            assert(b1[r] == b2[r]);
            assert(row_takes(matrix, zero, b1, r, p));
        }
    }
    assert forall|o: int| #[trigger] fits_row(matrix, zero, b1, x, o) == fits_row(matrix, zero, b2, x, o) by {
        assert forall|c: int| #[trigger] taken_before(matrix, zero, b1, x, o + c) == taken_before(matrix, zero, b2, x, o + c) by {}
    }
    assert forall|p: int| #[trigger] first_free_before(matrix, zero, b1, x, p) == first_free_before(matrix, zero, b2, x, p) by {
        assert(taken_before(matrix, zero, b1, x, p) == taken_before(matrix, zero, b2, x, p));
        assert forall|q: int|
            #![trigger taken_before(matrix, zero, b1, x, q)]
            #![trigger taken_before(matrix, zero, b2, x, q)]
            0 <= q < p implies taken_before(matrix, zero, b1, x, q) == taken_before(matrix, zero, b2, x, q) by {}
    }
    assert forall|o: int| #[trigger] first_fit(matrix, zero, b1, x, o) == first_fit(matrix, zero, b2, x, o) by {
        if first_fit(matrix, zero, b1, x, o) {
            let p0 = choose|p0: int|
                #[trigger] first_free_before(matrix, zero, b1, x, p0) && p0 <= o && forall|o2: int|
                    p0 <= o2 < o ==> !#[trigger] fits_row(matrix, zero, b1, x, o2);
            assert(first_free_before(matrix, zero, b2, x, p0));
            assert forall|o2: int| p0 <= o2 < o implies !#[trigger] fits_row(matrix, zero, b2, x, o2) by {
                assert(fits_row(matrix, zero, b1, x, o2) == fits_row(matrix, zero, b2, x, o2));
            }
        }
        if first_fit(matrix, zero, b2, x, o) {
            let p0 = choose|p0: int|
                #[trigger] first_free_before(matrix, zero, b2, x, p0) && p0 <= o && forall|o2: int|
                    p0 <= o2 < o ==> !#[trigger] fits_row(matrix, zero, b2, x, o2);
            assert(first_free_before(matrix, zero, b1, x, p0));
            assert forall|o2: int| p0 <= o2 < o implies !#[trigger] fits_row(matrix, zero, b1, x, o2) by {
                assert(fits_row(matrix, zero, b1, x, o2) == fits_row(matrix, zero, b2, x, o2));
            }
        }
    }
}

/// An offset found on the bitmap, when the set bits are the slots taken
/// before `row`, is the first fit of `row`.
proof fn lemma_first_fit_from_bits<T: PartialEq>(
    matrix: Seq<Vec<T>>,
    zero: T,
    base: Seq<Option<usize>>,
    bits: Seq<bool>,
    cols: Seq<usize>,
    row: int,
    o: int,
)
    requires
        0 <= row < matrix.len(),
        matrix[row]@.len() <= usize::MAX,
        forall|p: int| #[trigger] bit_at(bits, p) == taken_before(matrix, zero, base, row, p),
        lists_kept(cols, matrix[row]@, zero),
        fits_at(bits, cols, o),
        exists|x: int|
            #[trigger] first_zero_at(bits, x) && x <= o && forall|o2: int| x <= o2 < o ==> !#[trigger] fits_at(bits, cols, o2),
    ensures
        first_fit(matrix, zero, base, row, o),
{
    assert forall|o2: int| #[trigger] fits_at(bits, cols, o2) == fits_row(matrix, zero, base, row, o2) by {
        if fits_at(bits, cols, o2) {
            assert forall|c: int| #[trigger] matrix_cell(matrix, zero, row, c) is Some implies !taken_before(
                matrix,
                zero,
                base,
                row,
                o2 + c,
            ) by {
                assert(0 <= c < matrix[row]@.len() && is_kept(matrix[row]@[c], zero));
                assert(cols.contains(c as usize));
                let j = choose|j: int| 0 <= j < cols.len() && cols[j] == c as usize;
                assert(cols[j] as int == c);
                assert(!bit_at(bits, o2 + cols[j]));
            }
        }
        if fits_row(matrix, zero, base, row, o2) {
            assert forall|j: int| 0 <= j < cols.len() implies !#[trigger] bit_at(bits, o2 + cols[j]) by {
                assert(matrix_cell(matrix, zero, row, cols[j] as int) is Some);
            }
        }
    }
    let x = choose|x: int|
        #[trigger] first_zero_at(bits, x) && x <= o && forall|o2: int| x <= o2 < o ==> !#[trigger] fits_at(bits, cols, o2);
    assert(first_free_before(matrix, zero, base, row, x)) by {
        assert(!bit_at(bits, x));
        assert forall|q: int| 0 <= q < x implies #[trigger] taken_before(matrix, zero, base, row, q) by {
            assert(bit_at(bits, q));
        }
    }
    assert forall|o2: int| x <= o2 < o implies !#[trigger] fits_row(matrix, zero, base, row, o2) by {
        assert(!fits_at(bits, cols, o2));
    }
    assert(fits_at(bits, cols, o) == fits_row(matrix, zero, base, row, o));
}

/// The lengths of `next` and `check`: `next` is as long as the first row or
/// reaches just past the last taken slot, whichever is longer; `check` is as
/// long as `next` once `next` has grown, and before that as long as the
/// number of rows or reaches just past the last taken slot, whichever is
/// longer.
pub open spec fn table_lengths<T: PartialEq>(
    matrix: Seq<Vec<T>>,
    zero: T,
    base: Seq<Option<usize>>,
    next_len: int,
    check_len: int,
) -> bool {
    let stride = matrix[0]@.len() as int;
    &&& next_len >= stride
    &&& slots_below(matrix, zero, base, next_len)
    &&& next_len == stride || slot_taken(matrix, zero, base, next_len - 1)
    &&& next_len > stride ==> check_len == next_len
    &&& next_len == stride ==> {
        &&& check_len >= matrix.len()
        &&& slots_below(matrix, zero, base, check_len)
        &&& check_len == matrix.len() || slot_taken(matrix, zero, base, check_len - 1)
    }
}

/// Placing one more row, whose slots end at `ms`, keeps the lengths of
/// `next` and `check` as `table_lengths` states them.
proof fn lemma_lengths_after_place<T: PartialEq>(
    matrix: Seq<Vec<T>>,
    zero: T,
    b0: Seq<Option<usize>>,
    b1: Seq<Option<usize>>,
    row: int,
    cols: Seq<usize>,
    nl0: int,
    cl0: int,
    nl1: int,
    cl1: int,
)
    requires
        0 <= row < matrix.len(),
        matrix[row]@.len() <= usize::MAX,
        b0.len() == matrix.len(),
        b0[row] is None,
        b1[row] is Some,
        b1 == b0.update(row, b1[row]),
        lists_kept(cols, matrix[row]@, zero),
        cols.len() > 0,
        forall|a: int, b: int| 0 <= a < b < cols.len() ==> cols[a] < cols[b],
        table_lengths(matrix, zero, b0, nl0, cl0),
        ({
            let ms = b1[row].unwrap() + cols[cols.len() - 1] + 1;
            &&& nl1 == if ms > nl0 {
                ms
            } else {
                nl0
            }
            &&& cl1 == if ms > nl0 || ms > cl0 {
                ms
            } else {
                cl0
            }
        }),
    ensures
        table_lengths(matrix, zero, b1, nl1, cl1),
{
    let o = b1[row].unwrap() as int;
    let last = cols[cols.len() - 1] as int;
    let ms = o + last + 1;
    assert forall|r: int, p: int| 0 <= r < matrix.len() && r != row implies #[trigger] row_takes(matrix, zero, b1, r, p)
        == row_takes(matrix, zero, b0, r, p) by {
        assert(b1[r] == b0[r]);
    }
    assert forall|p: int| #[trigger] row_takes(matrix, zero, b1, row, p) implies p < ms by {
        let c = p - o;
        assert(0 <= c < matrix[row]@.len() && is_kept(matrix[row]@[c], zero));
        assert(cols.contains(c as usize));
        let j = choose|j: int| 0 <= j < cols.len() && cols[j] == c as usize;
        assert(cols[j] as int == c);
        if j < cols.len() - 1 {
            assert(cols[j] < cols[cols.len() - 1]);
        }
    }
    assert(row_takes(matrix, zero, b1, row, ms - 1)) by {
        assert(matrix_cell(matrix, zero, row, last) is Some);
    }
    assert forall|p: int| #[trigger] slot_taken(matrix, zero, b0, p) implies slot_taken(matrix, zero, b1, p) by {
        let r = choose|r: int| 0 <= r < matrix.len() && #[trigger] row_takes(matrix, zero, b0, r, p);
        assert(r != row);
        assert(row_takes(matrix, zero, b1, r, p));
    }
    assert forall|len: int| #[trigger] slots_below(matrix, zero, b0, len) && ms <= len implies slots_below(
        matrix,
        zero,
        b1,
        len,
    ) by {
        assert forall|r: int, p: int| 0 <= r < matrix.len() && #[trigger] row_takes(matrix, zero, b1, r, p) implies p
            < len by {
            if r != row {
                assert(row_takes(matrix, zero, b0, r, p));
            }
        }
    }
    assert forall|len: int| #[trigger] slots_below(matrix, zero, b0, len) && len <= nl1 implies slots_below(
        matrix,
        zero,
        b0,
        nl1,
    ) by {}
    assert(slots_below(matrix, zero, b0, nl1));
    if ms > nl0 {
        assert(slot_taken(matrix, zero, b1, nl1 - 1));
    } else if ms > cl0 {
        assert(slots_below(matrix, zero, b0, cl1));
        assert(slot_taken(matrix, zero, b1, cl1 - 1));
    } else {
        if nl0 == matrix[0]@.len() {
            assert(slots_below(matrix, zero, b1, cl1));
            if cl1 != matrix.len() {
                assert(slot_taken(matrix, zero, b0, cl1 - 1));
            }
        }
        if nl1 != matrix[0]@.len() {
            assert(slot_taken(matrix, zero, b0, nl1 - 1));
        }
    }
}

/// Placing row `order[i]` at its first fit keeps every placed row at its
/// first fit.
proof fn lemma_place_keeps_first_fit<T: PartialEq>(
    matrix: Seq<Vec<T>>,
    zero: T,
    counts: Seq<usize>,
    order: Seq<usize>,
    i: int,
    b0: Seq<Option<usize>>,
    b1: Seq<Option<usize>>,
    next: Seq<T>,
    check: Seq<Option<usize>>,
    bits: Seq<bool>,
    cols: Seq<usize>,
)
    requires
        0 <= i < order.len(),
        matrix.len() <= usize::MAX,
        order[i] < matrix.len(),
        matrix[order[i] as int]@.len() <= usize::MAX,
        counts.len() == matrix.len(),
        order.len() == matrix.len(),
        forall|j: int| 0 <= j < matrix.len() ==> #[trigger] counts[j] == row_kept(matrix, zero, j),
        forall|j: int| 0 <= j < order.len() ==> #[trigger] order[j] < matrix.len(),
        forall|x: usize| x < matrix.len() ==> #[trigger] order.contains(x),
        forall|a: int, b: int|
            0 <= a < b < order.len() ==> count_before(counts, #[trigger] order[a] as int, #[trigger] order[b] as int),
        layout_ok(matrix, zero, b0, next, check, bits),
        forall|x: int| 0 <= x < matrix.len() && #[trigger] b0[x] is Some ==> order.take(i).contains(x as usize),
        forall|x: int|
            0 <= x < matrix.len() && #[trigger] b0[x] is Some ==> first_fit(matrix, zero, b0, x, b0[x].unwrap() as int),
        b1.len() == matrix.len(),
        b1[order[i] as int] is Some,
        b1 == b0.update(order[i] as int, b1[order[i] as int]),
        lists_kept(cols, matrix[order[i] as int]@, zero),
        fits_at(bits, cols, b1[order[i] as int].unwrap() as int),
        exists|x: int|
            #[trigger] first_zero_at(bits, x) && x <= b1[order[i] as int].unwrap() && forall|o2: int|
                x <= o2 < b1[order[i] as int].unwrap() ==> !#[trigger] fits_at(bits, cols, o2),
    ensures
        forall|x: int|
            0 <= x < matrix.len() && #[trigger] b1[x] is Some ==> first_fit(matrix, zero, b1, x, b1[x].unwrap() as int),
{
    let row = order[i] as int;
    lemma_placed_before_is_earlier(matrix, zero, counts, order, i);
    assert forall|x: int| 0 <= x < matrix.len() && #[trigger] b0[x] is Some implies placed_before(matrix, zero, x, row) by {
        assert(order.take(i).contains(x as usize));
    }
    lemma_bits_are_taken(matrix, zero, b0, next, check, bits, row);
    lemma_first_fit_same(matrix, zero, b0, b1, row);
    lemma_first_fit_from_bits(matrix, zero, b1, bits, cols, row, b1[row].unwrap() as int);
    assert forall|x: int| 0 <= x < matrix.len() && #[trigger] b1[x] is Some implies first_fit(
        matrix,
        zero,
        b1,
        x,
        b1[x].unwrap() as int,
    ) by {
        if x != row {
            assert(b0[x] == b1[x]);
            assert(order.take(i).contains(x as usize));
            assert(placed_before(matrix, zero, x, row));
            lemma_first_fit_same(matrix, zero, b0, b1, x);
        }
    }
}

/// Every row fits the bitmap's limit: with `w` one more than the longest
/// row, `rows + (rows + 2) * w` slots are within `max_bits()`.
pub open spec fn fits_compress<T>(matrix: Seq<Vec<T>>) -> bool {
    forall|row: int|
        0 <= row < matrix.len() ==> matrix.len() + (matrix.len() + 2) * (#[trigger] matrix[row]@.len() + 1)
            <= max_bits()
}

/// Compresses a sparse table by row displacement. Rows are placed in turn,
/// those with more kept cells (cells that differ from `zero_value`) first,
/// and among rows with as many the later row first. Each row that keeps a
/// cell gets as its base the first offset, from the first free slot on, at
/// which its kept cells land on slots no earlier row took; `check` names the
/// row of each taken slot. Returns `(base, next, check)`.
pub fn compress_matrix<T: Eq + Copy>(matrix: &Vec<Vec<T>>, zero_value: T) -> (r: (
    Vec<Option<usize>>,
    Vec<T>,
    Vec<Option<usize>>,
))
    requires
        matrix.len() > 0,
        <T as PartialEqSpec>::obeys_eq_spec(),
        fits_compress(matrix@),
    ensures
        compresses(matrix@, zero_value, r.0@, r.1@, r.2@),
        forall|row: int|
            0 <= row < matrix.len() && #[trigger] r.0@[row] is Some ==> first_fit(
                matrix@,
                zero_value,
                r.0@,
                row,
                r.0@[row].unwrap() as int,
            ),
        table_lengths(matrix@, zero_value, r.0@, r.1@.len() as int, r.2@.len() as int),
{
    let ghost m = matrix@;
    let rows = matrix.len();
    let stride = matrix[0].len();
    proof {
        assert(rows + (rows + 2) * (m[0]@.len() + 1) <= max_bits());
        assert((rows + 2) * (stride + 1) >= stride + 1) by (nonlinear_arith);
    }
    let mut bitmap = bits_repeat(false, rows);
    let mut base: Vec<Option<usize>> = filled(None, rows);
    let mut next: Vec<T> = filled(zero_value, stride);
    let mut check: Vec<Option<usize>> = filled(None, rows);

    let mut all_cols: Vec<Vec<ClassID>> = Vec::new();
    let mut counts: Vec<usize> = Vec::new();
    let mut width: usize = stride + 1;
    let mut r: usize = 0;
    while r < rows
        invariant
            r <= rows,
            rows == matrix.len(),
            m == matrix@,
            <T as PartialEqSpec>::obeys_eq_spec(),
            fits_compress(m),
            all_cols.len() == r,
            counts.len() == r,
            forall|j: int| 0 <= j < r ==> lists_kept(#[trigger] all_cols@[j]@, m[j]@, zero_value),
            forall|j: int| 0 <= j < r ==> #[trigger] counts@[j] == all_cols@[j].len(),
            forall|j: int| 0 <= j < r ==> #[trigger] counts@[j] == row_kept(m, zero_value, j),
            forall|j: int| 0 <= j < r ==> #[trigger] m[j]@.len() + 1 <= width,
            rows + (rows + 2) * width <= max_bits(),
        decreases rows - r,
    {
        proof {
            assert(rows + (rows + 2) * (m[r as int]@.len() + 1) <= max_bits());
            assert((rows + 2) * (m[r as int]@.len() + 1) >= m[r as int]@.len() + 1) by (nonlinear_arith);
        }
        let cols = kept_cols(&matrix[r], zero_value);
        counts.push(cols.len());
        all_cols.push(cols);
        if matrix[r].len() + 1 > width {
            width = matrix[r].len() + 1;
        }
        r = r + 1;
    }
    let order = rows_by_count(&counts);

    proof {
        assert((rows + 2) * width == rows * width + 2 * width) by (nonlinear_arith);
        assert forall|p: int| #[trigger] bit_at(bits_of(bitmap), p) == slot_used(check@, p) by {}
        assert forall|p: int| 0 <= p < next@.len() && !slot_used(check@, p) implies #[trigger] next@[p] == zero_value by {}
    }
    let ghost mut h: nat = 0;
    let mut i: usize = 0;
    while i < rows
        invariant
            i <= rows,
            rows == matrix.len(),
            m == matrix@,
            all_cols.len() == rows,
            forall|j: int| 0 <= j < rows ==> lists_kept(#[trigger] all_cols@[j]@, m[j]@, zero_value),
            forall|j: int| 0 <= j < rows ==> #[trigger] m[j]@.len() + 1 <= width,
            order.len() == rows,
            forall|j: int| 0 <= j < rows ==> #[trigger] order@[j] < rows,
            forall|x: usize| x < rows ==> #[trigger] order@.contains(x),
            order@.no_duplicates(),
            counts.len() == rows,
            forall|j: int| 0 <= j < rows ==> #[trigger] counts@[j] == row_kept(m, zero_value, j),
            forall|a: int, b: int|
                0 <= a < b < order.len() ==> count_before(counts@, #[trigger] order@[a] as int, #[trigger] order@[b] as int),
            forall|x: int|
                0 <= x < rows && #[trigger] base@[x] is Some ==> first_fit(m, zero_value, base@, x, base@[x].unwrap() as int),
            table_lengths(m, zero_value, base@, next@.len() as int, check@.len() as int),
            stride == m[0]@.len(),
            layout_ok(m, zero_value, base@, next@, check@, bits_of(bitmap)),
            forall|p: int| #[trigger] bit_at(bits_of(bitmap), p) ==> p < h,
            bits_of(bitmap).len() <= rows + h + 2 * width,
            rows + h + 2 * width + (rows - i) * width <= max_bits(),
            forall|x: int| 0 <= x < rows && #[trigger] base@[x] is Some ==> order@.take(i as int).contains(x as usize),
            forall|x: int|
                0 <= x < rows && order@.take(i as int).contains(x as usize) ==> (#[trigger] base@[x] is None
                    <==> all_cols@[x].len() == 0),
        decreases rows - i,
    {
        let row = order[i];
        let ghost base_before = base@;
        proof {
            assert(!order@.take(i as int).contains(row)) by {
                if order@.take(i as int).contains(row) {
                    let j = choose|j: int| 0 <= j < i && order@.take(i as int)[j] == row;
                    assert(order@[j] == order@[i as int]);
                }
            }
            assert((rows - i) * width == (rows - i - 1) * width + width) by (nonlinear_arith);
        }
        if all_cols[row].len() > 0 {
            let ghost next_before = next@;
            let ghost check_before = check@;
            let ghost bits_before = bits_of(bitmap);
            let g = place_row(
                matrix,
                zero_value,
                row,
                &all_cols[row],
                &mut bitmap,
                &mut base,
                &mut next,
                &mut check,
                Ghost(h),
                Ghost(width as nat),
            );
            proof {
                h = g@;
                assert(m[row as int]@.len() == m[row as int].len());
                lemma_place_keeps_first_fit(
                    m,
                    zero_value,
                    counts@,
                    order@,
                    i as int,
                    base_before,
                    base@,
                    next_before,
                    check_before,
                    bits_before,
                    all_cols@[row as int]@,
                );
                lemma_lengths_after_place(
                    m,
                    zero_value,
                    base_before,
                    base@,
                    row as int,
                    all_cols@[row as int]@,
                    next_before.len() as int,
                    check_before.len() as int,
                    next@.len() as int,
                    check@.len() as int,
                );
            }
        }
        proof {
            let t = order@.take(i as int);
            assert(order@.take(i + 1) =~= t.push(row));
            assert forall|x: int| 0 <= x < rows && #[trigger] base@[x] is Some implies order@.take(i + 1).contains(x as usize) by {
                vstd::seq_lib::lemma_seq_contains_after_push(t, row, x as usize);
                if x != row {
                    assert(base@[x] == base_before[x]);
                }
            }
            assert forall|x: int|
                0 <= x < rows && order@.take(i + 1).contains(x as usize) implies (#[trigger] base@[x] is None
                    <==> all_cols@[x].len() == 0) by {
                vstd::seq_lib::lemma_seq_contains_after_push(t, row, x as usize);
                if x != row {
                    assert(base@[x] == base_before[x]);
                }
            }
        }
        i = i + 1;
    }
    proof {
        assert(order@.take(rows as int) =~= order@);
        let fb = base@;
        let fnext = next@;
        let fcheck = check@;
        assert forall|row: int, col: int| 0 <= row < m.len() && 0 <= col implies #[trigger] compressed_cell(fb, fnext, fcheck, row, col)
            == matrix_cell(m, zero_value, row, col) by {
            assert(order@.contains(row as usize));
            if fb[row] is Some {
                let o = fb[row].unwrap() as int;
                if matrix_cell(m, zero_value, row, col) is Some {
                    assert(cell_in_slot(fnext, fcheck, row, o, col, matrix_cell(m, zero_value, row, col).unwrap()));
                } else if 0 <= o + col < fcheck.len() && fcheck[o + col] == Some(row as usize) {
                    assert(slot_used(fcheck, o + col));
                    assert(slot_owner_ok(m, zero_value, fb, fnext, fcheck, o + col));
                }
            } else {
                assert(all_cols@[row].len() == 0);
                if matrix_cell(m, zero_value, row, col) is Some {
                    assert(all_cols@[row]@.contains(col as usize));
                }
            }
        }
        assert forall|row: int| 0 <= row < m.len() implies (#[trigger] fb[row] is None <==> forall|col: int|
            0 <= col ==> #[trigger] matrix_cell(m, zero_value, row, col) is None) by {
            assert(order@.contains(row as usize));
            if fb[row] is None {
                assert forall|col: int| 0 <= col implies #[trigger] matrix_cell(m, zero_value, row, col) is None by {
                    if matrix_cell(m, zero_value, row, col) is Some {
                        assert(all_cols@[row]@.contains(col as usize));
                    }
                }
            } else {
                let c = all_cols@[row]@[0];
                assert(matrix_cell(m, zero_value, row, c as int) is Some);
            }
        }
    }
    (base, next, check)
}

} // verus!
