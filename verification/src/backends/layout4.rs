//! Row-major indexing of 4-D tensors stored as bytes, and a gather that copies every element of
//! such a tensor from a source position given by strides.

use vstd::prelude::*;
use vstd::arithmetic::div_mod::{lemma_fundamental_div_mod, lemma_fundamental_div_mod_converse};

verus! {

/// Row-major position of coordinate `(a, b, c, d)` in a 4-D array whose last three extents are
/// `eb`, `ec` and `ed`.
pub open spec fn pos4(a: int, b: int, c: int, d: int, eb: int, ec: int, ed: int) -> int {
    ((a * eb + b) * ec + c) * ed + d
}

/// Number of elements of a 4-D array.
pub open spec fn count4(ea: int, eb: int, ec: int, ed: int) -> int {
    ((ea * eb) * ec) * ed
}

/// `(a, b, c, d)` lies inside the array of extents `ea, eb, ec, ed`.
pub open spec fn in_box4(a: int, b: int, c: int, d: int, ea: int, eb: int, ec: int, ed: int) -> bool {
    0 <= a < ea && 0 <= b < eb && 0 <= c < ec && 0 <= d < ed
}

/// Byte `k` of element `e` in a buffer of `esz`-byte elements.
pub open spec fn elem_byte(s: Seq<u8>, e: int, esz: int, k: int) -> u8 {
    s[e * esz + k]
}

/// Element offset `a * sa + b * sb + c * sc + d * sd`.
pub open spec fn off4(a: int, b: int, c: int, d: int, sa: int, sb: int, sc: int, sd: int) -> int {
    a * sa + b * sb + c * sc + d * sd
}

/// Every coordinate of the box lands, through the strides, on an element below the box's count.
pub open spec fn strides_fit(
    ea: int, eb: int, ec: int, ed: int, sa: int, sb: int, sc: int, sd: int,
) -> bool {
    forall|a: int, b: int, c: int, d: int|
        in_box4(a, b, c, d, ea, eb, ec, ed) ==> 0 <= #[trigger] off4(a, b, c, d, sa, sb, sc, sd)
            < count4(ea, eb, ec, ed)
}

/// Last coordinate of row-major position `x`.
pub open spec fn digit3(x: int, ed: int) -> int {
    x % ed
}

/// Third coordinate of row-major position `x`.
pub open spec fn digit2(x: int, ec: int, ed: int) -> int {
    (x / ed) % ec
}

/// Second coordinate of row-major position `x`.
pub open spec fn digit1(x: int, eb: int, ec: int, ed: int) -> int {
    (x / ed / ec) % eb
}

/// First coordinate of row-major position `x`.
pub open spec fn digit0(x: int, eb: int, ec: int, ed: int) -> int {
    x / ed / ec / eb
}

/// A position inside the array splits into coordinates inside the box.
pub proof fn lemma_digits(x: int, ea: int, eb: int, ec: int, ed: int)
    requires
        0 < ea,
        0 < eb,
        0 < ec,
        0 < ed,
        0 <= x < count4(ea, eb, ec, ed),
    ensures
        in_box4(
            digit0(x, eb, ec, ed),
            digit1(x, eb, ec, ed),
            digit2(x, ec, ed),
            digit3(x, ed),
            ea,
            eb,
            ec,
            ed,
        ),
        pos4(digit0(x, eb, ec, ed), digit1(x, eb, ec, ed), digit2(x, ec, ed), digit3(x, ed), eb, ec, ed)
            == x,
{
    let x1 = x / ed;
    let x2 = x1 / ec;
    let x3 = x2 / eb;
    lemma_fundamental_div_mod(x, ed);
    lemma_fundamental_div_mod(x1, ec);
    lemma_fundamental_div_mod(x2, eb);
    assert(0 <= x % ed < ed) by (nonlinear_arith)
        requires 0 <= x, 0 < ed;
    assert(0 <= x1 % ec < ec) by (nonlinear_arith)
        requires 0 <= x1, 0 < ec, x1 == x / ed, 0 <= x, 0 < ed;
    assert(0 <= x2 % eb < eb) by (nonlinear_arith)
        requires 0 <= x2, 0 < eb, 0 < ec, x2 == x1 / ec, x1 == x / ed, 0 <= x, 0 < ed;
    assert(0 <= x1 < (ea * eb) * ec) by (nonlinear_arith)
        requires 0 <= x < ((ea * eb) * ec) * ed, 0 < ed, x1 == x / ed, x == ed * x1 + x % ed, 0 <= x % ed;
    assert(0 <= x2 < ea * eb) by (nonlinear_arith)
        requires 0 <= x1 < (ea * eb) * ec, 0 < ec, x2 == x1 / ec, x1 == ec * x2 + x1 % ec, 0 <= x1 % ec;
    assert(0 <= x3 < ea) by (nonlinear_arith)
        requires 0 <= x2 < ea * eb, 0 < eb, x3 == x2 / eb, x2 == eb * x3 + x2 % eb, 0 <= x2 % eb;
    assert(pos4(x3, x2 % eb, x1 % ec, x % ed, eb, ec, ed) == x) by (nonlinear_arith)
        requires
            x == ed * x1 + x % ed,
            x1 == ec * x2 + x1 % ec,
            x2 == eb * x3 + x2 % eb;
}

/// The coordinates of a box point are recovered from its row-major position.
pub proof fn lemma_digits_unique(a: int, b: int, c: int, d: int, ea: int, eb: int, ec: int, ed: int)
    requires
        in_box4(a, b, c, d, ea, eb, ec, ed),
    ensures
        0 <= pos4(a, b, c, d, eb, ec, ed) < count4(ea, eb, ec, ed),
        digit0(pos4(a, b, c, d, eb, ec, ed), eb, ec, ed) == a,
        digit1(pos4(a, b, c, d, eb, ec, ed), eb, ec, ed) == b,
        digit2(pos4(a, b, c, d, eb, ec, ed), ec, ed) == c,
        digit3(pos4(a, b, c, d, eb, ec, ed), ed) == d,
{
    let y2 = a * eb + b;
    let y1 = y2 * ec + c;
    let x = y1 * ed + d;
    assert(0 <= y2 < ea * eb) by (nonlinear_arith)
        requires 0 <= a < ea, 0 <= b < eb, y2 == a * eb + b;
    assert(0 <= y1 < (ea * eb) * ec) by (nonlinear_arith)
        requires 0 <= y2 < ea * eb, 0 <= c < ec, y1 == y2 * ec + c;
    assert(0 <= x < ((ea * eb) * ec) * ed) by (nonlinear_arith)
        requires 0 <= y1 < (ea * eb) * ec, 0 <= d < ed, x == y1 * ed + d;
    lemma_fundamental_div_mod_converse(x, ed, y1, d);
    lemma_fundamental_div_mod_converse(y1, ec, y2, c);
    lemma_fundamental_div_mod_converse(y2, eb, a, b);
}

/// Byte position `e * esz + k` of a byte inside an element splits back into the element and the
/// byte, and stays below `n * esz` when the element is below `n`.
pub proof fn lemma_byte_pos(e: int, k: int, esz: int, n: int)
    requires
        0 <= e < n,
        0 <= k < esz,
    ensures
        0 <= e * esz + k < n * esz,
        (e * esz + k) / esz == e,
        (e * esz + k) % esz == k,
{
    assert(0 <= e * esz + k < n * esz) by (nonlinear_arith)
        requires 0 <= e < n, 0 <= k < esz;
    lemma_fundamental_div_mod_converse(e * esz + k, esz, e, k);
}

/// The bytes of a 4-D array of extents `ea, eb, ec, ed`, `esz` bytes per element, whose element
/// at `(a, b, c, d)` (row-major) is the element of `data` at offset
/// `a * sa + b * sb + c * sc + d * sd`.
pub open spec fn permuted4(
    data: Seq<u8>, esz: int, ea: int, eb: int, ec: int, ed: int, sa: int, sb: int, sc: int, sd: int,
) -> Seq<u8> {
    Seq::new(
        (count4(ea, eb, ec, ed) * esz) as nat,
        |q: int| {
            let x = q / esz;
            elem_byte(
                data,
                off4(digit0(x, eb, ec, ed), digit1(x, eb, ec, ed), digit2(x, ec, ed), digit3(x, ed), sa, sb, sc, sd),
                esz,
                q % esz,
            )
        },
    )
}

/// In `permuted4`, byte `k` of the element at `(a, b, c, d)` is byte `k` of the source element at
/// the strided offset.
pub proof fn lemma_permuted4_at(
    data: Seq<u8>, esz: int, ea: int, eb: int, ec: int, ed: int, sa: int, sb: int, sc: int, sd: int,
    a: int, b: int, c: int, d: int, k: int,
)
    requires
        in_box4(a, b, c, d, ea, eb, ec, ed),
        0 <= k < esz,
    ensures
        0 <= pos4(a, b, c, d, eb, ec, ed) * esz + k < count4(ea, eb, ec, ed) * esz,
        elem_byte(permuted4(data, esz, ea, eb, ec, ed, sa, sb, sc, sd), pos4(a, b, c, d, eb, ec, ed), esz, k)
            == elem_byte(data, off4(a, b, c, d, sa, sb, sc, sd), esz, k),
{
    let e = pos4(a, b, c, d, eb, ec, ed);
    lemma_digits_unique(a, b, c, d, ea, eb, ec, ed);
    lemma_byte_pos(e, k, esz, count4(ea, eb, ec, ed));
}

/// Copies the elements of a 4-D array of extents `ea, eb, ec, ed`, `esz` bytes each: the output
/// element at `(a, b, c, d)`, in row-major order, is the source element at offset
/// `a * sa + b * sb + c * sc + d * sd`.
pub fn gather4(
    data: &[u8],
    esz: usize,
    ea: usize,
    eb: usize,
    ec: usize,
    ed: usize,
    sa: usize,
    sb: usize,
    sc: usize,
    sd: usize,
) -> (r: Vec<u8>)
    requires
        0 < ea,
        0 < eb,
        0 < ec,
        0 < ed,
        count4(ea as int, eb as int, ec as int, ed as int) * esz <= data.len(),
        strides_fit(ea as int, eb as int, ec as int, ed as int, sa as int, sb as int, sc as int, sd as int),
    ensures
        r@ == permuted4(data@, esz as int, ea as int, eb as int, ec as int, ed as int, sa as int, sb as int, sc as int, sd as int),
{
    let ghost n: int = count4(ea as int, eb as int, ec as int, ed as int);
    assert(0 < n) by (nonlinear_arith)
        requires 0 < ea, 0 < eb, 0 < ec, 0 < ed, n == ((ea * eb) * ec) * ed;
    let mut r: Vec<u8> = Vec::new();
    if esz == 0 {
        assert(r@ =~= permuted4(data@, esz as int, ea as int, eb as int, ec as int, ed as int, sa as int, sb as int, sc as int, sd as int));
        return r;
    }
    assert(ea * eb <= n && (ea * eb) * ec <= n && n <= n * esz) by (nonlinear_arith)
        requires 0 < ea, 0 < eb, 0 < ec, 0 < ed, n == ((ea * eb) * ec) * ed, 0 < esz;
    let total: usize = ea * eb * ec * ed * esz;
    let mut j: usize = 0;
    while j < total
        invariant
            0 < ea,
            0 < eb,
            0 < ec,
            0 < ed,
            0 < esz,
            n == count4(ea as int, eb as int, ec as int, ed as int),
            total == n * esz,
            total <= data.len(),
            n <= total,
            strides_fit(ea as int, eb as int, ec as int, ed as int, sa as int, sb as int, sc as int, sd as int),
            j <= total,
            r.len() == j,
            forall|q: int| 0 <= q < j ==> {
                let x = q / (esz as int);
                #[trigger] r@[q] == elem_byte(
                    data@,
                    off4(
                        digit0(x, eb as int, ec as int, ed as int),
                        digit1(x, eb as int, ec as int, ed as int),
                        digit2(x, ec as int, ed as int),
                        digit3(x, ed as int),
                        sa as int,
                        sb as int,
                        sc as int,
                        sd as int,
                    ),
                    esz as int,
                    q % (esz as int),
                )
            },
        decreases total - j,
    {
        let x = j / esz;
        let k = j % esz;
        let d = x % ed;
        let x1 = x / ed;
        let c = x1 % ec;
        let x2 = x1 / ec;
        let b = x2 % eb;
        let a = x2 / eb;
        proof {
            lemma_fundamental_div_mod(j as int, esz as int);
            assert(x < n) by (nonlinear_arith)
                requires j < total, total == n * esz, 0 < esz, x == j / esz, j == esz * x + j % esz,
                    0 <= j % esz;
            lemma_digits(x as int, ea as int, eb as int, ec as int, ed as int);
            assert(0 <= off4(a as int, b as int, c as int, d as int, sa as int, sb as int, sc as int, sd as int) < n);
            assert(0 <= a * sa && 0 <= b * sb && 0 <= c * sc && 0 <= d * sd) by (nonlinear_arith)
                requires 0 <= a, 0 <= b, 0 <= c, 0 <= d, 0 <= sa, 0 <= sb, 0 <= sc, 0 <= sd;
            assert(0 <= k < esz) by (nonlinear_arith)
                requires k == j % esz, 0 < esz;
        }
        let s = a * sa + b * sb + c * sc + d * sd;
        proof {
            lemma_byte_pos(s as int, k as int, esz as int, n);
        }
        let p = s * esz + k;
        r.push(data[p]);
        j = j + 1;
    }
    assert(r@ =~= permuted4(data@, esz as int, ea as int, eb as int, ec as int, ed as int, sa as int, sb as int, sc as int, sd as int));
    r
}

} // verus!
