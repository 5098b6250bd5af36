//! JSON encoding of a grid snapshot.
//!
//! The read endpoint answers with a JSON object holding one field, `cells`,
//! an array of the grid's brightness values in order. The encoder here
//! produces those bytes exactly: no whitespace, each cell as its decimal
//! digits, commas between cells.

use vstd::prelude::*;

use crate::grid::Grid;

verus! {

/// The ASCII digit byte for `d`, which must be in `0..=9`.
pub open spec fn digit(d: int) -> u8 {
    (48 + d) as u8
}

/// The decimal digits of `v`, most significant first, no leading zeros.
pub open spec fn decimal(v: u8) -> Seq<u8> {
    let n = v as int;
    if n >= 100 {
        seq![digit(n / 100), digit((n / 10) % 10), digit(n % 10)]
    } else if n >= 10 {
        seq![digit(n / 10), digit(n % 10)]
    } else {
        seq![digit(n)]
    }
}

/// The comma-separated decimal rendering of `cells`, in order.
pub open spec fn cells_list(cells: Seq<u8>) -> Seq<u8>
    decreases cells.len(),
{
    if cells.len() == 0 {
        Seq::empty()
    } else if cells.len() == 1 {
        decimal(cells[0])
    } else {
        cells_list(cells.drop_last()) + seq![44u8] + decimal(cells.last())
    }
}

/// The bytes of `{"cells":[`.
pub open spec fn body_prefix() -> Seq<u8> {
    seq![123u8, 34u8, 99u8, 101u8, 108u8, 108u8, 115u8, 34u8, 58u8, 91u8]
}

/// The bytes of `]}`.
pub open spec fn body_suffix() -> Seq<u8> {
    seq![93u8, 125u8]
}

/// The full JSON body `{"cells":[...]}` for a grid whose cells are `cells`.
pub open spec fn grid_json(cells: Seq<u8>) -> Seq<u8> {
    body_prefix() + cells_list(cells) + body_suffix()
}

/// Extending the rendered list by one cell appends a comma (when the list
/// was not empty) and the cell's decimal digits.
proof fn lemma_cells_list_step(cells: Seq<u8>, i: int)
    requires
        0 <= i < cells.len(),
    ensures
        i == 0 ==> cells_list(cells.subrange(0, 1)) == decimal(cells[0]),
        i > 0 ==> cells_list(cells.subrange(0, i + 1)) == cells_list(
            cells.subrange(0, i),
        ) + seq![44u8] + decimal(cells[i]),
{
    let pre = cells.subrange(0, i + 1);
    assert(pre.drop_last() =~= cells.subrange(0, i));
    assert(pre.last() == cells[i]);
    if i == 0 {
        assert(pre.len() == 1);
        assert(pre[0] == cells[0]);
    }
}

/// Encodes a grid snapshot as the JSON body `{"cells":[...]}`, returned as
/// its bytes (the body is pure ASCII).
pub fn grid_json_bytes(g: &Grid) -> (r: Vec<u8>)
    ensures
        r@ == grid_json(g@),
{
    let mut out: Vec<u8> = Vec::new();
    out.push(123);
    out.push(34);
    out.push(99);
    out.push(101);
    out.push(108);
    out.push(108);
    out.push(115);
    out.push(34);
    out.push(58);
    out.push(91);
    assert(out@ =~= body_prefix());
    proof {
        assert(g@.subrange(0, 0) =~= Seq::<u8>::empty());
        assert(out@ =~= body_prefix() + cells_list(g@.subrange(0, 0)));
    }
    let n = g.len();
    let mut i: usize = 0;
    while i < n
        invariant
            n == g@.len(),
            i <= n,
            out@ == body_prefix() + cells_list(g@.subrange(0, i as int)),
        decreases n - i,
    {
        if i > 0 {
            out.push(44);
        }
        let v = g.cell(i);
        if v >= 100 {
            out.push(48 + v / 100);
            out.push(48 + (v / 10) % 10);
            out.push(48 + v % 10);
        } else if v >= 10 {
            out.push(48 + v / 10);
            out.push(48 + v % 10);
        } else {
            out.push(48 + v);
        }
        proof {
            lemma_cells_list_step(g@, i as int);
            assert(out@ =~= body_prefix() + cells_list(g@.subrange(0, i as int + 1)));
        }
        i = i + 1;
    }
    proof {
        assert(g@.subrange(0, g@.len() as int) =~= g@);
    }
    out.push(93);
    out.push(125);
    assert(out@ =~= grid_json(g@));
    out
}

} // verus!
