//! The render adapter: given a framebuffer snapshot (a row-major sequence of
//! booleans of width `width`) and an integer pixel scale, it computes the
//! squares a drawing surface must fill, one `scale x scale` square per lit
//! cell, at the cell's column and row position multiplied by `scale`, in
//! ascending cell order. Unlit cells produce nothing, and a zero scale
//! produces a degenerate, empty drawing.

use vstd::prelude::*;

verus! {

/// An axis-aligned square to fill on the drawing surface: origin `(x, y)`
/// and side length `size`, in pixels.
#[derive(Clone, Copy, Debug, PartialEq, Eq, Structural)]
pub struct Square {
    pub x: usize,
    pub y: usize,
    pub size: usize,
}

/// The square that cell `i` of a framebuffer of width `width` occupies at
/// scale `scale`.
pub open spec fn cell_square(i: int, width: int, scale: int) -> Square {
    Square {
        x: ((i % width) * scale) as usize,
        y: ((i / width) * scale) as usize,
        size: scale as usize,
    }
}

/// The squares to fill for framebuffer `fb`: one per lit cell, in ascending
/// cell order; none at all for a non-positive scale.
pub open spec fn squares_of(fb: Seq<bool>, width: int, scale: int) -> Seq<Square>
    decreases fb.len(),
{
    if scale <= 0 || fb.len() == 0 {
        Seq::empty()
    } else if fb.last() {
        squares_of(fb.drop_last(), width, scale).push(
            cell_square(fb.len() - 1, width, scale),
        )
    } else {
        squares_of(fb.drop_last(), width, scale)
    }
}

/// How many cells of `fb` are lit.
pub open spec fn count_lit(fb: Seq<bool>) -> int
    decreases fb.len(),
{
    if fb.len() == 0 {
        0
    } else {
        count_lit(fb.drop_last()) + if fb.last() { 1int } else { 0int }
    }
}

/// Computes the squares a renderer must fill to paint framebuffer `fb` at
/// scale `scale`: exactly one `scale x scale` square per lit cell, at the
/// cell's position times the scale, in ascending cell order; an empty
/// drawing when `scale` is zero.
pub fn squares_for(fb: &Vec<bool>, width: usize, scale: usize) -> (r: Vec<Square>)
    requires
        width >= 1,
        fb@.len() * scale <= usize::MAX,
    ensures
        r@ == squares_of(fb@, width as int, scale as int),
        scale == 0 ==> r@ == Seq::<Square>::empty(),
{
    let mut r: Vec<Square> = Vec::new();
    if scale == 0 {
        return r;
    }
    let mut i: usize = 0;
    while i < fb.len()
        invariant
            i <= fb@.len(),
            width >= 1,
            scale >= 1,
            fb@.len() * scale <= usize::MAX,
            r@ == squares_of(fb@.take(i as int), width as int, scale as int),
        decreases fb@.len() - i,
    {
        if fb[i] {
            assert((i % width) * scale <= i * scale && (i / width) * scale <= i * scale
                && i * scale <= fb@.len() * scale) by (nonlinear_arith)
                requires
                    width >= 1,
                    scale >= 1,
                    i < fb@.len(),
            ;
            let x = (i % width) * scale;
            let y = (i / width) * scale;
            r.push(Square { x, y, size: scale });
        }
        proof {
            assert(fb@.take(i + 1).drop_last() =~= fb@.take(i as int));
            assert(fb@.take(i + 1).last() == fb@[i as int]);
        }
        i = i + 1;
    }
    proof {
        assert(fb@.take(fb@.len() as int) =~= fb@);
    }
    r
}

/// Every lit cell gets its square: for a positive scale, the square of each
/// lit cell `i` stands in the computed sequence.
pub proof fn lemma_squares_complete(fb: Seq<bool>, width: int, scale: int, i: int)
    requires
        scale >= 1,
        0 <= i < fb.len(),
        fb[i],
    ensures
        squares_of(fb, width, scale).contains(cell_square(i, width, scale)),
    decreases fb.len(),
{
    if i == fb.len() - 1 {
        assert(squares_of(fb, width, scale).last() == cell_square(i, width, scale));
    } else {
        lemma_squares_complete(fb.drop_last(), width, scale, i);
        let sub = squares_of(fb.drop_last(), width, scale);
        let j = choose|j: int| 0 <= j < sub.len() && sub[j] == cell_square(i, width, scale);
        assert(squares_of(fb, width, scale)[j] == cell_square(i, width, scale));
    }
}

/// Only lit cells get squares: every square in the computed sequence is the
/// square of some lit cell.
pub proof fn lemma_squares_sound(fb: Seq<bool>, width: int, scale: int, j: int)
    requires
        0 <= j < squares_of(fb, width, scale).len(),
    ensures
        exists|i: int|
            0 <= i < fb.len() && fb[i] && squares_of(fb, width, scale)[j] == cell_square(
                i,
                width,
                scale,
            ),
    decreases fb.len(),
{
    let s = squares_of(fb, width, scale);
    if fb.len() > 0 && scale >= 1 {
        if fb.last() && j == s.len() - 1 {
            assert(s[j] == cell_square(fb.len() - 1, width, scale));
            assert(fb[fb.len() - 1]);
        } else {
            lemma_squares_sound(fb.drop_last(), width, scale, j);
            let i = choose|i: int|
                0 <= i < fb.drop_last().len() && fb.drop_last()[i] && squares_of(
                    fb.drop_last(),
                    width,
                    scale,
                )[j] == cell_square(i, width, scale);
            assert(fb[i] && s[j] == cell_square(i, width, scale));
        }
    }
}

/// A positive scale paints exactly one square per lit cell, and a
/// non-positive scale paints nothing at all.
pub proof fn lemma_squares_count(fb: Seq<bool>, width: int, scale: int)
    ensures
        scale >= 1 ==> squares_of(fb, width, scale).len() == count_lit(fb),
        scale <= 0 ==> squares_of(fb, width, scale) == Seq::<Square>::empty(),
    decreases fb.len(),
{
    if fb.len() > 0 {
        lemma_squares_count(fb.drop_last(), width, scale);
    }
}

/// Whether entry `j` of the computed squares is the square of some lit
/// cell of `fb`.
pub open spec fn square_is_of_lit_cell(fb: Seq<bool>, width: int, scale: int, j: int) -> bool {
    exists|i: int|
        0 <= i < fb.len() && fb[i] && squares_of(fb, width, scale)[j] == cell_square(
            i,
            width,
            scale,
        )
}

/// The whole drawing law in one statement: for a positive scale, the
/// computed squares are exactly one `scale x scale` square per lit cell
/// `i`, at pixel origin `((i % width) * scale, (i / width) * scale)` -
/// every lit cell's square is there, nothing else is, and the count
/// matches - while unlit cells and a non-positive scale paint nothing.
pub proof fn lemma_square_per_lit_cell(fb: Seq<bool>, width: int, scale: int)
    ensures
        scale >= 1 ==> forall|i: int|
            0 <= i < fb.len() && fb[i] ==> squares_of(fb, width, scale).contains(
                #[trigger] cell_square(i, width, scale),
            ),
        forall|j: int|
            0 <= j < squares_of(fb, width, scale).len() ==> #[trigger] square_is_of_lit_cell(
                fb,
                width,
                scale,
                j,
            ),
        scale >= 1 ==> squares_of(fb, width, scale).len() == count_lit(fb),
        scale <= 0 ==> squares_of(fb, width, scale) == Seq::<Square>::empty(),
{
    if scale >= 1 {
        assert forall|i: int| 0 <= i < fb.len() && fb[i] implies squares_of(
            fb,
            width,
            scale,
        ).contains(#[trigger] cell_square(i, width, scale)) by {
            lemma_squares_complete(fb, width, scale, i);
        }
    }
    assert forall|j: int|
        0 <= j < squares_of(fb, width, scale).len() implies #[trigger] square_is_of_lit_cell(
        fb,
        width,
        scale,
        j,
    ) by {
        lemma_squares_sound(fb, width, scale, j);
    }
    lemma_squares_count(fb, width, scale);
}

} // verus!
