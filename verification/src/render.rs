//! Glyph renderer: quantizes escape values into characters and assembles
//! one text line per field row.

use vstd::prelude::*;
use vstd::string::StringExecFns;

verus! {

/// The quantization table, as a function from escape value to glyph.
/// The breakpoints 2, 5, 10, 30, 100, 200, 400 and 700 split the
/// non-negative integers into nine buckets of increasing visual weight.
pub open spec fn glyph_char(v: int) -> char {
    if v <= 2 {
        ' '
    } else if v <= 5 {
        '.'
    } else if v <= 10 {
        'o'
    } else if v <= 30 {
        '*'
    } else if v <= 100 {
        '+'
    } else if v <= 200 {
        'x'
    } else if v <= 400 {
        '$'
    } else if v <= 700 {
        '#'
    } else {
        '%'
    }
}

/// One rendered row: the pointwise quantization of a row of escape values.
pub open spec fn glyph_row(row: Seq<usize>) -> Seq<char> {
    row.map_values(|v: usize| glyph_char(v as int))
}

/// The glyph for one escape value, as a one-character string slice.
pub fn glyph_for(v: usize) -> (g: &'static str)
    ensures
        g@ == seq![glyph_char(v as int)],
{
    proof {
        reveal_strlit(" ");
        reveal_strlit(".");
        reveal_strlit("o");
        reveal_strlit("*");
        reveal_strlit("+");
        reveal_strlit("x");
        reveal_strlit("$");
        reveal_strlit("#");
        reveal_strlit("%");
    }
    let g: &'static str = if v <= 2 {
        " "
    } else if v <= 5 {
        "."
    } else if v <= 10 {
        "o"
    } else if v <= 30 {
        "*"
    } else if v <= 100 {
        "+"
    } else if v <= 200 {
        "x"
    } else if v <= 400 {
        "$"
    } else if v <= 700 {
        "#"
    } else {
        "%"
    };
    proof {
        assert(g@ =~= seq![glyph_char(v as int)]);
    }
    g
}

/// Quantize a whole field of escape values into text lines, one per row,
/// in row order.  Each line holds exactly one glyph per field entry.
pub fn render_mandelbrot(escape_vals: Vec<Vec<usize>>) -> (lines: Vec<String>)
    ensures
        lines.len() == escape_vals.len(),
        forall|r: int|
            0 <= r < escape_vals.len() ==> #[trigger] lines[r]@ == glyph_row(escape_vals[r]@),
{
    let mut lines: Vec<String> = Vec::new();
    let mut r: usize = 0;
    while r < escape_vals.len()
        invariant
            r <= escape_vals.len(),
            lines.len() == r,
            forall|i: int|
                0 <= i < r ==> #[trigger] lines[i]@ == glyph_row(escape_vals[i]@),
        decreases escape_vals.len() - r,
    {
        let row = &escape_vals[r];
        let mut line = String::new();
        let mut k: usize = 0;
        while k < row.len()
            invariant
                k <= row.len(),
                line@ == glyph_row(row@.take(k as int)),
            decreases row.len() - k,
        {
            let g = glyph_for(row[k]);
            line.append(g);
            proof {
                assert(line@ =~= glyph_row(row@.take(k + 1 as int)));
            }
            k += 1;
        }
        proof {
            assert(row@.take(row@.len() as int) =~= row@);
        }
        lines.push(line);
        r += 1;
    }
    lines
}

/// Rendering is deterministic: two renderings of one field, each meeting
/// the contract of `render_mandelbrot`, are the same glyph sequences.
pub proof fn lemma_render_deterministic(
    field: Seq<Seq<usize>>,
    first: Seq<Seq<char>>,
    second: Seq<Seq<char>>,
)
    requires
        first.len() == field.len(),
        second.len() == field.len(),
        forall|r: int| 0 <= r < field.len() ==> #[trigger] first[r] == glyph_row(field[r]),
        forall|r: int| 0 <= r < field.len() ==> #[trigger] second[r] == glyph_row(field[r]),
    ensures
        first == second,
{
    assert(first =~= second);
}

} // verus!
