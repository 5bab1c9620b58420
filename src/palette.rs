//! The color cycle of draw calls, over plotters' `Palette9999`.
use vstd::prelude::*;
use plotters::style::{Color, Palette9999, PaletteColor};

verus! {

pub type Rgb = (u8, u8, u8);

/// The background that a color must differ from to be visible.
pub open spec fn white() -> Rgb {
    (255u8, 255u8, 255u8)
}

/// The nine entries of `Palette9999::COLORS`, in order.
pub open spec fn palette9999(i: int) -> Rgb {
    if i == 0 {
        (255u8, 225u8, 25u8)
    } else if i == 1 {
        (0u8, 130u8, 200u8)
    } else if i == 2 {
        (245u8, 130u8, 48u8)
    } else if i == 3 {
        (250u8, 190u8, 190u8)
    } else if i == 4 {
        (230u8, 190u8, 255u8)
    } else if i == 5 {
        (128u8, 0u8, 0u8)
    } else if i == 6 {
        (0u8, 0u8, 128u8)
    } else if i == 7 {
        (128u8, 128u8, 128u8)
    } else {
        (0u8, 0u8, 0u8)
    }
}

/// The palette color that a color index selects.
pub open spec fn color_at(idx: usize) -> Rgb {
    palette9999(idx as int % 9)
}

/// Relies on plotters' `PaletteColor::<Palette9999>::pick` and `Color::rgb`:
/// the entry `idx % 9` of the nine-entry table `Palette9999::COLORS`.
#[verifier::external_body]
fn palette_pick(idx: usize) -> (r: Rgb)
    ensures
        r == color_at(idx),
{
    PaletteColor::<Palette9999>::pick(idx).rgb()
}

/// One step up, wrapping at the top of `usize`.
pub open spec fn bump(i: usize) -> usize {
    if i == usize::MAX {
        0
    } else {
        (i + 1) as usize
    }
}

/// The color index after one draw call: one step up, and one more where the
/// first step lands on white.
pub open spec fn next_index(i: usize) -> usize {
    if color_at(bump(i)) == white() {
        bump(bump(i))
    } else {
        bump(i)
    }
}

/// The color index of a fresh chart after `n` draw calls.
pub open spec fn nth_color_index(n: nat) -> usize
    decreases n,
{
    if n == 0 {
        0
    } else {
        next_index(nth_color_index((n - 1) as nat))
    }
}

fn bump_exec(i: usize) -> (r: usize)
    ensures
        r == bump(i),
{
    if i == usize::MAX {
        0
    } else {
        i + 1
    }
}

/// Advances a color index by one draw call and returns the new index with
/// its color.
pub(crate) fn advance_color(i: usize) -> (r: (usize, Rgb))
    ensures
        r.0 == next_index(i),
        r.1 == color_at(r.0),
        r.1 != white(),
{
    let j = bump_exec(i);
    let c = palette_pick(j);
    if c.0 == 255 && c.1 == 255 && c.2 == 255 {
        let k = bump_exec(j);
        (k, palette_pick(k))
    } else {
        (j, c)
    }
}

/// Color cycling: along the color indices of a chart through successive draw
/// calls from a fresh chart, the `k`-th draw call uses the color of
/// `nth_color_index(k)`, a function of `k` alone, and that color is never the
/// white background.
pub proof fn lemma_color_cycle(indices: Seq<usize>)
    requires
        indices.len() >= 1,
        indices[0] == 0,
        forall|k: int| 0 <= k < indices.len() - 1 ==> indices[k + 1] == next_index(#[trigger] indices[k]),
    ensures
        forall|k: int| 0 <= k < indices.len() ==> #[trigger] indices[k] == nth_color_index(k as nat),
        forall|k: int| 0 <= k < indices.len() ==> color_at(#[trigger] indices[k]) != white(),
{
    assert forall|k: int| 0 <= k < indices.len() implies #[trigger] indices[k] == nth_color_index(k as nat) by {
        lemma_prefix_indices(indices, k);
    }
    assert forall|k: int| 0 <= k < indices.len() implies color_at(#[trigger] indices[k]) != white() by {
        lemma_never_white(indices[k]);
    }
}

proof fn lemma_prefix_indices(indices: Seq<usize>, k: int)
    requires
        0 <= k < indices.len(),
        indices[0] == 0,
        forall|j: int| 0 <= j < indices.len() - 1 ==> indices[j + 1] == next_index(#[trigger] indices[j]),
    ensures
        indices[k] == nth_color_index(k as nat),
    decreases k,
{
    if k > 0 {
        lemma_prefix_indices(indices, k - 1);
        assert(indices[(k - 1) + 1] == next_index(indices[k - 1]));
    }
}

/// No palette entry is white.
proof fn lemma_never_white(i: usize)
    ensures
        color_at(i) != white(),
{
    let j = i as int % 9;
    assert(0 <= j < 9);
}

} // verus!
