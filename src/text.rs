use vstd::prelude::*;

use crate::buffer::{Buffer, Color, ModuleError, Region};

verus! {

/// One character of a laid-out run: its cell, in buffer coordinates, and its ink.
#[derive(Clone, Copy, Debug, PartialEq, Eq, Structural)]
pub struct Glyph {
    pub ch: char,
    pub x: u32,
    pub y: u32,
    pub width: u32,
    pub height: u32,
    pub color: Color,
}

/// Where the cell of character `i` of a run starts, from the run's left edge.
pub open spec fn run_offset(widths: Seq<u32>, i: int) -> int
    decreases i,
{
    if i <= 0 {
        0
    } else {
        run_offset(widths, i - 1) + widths[i - 1] as int
    }
}

/// The cell of character `i` of `text`, laid out left-aligned in `region`.
pub open spec fn glyph_spec(region: Region, text: Seq<char>, widths: Seq<u32>, i: int, color: Color) -> Glyph {
    Glyph {
        ch: text[i],
        x: (region.x + run_offset(widths, i)) as u32,
        y: region.y,
        width: widths[i],
        height: region.height,
        color,
    }
}

/// `layout` is the run of `text` in `region`, one cell per character with the
/// given widths, up to the first cell that would start at or past the right edge.
pub open spec fn is_layout(layout: Seq<Glyph>, region: Region, text: Seq<char>, widths: Seq<u32>, color: Color) -> bool {
    &&& layout.len() <= text.len()
    &&& layout.len() == text.len() || run_offset(widths, layout.len() as int) >= region.width
    &&& forall|i: int| 0 <= i < layout.len() ==> run_offset(widths, i) < region.width
    &&& forall|i: int| 0 <= i < layout.len() ==> #[trigger] layout[i] == glyph_spec(region, text, widths, i, color)
}

/// A run of `n` cells of the same width.
pub open spec fn uniform_widths(n: int, width: u32) -> Seq<u32> {
    Seq::new(n as nat, |i: int| width)
}

/// The pixels that a text draw leaves: `region` cleared to `bg`, the rest as it was.
pub open spec fn cleared(after: &Buffer, before: &Buffer, region: Region, bg: Color) -> bool {
    &&& after.wf()
    &&& after.same_shape(before)
    &&& forall|px: int, py: int|
        0 <= px < before.width && 0 <= py < before.height ==> #[trigger] after.pixel(px, py)
            == if region.covers(px, py) { bg } else { before.pixel(px, py) }
}

/// A text rasterizer bound to one point size, kept across frames together with
/// the last run it laid out.
pub struct Font {
    pub size: u32,
    pub advance: u32,
    pub text: Vec<char>,
    pub layout: Vec<Glyph>,
}

fn lay_out(region: &Region, text: &Vec<char>, widths: &[u32], color: Color) -> (r: Vec<Glyph>)
    requires
        widths@.len() >= text@.len(),
        region.wf(),
    ensures
        is_layout(r@, *region, text@, widths@, color),
{
    let mut out: Vec<Glyph> = Vec::new();
    let mut i: usize = 0;
    let mut off: u64 = 0;
    while i < text.len() && off < region.width as u64
        invariant
            widths@.len() >= text@.len(),
            region.wf(),
            i <= text@.len(),
            off as int == run_offset(widths@, i as int),
            out@.len() == i,
            forall|j: int| 0 <= j < i ==> run_offset(widths@, j) < region.width,
            forall|j: int| 0 <= j < i ==> #[trigger] out@[j] == glyph_spec(*region, text@, widths@, j, color),
        decreases text@.len() - i,
    {
        let g = Glyph {
            ch: text[i],
            x: region.x + off as u32,
            y: region.y,
            width: widths[i],
            height: region.height,
            color,
        };
        assert(g == glyph_spec(*region, text@, widths@, i as int, color));
        out.push(g);
        off = off + widths[i] as u64;
        i = i + 1;
    }
    out
}

impl Font {
    /// A rasterizer for `size`-point text, with nothing drawn yet. Its face
    /// advances each glyph by seven sixteenths of the point size.
    pub fn new(size: u32) -> (f: Font)
        ensures
            f.size == size,
            f.advance == size as int * 7 / 16,
            f.text@.len() == 0,
            f.layout@.len() == 0,
    {
        Font { size, advance: (size as u64 * 7 / 16) as u32, text: Vec::new(), layout: Vec::new() }
    }

    /// Clears `region` to `bg` and lays `text` out in it, left-aligned, each glyph
    /// advancing by the face's own advance.
    pub fn draw_text(
        &mut self,
        buf: &mut Buffer,
        region: &Region,
        bg: &Color,
        fg: &Color,
        text: &Vec<char>,
    ) -> (r: Result<(), ModuleError>)
        requires
            old(buf).wf(),
            region.wf(),
            region.within(old(buf).width as int, old(buf).height as int),
        ensures
            r.is_ok(),
            cleared(final(buf), old(buf), *region, *bg),
            final(self).size == old(self).size,
            final(self).advance == old(self).advance,
            final(self).text@ == text@,
            is_layout(final(self).layout@, *region, text@, uniform_widths(text@.len() as int, old(self).advance), *fg),
    {
        let mut widths: Vec<u32> = Vec::new();
        let mut i: usize = 0;
        while i < text.len()
            invariant
                i <= text@.len(),
                widths@ == uniform_widths(i as int, self.advance),
            decreases text@.len() - i,
        {
            widths.push(self.advance);
            i = i + 1;
            assert(widths@ =~= uniform_widths(i as int, self.advance));
        }
        buf.fill(region, *bg);
        self.layout = lay_out(region, text, widths.as_slice(), *fg);
        self.text = text.clone();
        Ok(())
    }

    /// Clears `region` to `bg` and lays `text` out in it, left-aligned, character
    /// `i` taking exactly `widths[i]` pixels whatever its glyph's own advance.
    /// Fails, drawing nothing, where `widths` has fewer entries than `text`.
    pub fn draw_text_fixed_width(
        &mut self,
        buf: &mut Buffer,
        region: &Region,
        bg: &Color,
        fg: &Color,
        widths: &[u32],
        text: &Vec<char>,
    ) -> (r: Result<(), ModuleError>)
        requires
            old(buf).wf(),
            region.wf(),
            region.within(old(buf).width as int, old(buf).height as int),
        ensures
            r.is_ok() <==> widths@.len() >= text@.len(),
            r matches Err(e) ==> e == ModuleError::MissingWidth && *final(buf) == *old(buf)
                && *final(self) == *old(self),
            final(self).size == old(self).size,
            final(self).advance == old(self).advance,
            r.is_ok() ==> {
                &&& cleared(final(buf), old(buf), *region, *bg)
                &&& final(self).text@ == text@
                &&& is_layout(final(self).layout@, *region, text@, widths@, *fg)
            },
    {
        if widths.len() < text.len() {
            return Err(ModuleError::MissingWidth);
        }
        buf.fill(region, *bg);
        self.layout = lay_out(region, text, widths, *fg);
        self.text = text.clone();
        Ok(())
    }
}

} // verus!
