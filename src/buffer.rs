use vstd::prelude::*;

verus! {

/// An RGBA color with eight bits per channel.
#[derive(Clone, Copy, Debug, PartialEq, Eq, Structural)]
pub struct Color {
    pub r: u8,
    pub g: u8,
    pub b: u8,
    pub a: u8,
}

impl Color {
    pub fn new(r: u8, g: u8, b: u8, a: u8) -> (c: Color)
        ensures
            c == (Color { r, g, b, a }),
    {
        Color { r, g, b, a }
    }
}

/// What a widget reports when it cannot render a frame.
#[derive(Clone, Copy, Debug, PartialEq, Eq, Structural)]
pub enum ModuleError {
    /// A requested sub-view does not lie inside its parent.
    OutOfBounds,
    /// A fixed-width text run has fewer widths than characters.
    MissingWidth,
}

/// A rectangle of a buffer, in the buffer's own pixel coordinates.
#[derive(Clone, Copy, Debug, PartialEq, Eq, Structural)]
pub struct Region {
    pub x: u32,
    pub y: u32,
    pub width: u32,
    pub height: u32,
}

impl Region {
    /// The region's far edges are representable.
    pub open spec fn wf(&self) -> bool {
        self.x + self.width <= u32::MAX && self.y + self.height <= u32::MAX
    }

    /// Whether a rectangle given relative to this view's origin lies inside it.
    pub open spec fn fits(&self, x: int, y: int, width: int, height: int) -> bool {
        x + width <= self.width && y + height <= self.height
    }

    /// Whether the pixel at (`px`, `py`) lies inside this view.
    pub open spec fn covers(&self, px: int, py: int) -> bool {
        self.x <= px < self.x + self.width && self.y <= py < self.y + self.height
    }

    /// Whether this view lies inside a buffer of the given extent.
    pub open spec fn within(&self, width: int, height: int) -> bool {
        self.x + self.width <= width && self.y + self.height <= height
    }

    /// The child view at (`x`, `y`) of the given extent, relative to this view's
    /// origin. Fails, rather than clipping, where the child would reach outside.
    pub fn subdimensions(&self, rect: (u32, u32, u32, u32)) -> (r: Result<Region, ModuleError>)
        requires
            self.wf(),
        ensures
            r.is_ok() <==> self.fits(rect.0 as int, rect.1 as int, rect.2 as int, rect.3 as int),
            r matches Err(e) ==> e == ModuleError::OutOfBounds,
            r matches Ok(v) ==> v.x == self.x + rect.0 && v.y == self.y + rect.1
                && v.width == rect.2 && v.height == rect.3 && v.wf(),
    {
        let (x, y, width, height) = rect;
        if width > self.width || x > self.width - width || height > self.height || y > self.height
            - height {
            Err(ModuleError::OutOfBounds)
        } else {
            Ok(Region { x: self.x + x, y: self.y + y, width, height })
        }
    }
}

/// A rectangle of pixels, stored row by row, placed at a signed origin in the
/// coordinates of whoever lent it.
pub struct Buffer {
    pub origin_x: i32,
    pub origin_y: i32,
    pub width: u32,
    pub height: u32,
    pub pixels: Vec<Color>,
}

proof fn lemma_index_in_bounds(w: int, h: int, x: int, y: int)
    requires
        0 <= x < w,
        0 <= y < h,
    ensures
        0 <= y * w + x < w * h,
{
    assert(0 <= y * w + x < w * h) by (nonlinear_arith)
        requires
            0 <= x < w,
            0 <= y < h,
    ;
}

proof fn lemma_index_unique(w: int, px: int, py: int, qx: int, qy: int)
    requires
        0 <= px < w,
        0 <= qx < w,
        0 <= py,
        0 <= qy,
        py * w + px == qy * w + qx,
    ensures
        px == qx && py == qy,
{
    assert(px == qx && py == qy) by (nonlinear_arith)
        requires
            0 <= px < w,
            0 <= qx < w,
            0 <= py,
            0 <= qy,
            py * w + px == qy * w + qx,
    ;
}

impl Buffer {
    /// The pixel vector matches the extent, and the extent fits in a signed bound.
    pub open spec fn wf(&self) -> bool {
        &&& self.pixels@.len() == self.width as int * self.height as int
        &&& self.width <= i32::MAX
        &&& self.height <= i32::MAX
    }

    /// The color at (`x`, `y`).
    pub open spec fn pixel(&self, x: int, y: int) -> Color {
        self.pixels@[y * self.width as int + x]
    }

    /// Whether two buffers share origin and extent.
    pub open spec fn same_shape(&self, other: &Buffer) -> bool {
        self.origin_x == other.origin_x && self.origin_y == other.origin_y && self.width
            == other.width && self.height == other.height
    }

    /// A buffer of the given extent, every pixel set to `fill`.
    pub fn new(origin_x: i32, origin_y: i32, width: u32, height: u32, fill: Color) -> (b: Buffer)
        requires
            width <= i32::MAX,
            height <= i32::MAX,
            width as int * height as int <= usize::MAX,
        ensures
            b.wf(),
            b.origin_x == origin_x && b.origin_y == origin_y,
            b.width == width && b.height == height,
            forall|x: int, y: int|
                0 <= x < width && 0 <= y < height ==> #[trigger] b.pixel(x, y) == fill,
    {
        let n: usize = width as usize * height as usize;
        let pixels = vec![fill; n];
        let b = Buffer { origin_x, origin_y, width, height, pixels };
        assert forall|x: int, y: int| 0 <= x < width && 0 <= y < height implies #[trigger] b.pixel(
            x,
            y,
        ) == fill by {
            lemma_index_in_bounds(width as int, height as int, x, y);
        }
        b
    }

    /// The view of the whole buffer.
    pub fn bounds(&self) -> (v: Region)
        ensures
            v == (Region { x: 0, y: 0, width: self.width, height: self.height }),
    {
        Region { x: 0, y: 0, width: self.width, height: self.height }
    }

    /// The view at (`x`, `y`) of the given extent; fails where it reaches outside
    /// the buffer.
    pub fn subdimensions(&self, rect: (u32, u32, u32, u32)) -> (r: Result<Region, ModuleError>)
        ensures
            r.is_ok() <==> (rect.0 + rect.2 <= self.width && rect.1 + rect.3 <= self.height),
            r matches Err(e) ==> e == ModuleError::OutOfBounds,
            r matches Ok(v) ==> v == (Region { x: rect.0, y: rect.1, width: rect.2, height: rect.3 }),
    {
        self.bounds().subdimensions(rect)
    }

    /// This buffer's rectangle, signed, in the coordinates of whoever lent it.
    pub fn get_signed_bounds(&self) -> (r: (i32, i32, i32, i32))
        requires
            self.wf(),
        ensures
            r == (self.origin_x, self.origin_y, self.width as i32, self.height as i32),
            r.2 as int == self.width && r.3 as int == self.height,
    {
        (self.origin_x, self.origin_y, self.width as i32, self.height as i32)
    }

    /// The color at (`x`, `y`), or `None` outside the buffer.
    pub fn pixel_at(&self, x: u32, y: u32) -> (r: Option<Color>)
        requires
            self.wf(),
        ensures
            r.is_some() <==> (x < self.width && y < self.height),
            r matches Some(c) ==> c == self.pixel(x as int, y as int),
    {
        if x < self.width && y < self.height {
            let n = self.pixels.len();
            proof {
                lemma_index_in_bounds(self.width as int, self.height as int, x as int, y as int);
            }
            Some(self.pixels[y as usize * self.width as usize + x as usize])
        } else {
            None
        }
    }

    /// Sets every pixel of `view` to `color` and leaves the others as they were.
    pub fn fill(&mut self, view: &Region, color: Color)
        requires
            old(self).wf(),
            view.within(old(self).width as int, old(self).height as int),
        ensures
            final(self).wf(),
            final(self).same_shape(old(self)),
            forall|px: int, py: int|
                0 <= px < old(self).width && 0 <= py < old(self).height ==> #[trigger] final(self).pixel(px, py) == if view.covers(px, py) {
                    color
                } else {
                    old(self).pixel(px, py)
                },
    {
        let ghost start = *self;
        let n = self.pixels.len();
        let w = self.width;
        let h = self.height;
        let mut r: u32 = 0;
        while r < view.height
            invariant
                self.wf(),
                self.same_shape(&start),
                start.wf(),
                w == start.width,
                h == start.height,
                n == w as int * h as int,
                view.within(w as int, h as int),
                r <= view.height,
                forall|px: int, py: int|
                    0 <= px < w && 0 <= py < h ==> #[trigger] self.pixel(px, py) == if view.x <= px
                        < view.x + view.width && view.y <= py < view.y + r {
                        color
                    } else {
                        start.pixel(px, py)
                    },
            decreases view.height - r,
        {
            let mut c: u32 = 0;
            while c < view.width
                invariant
                    self.wf(),
                    self.same_shape(&start),
                    start.wf(),
                    w == start.width,
                    h == start.height,
                    n == w as int * h as int,
                    view.within(w as int, h as int),
                    r < view.height,
                    c <= view.width,
                    forall|px: int, py: int|
                        0 <= px < w && 0 <= py < h ==> #[trigger] self.pixel(px, py) == if (view.x
                            <= px < view.x + view.width && view.y <= py < view.y + r) || (py
                            == view.y + r && view.x <= px < view.x + c) {
                            color
                        } else {
                            start.pixel(px, py)
                        },
                decreases view.width - c,
            {
                let cx: u32 = view.x + c;
                let cy: u32 = view.y + r;
                proof {
                    lemma_index_in_bounds(w as int, h as int, cx as int, cy as int);
                }
                let idx: usize = cy as usize * w as usize + cx as usize;
                let ghost prev = *self;
                self.pixels.set(idx, color);
                assert forall|px: int, py: int| 0 <= px < w && 0 <= py < h implies #[trigger] self.pixel(
                    px,
                    py,
                ) == if (view.x <= px < view.x + view.width && view.y <= py < view.y + r) || (py
                    == view.y + r && view.x <= px < view.x + c + 1) {
                    color
                } else {
                    start.pixel(px, py)
                } by {
                    lemma_index_in_bounds(w as int, h as int, px, py);
                    if py * w + px == idx as int {
                        lemma_index_unique(w as int, px, py, cx as int, cy as int);
                    } else {
                        assert(prev.pixel(px, py) == self.pixel(px, py));
                    }
                }
                c = c + 1;
            }
            r = r + 1;
        }
    }

    /// Sets every pixel of the buffer to `color`.
    pub fn memset(&mut self, color: Color)
        requires
            old(self).wf(),
        ensures
            final(self).wf(),
            final(self).same_shape(old(self)),
            forall|px: int, py: int|
                0 <= px < old(self).width && 0 <= py < old(self).height ==> #[trigger] final(self).pixel(px, py) == color,
    {
        let all = self.bounds();
        self.fill(&all, color);
    }
}

} // verus!
