//! Drawing surfaces: rectangular regions of one shared pixel buffer.
use vstd::prelude::*;
use crate::error::Error;

verus! {

/// A rectangle of pixels: columns `x0..x1`, rows `y0..y1`.
#[derive(Clone, Copy, Debug, PartialEq, Eq, Structural)]
pub struct Region {
    pub x0: u32,
    pub y0: u32,
    pub x1: u32,
    pub y1: u32,
}

impl Region {
    pub open spec fn contains(self, x: int, y: int) -> bool {
        self.x0 <= x < self.x1 && self.y0 <= y < self.y1
    }

    pub open spec fn within(self, width: int, height: int) -> bool {
        self.x0 <= self.x1 <= width && self.y0 <= self.y1 <= height
    }

    /// Left and right parts, split `pixel` columns from the left edge; an
    /// offset past the right edge leaves the right part empty.
    pub open spec fn split_columns(self, pixel: u32) -> (Region, Region) {
        let x = if pixel as int <= self.x1 - self.x0 {
            (self.x0 + pixel) as u32
        } else {
            self.x1
        };
        (Region { x1: x, ..self }, Region { x0: x, ..self })
    }

    /// Upper and lower parts, split `pixel` rows from the top edge; an
    /// offset past the bottom edge leaves the lower part empty.
    pub open spec fn split_rows(self, pixel: u32) -> (Region, Region) {
        let y = if pixel as int <= self.y1 - self.y0 {
            (self.y0 + pixel) as u32
        } else {
            self.y1
        };
        (Region { y1: y, ..self }, Region { y0: y, ..self })
    }
}

pub const DEFAULT_WIDTH: u32 = 800;

pub const DEFAULT_HEIGHT: u32 = 600;

/// A region of a shared RGB buffer of `width` by `height` pixels. Only the
/// root surface, which covers the whole buffer, may export it.
#[derive(Debug)]
pub struct Canvas {
    is_root: bool,
    width: u32,
    height: u32,
    region: Region,
}

impl Canvas {
    #[verifier::type_invariant]
    spec fn inv(self) -> bool {
        self.region.within(self.width as int, self.height as int)
    }

    pub closed spec fn spec_is_root(self) -> bool {
        self.is_root
    }

    pub closed spec fn spec_size(self) -> (u32, u32) {
        (self.width, self.height)
    }

    pub closed spec fn spec_region(self) -> Region {
        self.region
    }

    /// A root surface over a whole buffer, 800 by 600 pixels unless given.
    pub fn new(width: Option<u32>, height: Option<u32>) -> (r: Canvas)
        ensures
            r.spec_is_root(),
            r.spec_size() == (width.unwrap_or(800), height.unwrap_or(600)),
            r.spec_region() == (Region { x0: 0, y0: 0, x1: r.spec_size().0, y1: r.spec_size().1 }),
    {
        let width = match width {
            Some(w) => w,
            None => DEFAULT_WIDTH,
        };
        let height = match height {
            Some(h) => h,
            None => DEFAULT_HEIGHT,
        };
        Canvas { is_root: true, width, height, region: Region { x0: 0, y0: 0, x1: width, y1: height } }
    }

    pub fn is_root(&self) -> (r: bool)
        ensures
            r == self.spec_is_root(),
    {
        self.is_root
    }

    /// Width and height of the whole buffer.
    pub fn size(&self) -> (r: (u32, u32))
        ensures
            r == self.spec_size(),
    {
        (self.width, self.height)
    }

    pub fn region(&self) -> (r: Region)
        ensures
            r == self.spec_region(),
            r.within(self.spec_size().0 as int, self.spec_size().1 as int),
    {
        proof {
            use_type_invariant(self);
        }
        self.region
    }

    /// Splits into a left and a right surface at `pixel` columns from the
    /// left edge. Both share this surface's buffer and neither is a root; this
    /// surface stays usable.
    pub fn split_horizontally(&self, pixel: u32) -> (r: (Canvas, Canvas))
        ensures
            !r.0.spec_is_root() && !r.1.spec_is_root(),
            r.0.spec_size() == self.spec_size() && r.1.spec_size() == self.spec_size(),
            (r.0.spec_region(), r.1.spec_region()) == self.spec_region().split_columns(pixel),
    {
        proof {
            use_type_invariant(self);
        }
        let g = self.region;
        let x = if pixel <= g.x1 - g.x0 {
            g.x0 + pixel
        } else {
            g.x1
        };
        let left = Canvas {
            is_root: false,
            width: self.width,
            height: self.height,
            region: Region { x0: g.x0, y0: g.y0, x1: x, y1: g.y1 },
        };
        let right = Canvas {
            is_root: false,
            width: self.width,
            height: self.height,
            region: Region { x0: x, y0: g.y0, x1: g.x1, y1: g.y1 },
        };
        (left, right)
    }

    /// Splits into an upper and a lower surface at `pixel` rows from the top
    /// edge, sharing this surface's buffer; this surface stays usable.
    pub fn split_vertically(&self, pixel: u32) -> (r: (Canvas, Canvas))
        ensures
            !r.0.spec_is_root() && !r.1.spec_is_root(),
            r.0.spec_size() == self.spec_size() && r.1.spec_size() == self.spec_size(),
            (r.0.spec_region(), r.1.spec_region()) == self.spec_region().split_rows(pixel),
    {
        proof {
            use_type_invariant(self);
        }
        let g = self.region;
        let y = if pixel <= g.y1 - g.y0 {
            g.y0 + pixel
        } else {
            g.y1
        };
        let upper = Canvas {
            is_root: false,
            width: self.width,
            height: self.height,
            region: Region { x0: g.x0, y0: g.y0, x1: g.x1, y1: y },
        };
        let lower = Canvas {
            is_root: false,
            width: self.width,
            height: self.height,
            region: Region { x0: g.x0, y0: y, x1: g.x1, y1: g.y1 },
        };
        (upper, lower)
    }

    /// The size of the image that exporting this surface writes; only the
    /// root surface may be exported.
    pub fn export_size(&self) -> (r: Result<(u32, u32), Error>)
        ensures
            r == if self.spec_is_root() {
                Ok::<(u32, u32), Error>(self.spec_size())
            } else {
                Err::<(u32, u32), Error>(Error::NotRoot)
            },
    {
        if self.is_root {
            Ok((self.width, self.height))
        } else {
            Err(Error::NotRoot)
        }
    }
}

/// Splitting partitions a surface: every pixel of the parent lies in exactly
/// one of the two parts, and the parts lie within the parent, whose own
/// region is left as it was.
pub proof fn lemma_split_partitions(c: Canvas, pixel: u32)
    ensures
        ({
            let g = c.spec_region();
            let (a, b) = g.split_columns(pixel);
            let (u, l) = g.split_rows(pixel);
            &&& forall|x: int, y: int| #[trigger] g.contains(x, y) ==> (a.contains(x, y) != b.contains(x, y))
            &&& forall|x: int, y: int| #[trigger] a.contains(x, y) ==> g.contains(x, y)
            &&& forall|x: int, y: int| #[trigger] b.contains(x, y) ==> g.contains(x, y)
            &&& forall|x: int, y: int| #[trigger] g.contains(x, y) ==> (u.contains(x, y) != l.contains(x, y))
            &&& forall|x: int, y: int| #[trigger] u.contains(x, y) ==> g.contains(x, y)
            &&& forall|x: int, y: int| #[trigger] l.contains(x, y) ==> g.contains(x, y)
        }),
{
}

} // verus!
