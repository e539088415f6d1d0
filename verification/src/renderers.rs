//! Viewport rectangles, draw commands and the `Renderer` capability that the
//! layout tree is composed from.

use vstd::prelude::*;
use vstd::std_specs::convert::FromSpecImpl;

pub mod basic_renderers;
pub mod layout;
pub mod system_text;

verus! {

/// `v` limited to the closed interval from `lo` to `hi`; the lower limit wins
/// when the interval is empty.
pub open spec fn clamp(v: int, lo: int, hi: int) -> int {
    if v < lo {
        lo
    } else if v > hi {
        hi
    } else {
        v
    }
}

/// `v` limited to the range of `i32`.
pub open spec fn saturate(v: int) -> i32 {
    clamp(v, i32::MIN as int, i32::MAX as int) as i32
}

/// `v` when it is positive, zero otherwise.
pub open spec fn non_negative(v: int) -> int {
    if v < 0 {
        0
    } else {
        v
    }
}

/// Computes `saturate`.
pub fn saturate_i64(v: i64) -> (r: i32)
    ensures
        r == saturate(v as int),
{
    if v < i32::MIN as i64 {
        i32::MIN
    } else if v > i32::MAX as i64 {
        i32::MAX
    } else {
        v as i32
    }
}

/// An axis-aligned rectangle of integer pixels: the region of the window's
/// surface that a renderer may draw into.
#[derive(Debug, Clone, Copy, PartialEq, Eq)]
pub struct IntRect {
    pub pos: [i32; 2],
    pub size: [i32; 2],
}

impl IntRect {
    /// The rectangle with the given corner and extents.
    pub open spec fn at(x: i32, y: i32, width: i32, height: i32) -> IntRect {
        IntRect { pos: [x, y], size: [width, height] }
    }

    pub open spec fn x(self) -> int {
        self.pos[0] as int
    }

    pub open spec fn y(self) -> int {
        self.pos[1] as int
    }

    pub open spec fn width(self) -> int {
        self.size[0] as int
    }

    pub open spec fn height(self) -> int {
        self.size[1] as int
    }

    /// Whether the pixel `(px, py)` lies inside the rectangle. A rectangle
    /// with a zero or negative extent contains no pixel.
    pub open spec fn contains(self, px: int, py: int) -> bool {
        &&& self.x() <= px < self.x() + self.width()
        &&& self.y() <= py < self.y() + self.height()
    }

    /// Whether the far edges of the rectangle are coordinates of `i32`.
    pub open spec fn representable(self) -> bool {
        &&& self.x() + self.width() <= i32::MAX
        &&& self.y() + self.height() <= i32::MAX
    }

    pub fn new(pos: [i32; 2], size: [i32; 2]) -> (r: Self)
        ensures
            r.pos == pos,
            r.size == size,
    {
        Self { pos, size }
    }

    /// The command that restricts drawing to this rectangle.
    pub fn gl_viewport(&self) -> (command: DrawCommand)
        ensures
            command == DrawCommand::Viewport(*self),
    {
        DrawCommand::Viewport(*self)
    }
}

impl Default for IntRect {
    fn default() -> (r: Self)
        ensures
            r == IntRect::at(0, 0, 0, 0),
    {
        let r = Self::new([0, 0], [0, 0]);
        assert(r.pos =~= [0i32, 0i32]);
        assert(r.size =~= [0i32, 0i32]);
        r
    }
}


impl From<[[i32; 2]; 2]> for IntRect {
    fn from(arr: [[i32; 2]; 2]) -> (r: Self) {
        Self::new(arr[0], arr[1])
    }
}

impl FromSpecImpl<[[i32; 2]; 2]> for IntRect {
    open spec fn obeys_from_spec() -> bool {
        true
    }

    /// Position first, then size.
    open spec fn from_spec(arr: [[i32; 2]; 2]) -> Self {
        IntRect { pos: arr[0], size: arr[1] }
    }
}

impl From<[i32; 4]> for IntRect {
    fn from(arr: [i32; 4]) -> (r: Self) {
        let r = Self::new([arr[0], arr[1]], [arr[2], arr[3]]);
        assert(r.pos =~= [arr[0], arr[1]]);
        assert(r.size =~= [arr[2], arr[3]]);
        r
    }
}

impl FromSpecImpl<[i32; 4]> for IntRect {
    open spec fn obeys_from_spec() -> bool {
        true
    }

    /// x, y, width, height.
    open spec fn from_spec(arr: [i32; 4]) -> Self {
        IntRect::at(arr[0], arr[1], arr[2], arr[3])
    }
}

impl From<(i32, i32, i32, i32)> for IntRect {
    fn from(arr: (i32, i32, i32, i32)) -> (r: Self) {
        let r = Self::new([arr.0, arr.1], [arr.2, arr.3]);
        assert(r.pos =~= [arr.0, arr.1]);
        assert(r.size =~= [arr.2, arr.3]);
        r
    }
}

impl FromSpecImpl<(i32, i32, i32, i32)> for IntRect {
    open spec fn obeys_from_spec() -> bool {
        true
    }

    /// x, y, width, height.
    open spec fn from_spec(arr: (i32, i32, i32, i32)) -> Self {
        IntRect::at(arr.0, arr.1, arr.2, arr.3)
    }
}

impl From<[i32; 2]> for IntRect {
    fn from(arr: [i32; 2]) -> (r: Self) {
        let r = Self::new([0, 0], arr);
        assert(r.pos =~= [0i32, 0i32]);
        r
    }
}

impl FromSpecImpl<[i32; 2]> for IntRect {
    open spec fn obeys_from_spec() -> bool {
        true
    }

    /// A rectangle of the given size at the origin.
    open spec fn from_spec(arr: [i32; 2]) -> Self {
        IntRect { pos: [0, 0], size: arr }
    }
}

impl From<(i32, i32)> for IntRect {
    fn from(arr: (i32, i32)) -> (r: Self) {
        let r = Self::new([0, 0], [arr.0, arr.1]);
        assert(r.pos =~= [0i32, 0i32]);
        assert(r.size =~= [arr.0, arr.1]);
        r
    }
}

impl FromSpecImpl<(i32, i32)> for IntRect {
    open spec fn obeys_from_spec() -> bool {
        true
    }

    /// A rectangle of the given size at the origin.
    open spec fn from_spec(arr: (i32, i32)) -> Self {
        IntRect::at(0, 0, arr.0, arr.1)
    }
}

/// One step of drawing. A renderer does not draw by itself: it says what is
/// to be drawn, and the owner of the graphics context carries the commands
/// out in their order.
#[derive(Debug, Clone, Copy, PartialEq, Eq)]
pub enum DrawCommand {
    /// Restrict drawing to the rectangle: set the viewport and the scissor
    /// box to it and switch the scissor test on.
    Viewport(IntRect),
    /// Clear the colour buffer to the given red, green, blue and alpha, each
    /// the bit pattern of an IEEE 754 single-precision number.
    ClearColor([u32; 4]),
    /// Let the renderer that the caller keeps under the given handle draw
    /// into the rectangle.
    External { renderer: u64, viewport_rect: IntRect },
}

/// A region of the window that can be placed and drawn.
pub trait Renderer: Sized {
    /// The renderer as it is after it was handed `rect` as its viewport.
    spec fn with_viewport(self, rect: IntRect) -> Self;

    /// What the renderer draws, in order.
    spec fn draws(self) -> Seq<DrawCommand>;

    /// Hands the renderer its viewport. A renderer with children places
    /// them before it returns.
    fn set_viewport(&mut self, viewport_rect: IntRect)
        ensures
            *final(self) == old(self).with_viewport(viewport_rect),
    ;

    /// Says what is to be drawn. The renderer stays as it is.
    fn render(&self) -> (commands: Vec<DrawCommand>)
        ensures
            commands@ == self.draws(),
    ;

    /// Only the last viewport counts: a renderer, and with it all that it
    /// holds, is placed as its last viewport says, whatever it was handed
    /// before.
    proof fn lemma_last_viewport_counts(self, earlier: IntRect, last: IntRect)
        ensures
            self.with_viewport(earlier).with_viewport(last) == self.with_viewport(last),
    ;
}

} // verus!
