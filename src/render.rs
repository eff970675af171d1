use vstd::prelude::*;

verus! {

/// A monochrome framebuffer of `row` by `col` pixels, stored row-major,
/// presented with each pixel drawn as a `scale` by `scale` square.
pub struct Render {
    scale: usize,
    row: usize,
    col: usize,
    display: Vec<bool>,
}

/// Every pixel unset.
pub open spec fn blank(n: nat) -> Seq<bool> {
    Seq::new(n, |i: int| false)
}

/// Index of the pixel that coordinates `(x, y)` land on, wrapping at the
/// edges of a `row` by `col` grid.
pub open spec fn wrapped_index(x: int, y: int, row: int, col: int) -> int {
    (y % row) * col + x % col
}

/// Screen-space corners of the lit pixels among the first `n`, in
/// row-major order.
pub open spec fn lit_corners(pixels: Seq<bool>, col: nat, scale: nat, n: nat) -> Seq<(usize, usize)>
    decreases n,
{
    if n == 0 {
        Seq::empty()
    } else {
        let before = lit_corners(pixels, col, scale, (n - 1) as nat);
        let i = n - 1;
        if pixels[i] {
            before.push((((i % col as int) * scale) as usize, ((i / col as int) * scale) as usize))
        } else {
            before
        }
    }
}

proof fn lemma_wrapped_index_in_range(x: int, y: int, row: int, col: int)
    requires
        0 < row,
        0 < col,
        0 <= x,
        0 <= y,
    ensures
        0 <= wrapped_index(x, y, row, col) < row * col,
{
    let py = y % row;
    let px = x % col;
    assert(0 <= py < row);
    assert(0 <= px < col);
    assert(0 <= py * col) by (nonlinear_arith)
        requires
            0 <= py,
            0 < col,
    ;
    assert(py * col + px < row * col) by (nonlinear_arith)
        requires
            0 <= py < row,
            0 <= px < col,
    ;
}

impl View for Render {
    type V = Seq<bool>;

    closed spec fn view(&self) -> Seq<bool> {
        self.display@
    }
}

impl Render {
    /// Number of pixel rows.
    pub closed spec fn rows(&self) -> nat {
        self.row as nat
    }

    /// Number of pixel columns.
    pub closed spec fn cols(&self) -> nat {
        self.col as nat
    }

    /// Side of the square that presents one pixel.
    pub closed spec fn scale_factor(&self) -> nat {
        self.scale as nat
    }

    /// Dimensions are positive, the grid and its presentation fit in
    /// `usize`, and the pixel store holds one entry per pixel.
    pub open spec fn wf(&self) -> bool {
        &&& 0 < self.rows()
        &&& 0 < self.cols()
        &&& self.rows() * self.cols() <= usize::MAX
        &&& self.rows() * self.scale_factor() <= usize::MAX
        &&& self.cols() * self.scale_factor() <= usize::MAX
        &&& self@.len() == self.rows() * self.cols()
    }

    /// A blank framebuffer of `row` by `col` pixels.
    pub fn new(scale: usize, row: usize, col: usize) -> (r: Render)
        requires
            0 < row,
            0 < col,
            row * col <= usize::MAX,
            row * scale <= usize::MAX,
            col * scale <= usize::MAX,
        ensures
            r.wf(),
            r.rows() == row,
            r.cols() == col,
            r.scale_factor() == scale,
            r@ == blank((row * col) as nat),
    {
        let mut render = Render { scale, row, col, display: Vec::new() };
        render.constructor();
        render
    }

    /// Replaces the pixel store with a blank one of the current dimensions.
    fn constructor(&mut self)
        requires
            0 < old(self).rows(),
            0 < old(self).cols(),
            old(self).rows() * old(self).cols() <= usize::MAX,
            old(self).rows() * old(self).scale_factor() <= usize::MAX,
            old(self).cols() * old(self).scale_factor() <= usize::MAX,
        ensures
            final(self).wf(),
            final(self).rows() == old(self).rows(),
            final(self).cols() == old(self).cols(),
            final(self).scale_factor() == old(self).scale_factor(),
            final(self)@ == blank((old(self).rows() * old(self).cols()) as nat),
    {
        let total: usize = self.row * self.col;
        let mut pixels: Vec<bool> = Vec::new();
        while pixels.len() < total
            invariant
                pixels@.len() <= total,
                forall|i: int| 0 <= i < pixels@.len() ==> !pixels@[i],
            decreases total - pixels@.len(),
        {
            pixels.push(false);
        }
        assert(pixels@ =~= blank(total as nat));
        self.display = pixels;
    }

    /// Whether the pixel at index `i` is set.
    pub fn get(&self, i: usize) -> (r: bool)
        requires
            i < self@.len(),
        ensures
            r == self@[i as int],
    {
        self.display[i]
    }

    /// Number of pixels.
    pub fn len(&self) -> (r: usize)
        ensures
            r == self@.len(),
    {
        self.display.len()
    }

    /// Toggles the pixel at `(x, y)`, wrapping at the edges. Returns 1 when
    /// the pixel was set and is now unset, 0 otherwise.
    pub fn set_pixel(&mut self, x: usize, y: usize) -> (r: isize)
        requires
            old(self).wf(),
        ensures
            final(self).wf(),
            final(self).rows() == old(self).rows(),
            final(self).cols() == old(self).cols(),
            final(self).scale_factor() == old(self).scale_factor(),
            ({
                let i = wrapped_index(x as int, y as int, old(self).rows() as int, old(self).cols() as int);
                &&& final(self)@ == old(self)@.update(i, !old(self)@[i])
                &&& r == if old(self)@[i] { 1isize } else { 0isize }
            }),
    {
        proof {
            lemma_wrapped_index_in_range(x as int, y as int, self.row as int, self.col as int);
        }
        let px = x % self.col;
        let py = y % self.row;
        let i = py * self.col + px;
        let was = self.display[i];
        self.display.set(i, !was);
        if was {
            1
        } else {
            0
        }
    }

    /// Unsets every pixel.
    pub fn clear(&mut self)
        requires
            old(self).wf(),
        ensures
            final(self).wf(),
            final(self).rows() == old(self).rows(),
            final(self).cols() == old(self).cols(),
            final(self).scale_factor() == old(self).scale_factor(),
            final(self)@ == blank(old(self)@.len()),
    {
        self.constructor();
    }

    /// The screen-space top-left corners of the squares that present the
    /// lit pixels, in row-major order.
    pub fn render(&self) -> (r: Vec<(usize, usize)>)
        requires
            self.wf(),
        ensures
            r@ == lit_corners(self@, self.cols(), self.scale_factor(), self@.len()),
    {
        let mut out: Vec<(usize, usize)> = Vec::new();
        let mut i: usize = 0;
        while i < self.display.len()
            invariant
                self.wf(),
                i <= self@.len(),
                out@ == lit_corners(self@, self.cols(), self.scale_factor(), i as nat),
            decreases self@.len() - i,
        {
            if self.display[i] {
                let cx = i % self.col;
                let cy = i / self.col;
                proof {
                    let c = self.col as int;
                    let s = self.scale as int;
                    let rw = self.row as int;
                    assert(cx < c);
                    assert(cy < rw) by (nonlinear_arith)
                        requires
                            cy == i as int / c,
                            (i as int) < rw * c,
                            0 < c,
                    ;
                    assert(cx * s <= c * s) by (nonlinear_arith)
                        requires
                            cx < c,
                            0 <= s,
                    ;
                    assert(cy * s <= rw * s) by (nonlinear_arith)
                        requires
                            cy < rw,
                            0 <= s,
                    ;
                }
                out.push((cx * self.scale, cy * self.scale));
            }
            i = i + 1;
        }
        out
    }
}

} // verus!
