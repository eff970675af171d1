use vstd::prelude::*;

verus! {

/// A width and a height, in pixels.
pub struct Vec2 {
    pub width: u32,
    pub height: u32,
}

impl Vec2 {
    /// The area `width * height`.
    pub fn prod(&self) -> (r: usize)
        requires
            self.width * self.height <= usize::MAX,
        ensures
            r == self.width * self.height,
    {
        self.width as usize * self.height as usize
    }
}

} // verus!
