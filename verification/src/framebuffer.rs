//! The in-memory framebuffer the renderer writes into.

use vstd::prelude::*;

verus! {

/// A width-by-height grid of packed `0x00RRGGBB` pixels, written through a
/// current draw color, stored row-major.
#[derive(Debug)]
pub struct Framebuffer {
    pub width: usize,
    pub height: usize,
    pub buffer: Vec<u32>,
    pub current_color: u32,
}

impl Framebuffer {
    /// The buffer holds exactly one pixel per grid cell.
    pub open spec fn wf(&self) -> bool {
        self.buffer@.len() == self.width * self.height
    }

    /// Build a framebuffer of the given size, black everywhere, with a
    /// black current draw color.
    pub fn new(width: usize, height: usize) -> (fb: Framebuffer)
        requires
            width * height <= usize::MAX,
        ensures
            fb.width == width,
            fb.height == height,
            fb.current_color == 0,
            fb.wf(),
            forall|i: int| 0 <= i < fb.buffer@.len() ==> fb.buffer@[i] == 0,
    {
        let n: usize = width * height;
        let mut buffer: Vec<u32> = Vec::new();
        let mut i: usize = 0;
        while i < n
            invariant
                i <= n,
                buffer@.len() == i,
                forall|j: int| 0 <= j < i ==> buffer@[j] == 0,
            decreases n - i,
        {
            buffer.push(0);
            i = i + 1;
        }
        Framebuffer { width, height, buffer, current_color: 0 }
    }

    /// Set the color that subsequent points are plotted with.
    pub fn set_current_color(&mut self, color: u32)
        ensures
            final(self).width == old(self).width,
            final(self).height == old(self).height,
            final(self).buffer@ == old(self).buffer@,
            final(self).current_color == color,
    {
        self.current_color = color;
    }

    /// Plot the current color at `(x, y)`.
    pub fn point(&mut self, x: usize, y: usize)
        requires
            old(self).wf(),
            x < old(self).width,
            y < old(self).height,
        ensures
            final(self).width == old(self).width,
            final(self).height == old(self).height,
            final(self).current_color == old(self).current_color,
            final(self).wf(),
            final(self).buffer@ == old(self).buffer@.update(
                y * old(self).width + x,
                old(self).current_color,
            ),
    {
        let l: usize = self.buffer.len();
        assert((y as int) * (self.width as int) + (x as int) < (self.width as int) * (self.height
            as int)) by (nonlinear_arith)
            requires
                (x as int) < (self.width as int),
                (y as int) < (self.height as int);
        let idx: usize = y * self.width + x;
        let color: u32 = self.current_color;
        self.buffer.set(idx, color);
    }
}

} // verus!
