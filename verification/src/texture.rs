//! Texel lookup in a decoded image texture.
//!
//! An image texture holds a decoded RGB byte buffer in row-major order,
//! three bytes per pixel, row 0 at the top. Mapping surface coordinates to
//! a raw column and row is floating-point work done by the caller; clamping
//! those indices into the image and fetching the byte triple is verified
//! here.

use vstd::prelude::*;

verus! {

/// A decoded RGB image: `data` holds `3 * nx * ny` bytes, row-major,
/// three bytes per pixel.
#[derive(Clone)]
pub struct Image {
    pub data: Vec<u8>,
    pub nx: usize,
    pub ny: usize,
}

impl Image {
    /// A well-formed image is at least one pixel each way and holds exactly
    /// three bytes per pixel.
    pub open spec fn wf(self) -> bool {
        &&& self.nx >= 1
        &&& self.ny >= 1
        &&& self.data@.len() == 3 * self.nx * self.ny
    }

    /// The column actually sampled for requested column `i`: clamped to the
    /// last column.
    pub open spec fn col_of(self, i: usize) -> int {
        if i < self.nx {
            i as int
        } else {
            self.nx - 1
        }
    }

    /// The row actually sampled for requested row `j`: clamped to the last
    /// row.
    pub open spec fn row_of(self, j: usize) -> int {
        if j < self.ny {
            j as int
        } else {
            self.ny - 1
        }
    }

    /// Byte offset of the red channel of the pixel sampled for `(i, j)`.
    pub open spec fn texel_offset(self, i: usize, j: usize) -> int {
        3 * self.col_of(i) + 3 * self.nx * self.row_of(j)
    }

    pub fn new(data: Vec<u8>, nx: usize, ny: usize) -> (r: Image)
        requires
            nx >= 1,
            ny >= 1,
            data@.len() == 3 * nx * ny,
        ensures
            r.wf(),
            r.data@ == data@,
            r.nx == nx,
            r.ny == ny,
    {
        Image { data, nx, ny }
    }

    /// Fetches the RGB byte triple for raw column `i` and raw row `j`,
    /// each clamped into the image.
    pub fn sample(&self, i: usize, j: usize) -> (r: (u8, u8, u8))
        requires
            self.wf(),
        ensures
            r.0 == self.data@[self.texel_offset(i, j)],
            r.1 == self.data@[self.texel_offset(i, j) + 1],
            r.2 == self.data@[self.texel_offset(i, j) + 2],
    {
        let ci: usize = if i < self.nx { i } else { self.nx - 1 };
        let cj: usize = if j < self.ny { j } else { self.ny - 1 };
        let len: usize = self.data.len();
        assert(3 * ci + 3 * self.nx * cj + 2 < 3 * self.nx * self.ny && 3 * ci <= 3 * self.nx
            * self.ny && 3 * self.nx <= 3 * self.nx * self.ny && 3 * self.nx * cj <= 3 * self.nx
            * self.ny) by (nonlinear_arith)
            requires
                ci <= self.nx - 1,
                cj <= self.ny - 1,
                self.nx >= 1,
                self.ny >= 1,
        ;
        let base: usize = 3 * ci + 3 * self.nx * cj;
        (self.data[base], self.data[base + 1], self.data[base + 2])
    }
}

} // verus!
