use vstd::prelude::*;
use vstd::arithmetic::power2::pow2;
use vstd::bits::{lemma_u32_pow2_no_overflow, lemma_u32_shl_is_mul};
use vstd::arithmetic::div_mod::{lemma_fundamental_div_mod, lemma_mod_pos_bound};

verus! {

/// Side of the cubic noise volume for a size exponent: `2^power` voxels.
pub fn noise_size(power: u8) -> (r: u32)
    requires
        power < 32,
    ensures
        r == pow2(power as nat),
{
    proof {
        lemma_u32_pow2_no_overflow(power as nat);
        lemma_u32_shl_is_mul(1, power as u32);
    }
    1u32 << (power as u32)
}

/// The cube to regenerate the noise volume at, when the editor asks for one:
/// `2^size_power` voxels a side, provided its voxel count fits in a `u32`.
pub fn regeneration_dims(size_power: u8, requested: bool) -> (r: Option<VolumeDims>)
    requires
        size_power < 32,
    ensures
        r is Some <==> requested && pow2(size_power as nat) * pow2(size_power as nat) * pow2(
            size_power as nat,
        ) <= u32::MAX,
        r matches Some(d) ==> d.wf() && d.width == pow2(size_power as nat) && d.height
            == d.width && d.depth == d.width,
{
    if requested {
        VolumeDims::cube(noise_size(size_power))
    } else {
        None
    }
}

/// Extent of a density volume, stored with x varying fastest, then y, then z.
///
/// The voxel count fits in a `u32`, so every voxel has a `u32` index.
#[derive(Clone, Copy, Debug, PartialEq, Eq, Structural)]
pub struct VolumeDims {
    pub width: u32,
    pub height: u32,
    pub depth: u32,
}

/// Storage index of voxel `(x, y, z)` in a `width × height × …` volume.
pub open spec fn voxel_index(width: int, height: int, x: int, y: int, z: int) -> int {
    z * (width * height) + y * width + x
}

impl VolumeDims {
    pub open spec fn count(self) -> int {
        self.width * self.height * self.depth
    }

    pub open spec fn wf(self) -> bool {
        self.count() <= u32::MAX
    }

    pub open spec fn contains(self, x: int, y: int, z: int) -> bool {
        0 <= x < self.width && 0 <= y < self.height && 0 <= z < self.depth
    }

    pub open spec fn index(self, x: int, y: int, z: int) -> int {
        voxel_index(self.width as int, self.height as int, x, y, z)
    }

    /// The extent `width × height × depth`, if its voxel count fits in a `u32`.
    pub fn new(width: u32, height: u32, depth: u32) -> (r: Option<VolumeDims>)
        ensures
            r is Some <==> width * height * depth <= u32::MAX,
            r matches Some(d) ==> d == (VolumeDims { width, height, depth }) && d.wf(),
    {
        if depth == 0 {
            proof {
                assert(width * height * depth == 0) by (nonlinear_arith)
                    requires
                        depth == 0,
                ;
            }
            return Some(VolumeDims { width, height, depth });
        }
        proof {
            assert((width as int) * (height as int) <= 0xffff_ffff * 0xffff_ffff) by (nonlinear_arith)
                requires
                    width <= 0xffff_ffffu32,
                    height <= 0xffff_ffffu32,
            ;
        }
        let plane = (width as u64) * (height as u64);
        if plane > u32::MAX as u64 {
            proof {
                assert(plane * depth >= plane) by (nonlinear_arith)
                    requires
                        depth > 0,
                        plane >= 0,
                ;
            }
            return None;
        }
        proof {
            assert((plane as int) * (depth as int) <= 0xffff_ffff * 0xffff_ffff) by (nonlinear_arith)
                requires
                    plane <= 0xffff_ffffu64,
                    depth <= 0xffff_ffffu32,
            ;
        }
        let count = plane * (depth as u64);
        if count > u32::MAX as u64 {
            None
        } else {
            Some(VolumeDims { width, height, depth })
        }
    }

    /// The cube with the given side, if its voxel count fits in a `u32`.
    pub fn cube(size: u32) -> (r: Option<VolumeDims>)
        ensures
            r is Some <==> size * size * size <= u32::MAX,
            r matches Some(d) ==> d == (VolumeDims { width: size, height: size, depth: size })
                && d.wf(),
    {
        Self::new(size, size, size)
    }

    /// Number of voxels: `width × height × depth`.
    pub fn voxel_count(&self) -> (r: u32)
        requires
            self.wf(),
        ensures
            r == self.count(),
    {
        proof {
            assert(self.width * self.height <= u32::MAX || self.depth == 0) by (nonlinear_arith)
                requires
                    self.width * self.height * self.depth <= u32::MAX,
            ;
        }
        if self.depth == 0 {
            proof {
                assert(self.width * self.height * self.depth == 0) by (nonlinear_arith)
                    requires
                        self.depth == 0,
                ;
            }
            0
        } else {
            self.width * self.height * self.depth
        }
    }

    /// Storage index of voxel `(x, y, z)`: `z·width·height + y·width + x`.
    pub fn index_of(&self, x: u32, y: u32, z: u32) -> (r: u32)
        requires
            self.wf(),
            self.contains(x as int, y as int, z as int),
        ensures
            r == self.index(x as int, y as int, z as int),
            r < self.count(),
    {
        let w = self.width as u64;
        let h = self.height as u64;
        let d = self.depth as u64;
        proof {
            lemma_index_in_range(w as int, h as int, d as int, x as int, y as int, z as int);
            assert(w * h <= w * h * d) by (nonlinear_arith)
                requires
                    d >= 1,
            ;
            assert(z * (w * h) <= w * h * d) by (nonlinear_arith)
                requires
                    z < d,
                    w * h >= 0,
            ;
            assert(y * w <= w * h) by (nonlinear_arith)
                requires
                    y < h,
                    w >= 0,
            ;
        }
        let r = (z as u64) * (w * h) + (y as u64) * w + (x as u64);
        r as u32
    }

    /// The voxel stored at index `i`: the inverse of `index_of`.
    pub fn coords_of(&self, i: u32) -> (r: (u32, u32, u32))
        requires
            self.wf(),
            i < self.count(),
        ensures
            self.contains(r.0 as int, r.1 as int, r.2 as int),
            self.index(r.0 as int, r.1 as int, r.2 as int) == i,
    {
        let w = self.width as u64;
        let h = self.height as u64;
        let d = self.depth as u64;
        proof {
            assert(w > 0 && h > 0 && w * h > 0 && w * h <= w * h * d) by (nonlinear_arith)
                requires
                    (i as int) < w * h * d,
                    i >= 0,
                    w >= 0,
                    h >= 0,
                    d >= 0,
            ;
        }
        let plane = w * h;
        let z = (i as u64) / plane;
        let rest = (i as u64) % plane;
        let y = rest / w;
        let x = rest % w;
        proof {
            lemma_fundamental_div_mod(i as int, plane as int);
            lemma_fundamental_div_mod(rest as int, w as int);
            lemma_mod_pos_bound(i as int, plane as int);
            lemma_mod_pos_bound(rest as int, w as int);
            assert(z < d) by (nonlinear_arith)
                requires
                    i == plane * z + rest,
                    rest >= 0,
                    (i as int) < plane * d,
                    plane > 0,
            ;
            assert(y < h) by (nonlinear_arith)
                requires
                    rest == w * y + x,
                    x >= 0,
                    rest < w * h,
                    w > 0,
            ;
            assert(z * (w * h) + y * w + x == i) by (nonlinear_arith)
                requires
                    i == plane * z + rest,
                    rest == w * y + x,
                    plane == w * h,
            ;
        }
        (x as u32, y as u32, z as u32)
    }
}

/// Every voxel of a volume has an index below its voxel count.
proof fn lemma_index_in_range(w: int, h: int, d: int, x: int, y: int, z: int)
    requires
        0 <= x < w,
        0 <= y < h,
        0 <= z < d,
    ensures
        0 <= voxel_index(w, h, x, y, z) < w * h * d,
{
    assert(y * w + x < w * h) by (nonlinear_arith)
        requires
            0 <= x < w,
            0 <= y < h,
    ;
    assert(z * (w * h) + w * h <= w * h * d) by (nonlinear_arith)
        requires
            0 <= z < d,
            w * h >= 0,
    ;
    assert(0 <= z * (w * h) + y * w) by (nonlinear_arith)
        requires
            0 <= z,
            0 <= y,
            0 <= w,
            0 <= h,
    ;
}

} // verus!
