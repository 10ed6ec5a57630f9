//! The camera that the cube is viewed through.
//!
//! Lengths are held in thousandths of a scene unit and the field of view in
//! thousandths of a radian; the aspect ratio is held exactly, as the width
//! and height it was taken from.
use vstd::prelude::*;

verus! {

/// The ratio `width / height` of a viewport, kept as the fraction itself.
#[derive(Debug, Clone, Copy, PartialEq, Eq, Structural)]
pub struct AspectRatio {
    pub width: u32,
    pub height: u32,
}

impl AspectRatio {
    /// Whether the ratio is a positive number.
    pub open spec fn valid(self) -> bool {
        self.width > 0 && self.height > 0
    }
}

/// A point or direction in thousandths of a scene unit.
#[derive(Debug, Clone, Copy, PartialEq, Eq, Structural)]
pub struct Point3 {
    pub x: i64,
    pub y: i64,
    pub z: i64,
}

/// A right-handed look-at camera with a perspective projection.
#[derive(Debug, Clone, Copy, PartialEq, Eq, Structural)]
pub struct Camera {
    pub position: Point3,
    pub target: Point3,
    pub up: Point3,
    pub aspect_ratio: AspectRatio,
    /// Vertical field of view, in thousandths of a radian.
    pub fov: u32,
    /// Near clipping distance, in thousandths of a scene unit.
    pub znear: u32,
    /// Far clipping distance, in thousandths of a scene unit.
    pub zfar: u32,
}

impl Camera {
    /// The camera's invariant: a positive aspect ratio and a near plane in
    /// front of the far plane.
    pub open spec fn wf(self) -> bool {
        self.aspect_ratio.valid() && self.znear < self.zfar
    }

    /// Builds a camera from all its parameters.
    pub fn new(
        position: Point3,
        target: Point3,
        up: Point3,
        aspect_ratio: AspectRatio,
        fov: u32,
        znear: u32,
        zfar: u32,
    ) -> (c: Camera)
        requires
            aspect_ratio.valid(),
            znear < zfar,
        ensures
            c.wf(),
            c == (Camera { position, target, up, aspect_ratio, fov, znear, zfar }),
    {
        Camera { position, target, up, aspect_ratio, fov, znear, zfar }
    }

    /// Sets the aspect ratio to `width / height`.
    pub fn set_aspect_ratio(&mut self, width: u32, height: u32)
        requires
            width > 0,
            height > 0,
        ensures
            *final(self) == (Camera { aspect_ratio: AspectRatio { width, height }, ..*old(self) }),
    {
        self.aspect_ratio = AspectRatio { width, height };
    }
}

impl Camera {
    /// The default camera (see `default`).
    pub open spec fn spec_default() -> Camera {
        Camera {
            position: Point3 { x: 5000, y: 5000, z: 5000 },
            target: Point3 { x: 0, y: 0, z: 0 },
            up: Point3 { x: 0, y: 1000, z: 0 },
            aspect_ratio: AspectRatio { width: 1, height: 1 },
            fov: 1000,
            znear: 100,
            zfar: 1000000,
        }
    }
}

impl Default for Camera {
    /// Looks from (5, 5, 5) at the origin with +y up, a square viewport, a
    /// field of view of one radian and clipping planes at 0.1 and 1000.
    fn default() -> (c: Camera)
        ensures
            c.wf(),
            c == Camera::spec_default(),
    {
        Camera {
            position: Point3 { x: 5000, y: 5000, z: 5000 },
            target: Point3 { x: 0, y: 0, z: 0 },
            up: Point3 { x: 0, y: 1000, z: 0 },
            aspect_ratio: AspectRatio { width: 1, height: 1 },
            fov: 1000,
            znear: 100,
            zfar: 1000000,
        }
    }
}

} // verus!
