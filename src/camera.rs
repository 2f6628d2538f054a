//! Camera parameters and the integer part of camera setup.
use vstd::prelude::*;
use crate::fixed::Fixed;
use crate::vec3::{Rvec3, Point3, Color, whole3};

verus! {

/// What a ray that hits nothing returns.
#[derive(Clone, Copy, Debug, PartialEq, Eq, Structural)]
pub enum Background {
    /// A constant radiance.
    Solid { color: Color },
    /// White at the bottom blending to light blue at the top, by the ray's
    /// vertical direction.
    Sky,
}

/// The user-set parameters of a camera. The image's aspect ratio is the
/// exact fraction `aspect_w / aspect_h`.
#[derive(Clone, Copy, Debug, PartialEq, Eq, Structural)]
pub struct Camera {
    pub aspect_w: i32,
    pub aspect_h: i32,
    pub image_width: i32,
    pub samples_per_pixel: i32,
    pub max_depth: i32,
    /// Vertical field of view, in degrees.
    pub vfov: Fixed,
    pub lookfrom: Point3,
    pub lookat: Point3,
    pub vup: Rvec3,
    /// Variation angle of rays through each pixel, in degrees.
    pub defocus_angle: Fixed,
    /// Distance from `lookfrom` to the plane of perfect focus.
    pub focus_dist: Fixed,
    pub background: Background,
}

impl Camera {
    /// Dimensions are positive and the focus plane is in front of the lens.
    pub open spec fn wf(&self) -> bool {
        &&& self.aspect_w >= 1
        &&& self.aspect_h >= 1
        &&& self.image_width >= 1
        &&& self.samples_per_pixel >= 1
        &&& self.max_depth >= 0
        &&& self.focus_dist.units > 0
    }

    /// The camera's default settings.
    pub open spec fn spec_new() -> Camera {
        Camera {
            aspect_w: 1,
            aspect_h: 1,
            image_width: 100,
            samples_per_pixel: 10,
            max_depth: 10,
            vfov: Fixed::spec_whole(90),
            lookfrom: whole3(0, 0, -1),
            lookat: whole3(0, 0, 0),
            vup: whole3(0, 1, 0),
            defocus_angle: Fixed::spec_whole(0),
            focus_dist: Fixed::spec_whole(10),
            background: Background::Sky,
        }
    }

    /// Width over aspect ratio, rounded down, and at least 1.
    pub open spec fn spec_image_height(&self) -> int {
        let h = (self.image_width * self.aspect_h) / (self.aspect_w as int);
        if h < 1 { 1 } else { h }
    }

    pub fn new() -> (r: Camera)
        ensures
            r == Camera::spec_new(),
            r.wf(),
    {
        Camera {
            aspect_w: 1,
            aspect_h: 1,
            image_width: 100,
            samples_per_pixel: 10,
            max_depth: 10,
            vfov: Fixed::whole(90),
            lookfrom: Rvec3::whole(0, 0, -1),
            lookat: Rvec3::new(),
            vup: Rvec3::whole(0, 1, 0),
            defocus_angle: Fixed::zero(),
            focus_dist: Fixed::whole(10),
            background: Background::Sky,
        }
    }

    /// Height in pixels of the rendered image.
    pub fn image_height(&self) -> (r: i64)
        requires
            self.wf(),
        ensures
            r == self.spec_image_height(),
            1 <= r <= self.image_width * self.aspect_h,
    {
        let w = self.image_width as i64;
        let ah = self.aspect_h as i64;
        let aw = self.aspect_w as i64;
        assert(1 <= w * ah <= 2147483647 * 2147483647) by (nonlinear_arith)
            requires
                1 <= w <= 2147483647,
                1 <= ah <= 2147483647,
        ;
        let p: i64 = w * ah;
        assert(p / aw <= p) by (nonlinear_arith)
            requires
                p >= 1,
                aw >= 1,
        ;
        let h: i64 = p / aw;
        if h < 1 {
            1
        } else {
            h
        }
    }
}

} // verus!
