use rand::rngs::StdRng;
use rand::SeedableRng;
use raytracer::camera::Camera;
use raytracer::fixed::{Fixed, SCALE};
use raytracer::random::{random_double, random_int, random_range, random_vec_range};
use raytracer::texture::{checker_is_even, clamp, pixel_coords};
use raytracer::vec3::Rvec3;

#[test]
fn fixed_fraction_is_exact() {
    assert_eq!(Fixed::frac(65, 100).units, 650_000_000);
    assert_eq!(Fixed::frac(1, 10000).units, 100_000);
    assert_eq!(Fixed::frac(-32, 100).units, -320_000_000);
}

#[test]
fn fixed_whole_scales() {
    assert_eq!(Fixed::whole(-3).units, -3 * SCALE);
    assert_eq!(Fixed::whole(i32::MAX).units, i32::MAX as i64 * SCALE);
}

#[test]
fn fixed_arithmetic() {
    let a = Fixed::frac(3, 10);
    let b = Fixed::frac(9, 10);
    assert_eq!(a.add(b).units, 1_200_000_000);
    assert_eq!(a.sub(b).units, -600_000_000);
    assert_eq!(a.neg().units, -300_000_000);
    assert_eq!(a.min(b), a);
    assert_eq!(a.max(b), b);
    assert!(a.lt(b));
    assert!(!b.lt(a));
}

#[test]
fn fixed_product_of_unit_values_rounds_down() {
    assert_eq!(Fixed::frac(1, 2).mul_unit(Fixed::frac(1, 4)).units, 125_000_000);
    assert_eq!(Fixed::from_units(1).mul_unit(Fixed::from_units(999_999_999)).units, 0);
    assert_eq!(Fixed::whole(1).mul_unit(Fixed::whole(1)).units, SCALE);
}

#[test]
fn vector_constructors_and_sums() {
    let v = Rvec3::frac(2, 3, 1, 10);
    assert_eq!(v.x.units, 200_000_000);
    assert_eq!(v.y.units, 300_000_000);
    assert_eq!(v.z.units, 100_000_000);
    let w = Rvec3::whole(1, -2, 3);
    let s = v.add(w);
    assert_eq!(s.x.units, 1_200_000_000);
    assert_eq!(s.y.units, -1_700_000_000);
    assert_eq!(s.z.units, 3_100_000_000);
    assert_eq!(w.neg(), Rvec3::whole(-1, 2, -3));
    assert_eq!(Rvec3::new(), Rvec3::whole(0, 0, 0));
}

#[test]
fn camera_defaults() {
    let c = Camera::new();
    assert_eq!(c.image_width, 100);
    assert_eq!(c.samples_per_pixel, 10);
    assert_eq!(c.max_depth, 10);
    assert_eq!(c.vfov, Fixed::whole(90));
    assert_eq!(c.lookfrom, Rvec3::whole(0, 0, -1));
    assert_eq!(c.focus_dist, Fixed::whole(10));
    assert_eq!(c.image_height(), 100);
}

#[test]
fn camera_image_height_from_aspect() {
    let mut c = Camera::new();
    c.aspect_w = 16;
    c.aspect_h = 9;
    c.image_width = 400;
    assert_eq!(c.image_height(), 225);
    c.image_width = 1200;
    assert_eq!(c.image_height(), 675);
    c.image_width = 100;
    assert_eq!(c.image_height(), 56);
}

#[test]
fn camera_image_height_is_at_least_one() {
    let mut c = Camera::new();
    c.aspect_w = 16;
    c.aspect_h = 9;
    c.image_width = 1;
    assert_eq!(c.image_height(), 1);
}

#[test]
fn clamp_to_half_open_range() {
    assert_eq!(clamp(-5, 0, 10), 0);
    assert_eq!(clamp(5, 0, 10), 5);
    assert_eq!(clamp(10, 0, 10), 9);
    assert_eq!(clamp(i32::MAX, 0, 10), 9);
}

#[test]
fn pixel_coords_clamp_into_raster() {
    assert_eq!(pixel_coords(-1, 500, 4, 3), (0, 2));
    assert_eq!(pixel_coords(2, 1, 4, 3), (2, 1));
    assert_eq!(pixel_coords(4, 3, 4, 3), (3, 2));
}

#[test]
fn checker_parity() {
    assert!(checker_is_even(0, 0, 0));
    assert!(!checker_is_even(-1, 0, 0));
    assert!(checker_is_even(1, 1, 0));
    assert!(checker_is_even(-1, -2, -3));
    assert!(!checker_is_even(i32::MAX, 0, 0));
    assert!(checker_is_even(i32::MAX, i32::MAX, 0));
}

#[test]
fn random_draws_stay_in_range() {
    let mut rng = StdRng::seed_from_u64(11);
    let lo = Fixed::frac(5, 10);
    let hi = Fixed::whole(1);
    for _ in 0..1000 {
        let x = random_range(&mut rng, lo, hi);
        assert!(lo.units <= x.units && x.units < hi.units);
        let d = random_double(&mut rng);
        assert!(0 <= d.units && d.units < SCALE);
        let k = random_int(&mut rng, -3, 3);
        assert!((-3..=3).contains(&k));
        let v = random_vec_range(&mut rng, lo, hi);
        assert!(lo.units <= v.z.units && v.z.units < hi.units);
    }
}

#[test]
fn random_range_of_one_unit_is_its_low_end() {
    let mut rng = StdRng::seed_from_u64(5);
    let lo = Fixed::from_units(41);
    let hi = Fixed::from_units(42);
    assert_eq!(random_range(&mut rng, lo, hi).units, 41);
    assert_eq!(random_int(&mut rng, 7, 7), 7);
}

#[test]
fn random_int_reaches_both_ends() {
    let mut rng = StdRng::seed_from_u64(3);
    let mut seen = [false; 3];
    for _ in 0..200 {
        seen[random_int(&mut rng, 0, 2) as usize] = true;
    }
    assert!(seen.iter().all(|s| *s));
}
