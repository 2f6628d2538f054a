use rand::rngs::StdRng;
use rand::SeedableRng;
use raytracer::camera::{Background, Camera};
use raytracer::final_scene::final_scene;
use raytracer::fixed::{Fixed, SCALE};
use raytracer::random_scene::{random_spheres, random_spheres_with, CellDraws};
use raytracer::scene::{MaterialDesc, ObjectDesc, Scene, SceneError, TextureDesc};
use raytracer::scenes::{cornell_box, cornell_smoke, earth, quads, simple_light, two_perlin_spheres, two_spheres};
use raytracer::vec3::Rvec3;

fn list_items(o: &ObjectDesc) -> Vec<usize> {
    match o {
        ObjectDesc::List { items } => items.clone(),
        _ => panic!("not a list"),
    }
}

fn sky() -> Background {
    Background::Solid { color: Rvec3::frac(70, 80, 100, 100) }
}

#[test]
fn two_spheres_share_one_checker() {
    let s = two_spheres();
    assert_eq!(s.textures.len(), 3);
    match &s.textures[2] {
        TextureDesc::Checker { scale, even, odd } => {
            assert_eq!(scale.units, 320_000_000);
            assert_eq!((*even, *odd), (0, 1));
        }
        _ => panic!("expected a checker"),
    }
    assert!(matches!(s.materials[0], MaterialDesc::Lambertian { texture: 2 }));
    assert!(matches!(s.materials[1], MaterialDesc::Lambertian { texture: 2 }));
    match &s.objects[1] {
        ObjectDesc::Sphere { center, radius, material } => {
            assert_eq!(*center, Rvec3::whole(0, 10, 0));
            assert_eq!(*radius, Fixed::whole(10));
            assert_eq!(*material, 1);
        }
        _ => panic!("expected a sphere"),
    }
    assert_eq!(s.world, vec![0, 1]);
    assert_eq!(s.camera.image_width, 400);
    assert_eq!(s.camera.image_height(), 225);
    assert_eq!(s.camera.background, sky());
}

#[test]
fn earth_uses_the_image() {
    let s = earth();
    match &s.textures[0] {
        TextureDesc::Image { file } => assert_eq!(file, "earthmap.jpg"),
        _ => panic!("expected an image"),
    }
    assert_eq!(s.camera.image_width, 1200);
    assert_eq!(s.camera.samples_per_pixel, 1000);
    assert_eq!(s.camera.lookfrom, Rvec3::whole(0, 0, 12));
}

#[test]
fn perlin_spheres_share_the_noise() {
    let s = two_perlin_spheres();
    assert_eq!(s.textures.len(), 1);
    assert!(matches!(s.textures[0], TextureDesc::Noise { scale } if scale == Fixed::whole(4)));
    assert_eq!(s.objects.len(), 2);
}

#[test]
fn quads_face_the_camera() {
    let s = quads();
    assert_eq!(s.objects.len(), 5);
    assert_eq!(s.world, vec![0, 1, 2, 3, 4]);
    match &s.objects[4] {
        ObjectDesc::Quad { q, u, v, material } => {
            assert_eq!(*q, Rvec3::whole(-2, -3, 5));
            assert_eq!(*u, Rvec3::whole(4, 0, 0));
            assert_eq!(*v, Rvec3::whole(0, 0, -4));
            assert_eq!(*material, 4);
        }
        _ => panic!("expected a quad"),
    }
    assert_eq!((s.camera.aspect_w, s.camera.aspect_h), (1, 1));
    assert_eq!(s.camera.vfov, Fixed::whole(80));
}

#[test]
fn simple_light_shares_the_lamp() {
    let s = simple_light();
    assert!(matches!(s.materials[2], MaterialDesc::DiffuseLight { texture: 1 }));
    assert!(matches!(s.objects[2], ObjectDesc::Quad { material: 2, .. }));
    assert!(matches!(s.objects[3], ObjectDesc::Sphere { material: 2, .. }));
    assert_eq!(s.camera.background, Background::Solid { color: Rvec3::new() });
}

#[test]
fn cornell_box_layout() {
    let s = cornell_box();
    assert_eq!(s.objects.len(), 24);
    assert_eq!(s.world, vec![0, 1, 2, 3, 4, 5, 14, 23]);
    assert_eq!(list_items(&s.objects[12]), vec![6, 7, 8, 9, 10, 11]);
    assert!(matches!(s.objects[13], ObjectDesc::RotateY { object: 12, angle } if angle == Fixed::whole(15)));
    assert!(matches!(s.objects[22], ObjectDesc::RotateY { object: 21, angle } if angle == Fixed::whole(-18)));
    match &s.objects[23] {
        ObjectDesc::Translate { object, offset } => {
            assert_eq!(*object, 22);
            assert_eq!(*offset, Rvec3::whole(130, 0, 65));
        }
        _ => panic!("expected a translation"),
    }
    assert_eq!(s.camera.image_height(), 600);
}

#[test]
fn cornell_smoke_fills_the_boxes() {
    let s = cornell_smoke();
    assert_eq!(s.objects.len(), 26);
    assert_eq!(s.world, vec![0, 1, 2, 3, 4, 5, 24, 25]);
    match &s.objects[24] {
        ObjectDesc::ConstantMedium { boundary, density, phase } => {
            assert_eq!(*boundary, 14);
            assert_eq!(density.units, 10_000_000);
            assert!(matches!(s.materials[*phase], MaterialDesc::Isotropic { texture: 4 }));
        }
        _ => panic!("expected a medium"),
    }
    assert!(matches!(s.textures[5], TextureDesc::SolidColor { color } if color == Rvec3::whole(1, 1, 1)));
}

#[test]
fn box_new_orders_corners() {
    let mut s = Scene::new();
    let m = s.lambertian(Rvec3::whole(1, 1, 1));
    let list = s.box_new(Rvec3::whole(165, 330, 165), Rvec3::new(), m);
    assert_eq!(list, 6);
    assert_eq!(list_items(&s.objects[6]), vec![0, 1, 2, 3, 4, 5]);
    match &s.objects[0] {
        ObjectDesc::Quad { q, u, v, .. } => {
            assert_eq!(*q, Rvec3::whole(0, 0, 165));
            assert_eq!(*u, Rvec3::whole(165, 0, 0));
            assert_eq!(*v, Rvec3::whole(0, 330, 0));
        }
        _ => panic!("expected a quad"),
    }
    match &s.objects[4] {
        ObjectDesc::Quad { q, u, v, .. } => {
            assert_eq!(*q, Rvec3::whole(0, 330, 165));
            assert_eq!(*u, Rvec3::whole(165, 0, 0));
            assert_eq!(*v, Rvec3::whole(0, 0, -165));
        }
        _ => panic!("expected a quad"),
    }
    assert!(s.world.is_empty());
}

#[test]
fn metal_fuzz_is_clamped() {
    let mut s = Scene::new();
    let a = s.metal(Rvec3::whole(1, 1, 1), Fixed::whole(2));
    let b = s.metal(Rvec3::whole(1, 1, 1), Fixed::whole(-1));
    let c = s.metal(Rvec3::whole(1, 1, 1), Fixed::frac(3, 10));
    assert!(matches!(s.materials[a], MaterialDesc::Metal { fuzz, .. } if fuzz.units == SCALE));
    assert!(matches!(s.materials[b], MaterialDesc::Metal { fuzz, .. } if fuzz.units == 0));
    assert!(matches!(s.materials[c], MaterialDesc::Metal { fuzz, .. } if fuzz.units == 300_000_000));
}

#[test]
fn constant_medium_adds_its_phase() {
    let mut s = Scene::new();
    let m = s.lambertian(Rvec3::whole(1, 1, 1));
    let b = s.add_object(ObjectDesc::Sphere { center: Rvec3::new(), radius: Fixed::whole(1), material: m });
    let o = s.constant_medium(b, Fixed::frac(2, 10), Rvec3::whole(1, 0, 0));
    assert_eq!(o, 1);
    assert!(matches!(s.materials[1], MaterialDesc::Isotropic { texture: 1 }));
    assert!(matches!(s.objects[1], ObjectDesc::ConstantMedium { boundary: 0, phase: 1, .. }));
}

#[test]
fn empty_scene_has_default_camera() {
    let s = Scene::new();
    assert!(s.objects.is_empty() && s.world.is_empty());
    assert_eq!(s.camera, Camera::new());
    assert_eq!(s.camera.background, Background::Sky);
}

fn clear_of_big(center: &Rvec3) -> bool {
    let dx = center.x.units as i128 - 4 * SCALE as i128;
    let dy = center.y.units as i128 - (SCALE / 5) as i128;
    let dz = center.z.units as i128;
    100 * (dx * dx + dy * dy + dz * dz) > 81 * (SCALE as i128) * (SCALE as i128)
}

#[test]
fn random_spheres_are_small_and_clear() {
    let s = random_spheres(&mut StdRng::seed_from_u64(42));
    let n = s.objects.len();
    assert!(n > 4 && n <= 1 + 484 + 3);
    for o in &s.objects[1..n - 3] {
        let (center, radius) = match o {
            ObjectDesc::Sphere { center, radius, .. } => (*center, *radius),
            ObjectDesc::MovingSphere { center1, radius, .. } => (*center1, *radius),
            _ => panic!("expected a small sphere"),
        };
        assert_eq!(radius.units, 200_000_000);
        assert_eq!(center.y.units, 200_000_000);
        assert!(clear_of_big(&center));
    }
    assert_eq!(s.world, (0..n).collect::<Vec<usize>>());
    assert_eq!(s.camera.defocus_angle.units, 600_000_000);
    assert_eq!(s.camera.max_depth, 10);
}

#[test]
fn random_spheres_reproducible_from_seed() {
    let a = random_spheres(&mut StdRng::seed_from_u64(7));
    let b = random_spheres(&mut StdRng::seed_from_u64(7));
    assert_eq!(format!("{:?}", a), format!("{:?}", b));
    let c = random_spheres(&mut StdRng::seed_from_u64(8));
    assert_ne!(format!("{:?}", a), format!("{:?}", c));
}

#[test]
fn final_scene_layout() {
    let s = final_scene(&mut StdRng::seed_from_u64(1), 400, 250, 40);
    assert_eq!(s.objects.len(), 3814);
    assert_eq!(s.world, vec![2800, 2801, 2802, 2803, 2804, 2805, 2806, 2808, 2809, 2810, 3813]);
    assert_eq!(list_items(&s.objects[2800]).len(), 400);
    assert_eq!(list_items(&s.objects[3811]), (2811..3811).collect::<Vec<usize>>());
    match &s.objects[2802] {
        ObjectDesc::MovingSphere { center1, center2, .. } => {
            assert_eq!(*center1, Rvec3::whole(400, 400, 200));
            assert_eq!(*center2, Rvec3::whole(430, 400, 200));
        }
        _ => panic!("expected a moving sphere"),
    }
    match &s.objects[2808] {
        ObjectDesc::ConstantMedium { boundary, density, .. } => {
            assert_eq!(*boundary, 2807);
            assert_eq!(density.units, 100_000);
        }
        _ => panic!("expected a medium"),
    }
    for k in 0..400 {
        match &s.objects[7 * k + 4] {
            ObjectDesc::Quad { q, .. } => {
                assert!(q.y.units >= SCALE && q.y.units < 101 * SCALE);
            }
            _ => panic!("expected the top of a box"),
        }
    }
    assert_eq!(s.camera.image_width, 400);
    assert_eq!(s.camera.samples_per_pixel, 250);
    assert_eq!(s.camera.max_depth, 40);
}

fn scene_with_one_sphere() -> Scene {
    let mut s = Scene::new();
    let m = s.lambertian(Rvec3::whole(1, 1, 1));
    s.add_object(ObjectDesc::Sphere { center: Rvec3::new(), radius: Fixed::whole(1), material: m });
    s
}

#[test]
fn try_add_accepts_a_sound_object() {
    let mut s = scene_with_one_sphere();
    let q = ObjectDesc::Quad { q: Rvec3::new(), u: Rvec3::whole(1, 0, 0), v: Rvec3::whole(0, 1, 0), material: 0 };
    assert_eq!(s.try_add_object(q), Ok(1));
    assert_eq!(s.try_add_object(ObjectDesc::List { items: vec![0, 1] }), Ok(2));
    assert_eq!(s.objects.len(), 3);
}

#[test]
fn try_add_rejects_zero_radius() {
    let mut s = scene_with_one_sphere();
    let o = ObjectDesc::Sphere { center: Rvec3::new(), radius: Fixed::zero(), material: 0 };
    assert_eq!(s.try_add_object(o), Err(SceneError::NonPositiveRadius));
    let o = ObjectDesc::MovingSphere {
        center1: Rvec3::new(),
        center2: Rvec3::whole(1, 0, 0),
        radius: Fixed::whole(-1),
        material: 0,
    };
    assert_eq!(s.try_add_object(o), Err(SceneError::NonPositiveRadius));
    assert_eq!(s.objects.len(), 1);
}

#[test]
fn try_add_rejects_parallel_edges() {
    let mut s = scene_with_one_sphere();
    let o = ObjectDesc::Quad { q: Rvec3::new(), u: Rvec3::whole(1, 2, 3), v: Rvec3::whole(-2, -4, -6), material: 0 };
    assert_eq!(s.try_add_object(o), Err(SceneError::DegenerateQuad));
    let o = ObjectDesc::Quad { q: Rvec3::new(), u: Rvec3::new(), v: Rvec3::whole(0, 1, 0), material: 0 };
    assert_eq!(s.try_add_object(o), Err(SceneError::DegenerateQuad));
}

#[test]
fn try_add_rejects_bad_references() {
    let mut s = scene_with_one_sphere();
    let o = ObjectDesc::Sphere { center: Rvec3::new(), radius: Fixed::whole(1), material: 5 };
    assert_eq!(s.try_add_object(o), Err(SceneError::BadReference));
    assert_eq!(s.try_add_object(ObjectDesc::List { items: vec![0, 1] }), Err(SceneError::BadReference));
    assert_eq!(s.try_add_object(ObjectDesc::Translate { object: 1, offset: Rvec3::new() }), Err(SceneError::BadReference));
    assert_eq!(s.try_add_object(ObjectDesc::RotateY { object: 3, angle: Fixed::whole(15) }), Err(SceneError::BadReference));
}

#[test]
fn try_add_checks_media() {
    let mut s = scene_with_one_sphere();
    let o = ObjectDesc::ConstantMedium { boundary: 0, density: Fixed::frac(1, 100), phase: 0 };
    assert_eq!(s.try_add_object(o), Err(SceneError::PhaseNotIsotropic));
    let t = s.solid(Rvec3::whole(1, 1, 1));
    let phase = s.add_material(MaterialDesc::Isotropic { texture: t });
    let o = ObjectDesc::ConstantMedium { boundary: 0, density: Fixed::zero(), phase };
    assert_eq!(s.try_add_object(o), Err(SceneError::NonPositiveDensity));
    let o = ObjectDesc::ConstantMedium { boundary: 0, density: Fixed::frac(1, 100), phase };
    assert_eq!(s.try_add_object(o), Ok(1));
}

#[test]
fn check_object_reports_references_first() {
    let s = scene_with_one_sphere();
    let o = ObjectDesc::Sphere { center: Rvec3::new(), radius: Fixed::zero(), material: 9 };
    assert_eq!(s.check_object(&o), Some(SceneError::BadReference));
}

fn glass_cell() -> CellDraws {
    CellDraws {
        choose: Fixed::frac(99, 100),
        dx: Fixed::zero(),
        dz: Fixed::zero(),
        albedo1: Rvec3::new(),
        albedo2: Rvec3::new(),
        lift: Fixed::zero(),
        metal_albedo: Rvec3::frac(5, 5, 5, 10),
        fuzz: Fixed::zero(),
    }
}

#[test]
fn random_spheres_from_given_draws() {
    let draws: Vec<CellDraws> = (0..484).map(|_| glass_cell()).collect();
    let s = random_spheres_with(&draws);
    // Every cell holds a glass sphere at its corner but cell (4, 0), which
    // would touch the metal sphere.
    assert_eq!(s.objects.len(), 1 + 483 + 3);
    assert_eq!(s.materials.len(), 1 + 483 + 3);
    assert_eq!(s.textures.len(), 2);
    match &s.objects[1] {
        ObjectDesc::Sphere { center, radius, material } => {
            assert_eq!(*center, Rvec3::new_arg(Fixed::whole(-11), Fixed::frac(2, 10), Fixed::whole(-11)));
            assert_eq!(radius.units, 200_000_000);
            assert!(matches!(s.materials[*material], MaterialDesc::Dielectric { ir } if ir == Fixed::frac(15, 10)));
        }
        _ => panic!("expected a glass sphere"),
    }
    match &s.objects[2] {
        ObjectDesc::Sphere { center, .. } => assert_eq!(center.z, Fixed::whole(-10)),
        _ => panic!("expected a glass sphere"),
    }
}

#[test]
fn random_spheres_diffuse_cell_rises() {
    let mut d = glass_cell();
    d.choose = Fixed::frac(1, 10);
    d.albedo1 = Rvec3::frac(5, 5, 5, 10);
    d.albedo2 = Rvec3::frac(4, 4, 4, 10);
    d.lift = Fixed::frac(3, 10);
    let draws: Vec<CellDraws> = (0..484).map(|_| CellDraws { ..d }).collect();
    let s = random_spheres_with(&draws);
    match &s.objects[1] {
        ObjectDesc::MovingSphere { center1, center2, material, .. } => {
            assert_eq!(center2.y.units - center1.y.units, 300_000_000);
            match s.materials[*material] {
                MaterialDesc::Lambertian { texture } => {
                    assert!(matches!(s.textures[texture], TextureDesc::SolidColor { color } if color == Rvec3::frac(2, 2, 2, 10)));
                }
                _ => panic!("expected a diffuse material"),
            }
        }
        _ => panic!("expected a moving sphere"),
    }
}
