//! The showcase scene: a field of boxes, lights, glass, metal, smoke, the
//! earth, marble and a cluster of small spheres.
use vstd::prelude::*;
use rand::rngs::StdRng;
use crate::fixed::{Fixed, SCALE};
use crate::vec3::{Rvec3, whole3, frac3};
use crate::camera::{Camera, Background};
use crate::scene::{
    Scene, TextureDesc, MaterialDesc, ObjectDesc, box_sides, is_list, span, lemma_edges_span_whole,
};
use crate::random::{random_range, random_vec_range};

verus! {

/// Number of ground boxes along each side of the field.
pub const BOXES_PER_SIDE: usize = 20;

/// Number of spheres in the cluster.
pub const CLUSTER_SIZE: usize = 1000;

/// Low corner of ground box `k`: row `k / 20`, column `k % 20`, each box 100
/// wide, the field starting at -1000.
pub open spec fn box_corner_lo(k: int) -> Rvec3 {
    whole3(-1000 + 100 * (k / 20), 0, -1000 + 100 * (k % 20))
}

/// High corner of ground box `k`, of height `h`.
pub open spec fn box_corner_hi(k: int, h: Fixed) -> Rvec3 {
    Rvec3 {
        x: Fixed::spec_whole(-900 + 100 * (k / 20)),
        y: h,
        z: Fixed::spec_whole(-900 + 100 * (k % 20)),
    }
}

/// Heights of the ground boxes: one per box, each in `[1, 101)`.
pub open spec fn heights_ok(hs: Seq<Fixed>) -> bool {
    &&& hs.len() == BOXES_PER_SIDE * BOXES_PER_SIDE
    &&& forall|k: int| 0 <= k < hs.len() ==> SCALE <= #[trigger] hs[k].units < 101 * SCALE
}

/// Centers of the cluster: each coordinate in `[0, 165)`.
pub open spec fn centers_ok(cs: Seq<Rvec3>) -> bool {
    &&& cs.len() == CLUSTER_SIZE
    &&& forall|k: int|
        0 <= k < cs.len() ==> {
            &&& 0 <= #[trigger] cs[k].x.units < 165 * SCALE
            &&& 0 <= cs[k].y.units < 165 * SCALE
            &&& 0 <= cs[k].z.units < 165 * SCALE
        }
}

/// From index `n` on, `objs` holds the ground boxes of heights `hs`, each as
/// six faces followed by their list.
pub open spec fn ground_boxes_at(objs: Seq<ObjectDesc>, n: int, hs: Seq<Fixed>, mat: usize) -> bool {
    forall|k: int|
        0 <= k < hs.len() ==> {
            &&& objs.subrange(n + 7 * k, n + 7 * k + 6) == box_sides(
                box_corner_lo(k),
                box_corner_hi(k, #[trigger] hs[k]),
                mat,
            )
            &&& is_list(objs[n + 7 * k + 6], span(n + 7 * k, 6))
        }
}

/// Indices of the lists of `count` boxes laid out from index `n`.
pub open spec fn box_lists(n: int, count: int) -> Seq<usize> {
    Seq::new(count as nat, |k: int| (n + 7 * k + 6) as usize)
}

/// Spheres of radius 10 in `mat` at the centers `cs`.
pub open spec fn cluster_spheres(cs: Seq<Rvec3>, mat: usize) -> Seq<ObjectDesc> {
    Seq::new(cs.len(), |k: int| ObjectDesc::Sphere { center: cs[k], radius: Fixed::spec_whole(10), material: mat })
}

/// Adds the field of ground boxes of heights `heights` in `ground`, then a
/// list of them, whose index is returned.
pub fn ground_boxes(s: &mut Scene, heights: &Vec<Fixed>, ground: usize) -> (r: usize)
    requires
        old(s).wf(),
        heights_ok(heights@),
        ground < old(s).materials@.len(),
        old(s).objects@.len() + 2801 < usize::MAX,
        old(s).textures@.len() + 7 < usize::MAX,
        old(s).materials@.len() + 7 < usize::MAX,
    ensures
        final(s).wf(),
        r == old(s).objects@.len() + 2800,
        final(s).objects@.len() == old(s).objects@.len() + 2801,
        final(s).objects@.subrange(0, old(s).objects@.len() as int) == old(s).objects@,
        ground_boxes_at(final(s).objects@, old(s).objects@.len() as int, heights@, ground),
        is_list(final(s).objects@[r as int], box_lists(old(s).objects@.len() as int, 400)),
        final(s).textures@ == old(s).textures@,
        final(s).materials@ == old(s).materials@,
        final(s).world@ == old(s).world@,
        final(s).camera == old(s).camera,
{
    let ghost n = old(s).objects@.len() as int;
    let ghost start = old(s).objects@;
    let mut items: Vec<usize> = Vec::new();
    let mut k: usize = 0;
    while k < BOXES_PER_SIDE * BOXES_PER_SIDE
        invariant
            k <= 400,
            n == old(s).objects@.len(),
            start == old(s).objects@,
            s.wf(),
            heights_ok(heights@),
            ground < s.materials@.len(),
            s.objects@.len() == n + 7 * k,
            n + 2801 < usize::MAX,
            s.textures@ == old(s).textures@,
            s.materials@ == old(s).materials@,
            s.world@ == old(s).world@,
            s.camera == old(s).camera,
            old(s).textures@.len() + 7 < usize::MAX,
            old(s).materials@.len() + 7 < usize::MAX,
            s.objects@.subrange(0, n) == start,
            ground_boxes_at(s.objects@, n, heights@.subrange(0, k as int), ground),
            items@ == box_lists(n, k as int),
        decreases 400 - k,
    {
        let i = (k / BOXES_PER_SIDE) as i32;
        let j = (k % BOXES_PER_SIDE) as i32;
        let lo = Rvec3::whole(-1000 + 100 * i, 0, -1000 + 100 * j);
        let hi = Rvec3::new_arg(Fixed::whole(-900 + 100 * i), heights[k], Fixed::whole(-900 + 100 * j));
        let ghost before = s.objects@;
        let b = s.box_new(lo, hi, ground);
        items.push(b);
        proof {
            assert forall|x: int| 0 <= x < before.len() implies #[trigger] s.objects@[x] == before[x] by {
                assert(s.objects@.subrange(0, before.len() as int)[x] == s.objects@[x]);
            }
            let hs = heights@.subrange(0, k as int + 1);
            assert forall|q: int| 0 <= q < hs.len() implies {
                &&& s.objects@.subrange(n + 7 * q, n + 7 * q + 6) == box_sides(
                    box_corner_lo(q),
                    box_corner_hi(q, #[trigger] hs[q]),
                    ground,
                )
                &&& is_list(s.objects@[n + 7 * q + 6], span(n + 7 * q, 6))
            } by {
                if q < k {
                    assert(heights@.subrange(0, k as int)[q] == hs[q]);
                    assert(s.objects@.subrange(n + 7 * q, n + 7 * q + 6) =~= before.subrange(
                        n + 7 * q,
                        n + 7 * q + 6,
                    ));
                    assert(s.objects@[n + 7 * q + 6] == before[n + 7 * q + 6]);
                }
            }
            assert forall|x: int| 0 <= x < n implies #[trigger] s.objects@.subrange(0, n)[x] == start[x] by {
                assert(before.subrange(0, n)[x] == start[x]);
            }
            assert(s.objects@.subrange(0, n) =~= start);
            assert(items@ =~= box_lists(n, k as int + 1));
        }
        k = k + 1;
    }
    assert(heights@.subrange(0, 400) =~= heights@);
    let ghost before = s.objects@;
    let r = s.add_object(ObjectDesc::List { items });
    proof {
        let hs = heights@;
        assert forall|q: int| 0 <= q < hs.len() implies {
            &&& s.objects@.subrange(n + 7 * q, n + 7 * q + 6) == box_sides(
                box_corner_lo(q),
                box_corner_hi(q, #[trigger] hs[q]),
                ground,
            )
            &&& is_list(s.objects@[n + 7 * q + 6], span(n + 7 * q, 6))
        } by {
            assert(heights@.subrange(0, 400)[q] == hs[q]);
            assert(s.objects@.subrange(n + 7 * q, n + 7 * q + 6) =~= before.subrange(
                n + 7 * q,
                n + 7 * q + 6,
            ));
        }
        assert(s.objects@.subrange(0, n) =~= start);
    }
    r
}

/// Adds spheres of radius 10 in `white` at the centers `centers`, then a
/// list of them, whose index is returned.
pub fn sphere_cluster(s: &mut Scene, centers: &Vec<Rvec3>, white: usize) -> (r: usize)
    requires
        old(s).wf(),
        centers_ok(centers@),
        white < old(s).materials@.len(),
        old(s).objects@.len() + 1001 < usize::MAX,
    ensures
        final(s).wf(),
        r == old(s).objects@.len() + 1000,
        final(s).objects@.len() == old(s).objects@.len() + 1001,
        final(s).objects@.subrange(0, old(s).objects@.len() as int) == old(s).objects@,
        final(s).objects@.subrange(old(s).objects@.len() as int, r as int) == cluster_spheres(
            centers@,
            white,
        ),
        is_list(final(s).objects@[r as int], span(old(s).objects@.len() as int, 1000)),
        final(s).textures@ == old(s).textures@,
        final(s).materials@ == old(s).materials@,
        final(s).world@ == old(s).world@,
        final(s).camera == old(s).camera,
{
    let ghost n = old(s).objects@.len() as int;
    let mut items: Vec<usize> = Vec::new();
    let mut k: usize = 0;
    while k < CLUSTER_SIZE
        invariant
            k <= CLUSTER_SIZE,
            n == old(s).objects@.len(),
            n + 1001 < usize::MAX,
            s.wf(),
            centers_ok(centers@),
            white < s.materials@.len(),
            s.objects@ == old(s).objects@ + cluster_spheres(centers@.subrange(0, k as int), white),
            items@ == span(n, k as int),
            s.textures@ == old(s).textures@,
            s.materials@ == old(s).materials@,
            s.world@ == old(s).world@,
            s.camera == old(s).camera,
        decreases CLUSTER_SIZE - k,
    {
        let o = s.add_object(
            ObjectDesc::Sphere { center: centers[k], radius: Fixed::whole(10), material: white },
        );
        items.push(o);
        k = k + 1;
        assert(s.objects@ =~= old(s).objects@ + cluster_spheres(centers@.subrange(0, k as int), white));
        assert(items@ =~= span(n, k as int));
    }
    assert(centers@.subrange(0, 1000) =~= centers@);
    let r = s.add_object(ObjectDesc::List { items });
    assert(s.objects@.subrange(0, n) =~= old(s).objects@);
    assert(s.objects@.subrange(n, r as int) =~= cluster_spheres(centers@, white));
    r
}

/// Ground boxes laid out from index 0 stay where they are when objects are
/// appended.
proof fn lemma_boxes_kept(a: Seq<ObjectDesc>, b: Seq<ObjectDesc>, hs: Seq<Fixed>, mat: usize)
    requires
        ground_boxes_at(a, 0, hs, mat),
        7 * hs.len() <= a.len() <= b.len(),
        b.subrange(0, a.len() as int) == a,
    ensures
        ground_boxes_at(b, 0, hs, mat),
{
    assert forall|i: int| 0 <= i < a.len() implies #[trigger] b[i] == a[i] by {
        assert(b.subrange(0, a.len() as int)[i] == b[i]);
    }
    assert forall|q: int| 0 <= q < hs.len() implies {
        &&& b.subrange(7 * q, 7 * q + 6) == box_sides(
            box_corner_lo(q),
            box_corner_hi(q, #[trigger] hs[q]),
            mat,
        )
        &&& is_list(b[7 * q + 6], span(7 * q, 6))
    } by {
        assert(b.subrange(7 * q, 7 * q + 6) =~= a.subrange(7 * q, 7 * q + 6));
    }
}

/// The camera of `final_scene`.
pub open spec fn final_camera(image_width: i32, samples_per_pixel: i32, max_depth: i32) -> Camera {
    Camera {
        aspect_w: 1,
        aspect_h: 1,
        image_width,
        samples_per_pixel,
        max_depth,
        vfov: Fixed::spec_whole(40),
        lookfrom: whole3(478, 278, -600),
        lookat: whole3(278, 278, 0),
        vup: whole3(0, 1, 0),
        defocus_angle: Fixed::spec_whole(0),
        focus_dist: Fixed::spec_whole(10),
        background: Background::Solid { color: whole3(0, 0, 0) },
    }
}

/// The materials of `final_scene`, in order.
pub open spec fn final_materials() -> Seq<MaterialDesc> {
    seq![
        MaterialDesc::Lambertian { texture: 0 },
        MaterialDesc::DiffuseLight { texture: 1 },
        MaterialDesc::Lambertian { texture: 2 },
        MaterialDesc::Dielectric { ir: Fixed::spec_frac(15, 10) },
        MaterialDesc::Metal { albedo: frac3(8, 8, 9, 10), fuzz: Fixed::spec_whole(1) },
        MaterialDesc::Dielectric { ir: Fixed::spec_frac(15, 10) },
        MaterialDesc::Isotropic { texture: 3 },
        MaterialDesc::Dielectric { ir: Fixed::spec_frac(15, 10) },
        MaterialDesc::Isotropic { texture: 4 },
        MaterialDesc::Lambertian { texture: 5 },
        MaterialDesc::Lambertian { texture: 6 },
        MaterialDesc::Lambertian { texture: 7 },
    ]
}

/// The objects of `final_scene` between the ground boxes and the cluster:
/// the light, a moving sphere, glass, metal, a glass sphere filled with blue
/// smoke, a thin mist over everything, the earth and a marble sphere.
pub open spec fn final_features() -> Seq<ObjectDesc> {
    seq![
        ObjectDesc::Quad { q: whole3(123, 554, 147), u: whole3(300, 0, 0), v: whole3(0, 0, 265), material: 1 },
        ObjectDesc::MovingSphere {
            center1: whole3(400, 400, 200),
            center2: whole3(430, 400, 200),
            radius: Fixed::spec_whole(50),
            material: 2,
        },
        ObjectDesc::Sphere { center: whole3(260, 150, 45), radius: Fixed::spec_whole(50), material: 3 },
        ObjectDesc::Sphere { center: whole3(0, 150, 145), radius: Fixed::spec_whole(50), material: 4 },
        ObjectDesc::Sphere { center: whole3(360, 150, 145), radius: Fixed::spec_whole(70), material: 5 },
        ObjectDesc::ConstantMedium { boundary: 2805, density: Fixed::spec_frac(2, 10), phase: 6 },
        ObjectDesc::Sphere { center: whole3(0, 0, 0), radius: Fixed::spec_whole(5000), material: 7 },
        ObjectDesc::ConstantMedium { boundary: 2807, density: Fixed::spec_frac(1, 10000), phase: 8 },
        ObjectDesc::Sphere { center: whole3(400, 200, 400), radius: Fixed::spec_whole(100), material: 9 },
        ObjectDesc::Sphere { center: whole3(220, 280, 300), radius: Fixed::spec_whole(80), material: 10 },
    ]
}

/// `r` is `final_scene` with ground boxes of heights `hs` and cluster
/// centers `cs`.
pub open spec fn final_scene_ok(
    r: Scene,
    hs: Seq<Fixed>,
    cs: Seq<Rvec3>,
    image_width: i32,
    samples_per_pixel: i32,
    max_depth: i32,
) -> bool {
    &&& r.wf()
    &&& r.camera == final_camera(image_width, samples_per_pixel, max_depth)
    &&& r.textures@.len() == 8
    &&& r.textures@[0] == TextureDesc::SolidColor { color: frac3(48, 83, 53, 100) }
    &&& r.textures@[1] == TextureDesc::SolidColor { color: whole3(7, 7, 7) }
    &&& r.textures@[2] == TextureDesc::SolidColor { color: frac3(7, 3, 1, 10) }
    &&& r.textures@[3] == TextureDesc::SolidColor { color: frac3(2, 4, 9, 10) }
    &&& r.textures@[4] == TextureDesc::SolidColor { color: whole3(1, 1, 1) }
    &&& r.textures@[5] matches TextureDesc::Image { file } && file@ == "earthmap.jpg"@
    &&& r.textures@[6] == TextureDesc::Noise { scale: Fixed::spec_frac(1, 10) }
    &&& r.textures@[7] == TextureDesc::SolidColor { color: frac3(73, 73, 73, 100) }
    &&& r.materials@ == final_materials()
    &&& r.objects@.len() == 3814
    &&& ground_boxes_at(r.objects@, 0, hs, 0)
    &&& is_list(r.objects@[2800], box_lists(0, 400))
    &&& r.objects@.subrange(2801, 2811) == final_features()
    &&& r.objects@.subrange(2811, 3811) == cluster_spheres(cs, 11)
    &&& is_list(r.objects@[3811], span(2811, 1000))
    &&& r.objects@[3812] == ObjectDesc::RotateY { object: 3811, angle: Fixed::spec_whole(15) }
    &&& r.objects@[3813] == ObjectDesc::Translate { object: 3812, offset: whole3(-100, 270, 395) }
    &&& r.world@ == seq![2800usize, 2801, 2802, 2803, 2804, 2805, 2806, 2808, 2809, 2810, 3813]
}

/// `final_scene` with the given box heights and cluster centers.
pub fn final_scene_with(
    heights: &Vec<Fixed>,
    centers: &Vec<Rvec3>,
    image_width: i32,
    samples_per_pixel: i32,
    max_depth: i32,
) -> (r: Scene)
    requires
        heights_ok(heights@),
        centers_ok(centers@),
        image_width >= 1,
        samples_per_pixel >= 1,
        max_depth >= 0,
    ensures
        final_scene_ok(r, heights@, centers@, image_width, samples_per_pixel, max_depth),
{
    let mut s = Scene::new();
    let ground = s.lambertian(Rvec3::frac(48, 83, 53, 100));
    let boxes1 = ground_boxes(&mut s, heights, ground);
    s.add(boxes1);
    let ghost after_boxes = s.objects@;

    let light = s.diffuse_light(Rvec3::whole(7, 7, 7));
    proof {
        lemma_edges_span_whole(300, 0, 0, 0, 0, 265);
    }
    let o = s.add_object(ObjectDesc::Quad {
        q: Rvec3::whole(123, 554, 147), u: Rvec3::whole(300, 0, 0), v: Rvec3::whole(0, 0, 265), material: light,
    });
    s.add(o);

    let center1 = Rvec3::whole(400, 400, 200);
    let center2 = center1.add(Rvec3::whole(30, 0, 0));
    let moving = s.lambertian(Rvec3::frac(7, 3, 1, 10));
    let o = s.add_object(ObjectDesc::MovingSphere { center1, center2, radius: Fixed::whole(50), material: moving });
    s.add(o);

    let glass = s.add_material(MaterialDesc::Dielectric { ir: Fixed::frac(15, 10) });
    let o = s.add_object(ObjectDesc::Sphere { center: Rvec3::whole(260, 150, 45), radius: Fixed::whole(50), material: glass });
    s.add(o);

    let steel = s.metal(Rvec3::frac(8, 8, 9, 10), Fixed::whole(1));
    let o = s.add_object(ObjectDesc::Sphere { center: Rvec3::whole(0, 150, 145), radius: Fixed::whole(50), material: steel });
    s.add(o);

    let glass = s.add_material(MaterialDesc::Dielectric { ir: Fixed::frac(15, 10) });
    let boundary = s.add_object(ObjectDesc::Sphere { center: Rvec3::whole(360, 150, 145), radius: Fixed::whole(70), material: glass });
    s.add(boundary);
    let o = s.constant_medium(boundary, Fixed::frac(2, 10), Rvec3::frac(2, 4, 9, 10));
    s.add(o);

    let glass = s.add_material(MaterialDesc::Dielectric { ir: Fixed::frac(15, 10) });
    let boundary = s.add_object(ObjectDesc::Sphere { center: Rvec3::new(), radius: Fixed::whole(5000), material: glass });
    let o = s.constant_medium(boundary, Fixed::frac(1, 10000), Rvec3::whole(1, 1, 1));
    s.add(o);

    let earth = s.add_texture(TextureDesc::Image { file: "earthmap.jpg".to_owned() });
    let emat = s.add_material(MaterialDesc::Lambertian { texture: earth });
    let o = s.add_object(ObjectDesc::Sphere { center: Rvec3::whole(400, 200, 400), radius: Fixed::whole(100), material: emat });
    s.add(o);

    let pertext = s.add_texture(TextureDesc::Noise { scale: Fixed::frac(1, 10) });
    let marble = s.add_material(MaterialDesc::Lambertian { texture: pertext });
    let o = s.add_object(ObjectDesc::Sphere { center: Rvec3::whole(220, 280, 300), radius: Fixed::whole(80), material: marble });
    s.add(o);
    let ghost before_cluster = s.objects@;
    assert(before_cluster.subrange(2801, 2811) =~= final_features());
    assert(before_cluster.subrange(0, 2801) =~= after_boxes);

    let white = s.lambertian(Rvec3::frac(73, 73, 73, 100));
    let boxes2 = sphere_cluster(&mut s, centers, white);
    let turned = s.add_object(ObjectDesc::RotateY { object: boxes2, angle: Fixed::whole(15) });
    let moved = s.add_object(ObjectDesc::Translate { object: turned, offset: Rvec3::whole(-100, 270, 395) });
    s.add(moved);

    s.camera = Camera {
        aspect_w: 1,
        aspect_h: 1,
        image_width,
        samples_per_pixel,
        max_depth,
        vfov: Fixed::whole(40),
        lookfrom: Rvec3::whole(478, 278, -600),
        lookat: Rvec3::whole(278, 278, 0),
        vup: Rvec3::whole(0, 1, 0),
        defocus_angle: Fixed::zero(),
        focus_dist: Fixed::whole(10),
        background: Background::Solid { color: Rvec3::new() },
    };
    proof {
        assert forall|i: int| 0 <= i < 2811 implies #[trigger] s.objects@[i] == before_cluster[i] by {
            assert(s.objects@.subrange(0, 3811)[i] == s.objects@[i]);
        }
        assert(s.objects@.subrange(0, 2801) =~= after_boxes);
        lemma_boxes_kept(after_boxes, s.objects@, heights@, 0);
        assert(s.objects@.subrange(2801, 2811) =~= final_features());
        assert(s.objects@.subrange(2811, 3811) =~= cluster_spheres(centers@, 11));
        assert(s.world@ =~= seq![2800usize, 2801, 2802, 2803, 2804, 2805, 2806, 2808, 2809, 2810, 3813]);
        assert(s.materials@ =~= final_materials());
    }
    s
}

/// Heights of the ground boxes, each drawn from `[1, 101)`.
fn draw_heights(rng: &mut StdRng) -> (r: Vec<Fixed>)
    ensures
        heights_ok(r@),
{
    let mut r: Vec<Fixed> = Vec::new();
    while r.len() < BOXES_PER_SIDE * BOXES_PER_SIDE
        invariant
            r@.len() <= 400,
            forall|k: int| 0 <= k < r@.len() ==> SCALE <= #[trigger] r@[k].units < 101 * SCALE,
        decreases 400 - r@.len(),
    {
        r.push(random_range(rng, Fixed::whole(1), Fixed::whole(101)));
    }
    r
}

/// Centers of the cluster, each coordinate drawn from `[0, 165)`.
fn draw_centers(rng: &mut StdRng) -> (r: Vec<Rvec3>)
    ensures
        centers_ok(r@),
{
    let mut r: Vec<Rvec3> = Vec::new();
    while r.len() < CLUSTER_SIZE
        invariant
            r@.len() <= CLUSTER_SIZE,
            forall|k: int|
                0 <= k < r@.len() ==> {
                    &&& 0 <= #[trigger] r@[k].x.units < 165 * SCALE
                    &&& 0 <= r@[k].y.units < 165 * SCALE
                    &&& 0 <= r@[k].z.units < 165 * SCALE
                },
        decreases CLUSTER_SIZE - r@.len(),
    {
        let hi = Fixed::whole(165);
        let c = random_vec_range(rng, Fixed::zero(), hi);
        assert(hi.units == 165 * SCALE);
        r.push(c);
    }
    r
}

/// The showcase scene: a field of 400 boxes of random height, a square
/// light, a moving sphere, glass, metal, smoke, the earth, marble, and a
/// turned cluster of 1000 small white spheres at random spots.
pub fn final_scene(rng: &mut StdRng, image_width: i32, samples_per_pixel: i32, max_depth: i32) -> (r: Scene)
    requires
        image_width >= 1,
        samples_per_pixel >= 1,
        max_depth >= 0,
    ensures
        exists|hs: Seq<Fixed>, cs: Seq<Rvec3>|
            heights_ok(hs) && centers_ok(cs) && #[trigger] final_scene_ok(
                r,
                hs,
                cs,
                image_width,
                samples_per_pixel,
                max_depth,
            ),
{
    let heights = draw_heights(rng);
    let centers = draw_centers(rng);
    let r = final_scene_with(&heights, &centers, image_width, samples_per_pixel, max_depth);
    assert(heights_ok(heights@) && centers_ok(centers@) && final_scene_ok(
        r,
        heights@,
        centers@,
        image_width,
        samples_per_pixel,
        max_depth,
    ));
    r
}

} // verus!
