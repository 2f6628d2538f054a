//! The scenes this renderer ships with, as descriptions.
use vstd::prelude::*;
use crate::fixed::Fixed;
use crate::vec3::{Rvec3, Color, whole3, frac3, bounded};
use crate::camera::{Camera, Background};
use crate::scene::{lemma_edges_span_whole, Scene, TextureDesc, MaterialDesc, ObjectDesc, box_sides, is_list, span};

verus! {

/// The light blue used as a constant background by the daylight scenes.
pub open spec fn sky_blue() -> Color {
    frac3(70, 80, 100, 100)
}

/// The camera settings shared by the scenes: vertical up along y, no
/// defocus blur, focus at distance 10.
pub open spec fn camera_of(
    aspect_w: i32,
    aspect_h: i32,
    image_width: i32,
    samples_per_pixel: i32,
    vfov: int,
    lookfrom: Rvec3,
    lookat: Rvec3,
    background: Color,
) -> Camera {
    Camera {
        aspect_w,
        aspect_h,
        image_width,
        samples_per_pixel,
        max_depth: 50,
        vfov: Fixed::spec_whole(vfov),
        lookfrom,
        lookat,
        vup: whole3(0, 1, 0),
        defocus_angle: Fixed::spec_whole(0),
        focus_dist: Fixed::spec_whole(10),
        background: Background::Solid { color: background },
    }
}

/// Sets the camera fields that `camera_of` names.
fn set_camera(
    s: &mut Scene,
    aspect_w: i32,
    aspect_h: i32,
    image_width: i32,
    samples_per_pixel: i32,
    vfov: i32,
    lookfrom: Rvec3,
    lookat: Rvec3,
    background: Color,
)
    requires
        old(s).wf(),
        aspect_w >= 1,
        aspect_h >= 1,
        image_width >= 1,
        samples_per_pixel >= 1,
    ensures
        final(s).wf(),
        final(s).camera == camera_of(
            aspect_w,
            aspect_h,
            image_width,
            samples_per_pixel,
            vfov as int,
            lookfrom,
            lookat,
            background,
        ),
        final(s).textures@ == old(s).textures@,
        final(s).materials@ == old(s).materials@,
        final(s).objects@ == old(s).objects@,
        final(s).world@ == old(s).world@,
{
    s.camera = Camera {
        aspect_w,
        aspect_h,
        image_width,
        samples_per_pixel,
        max_depth: 50,
        vfov: Fixed::whole(vfov),
        lookfrom,
        lookat,
        vup: Rvec3::whole(0, 1, 0),
        defocus_angle: Fixed::zero(),
        focus_dist: Fixed::whole(10),
        background: Background::Solid { color: background },
    };
}

/// Two large checkered spheres touching at the origin.
pub fn two_spheres() -> (r: Scene)
    ensures
        r.wf(),
        r.textures@ == seq![
            TextureDesc::SolidColor { color: frac3(2, 3, 1, 10) },
            TextureDesc::SolidColor { color: frac3(9, 9, 9, 10) },
            TextureDesc::Checker { scale: Fixed::spec_frac(32, 100), even: 0, odd: 1 },
        ],
        r.materials@ == seq![
            MaterialDesc::Lambertian { texture: 2 },
            MaterialDesc::Lambertian { texture: 2 },
        ],
        r.objects@ == seq![
            ObjectDesc::Sphere { center: whole3(0, -10, 0), radius: Fixed::spec_whole(10), material: 0 },
            ObjectDesc::Sphere { center: whole3(0, 10, 0), radius: Fixed::spec_whole(10), material: 1 },
        ],
        r.world@ == seq![0usize, 1],
        r.camera == camera_of(16, 9, 400, 100, 20, whole3(13, 2, 3), whole3(0, 0, 0), sky_blue()),
{
    let mut s = Scene::new();
    let checker = s.checker(Fixed::frac(32, 100), Rvec3::frac(2, 3, 1, 10), Rvec3::frac(9, 9, 9, 10));
    let m0 = s.add_material(MaterialDesc::Lambertian { texture: checker });
    let o0 = s.add_object(
        ObjectDesc::Sphere { center: Rvec3::whole(0, -10, 0), radius: Fixed::whole(10), material: m0 },
    );
    s.add(o0);
    let m1 = s.add_material(MaterialDesc::Lambertian { texture: checker });
    let o1 = s.add_object(
        ObjectDesc::Sphere { center: Rvec3::whole(0, 10, 0), radius: Fixed::whole(10), material: m1 },
    );
    s.add(o1);
    set_camera(&mut s, 16, 9, 400, 100, 20, Rvec3::whole(13, 2, 3), Rvec3::new(), Rvec3::frac(70, 80, 100, 100));
    assert(s.textures@ =~= seq![
        TextureDesc::SolidColor { color: frac3(2, 3, 1, 10) },
        TextureDesc::SolidColor { color: frac3(9, 9, 9, 10) },
        TextureDesc::Checker { scale: Fixed::spec_frac(32, 100), even: 0, odd: 1 },
    ]);
    assert(s.materials@ =~= seq![
        MaterialDesc::Lambertian { texture: 2 },
        MaterialDesc::Lambertian { texture: 2 },
    ]);
    assert(s.objects@ =~= seq![
        ObjectDesc::Sphere { center: whole3(0, -10, 0), radius: Fixed::spec_whole(10), material: 0 },
        ObjectDesc::Sphere { center: whole3(0, 10, 0), radius: Fixed::spec_whole(10), material: 1 },
    ]);
    assert(s.world@ =~= seq![0usize, 1]);
    s
}

/// The earth, image-textured, alone at the origin.
pub fn earth() -> (r: Scene)
    ensures
        r.wf(),
        r.textures@.len() == 1,
        r.textures@[0] matches TextureDesc::Image { file } && file@ == "earthmap.jpg"@,
        r.materials@ == seq![MaterialDesc::Lambertian { texture: 0 }],
        r.objects@ == seq![
            ObjectDesc::Sphere { center: whole3(0, 0, 0), radius: Fixed::spec_whole(2), material: 0 },
        ],
        r.world@ == seq![0usize],
        r.camera == camera_of(16, 9, 1200, 1000, 20, whole3(0, 0, 12), whole3(0, 0, 0), sky_blue()),
{
    let mut s = Scene::new();
    let t = s.add_texture(TextureDesc::Image { file: "earthmap.jpg".to_owned() });
    let m = s.add_material(MaterialDesc::Lambertian { texture: t });
    let o = s.add_object(
        ObjectDesc::Sphere { center: Rvec3::new(), radius: Fixed::whole(2), material: m },
    );
    s.add(o);
    set_camera(&mut s, 16, 9, 1200, 1000, 20, Rvec3::whole(0, 0, 12), Rvec3::new(), Rvec3::frac(70, 80, 100, 100));
    assert(s.materials@ =~= seq![MaterialDesc::Lambertian { texture: 0 }]);
    assert(s.objects@ =~= seq![
        ObjectDesc::Sphere { center: whole3(0, 0, 0), radius: Fixed::spec_whole(2), material: 0 },
    ]);
    assert(s.world@ =~= seq![0usize]);
    s
}

/// A ground sphere and a small sphere, both in Perlin marble.
pub fn two_perlin_spheres() -> (r: Scene)
    ensures
        r.wf(),
        r.textures@ == seq![TextureDesc::Noise { scale: Fixed::spec_whole(4) }],
        r.materials@ == seq![
            MaterialDesc::Lambertian { texture: 0 },
            MaterialDesc::Lambertian { texture: 0 },
        ],
        r.objects@ == seq![
            ObjectDesc::Sphere { center: whole3(0, -1000, 0), radius: Fixed::spec_whole(1000), material: 0 },
            ObjectDesc::Sphere { center: whole3(0, 2, 0), radius: Fixed::spec_whole(2), material: 1 },
        ],
        r.world@ == seq![0usize, 1],
        r.camera == camera_of(16, 9, 400, 100, 20, whole3(13, 2, 3), whole3(0, 0, 0), sky_blue()),
{
    let mut s = Scene::new();
    let t = s.add_texture(TextureDesc::Noise { scale: Fixed::whole(4) });
    let m0 = s.add_material(MaterialDesc::Lambertian { texture: t });
    let o0 = s.add_object(
        ObjectDesc::Sphere { center: Rvec3::whole(0, -1000, 0), radius: Fixed::whole(1000), material: m0 },
    );
    s.add(o0);
    let m1 = s.add_material(MaterialDesc::Lambertian { texture: t });
    let o1 = s.add_object(
        ObjectDesc::Sphere { center: Rvec3::whole(0, 2, 0), radius: Fixed::whole(2), material: m1 },
    );
    s.add(o1);
    set_camera(&mut s, 16, 9, 400, 100, 20, Rvec3::whole(13, 2, 3), Rvec3::new(), Rvec3::frac(70, 80, 100, 100));
    assert(s.textures@ =~= seq![TextureDesc::Noise { scale: Fixed::spec_whole(4) }]);
    assert(s.materials@ =~= seq![
        MaterialDesc::Lambertian { texture: 0 },
        MaterialDesc::Lambertian { texture: 0 },
    ]);
    assert(s.objects@ =~= seq![
        ObjectDesc::Sphere { center: whole3(0, -1000, 0), radius: Fixed::spec_whole(1000), material: 0 },
        ObjectDesc::Sphere { center: whole3(0, 2, 0), radius: Fixed::spec_whole(2), material: 1 },
    ]);
    assert(s.world@ =~= seq![0usize, 1]);
    s
}

/// Five colored quads facing the camera: left, back, right, upper, lower.
pub fn quads() -> (r: Scene)
    ensures
        r.wf(),
        r.textures@ == seq![
            TextureDesc::SolidColor { color: frac3(10, 2, 2, 10) },
            TextureDesc::SolidColor { color: frac3(2, 10, 2, 10) },
            TextureDesc::SolidColor { color: frac3(2, 2, 10, 10) },
            TextureDesc::SolidColor { color: frac3(10, 5, 0, 10) },
            TextureDesc::SolidColor { color: frac3(2, 8, 8, 10) },
        ],
        r.materials@ == seq![
            MaterialDesc::Lambertian { texture: 0 },
            MaterialDesc::Lambertian { texture: 1 },
            MaterialDesc::Lambertian { texture: 2 },
            MaterialDesc::Lambertian { texture: 3 },
            MaterialDesc::Lambertian { texture: 4 },
        ],
        r.objects@ == seq![
            ObjectDesc::Quad { q: whole3(-3, -2, 5), u: whole3(0, 0, -4), v: whole3(0, 4, 0), material: 0 },
            ObjectDesc::Quad { q: whole3(-2, -2, 0), u: whole3(4, 0, 0), v: whole3(0, 4, 0), material: 1 },
            ObjectDesc::Quad { q: whole3(3, -2, 1), u: whole3(0, 0, 4), v: whole3(0, 4, 0), material: 2 },
            ObjectDesc::Quad { q: whole3(-2, 3, 1), u: whole3(4, 0, 0), v: whole3(0, 0, 4), material: 3 },
            ObjectDesc::Quad { q: whole3(-2, -3, 5), u: whole3(4, 0, 0), v: whole3(0, 0, -4), material: 4 },
        ],
        r.world@ == seq![0usize, 1, 2, 3, 4],
        r.camera == camera_of(1, 1, 400, 100, 80, whole3(0, 0, 9), whole3(0, 0, 0), sky_blue()),
{
    let mut s = Scene::new();
    let left_red = s.lambertian(Rvec3::frac(10, 2, 2, 10));
    let back_green = s.lambertian(Rvec3::frac(2, 10, 2, 10));
    let right_blue = s.lambertian(Rvec3::frac(2, 2, 10, 10));
    let upper_orange = s.lambertian(Rvec3::frac(10, 5, 0, 10));
    let lower_teal = s.lambertian(Rvec3::frac(2, 8, 8, 10));
    proof {

        lemma_edges_span_whole(0, 0, -4, 0, 4, 0);

    }
    let q0 = s.add_object(ObjectDesc::Quad {
        q: Rvec3::whole(-3, -2, 5), u: Rvec3::whole(0, 0, -4), v: Rvec3::whole(0, 4, 0), material: left_red,
    });
    s.add(q0);
    proof {

        lemma_edges_span_whole(4, 0, 0, 0, 4, 0);

    }
    let q1 = s.add_object(ObjectDesc::Quad {
        q: Rvec3::whole(-2, -2, 0), u: Rvec3::whole(4, 0, 0), v: Rvec3::whole(0, 4, 0), material: back_green,
    });
    s.add(q1);
    proof {

        lemma_edges_span_whole(0, 0, 4, 0, 4, 0);

    }
    let q2 = s.add_object(ObjectDesc::Quad {
        q: Rvec3::whole(3, -2, 1), u: Rvec3::whole(0, 0, 4), v: Rvec3::whole(0, 4, 0), material: right_blue,
    });
    s.add(q2);
    proof {

        lemma_edges_span_whole(4, 0, 0, 0, 0, 4);

    }
    let q3 = s.add_object(ObjectDesc::Quad {
        q: Rvec3::whole(-2, 3, 1), u: Rvec3::whole(4, 0, 0), v: Rvec3::whole(0, 0, 4), material: upper_orange,
    });
    s.add(q3);
    proof {

        lemma_edges_span_whole(4, 0, 0, 0, 0, -4);

    }
    let q4 = s.add_object(ObjectDesc::Quad {
        q: Rvec3::whole(-2, -3, 5), u: Rvec3::whole(4, 0, 0), v: Rvec3::whole(0, 0, -4), material: lower_teal,
    });
    s.add(q4);
    set_camera(&mut s, 1, 1, 400, 100, 80, Rvec3::whole(0, 0, 9), Rvec3::new(), Rvec3::frac(70, 80, 100, 100));
    assert(s.textures@ =~= seq![
        TextureDesc::SolidColor { color: frac3(10, 2, 2, 10) },
        TextureDesc::SolidColor { color: frac3(2, 10, 2, 10) },
        TextureDesc::SolidColor { color: frac3(2, 2, 10, 10) },
        TextureDesc::SolidColor { color: frac3(10, 5, 0, 10) },
        TextureDesc::SolidColor { color: frac3(2, 8, 8, 10) },
    ]);
    assert(s.materials@ =~= seq![
        MaterialDesc::Lambertian { texture: 0 },
        MaterialDesc::Lambertian { texture: 1 },
        MaterialDesc::Lambertian { texture: 2 },
        MaterialDesc::Lambertian { texture: 3 },
        MaterialDesc::Lambertian { texture: 4 },
    ]);
    assert(s.objects@ =~= seq![
        ObjectDesc::Quad { q: whole3(-3, -2, 5), u: whole3(0, 0, -4), v: whole3(0, 4, 0), material: 0 },
        ObjectDesc::Quad { q: whole3(-2, -2, 0), u: whole3(4, 0, 0), v: whole3(0, 4, 0), material: 1 },
        ObjectDesc::Quad { q: whole3(3, -2, 1), u: whole3(0, 0, 4), v: whole3(0, 4, 0), material: 2 },
        ObjectDesc::Quad { q: whole3(-2, 3, 1), u: whole3(4, 0, 0), v: whole3(0, 0, 4), material: 3 },
        ObjectDesc::Quad { q: whole3(-2, -3, 5), u: whole3(4, 0, 0), v: whole3(0, 0, -4), material: 4 },
    ]);
    assert(s.world@ =~= seq![0usize, 1, 2, 3, 4]);
    s
}

/// Two marble spheres lit by a square light and a spherical light, on a
/// black background.
pub fn simple_light() -> (r: Scene)
    ensures
        r.wf(),
        r.textures@ == seq![
            TextureDesc::Noise { scale: Fixed::spec_whole(4) },
            TextureDesc::SolidColor { color: whole3(4, 4, 4) },
        ],
        r.materials@ == seq![
            MaterialDesc::Lambertian { texture: 0 },
            MaterialDesc::Lambertian { texture: 0 },
            MaterialDesc::DiffuseLight { texture: 1 },
        ],
        r.objects@ == seq![
            ObjectDesc::Sphere { center: whole3(0, -1000, 0), radius: Fixed::spec_whole(1000), material: 0 },
            ObjectDesc::Sphere { center: whole3(0, 2, 0), radius: Fixed::spec_whole(2), material: 1 },
            ObjectDesc::Quad { q: whole3(3, 1, -2), u: whole3(2, 0, 0), v: whole3(0, 2, 0), material: 2 },
            ObjectDesc::Sphere { center: whole3(0, 7, 0), radius: Fixed::spec_whole(2), material: 2 },
        ],
        r.world@ == seq![0usize, 1, 2, 3],
        r.camera == camera_of(16, 9, 400, 100, 20, whole3(26, 3, 6), whole3(0, 2, 0), whole3(0, 0, 0)),
{
    let mut s = Scene::new();
    let t = s.add_texture(TextureDesc::Noise { scale: Fixed::whole(4) });
    let m0 = s.add_material(MaterialDesc::Lambertian { texture: t });
    let o0 = s.add_object(
        ObjectDesc::Sphere { center: Rvec3::whole(0, -1000, 0), radius: Fixed::whole(1000), material: m0 },
    );
    s.add(o0);
    let m1 = s.add_material(MaterialDesc::Lambertian { texture: t });
    let o1 = s.add_object(
        ObjectDesc::Sphere { center: Rvec3::whole(0, 2, 0), radius: Fixed::whole(2), material: m1 },
    );
    s.add(o1);
    let light = s.diffuse_light(Rvec3::whole(4, 4, 4));
    proof {

        lemma_edges_span_whole(2, 0, 0, 0, 2, 0);

    }
    let o2 = s.add_object(ObjectDesc::Quad {
        q: Rvec3::whole(3, 1, -2), u: Rvec3::whole(2, 0, 0), v: Rvec3::whole(0, 2, 0), material: light,
    });
    s.add(o2);
    let o3 = s.add_object(
        ObjectDesc::Sphere { center: Rvec3::whole(0, 7, 0), radius: Fixed::whole(2), material: light },
    );
    s.add(o3);
    set_camera(&mut s, 16, 9, 400, 100, 20, Rvec3::whole(26, 3, 6), Rvec3::whole(0, 2, 0), Rvec3::new());
    assert(s.textures@ =~= seq![
        TextureDesc::Noise { scale: Fixed::spec_whole(4) },
        TextureDesc::SolidColor { color: whole3(4, 4, 4) },
    ]);
    assert(s.materials@ =~= seq![
        MaterialDesc::Lambertian { texture: 0 },
        MaterialDesc::Lambertian { texture: 0 },
        MaterialDesc::DiffuseLight { texture: 1 },
    ]);
    assert(s.objects@ =~= seq![
        ObjectDesc::Sphere { center: whole3(0, -1000, 0), radius: Fixed::spec_whole(1000), material: 0 },
        ObjectDesc::Sphere { center: whole3(0, 2, 0), radius: Fixed::spec_whole(2), material: 1 },
        ObjectDesc::Quad { q: whole3(3, 1, -2), u: whole3(2, 0, 0), v: whole3(0, 2, 0), material: 2 },
        ObjectDesc::Sphere { center: whole3(0, 7, 0), radius: Fixed::spec_whole(2), material: 2 },
    ]);
    assert(s.world@ =~= seq![0usize, 1, 2, 3]);
    s
}

/// Textures of the Cornell room: red, white, green, and the light's color.
pub open spec fn cornell_textures(light: Color) -> Seq<TextureDesc> {
    seq![
        TextureDesc::SolidColor { color: frac3(65, 5, 5, 100) },
        TextureDesc::SolidColor { color: frac3(73, 73, 73, 100) },
        TextureDesc::SolidColor { color: frac3(12, 45, 15, 100) },
        TextureDesc::SolidColor { color: light },
    ]
}

/// Materials of the Cornell room: red, white and green walls, and the light.
pub open spec fn cornell_materials() -> Seq<MaterialDesc> {
    seq![
        MaterialDesc::Lambertian { texture: 0 },
        MaterialDesc::Lambertian { texture: 1 },
        MaterialDesc::Lambertian { texture: 2 },
        MaterialDesc::DiffuseLight { texture: 3 },
    ]
}

/// The walls of the Cornell room: green, red, the light, then three white.
pub open spec fn cornell_walls() -> Seq<ObjectDesc> {
    seq![
        ObjectDesc::Quad { q: whole3(555, 0, 0), u: whole3(0, 555, 0), v: whole3(0, 0, 555), material: 2 },
        ObjectDesc::Quad { q: whole3(0, 0, 0), u: whole3(0, 555, 0), v: whole3(0, 0, 555), material: 0 },
        ObjectDesc::Quad { q: whole3(343, 554, 332), u: whole3(-130, 0, 0), v: whole3(0, 0, -105), material: 3 },
        ObjectDesc::Quad { q: whole3(0, 0, 0), u: whole3(555, 0, 0), v: whole3(0, 0, 555), material: 1 },
        ObjectDesc::Quad { q: whole3(555, 555, 555), u: whole3(-555, 0, 0), v: whole3(0, 0, -555), material: 1 },
        ObjectDesc::Quad { q: whole3(0, 0, 555), u: whole3(555, 0, 0), v: whole3(0, 555, 0), material: 1 },
    ]
}

/// The view into the Cornell room.
pub open spec fn cornell_camera() -> Camera {
    camera_of(1, 1, 600, 200, 40, whole3(278, 278, -800), whole3(278, 278, 0), whole3(0, 0, 0))
}

/// Objects `n` to `n + 8` of `objs` are a box from the origin to `size` in
/// `mat`, its list, that list turned by `angle` degrees about y, and the
/// turned box moved by `offset`.
pub open spec fn turned_box_at(
    objs: Seq<ObjectDesc>,
    n: int,
    size: Rvec3,
    angle: int,
    offset: Rvec3,
    mat: usize,
) -> bool {
    &&& objs.subrange(n, n + 6) == box_sides(whole3(0, 0, 0), size, mat)
    &&& is_list(objs[n + 6], span(n, 6))
    &&& objs[n + 7] == ObjectDesc::RotateY { object: (n + 6) as usize, angle: Fixed::spec_whole(angle) }
    &&& objs[n + 8] == ObjectDesc::Translate { object: (n + 7) as usize, offset }
}

/// The empty Cornell room: five walls and a light of color `light`.
fn cornell_room(light: Color) -> (r: Scene)
    ensures
        r.wf(),
        r.textures@ == cornell_textures(light),
        r.materials@ == cornell_materials(),
        r.objects@ == cornell_walls(),
        r.world@ == span(0, 6),
        r.camera == cornell_camera(),
{
    let mut s = Scene::new();
    let red = s.lambertian(Rvec3::frac(65, 5, 5, 100));
    let white = s.lambertian(Rvec3::frac(73, 73, 73, 100));
    let green = s.lambertian(Rvec3::frac(12, 45, 15, 100));
    let lamp = s.diffuse_light(light);
    proof {
        lemma_edges_span_whole(0, 555, 0, 0, 0, 555);
    }
    let w0 = s.add_object(ObjectDesc::Quad {
        q: Rvec3::whole(555, 0, 0), u: Rvec3::whole(0, 555, 0), v: Rvec3::whole(0, 0, 555), material: green,
    });
    s.add(w0);
    let w1 = s.add_object(ObjectDesc::Quad {
        q: Rvec3::new(), u: Rvec3::whole(0, 555, 0), v: Rvec3::whole(0, 0, 555), material: red,
    });
    s.add(w1);
    proof {
        lemma_edges_span_whole(-130, 0, 0, 0, 0, -105);
    }
    let w2 = s.add_object(ObjectDesc::Quad {
        q: Rvec3::whole(343, 554, 332), u: Rvec3::whole(-130, 0, 0), v: Rvec3::whole(0, 0, -105), material: lamp,
    });
    s.add(w2);
    proof {
        lemma_edges_span_whole(555, 0, 0, 0, 0, 555);
    }
    let w3 = s.add_object(ObjectDesc::Quad {
        q: Rvec3::new(), u: Rvec3::whole(555, 0, 0), v: Rvec3::whole(0, 0, 555), material: white,
    });
    s.add(w3);
    proof {
        lemma_edges_span_whole(-555, 0, 0, 0, 0, -555);
    }
    let w4 = s.add_object(ObjectDesc::Quad {
        q: Rvec3::whole(555, 555, 555), u: Rvec3::whole(-555, 0, 0), v: Rvec3::whole(0, 0, -555), material: white,
    });
    s.add(w4);
    proof {
        lemma_edges_span_whole(555, 0, 0, 0, 555, 0);
    }
    let w5 = s.add_object(ObjectDesc::Quad {
        q: Rvec3::whole(0, 0, 555), u: Rvec3::whole(555, 0, 0), v: Rvec3::whole(0, 555, 0), material: white,
    });
    s.add(w5);
    set_camera(&mut s, 1, 1, 600, 200, 40, Rvec3::whole(278, 278, -800), Rvec3::whole(278, 278, 0), Rvec3::new());
    assert(s.textures@ =~= cornell_textures(light));
    assert(s.materials@ =~= cornell_materials());
    assert(s.objects@ =~= cornell_walls());
    assert(s.world@ =~= span(0, 6));
    s
}

/// Adds a box from the origin to `size`, turned by `angle` degrees about y
/// and moved by `offset`; returns the index of the moved box.
fn turned_box(s: &mut Scene, size: Rvec3, angle: i32, offset: Rvec3, mat: usize) -> (r: usize)
    requires
        old(s).wf(),
        old(s).objects@.len() + 9 < usize::MAX,
        old(s).textures@.len() + 9 < usize::MAX,
        old(s).materials@.len() + 9 < usize::MAX,
        mat < old(s).materials@.len(),
        bounded(size),
        size.x.units != 0,
        size.y.units != 0,
        size.z.units != 0,
    ensures
        final(s).wf(),
        r == old(s).objects@.len() + 8,
        final(s).objects@.len() == old(s).objects@.len() + 9,
        final(s).objects@.subrange(0, old(s).objects@.len() as int) == old(s).objects@,
        turned_box_at(final(s).objects@, old(s).objects@.len() as int, size, angle as int, offset, mat),
        final(s).textures@ == old(s).textures@,
        final(s).materials@ == old(s).materials@,
        final(s).world@ == old(s).world@,
        final(s).camera == old(s).camera,
{
    let ghost n = old(s).objects@.len() as int;
    let b = s.box_new(Rvec3::new(), size, mat);
    let ghost after_box = s.objects@;
    let t = s.add_object(ObjectDesc::RotateY { object: b, angle: Fixed::whole(angle) });
    let r = s.add_object(ObjectDesc::Translate { object: t, offset });
    assert(s.objects@.subrange(0, n) =~= after_box.subrange(0, n));
    assert(s.objects@.subrange(n, n + 6) =~= after_box.subrange(n, n + 6));
    r
}

/// The Cornell room with two white boxes, one tall and one short.
pub fn cornell_box() -> (r: Scene)
    ensures
        r.wf(),
        r.textures@ == cornell_textures(whole3(15, 15, 15)),
        r.materials@ == cornell_materials(),
        r.objects@.len() == 24,
        r.objects@.subrange(0, 6) == cornell_walls(),
        turned_box_at(r.objects@, 6, whole3(165, 330, 165), 15, whole3(265, 0, 295), 1),
        turned_box_at(r.objects@, 15, whole3(165, 165, 165), -18, whole3(130, 0, 65), 1),
        r.world@ == seq![0usize, 1, 2, 3, 4, 5, 14, 23],
        r.camera == cornell_camera(),
{
    let mut s = cornell_room(Rvec3::whole(15, 15, 15));
    let white: usize = 1;
    let box1 = turned_box(&mut s, Rvec3::whole(165, 330, 165), 15, Rvec3::whole(265, 0, 295), white);
    s.add(box1);
    let ghost after1 = s.objects@;
    let box2 = turned_box(&mut s, Rvec3::whole(165, 165, 165), -18, Rvec3::whole(130, 0, 65), white);
    s.add(box2);
    assert(s.objects@.subrange(0, 6) =~= after1.subrange(0, 6));
    assert(s.objects@.subrange(6, 12) =~= after1.subrange(6, 12));
    assert(s.world@ =~= seq![0usize, 1, 2, 3, 4, 5, 14, 23]);
    s
}

/// The Cornell room with the two boxes made of smoke: a black one and a
/// white one, of density 0.01.
pub fn cornell_smoke() -> (r: Scene)
    ensures
        r.wf(),
        r.textures@ == cornell_textures(whole3(7, 7, 7)).push(
            TextureDesc::SolidColor { color: whole3(0, 0, 0) },
        ).push(TextureDesc::SolidColor { color: whole3(1, 1, 1) }),
        r.materials@ == cornell_materials().push(MaterialDesc::Isotropic { texture: 4 }).push(
            MaterialDesc::Isotropic { texture: 5 },
        ),
        r.objects@.len() == 26,
        r.objects@.subrange(0, 6) == cornell_walls(),
        turned_box_at(r.objects@, 6, whole3(165, 330, 165), 15, whole3(265, 0, 295), 1),
        turned_box_at(r.objects@, 15, whole3(165, 165, 165), -18, whole3(130, 0, 65), 1),
        r.objects@[24] == (ObjectDesc::ConstantMedium {
            boundary: 14,
            density: Fixed::spec_frac(1, 100),
            phase: 4,
        }),
        r.objects@[25] == (ObjectDesc::ConstantMedium {
            boundary: 23,
            density: Fixed::spec_frac(1, 100),
            phase: 5,
        }),
        r.world@ == seq![0usize, 1, 2, 3, 4, 5, 24, 25],
        r.camera == cornell_camera(),
{
    let mut s = cornell_room(Rvec3::whole(7, 7, 7));
    let white: usize = 1;
    let box1 = turned_box(&mut s, Rvec3::whole(165, 330, 165), 15, Rvec3::whole(265, 0, 295), white);
    let ghost after1 = s.objects@;
    let box2 = turned_box(&mut s, Rvec3::whole(165, 165, 165), -18, Rvec3::whole(130, 0, 65), white);
    let ghost after2 = s.objects@;
    let smoke1 = s.constant_medium(box1, Fixed::frac(1, 100), Rvec3::new());
    s.add(smoke1);
    let smoke2 = s.constant_medium(box2, Fixed::frac(1, 100), Rvec3::whole(1, 1, 1));
    s.add(smoke2);
    assert(s.objects@.subrange(0, 6) =~= after1.subrange(0, 6));
    assert(s.objects@.subrange(6, 12) =~= after1.subrange(6, 12));
    assert(s.objects@.subrange(15, 21) =~= after2.subrange(15, 21));
    assert(s.world@ =~= seq![0usize, 1, 2, 3, 4, 5, 24, 25]);
    s
}

} // verus!
