//! The scenes that place objects at random.
use vstd::prelude::*;
use rand::rngs::StdRng;
use crate::fixed::{Fixed, SCALE};
use crate::vec3::{Rvec3, Color, whole3, frac3};
use crate::camera::{Camera, Background};
use crate::scene::{Scene, TextureDesc, MaterialDesc, ObjectDesc, span};
use crate::scenes::sky_blue;
use crate::random::{random_double, random_range, random_vec, random_vec_range};

verus! {

/// The draws that decide one grid cell of `random_spheres`.
#[derive(Debug)]
pub struct CellDraws {
    /// Picks the material: diffuse below 0.8, metal below 0.95, else glass.
    pub choose: Fixed,
    /// Offsets of the center within the cell, in `[0, 0.9)`.
    pub dx: Fixed,
    pub dz: Fixed,
    /// Two colors whose product is the diffuse albedo.
    pub albedo1: Color,
    pub albedo2: Color,
    /// How far a diffuse sphere rises during the exposure, in `[0, 0.5)`.
    pub lift: Fixed,
    /// Metal albedo, each channel in `[0.5, 1)`.
    pub metal_albedo: Color,
    /// Metal fuzz, in `[0, 0.5)`.
    pub fuzz: Fixed,
}

pub open spec fn unit_color(c: Color) -> bool {
    &&& 0 <= c.x.units < SCALE
    &&& 0 <= c.y.units < SCALE
    &&& 0 <= c.z.units < SCALE
}

impl CellDraws {
    /// Each draw lies in the range it is taken from.
    pub open spec fn wf(&self) -> bool {
        &&& 0 <= self.choose.units < SCALE
        &&& 0 <= self.dx.units < 9 * SCALE / 10
        &&& 0 <= self.dz.units < 9 * SCALE / 10
        &&& unit_color(self.albedo1)
        &&& unit_color(self.albedo2)
        &&& 0 <= self.lift.units < SCALE / 2
        &&& SCALE / 2 <= self.metal_albedo.x.units < SCALE
        &&& SCALE / 2 <= self.metal_albedo.y.units < SCALE
        &&& SCALE / 2 <= self.metal_albedo.z.units < SCALE
        &&& 0 <= self.fuzz.units < SCALE / 2
    }
}

/// The center of the small sphere of cell `(a, b)`.
pub open spec fn cell_center(a: int, b: int, d: CellDraws) -> Rvec3 {
    Rvec3 {
        x: Fixed::spec_units(a * SCALE + d.dx.units),
        y: Fixed::spec_frac(2, 10),
        z: Fixed::spec_units(b * SCALE + d.dz.units),
    }
}

/// `c` is farther than 0.9 from `(4, 0.2, 0)`, where the metal sphere
/// stands.
pub open spec fn clear_of_big(c: Rvec3) -> bool {
    let dx = c.x.units - 4 * SCALE;
    let dy = c.y.units - SCALE / 5;
    let dz = c.z.units as int;
    100 * (dx * dx + dy * dy + dz * dz) > 81 * SCALE * SCALE
}

/// Channelwise product, rounded down to a unit.
pub open spec fn mul_colors(a: Color, b: Color) -> Color {
    Rvec3 {
        x: Fixed::spec_units((a.x.units * b.x.units) / (SCALE as int)),
        y: Fixed::spec_units((a.y.units * b.y.units) / (SCALE as int)),
        z: Fixed::spec_units((a.z.units * b.z.units) / (SCALE as int)),
    }
}

/// What cell `(a, b)` adds to a scene holding `ntex` textures and `nmat`
/// materials: textures, materials and objects, in order. The cell's object, if any, is also appended to the world.
pub open spec fn cell_nodes(ntex: int, nmat: int, a: int, b: int, d: CellDraws) -> (
    Seq<TextureDesc>,
    Seq<MaterialDesc>,
    Seq<ObjectDesc>,
) {
    let c = cell_center(a, b, d);
    let nt = ntex as usize;
    let nm = nmat as usize;
    let r = Fixed::spec_frac(2, 10);
    if !clear_of_big(c) {
        (seq![], seq![], seq![])
    } else if d.choose.units < 8 * SCALE / 10 {
        (
            seq![TextureDesc::SolidColor { color: mul_colors(d.albedo1, d.albedo2) }],
            seq![MaterialDesc::Lambertian { texture: nt }],
            seq![
                ObjectDesc::MovingSphere {
                    center1: c,
                    center2: Rvec3 { x: c.x, y: Fixed::spec_units(c.y.units + d.lift.units), z: c.z },
                    radius: r,
                    material: nm,
                },
            ],
        )
    } else if d.choose.units < 95 * SCALE / 100 {
        (
            seq![],
            seq![MaterialDesc::Metal { albedo: d.metal_albedo, fuzz: d.fuzz }],
            seq![ObjectDesc::Sphere { center: c, radius: r, material: nm }],
        )
    } else {
        (
            seq![],
            seq![MaterialDesc::Dielectric { ir: Fixed::spec_frac(15, 10) }],
            seq![ObjectDesc::Sphere { center: c, radius: r, material: nm }],
        )
    }
}

/// `o` is a small sphere of radius 0.2 resting at height 0.2 clear of the
/// metal sphere.
pub open spec fn small_sphere_ok(o: ObjectDesc) -> bool {
    match o {
        ObjectDesc::Sphere { center, radius, .. } => {
            &&& radius == Fixed::spec_frac(2, 10)
            &&& center.y == Fixed::spec_frac(2, 10)
            &&& clear_of_big(center)
        },
        ObjectDesc::MovingSphere { center1, radius, .. } => {
            &&& radius == Fixed::spec_frac(2, 10)
            &&& center1.y == Fixed::spec_frac(2, 10)
            &&& clear_of_big(center1)
        },
        _ => false,
    }
}

/// Tests `clear_of_big` for a center no farther than 1000 from the origin
/// along each axis.
pub fn is_clear_of_big(c: Rvec3) -> (r: bool)
    requires
        -1000 * SCALE <= c.x.units <= 1000 * SCALE,
        -1000 * SCALE <= c.y.units <= 1000 * SCALE,
        -1000 * SCALE <= c.z.units <= 1000 * SCALE,
    ensures
        r == clear_of_big(c),
{
    let dx: i128 = c.x.units as i128 - 4 * SCALE as i128;
    let dy: i128 = c.y.units as i128 - (SCALE / 5) as i128;
    let dz: i128 = c.z.units as i128;
    let bound: i128 = 1005 * SCALE as i128;
    assert(dx * dx <= bound * bound) by (nonlinear_arith)
        requires
            -bound <= dx <= bound,
    ;
    assert(dy * dy <= bound * bound) by (nonlinear_arith)
        requires
            -bound <= dy <= bound,
    ;
    assert(dz * dz <= bound * bound) by (nonlinear_arith)
        requires
            -bound <= dz <= bound,
    ;
    assert(0 <= dx * dx && 0 <= dy * dy && 0 <= dz * dz) by (nonlinear_arith);
    let s: i128 = SCALE as i128;
    100 * (dx * dx + dy * dy + dz * dz) > 81 * s * s
}

/// Fills cell `(a, b)` of the grid: a small sphere at a jittered spot,
/// unless it would touch the metal sphere, diffuse and rising, metal, or
/// glass as `d.choose` says.
pub fn random_cell(s: &mut Scene, a: i32, b: i32, d: &CellDraws)
    requires
        old(s).wf(),
        d.wf(),
        -11 <= a <= 10,
        -11 <= b <= 10,
        old(s).textures@.len() + 1 < usize::MAX,
        old(s).materials@.len() + 1 < usize::MAX,
        old(s).objects@.len() + 1 < usize::MAX,
    ensures
        final(s).wf(),
        ({
            let (t, m, o) = cell_nodes(
                old(s).textures@.len() as int,
                old(s).materials@.len() as int,
                a as int,
                b as int,
                *d,
            );
            &&& final(s).textures@ == old(s).textures@ + t
            &&& final(s).materials@ == old(s).materials@ + m
            &&& final(s).objects@ == old(s).objects@ + o
            &&& final(s).world@ == old(s).world@ + span(old(s).objects@.len() as int, o.len() as int)
        }),
        final(s).camera == old(s).camera,
{
    let ghost (t, m, o) = cell_nodes(
                old(s).textures@.len() as int,
                old(s).materials@.len() as int,
                a as int,
                b as int,
                *d,
            );
    let ghost ow = old(s).world@;
    let ghost n = old(s).objects@.len() as int;
    let center = Rvec3::new_arg(
        Fixed::whole(a).add(d.dx),
        Fixed::frac(2, 10),
        Fixed::whole(b).add(d.dz),
    );
    assert(center == cell_center(a as int, b as int, *d));
    if !is_clear_of_big(center) {
        assert(s.textures@ =~= old(s).textures@ + t);
        assert(s.materials@ =~= old(s).materials@ + m);
        assert(s.objects@ =~= old(s).objects@ + o);
        assert(s.world@ =~= ow + span(n, 0));
        return;
    }
    let radius = Fixed::frac(2, 10);
    let mat;
    let obj;
    if d.choose.units < 8 * SCALE / 10 {
        let albedo = Rvec3::new_arg(
            d.albedo1.x.mul_unit(d.albedo2.x),
            d.albedo1.y.mul_unit(d.albedo2.y),
            d.albedo1.z.mul_unit(d.albedo2.z),
        );
        mat = s.lambertian(albedo);
        let center2 = Rvec3::new_arg(center.x, center.y.add(d.lift), center.z);
        obj = s.add_object(ObjectDesc::MovingSphere { center1: center, center2, radius, material: mat });
    } else if d.choose.units < 95 * SCALE / 100 {
        mat = s.metal(d.metal_albedo, d.fuzz);
        obj = s.add_object(ObjectDesc::Sphere { center, radius, material: mat });
    } else {
        mat = s.add_material(MaterialDesc::Dielectric { ir: Fixed::frac(15, 10) });
        obj = s.add_object(ObjectDesc::Sphere { center, radius, material: mat });
    }
    s.add(obj);
    assert(s.textures@ =~= old(s).textures@ + t);
    assert(s.materials@ =~= old(s).materials@ + m);
    assert(s.objects@ =~= old(s).objects@ + o);
    assert(s.world@ =~= ow + span(n, 1));
}

/// Draws what one cell of `random_spheres` needs.
pub fn draw_cell(rng: &mut StdRng) -> (d: CellDraws)
    ensures
        d.wf(),
{
    let choose = random_double(rng);
    let dx = random_range(rng, Fixed::zero(), Fixed::frac(9, 10));
    let dz = random_range(rng, Fixed::zero(), Fixed::frac(9, 10));
    let albedo1 = random_vec(rng);
    let albedo2 = random_vec(rng);
    let lift = random_range(rng, Fixed::zero(), Fixed::frac(5, 10));
    let metal_albedo = random_vec_range(rng, Fixed::frac(5, 10), Fixed::whole(1));
    let fuzz = random_range(rng, Fixed::zero(), Fixed::frac(5, 10));
    CellDraws { choose, dx, dz, albedo1, albedo2, lift, metal_albedo, fuzz }
}

/// The camera of `random_spheres`: a wide view with a slight defocus blur.
pub open spec fn random_spheres_camera() -> Camera {
    Camera {
        aspect_w: 16,
        aspect_h: 9,
        image_width: 400,
        samples_per_pixel: 10,
        max_depth: 10,
        vfov: Fixed::spec_whole(20),
        lookfrom: whole3(13, 2, 3),
        lookat: whole3(0, 0, 0),
        vup: whole3(0, 1, 0),
        defocus_angle: Fixed::spec_frac(6, 10),
        focus_dist: Fixed::spec_whole(10),
        background: Background::Solid { color: sky_blue() },
    }
}

/// The state of `random_spheres` after `done` cells: the ground first, then
/// only small spheres, every object in the world.
pub open spec fn grid_inv(s: Scene, done: int) -> bool {
    &&& s.wf()
    &&& 1 <= s.textures@.len() <= 1 + done
    &&& 1 <= s.materials@.len() <= 1 + done
    &&& 1 <= s.objects@.len() <= 1 + done
    &&& s.textures@[0] == TextureDesc::SolidColor { color: frac3(5, 5, 5, 10) }
    &&& s.materials@[0] == MaterialDesc::Lambertian { texture: 0 }
    &&& s.objects@[0] == ObjectDesc::Sphere {
        center: whole3(0, -1000, 0),
        radius: Fixed::spec_whole(1000),
        material: 0,
    }
    &&& forall|k: int| 1 <= k < s.objects@.len() ==> small_sphere_ok(#[trigger] s.objects@[k])
    &&& s.world@ == span(0, s.objects@.len() as int)
    &&& s.camera == Camera::spec_new()
}

/// The ground alone: its color, its material and the sphere itself.
pub open spec fn ground_nodes() -> (Seq<TextureDesc>, Seq<MaterialDesc>, Seq<ObjectDesc>) {
    (
        seq![TextureDesc::SolidColor { color: frac3(5, 5, 5, 10) }],
        seq![MaterialDesc::Lambertian { texture: 0 }],
        seq![
            ObjectDesc::Sphere {
                center: whole3(0, -1000, 0),
                radius: Fixed::spec_whole(1000),
                material: 0,
            },
        ],
    )
}

/// The ground followed by the first `k` grid cells, cell `c` being
/// `(c / 22 - 11, c % 22 - 11)` filled by `draws[c]`.
pub open spec fn grid_nodes(draws: Seq<CellDraws>, k: int) -> (
    Seq<TextureDesc>,
    Seq<MaterialDesc>,
    Seq<ObjectDesc>,
)
    decreases k,
{
    if k <= 0 {
        ground_nodes()
    } else {
        let (t, m, o) = grid_nodes(draws, k - 1);
        let (dt, dm, dobj) = cell_nodes(
            t.len() as int,
            m.len() as int,
            (k - 1) / 22 - 11,
            (k - 1) % 22 - 11,
            draws[k - 1],
        );
        (t + dt, m + dm, o + dobj)
    }
}

/// One well-formed draw for each of the 484 cells.
pub open spec fn cells_ok(d: Seq<CellDraws>) -> bool {
    &&& d.len() == 484
    &&& forall|k: int| 0 <= k < 484 ==> (#[trigger] d[k]).wf()
}

/// `r` is `random_spheres` built from the cell draws `draws`.
pub open spec fn random_spheres_ok(r: Scene, draws: Seq<CellDraws>) -> bool {
    let (t, m, o) = grid_nodes(draws, 484);
    &&& r.wf()
    &&& r.camera == random_spheres_camera()
    &&& r.textures@ == t.push(TextureDesc::SolidColor { color: frac3(4, 2, 1, 10) })
    &&& r.materials@ == m + seq![
        MaterialDesc::Dielectric { ir: Fixed::spec_frac(15, 10) },
        MaterialDesc::Lambertian { texture: t.len() as usize },
        MaterialDesc::Metal { albedo: frac3(7, 6, 5, 10), fuzz: Fixed::spec_whole(0) },
    ]
    &&& r.objects@ == o + seq![
        ObjectDesc::Sphere { center: whole3(0, 1, 0), radius: Fixed::spec_whole(1), material: m.len() as usize },
        ObjectDesc::Sphere { center: whole3(-4, 1, 1), radius: Fixed::spec_whole(1), material: (m.len() + 1) as usize },
        ObjectDesc::Sphere { center: whole3(4, 1, 0), radius: Fixed::spec_whole(1), material: (m.len() + 2) as usize },
    ]
    &&& r.world@ == span(0, r.objects@.len() as int)
    &&& forall|k: int| 1 <= k < r.objects@.len() - 3 ==> small_sphere_ok(#[trigger] r.objects@[k])
}

/// A large gray ground sphere, a 22 by 22 grid of small spheres of random
/// material as the cell draws `draws` say, row by row, and three large
/// spheres: glass, diffuse brown and polished metal.
pub fn random_spheres_with(draws: &Vec<CellDraws>) -> (r: Scene)
    requires
        cells_ok(draws@),
    ensures
        random_spheres_ok(r, draws@),
{
    let mut s = Scene::new();
    let ground = s.lambertian(Rvec3::frac(5, 5, 5, 10));
    let g = s.add_object(
        ObjectDesc::Sphere { center: Rvec3::whole(0, -1000, 0), radius: Fixed::whole(1000), material: ground },
    );
    s.add(g);
    assert(s.world@ =~= span(0, 1));
    assert(s.textures@ =~= ground_nodes().0);
    assert(s.materials@ =~= ground_nodes().1);
    assert(s.objects@ =~= ground_nodes().2);
    let mut c: usize = 0;
    while c < 484
        invariant
            c <= 484,
            cells_ok(draws@),
            grid_inv(s, c as int),
            (s.textures@, s.materials@, s.objects@) == grid_nodes(draws@, c as int),
        decreases 484 - c,
    {
        let a = (c / 22) as i32 - 11;
        let b = (c % 22) as i32 - 11;
        let ghost old_s = s;
        random_cell(&mut s, a, b, &draws[c]);
        proof {
            let (t, m, o) = cell_nodes(
                old_s.textures@.len() as int,
                old_s.materials@.len() as int,
                a as int,
                b as int,
                draws@[c as int],
            );
            assert forall|k: int| 1 <= k < s.objects@.len() implies small_sphere_ok(
                #[trigger] s.objects@[k],
            ) by {
                if k >= old_s.objects@.len() {
                    assert(s.objects@[k] == o[k - old_s.objects@.len()]);
                } else {
                    assert(s.objects@[k] == old_s.objects@[k]);
                }
            }
            assert(s.textures@[0] == old_s.textures@[0]);
            assert(s.materials@[0] == old_s.materials@[0]);
            assert(s.objects@[0] == old_s.objects@[0]);
            assert(s.world@ =~= span(0, s.objects@.len() as int));
        }
        c = c + 1;
    }
    let ghost grid = s;
    let glass = s.add_material(MaterialDesc::Dielectric { ir: Fixed::frac(15, 10) });
    let big1 = s.add_object(
        ObjectDesc::Sphere { center: Rvec3::whole(0, 1, 0), radius: Fixed::whole(1), material: glass },
    );
    s.add(big1);
    let brown = s.lambertian(Rvec3::frac(4, 2, 1, 10));
    let big2 = s.add_object(
        ObjectDesc::Sphere { center: Rvec3::whole(-4, 1, 1), radius: Fixed::whole(1), material: brown },
    );
    s.add(big2);
    let steel = s.metal(Rvec3::frac(7, 6, 5, 10), Fixed::zero());
    let big3 = s.add_object(
        ObjectDesc::Sphere { center: Rvec3::whole(4, 1, 0), radius: Fixed::whole(1), material: steel },
    );
    s.add(big3);
    s.camera = Camera {
        aspect_w: 16,
        aspect_h: 9,
        image_width: 400,
        samples_per_pixel: 10,
        max_depth: 10,
        vfov: Fixed::whole(20),
        lookfrom: Rvec3::whole(13, 2, 3),
        lookat: Rvec3::new(),
        vup: Rvec3::whole(0, 1, 0),
        defocus_angle: Fixed::frac(6, 10),
        focus_dist: Fixed::whole(10),
        background: Background::Solid { color: Rvec3::frac(70, 80, 100, 100) },
    };
    assert forall|k: int| 1 <= k < s.objects@.len() - 3 implies small_sphere_ok(
        #[trigger] s.objects@[k],
    ) by {
        assert(s.objects@[k] == grid.objects@[k]);
    }
    assert(s.world@ =~= span(0, s.objects@.len() as int));
    let ghost (t, m, o) = grid_nodes(draws@, 484);
    assert(s.materials@ =~= m + seq![
        MaterialDesc::Dielectric { ir: Fixed::spec_frac(15, 10) },
        MaterialDesc::Lambertian { texture: t.len() as usize },
        MaterialDesc::Metal { albedo: frac3(7, 6, 5, 10), fuzz: Fixed::spec_whole(0) },
    ]);
    assert(s.objects@ =~= o + seq![
        ObjectDesc::Sphere { center: whole3(0, 1, 0), radius: Fixed::spec_whole(1), material: m.len() as usize },
        ObjectDesc::Sphere { center: whole3(-4, 1, 1), radius: Fixed::spec_whole(1), material: (m.len() + 1) as usize },
        ObjectDesc::Sphere { center: whole3(4, 1, 0), radius: Fixed::spec_whole(1), material: (m.len() + 2) as usize },
    ]);
    s
}

/// A large gray ground sphere, a 22 by 22 grid of small spheres of random
/// material, and three large spheres, drawn from `rng`.
pub fn random_spheres(rng: &mut StdRng) -> (r: Scene)
    ensures
        r.wf(),
        r.camera == random_spheres_camera(),
        exists|d: Seq<CellDraws>| cells_ok(d) && #[trigger] random_spheres_ok(r, d),
{
    let mut draws: Vec<CellDraws> = Vec::new();
    while draws.len() < 484
        invariant
            draws@.len() <= 484,
            forall|k: int| 0 <= k < draws@.len() ==> (#[trigger] draws@[k]).wf(),
        decreases 484 - draws@.len(),
    {
        draws.push(draw_cell(rng));
    }
    let r = random_spheres_with(&draws);
    assert(cells_ok(draws@) && random_spheres_ok(r, draws@));
    r
}

} // verus!
