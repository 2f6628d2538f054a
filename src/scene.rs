//! A scene as an arena: textures, materials and objects live in vectors and
//! refer to one another by index, so one node can be shared by several
//! parents (a box that is both visible and the boundary of a medium).
use vstd::prelude::*;
use crate::fixed::{Fixed, SCALE};
use crate::vec3::{Rvec3, Point3, Color, bounded, whole3};
use crate::camera::Camera;

verus! {

#[derive(Debug)]
pub enum TextureDesc {
    SolidColor { color: Color },
    /// Chooses `even` or `odd` by the parity of the sum of the floored
    /// coordinates divided by `scale`.
    Checker { scale: Fixed, even: usize, odd: usize },
    /// Perlin turbulence, at the given frequency.
    Noise { scale: Fixed },
    /// A decoded raster read from the named file.
    Image { file: String },
}

#[derive(Debug)]
pub enum MaterialDesc {
    Lambertian { texture: usize },
    Metal { albedo: Color, fuzz: Fixed },
    Dielectric { ir: Fixed },
    DiffuseLight { texture: usize },
    /// Phase function of a medium.
    Isotropic { texture: usize },
}

#[derive(Debug)]
pub enum ObjectDesc {
    Sphere { center: Point3, radius: Fixed, material: usize },
    /// A sphere whose center moves from `center1` at time 0 to `center2` at
    /// time 1.
    MovingSphere { center1: Point3, center2: Point3, radius: Fixed, material: usize },
    /// The parallelogram `q + a u + b v` for `a`, `b` in `[0, 1]`.
    Quad { q: Point3, u: Rvec3, v: Rvec3, material: usize },
    List { items: Vec<usize> },
    Translate { object: usize, offset: Rvec3 },
    /// Rotation about the y axis by `angle` degrees.
    RotateY { object: usize, angle: Fixed },
    /// A volume of the given density inside a convex boundary, scattering by
    /// the `phase` material.
    ConstantMedium { boundary: usize, density: Fixed, phase: usize },
}

#[derive(Debug)]
pub struct Scene {
    pub textures: Vec<TextureDesc>,
    pub materials: Vec<MaterialDesc>,
    pub objects: Vec<ObjectDesc>,
    /// The objects that make up the world, in order.
    pub world: Vec<usize>,
    pub camera: Camera,
}

/// Cross product of `u` and `v` is not zero: the edges are not parallel.
pub open spec fn edges_span(u: Rvec3, v: Rvec3) -> bool {
    let (ux, uy, uz) = (u.x.units as int, u.y.units as int, u.z.units as int);
    let (vx, vy, vz) = (v.x.units as int, v.y.units as int, v.z.units as int);
    uy * vz - uz * vy != 0 || uz * vx - ux * vz != 0 || ux * vy - uy * vx != 0
}

/// Texture number `i` may refer only to textures before it.
pub open spec fn texture_ok(t: TextureDesc, i: int) -> bool {
    match t {
        TextureDesc::Checker { scale, even, odd } => scale.units != 0 && even < i && odd < i,
        _ => true,
    }
}

pub open spec fn material_ok(m: MaterialDesc, ntex: int) -> bool {
    match m {
        MaterialDesc::Lambertian { texture } => texture < ntex,
        MaterialDesc::Metal { fuzz, .. } => 0 <= fuzz.units <= SCALE,
        MaterialDesc::Dielectric { ir } => ir.units > 0,
        MaterialDesc::DiffuseLight { texture } => texture < ntex,
        MaterialDesc::Isotropic { texture } => texture < ntex,
    }
}

/// Every index in `items` is below `i`.
pub open spec fn refs_before(items: Seq<usize>, i: int) -> bool {
    forall|k: int| 0 <= k < items.len() ==> items[k] < i
}

/// Object number `i` may refer only to objects before it.
pub open spec fn object_ok(o: ObjectDesc, i: int, mats: Seq<MaterialDesc>) -> bool {
    match o {
        ObjectDesc::Sphere { radius, material, .. } => radius.units > 0 && material < mats.len(),
        ObjectDesc::MovingSphere { radius, material, .. } => radius.units > 0 && material
            < mats.len(),
        ObjectDesc::Quad { u, v, material, .. } => edges_span(u, v) && material < mats.len(),
        ObjectDesc::List { items } => refs_before(items@, i),
        ObjectDesc::Translate { object, .. } => object < i,
        ObjectDesc::RotateY { object, .. } => object < i,
        ObjectDesc::ConstantMedium { boundary, density, phase } => {
            &&& boundary < i
            &&& density.units > 0
            &&& phase < mats.len()
            &&& mats[phase as int] is Isotropic
        },
    }
}

/// `o` is a list of exactly the objects `s`.
pub open spec fn is_list(o: ObjectDesc, s: Seq<usize>) -> bool {
    match o {
        ObjectDesc::List { items } => items@ == s,
        _ => false,
    }
}

/// The lesser of two values.
pub open spec fn fmin(a: Fixed, b: Fixed) -> Fixed {
    if a.units <= b.units { a } else { b }
}

/// The greater of two values.
pub open spec fn fmax(a: Fixed, b: Fixed) -> Fixed {
    if a.units >= b.units { a } else { b }
}

/// The vector whose components have the given units.
pub open spec fn units3(x: int, y: int, z: int) -> Rvec3 {
    Rvec3 { x: Fixed::spec_units(x), y: Fixed::spec_units(y), z: Fixed::spec_units(z) }
}

/// The six faces of the box with opposite corners `a` and `b`, in the order
/// front, right, back, left, top, bottom, all made of `mat`.
pub open spec fn box_sides(a: Point3, b: Point3, mat: usize) -> Seq<ObjectDesc> {
    let (x0, y0, z0) = (fmin(a.x, b.x), fmin(a.y, b.y), fmin(a.z, b.z));
    let (x1, y1, z1) = (fmax(a.x, b.x), fmax(a.y, b.y), fmax(a.z, b.z));
    let w = x1.units - x0.units;
    let h = y1.units - y0.units;
    let d = z1.units - z0.units;
    seq![
        ObjectDesc::Quad { q: Rvec3 { x: x0, y: y0, z: z1 }, u: units3(w, 0, 0), v: units3(0, h, 0), material: mat },
        ObjectDesc::Quad { q: Rvec3 { x: x1, y: y0, z: z1 }, u: units3(0, 0, -d), v: units3(0, h, 0), material: mat },
        ObjectDesc::Quad { q: Rvec3 { x: x1, y: y0, z: z0 }, u: units3(-w, 0, 0), v: units3(0, h, 0), material: mat },
        ObjectDesc::Quad { q: Rvec3 { x: x0, y: y0, z: z0 }, u: units3(0, 0, d), v: units3(0, h, 0), material: mat },
        ObjectDesc::Quad { q: Rvec3 { x: x0, y: y1, z: z1 }, u: units3(w, 0, 0), v: units3(0, 0, -d), material: mat },
        ObjectDesc::Quad { q: Rvec3 { x: x0, y: y0, z: z0 }, u: units3(w, 0, 0), v: units3(0, 0, d), material: mat },
    ]
}

/// The indices `start, start + 1, ..., start + n - 1`.
pub open spec fn span(start: int, n: int) -> Seq<usize> {
    Seq::new(n as nat, |k: int| (start + k) as usize)
}

proof fn lemma_scaled_cross(a: int, b: int, c: int, d: int, k: int)
    ensures
        (a * k) * (b * k) - (c * k) * (d * k) == k * k * (a * b - c * d),
{
    assert((a * k) * (b * k) == k * k * (a * b)) by (nonlinear_arith);
    assert((c * k) * (d * k) == k * k * (c * d)) by (nonlinear_arith);
    assert(k * k * (a * b) - k * k * (c * d) == k * k * (a * b - c * d)) by (nonlinear_arith);
}

/// Edges of whole-number components span a plane when their integer cross
/// product is nonzero.
pub proof fn lemma_edges_span_whole(ux: int, uy: int, uz: int, vx: int, vy: int, vz: int)
    requires
        -0x8000_0000 <= ux < 0x8000_0000,
        -0x8000_0000 <= uy < 0x8000_0000,
        -0x8000_0000 <= uz < 0x8000_0000,
        -0x8000_0000 <= vx < 0x8000_0000,
        -0x8000_0000 <= vy < 0x8000_0000,
        -0x8000_0000 <= vz < 0x8000_0000,
        uy * vz - uz * vy != 0 || uz * vx - ux * vz != 0 || ux * vy - uy * vx != 0,
    ensures
        edges_span(whole3(ux, uy, uz), whole3(vx, vy, vz)),
{
    let k = SCALE as int;
    assert forall|n: int| -0x8000_0000 <= n < 0x8000_0000 implies #[trigger] (n * k) == (n * k) as i64 by {
        assert(-0x8000_0000 * k <= n * k <= 0x8000_0000 * k) by (nonlinear_arith)
            requires
                -0x8000_0000 <= n < 0x8000_0000,
                k == SCALE,
        ;
    }
    lemma_scaled_cross(ux, vy, uy, vx, k);
    lemma_scaled_cross(uy, vz, uz, vy, k);
    lemma_scaled_cross(uz, vx, ux, vz, k);
    assert forall|c: int| c != 0 implies #[trigger] (k * k * c) != 0 by {
        assert(k * k * c != 0) by (nonlinear_arith)
            requires
                c != 0,
                k == SCALE,
        ;
    }
}

/// One cross-product term is nonzero when its first product is and its
/// second vanishes.
proof fn lemma_cross_first(p: int, q: int, r: int, s: int)
    requires
        p != 0,
        q != 0,
        r == 0 || s == 0,
    ensures
        p * q - r * s != 0,
{
    assert(p * q - r * s != 0) by (nonlinear_arith)
        requires
            p != 0,
            q != 0,
            r == 0 || s == 0,
    ;
}

/// One cross-product term is nonzero when its second product is and its
/// first vanishes.
proof fn lemma_cross_second(p: int, q: int, r: int, s: int)
    requires
        p == 0 || q == 0,
        r != 0,
        s != 0,
    ensures
        p * q - r * s != 0,
{
    assert(p * q - r * s != 0) by (nonlinear_arith)
        requires
            p == 0 || q == 0,
            r != 0,
            s != 0,
    ;
}

impl Scene {
    pub open spec fn textures_ok(&self) -> bool {
        forall|i: int| 0 <= i < self.textures@.len() ==> texture_ok(#[trigger] self.textures@[i], i)
    }

    pub open spec fn materials_ok(&self) -> bool {
        forall|i: int|
            0 <= i < self.materials@.len() ==> material_ok(
                #[trigger] self.materials@[i],
                self.textures@.len() as int,
            )
    }

    pub open spec fn objects_ok(&self) -> bool {
        forall|i: int|
            0 <= i < self.objects@.len() ==> object_ok(
                #[trigger] self.objects@[i],
                i,
                self.materials@,
            )
    }

    pub open spec fn world_ok(&self) -> bool {
        forall|k: int| 0 <= k < self.world@.len() ==> #[trigger] self.world@[k] < self.objects@.len()
    }

    /// Every index refers to an earlier node, every parameter that is divided
    /// by is nonzero, and the camera is well formed.
    pub open spec fn wf(&self) -> bool {
        &&& self.textures_ok()
        &&& self.materials_ok()
        &&& self.objects_ok()
        &&& self.world_ok()
        &&& self.camera.wf()
    }

    /// An empty scene with the default camera.
    pub fn new() -> (r: Scene)
        ensures
            r.wf(),
            r.textures@.len() == 0,
            r.materials@.len() == 0,
            r.objects@.len() == 0,
            r.world@.len() == 0,
            r.camera == Camera::spec_new(),
    {
        Scene {
            textures: Vec::new(),
            materials: Vec::new(),
            objects: Vec::new(),
            world: Vec::new(),
            camera: Camera::new(),
        }
    }

    pub fn add_texture(&mut self, t: TextureDesc) -> (r: usize)
        requires
            old(self).wf(),
            texture_ok(t, old(self).textures@.len() as int),
            old(self).textures@.len() < usize::MAX,
        ensures
            final(self).wf(),
            r == old(self).textures@.len(),
            final(self).textures@ == old(self).textures@.push(t),
            final(self).materials@ == old(self).materials@,
            final(self).objects@ == old(self).objects@,
            final(self).world@ == old(self).world@,
            final(self).camera == old(self).camera,
    {
        let r = self.textures.len();
        self.textures.push(t);
        assert forall|i: int| 0 <= i < self.materials@.len() implies material_ok(
            #[trigger] self.materials@[i],
            self.textures@.len() as int,
        ) by {
            assert(material_ok(old(self).materials@[i], old(self).textures@.len() as int));
        }
        r
    }

    pub fn add_material(&mut self, m: MaterialDesc) -> (r: usize)
        requires
            old(self).wf(),
            material_ok(m, old(self).textures@.len() as int),
            old(self).materials@.len() < usize::MAX,
        ensures
            final(self).wf(),
            r == old(self).materials@.len(),
            final(self).textures@ == old(self).textures@,
            final(self).materials@ == old(self).materials@.push(m),
            final(self).objects@ == old(self).objects@,
            final(self).world@ == old(self).world@,
            final(self).camera == old(self).camera,
    {
        let r = self.materials.len();
        self.materials.push(m);
        assert forall|i: int| 0 <= i < self.objects@.len() implies object_ok(
            #[trigger] self.objects@[i],
            i,
            self.materials@,
        ) by {
            assert(object_ok(old(self).objects@[i], i, old(self).materials@));
            match self.objects@[i] {
                ObjectDesc::ConstantMedium { phase, .. } => {
                    assert(self.materials@[phase as int] == old(self).materials@[phase as int]);
                },
                _ => {},
            }
        }
        r
    }

    pub fn add_object(&mut self, o: ObjectDesc) -> (r: usize)
        requires
            old(self).wf(),
            object_ok(o, old(self).objects@.len() as int, old(self).materials@),
            old(self).objects@.len() < usize::MAX,
        ensures
            final(self).wf(),
            r == old(self).objects@.len(),
            final(self).textures@ == old(self).textures@,
            final(self).materials@ == old(self).materials@,
            final(self).objects@ == old(self).objects@.push(o),
            final(self).world@ == old(self).world@,
            final(self).camera == old(self).camera,
    {
        let r = self.objects.len();
        self.objects.push(o);
        assert(forall|i: int|
            0 <= i < old(self).objects@.len() ==> #[trigger] self.objects@[i] == old(
                self,
            ).objects@[i]);
        r
    }

    /// Appends the object `o` to the world.
    pub fn add(&mut self, o: usize)
        requires
            old(self).wf(),
            o < old(self).objects@.len(),
        ensures
            final(self).wf(),
            final(self).textures@ == old(self).textures@,
            final(self).materials@ == old(self).materials@,
            final(self).objects@ == old(self).objects@,
            final(self).world@ == old(self).world@.push(o),
            final(self).camera == old(self).camera,
    {
        self.world.push(o);
    }
}

/// Capacity left for `n` more nodes of each kind.
pub open spec fn room(s: Scene, n: int) -> bool {
    &&& s.textures@.len() + n < usize::MAX
    &&& s.materials@.len() + n < usize::MAX
    &&& s.objects@.len() + n < usize::MAX
}

impl Scene {
    /// A texture of one color.
    pub fn solid(&mut self, c: Color) -> (r: usize)
        requires
            old(self).wf(),
            room(*old(self), 1),
        ensures
            final(self).wf(),
            r == old(self).textures@.len(),
            final(self).textures@ == old(self).textures@.push(TextureDesc::SolidColor { color: c }),
            final(self).materials@ == old(self).materials@,
            final(self).objects@ == old(self).objects@,
            final(self).world@ == old(self).world@,
            final(self).camera == old(self).camera,
    {
        self.add_texture(TextureDesc::SolidColor { color: c })
    }

    /// A checker texture of scale `scale` over two solid colors.
    pub fn checker(&mut self, scale: Fixed, even: Color, odd: Color) -> (r: usize)
        requires
            old(self).wf(),
            room(*old(self), 3),
            scale.units != 0,
        ensures
            final(self).wf(),
            r == old(self).textures@.len() + 2,
            final(self).textures@ == old(self).textures@.push(
                TextureDesc::SolidColor { color: even },
            ).push(TextureDesc::SolidColor { color: odd }).push(
                TextureDesc::Checker {
                    scale,
                    even: old(self).textures@.len() as usize,
                    odd: (old(self).textures@.len() + 1) as usize,
                },
            ),
            final(self).materials@ == old(self).materials@,
            final(self).objects@ == old(self).objects@,
            final(self).world@ == old(self).world@,
            final(self).camera == old(self).camera,
    {
        let e = self.solid(even);
        let o = self.solid(odd);
        self.add_texture(TextureDesc::Checker { scale, even: e, odd: o })
    }

    /// A diffuse material over a solid color.
    pub fn lambertian(&mut self, c: Color) -> (r: usize)
        requires
            old(self).wf(),
            room(*old(self), 1),
        ensures
            final(self).wf(),
            r == old(self).materials@.len(),
            final(self).textures@ == old(self).textures@.push(TextureDesc::SolidColor { color: c }),
            final(self).materials@ == old(self).materials@.push(
                MaterialDesc::Lambertian { texture: old(self).textures@.len() as usize },
            ),
            final(self).objects@ == old(self).objects@,
            final(self).world@ == old(self).world@,
            final(self).camera == old(self).camera,
    {
        let t = self.solid(c);
        self.add_material(MaterialDesc::Lambertian { texture: t })
    }

    /// A reflective material; its fuzz is clamped to `[0, 1]`.
    pub fn metal(&mut self, albedo: Color, fuzz: Fixed) -> (r: usize)
        requires
            old(self).wf(),
            room(*old(self), 1),
        ensures
            final(self).wf(),
            r == old(self).materials@.len(),
            final(self).textures@ == old(self).textures@,
            final(self).materials@ == old(self).materials@.push(
                MaterialDesc::Metal {
                    albedo,
                    fuzz: Fixed::spec_units(
                        if fuzz.units < 0 {
                            0
                        } else if fuzz.units > SCALE {
                            SCALE as int
                        } else {
                            fuzz.units as int
                        },
                    ),
                },
            ),
            final(self).objects@ == old(self).objects@,
            final(self).world@ == old(self).world@,
            final(self).camera == old(self).camera,
    {
        let f = if fuzz.units < 0 {
            Fixed::zero()
        } else if fuzz.units > SCALE {
            Fixed::from_units(SCALE)
        } else {
            fuzz
        };
        self.add_material(MaterialDesc::Metal { albedo, fuzz: f })
    }

    /// A light source of one color.
    pub fn diffuse_light(&mut self, c: Color) -> (r: usize)
        requires
            old(self).wf(),
            room(*old(self), 1),
        ensures
            final(self).wf(),
            r == old(self).materials@.len(),
            final(self).textures@ == old(self).textures@.push(TextureDesc::SolidColor { color: c }),
            final(self).materials@ == old(self).materials@.push(
                MaterialDesc::DiffuseLight { texture: old(self).textures@.len() as usize },
            ),
            final(self).objects@ == old(self).objects@,
            final(self).world@ == old(self).world@,
            final(self).camera == old(self).camera,
    {
        let t = self.solid(c);
        self.add_material(MaterialDesc::DiffuseLight { texture: t })
    }

    /// A medium of density `density` and color `c` inside `boundary`.
    pub fn constant_medium(&mut self, boundary: usize, density: Fixed, c: Color) -> (r: usize)
        requires
            old(self).wf(),
            room(*old(self), 1),
            boundary < old(self).objects@.len(),
            density.units > 0,
        ensures
            final(self).wf(),
            r == old(self).objects@.len(),
            final(self).textures@ == old(self).textures@.push(TextureDesc::SolidColor { color: c }),
            final(self).materials@ == old(self).materials@.push(
                MaterialDesc::Isotropic { texture: old(self).textures@.len() as usize },
            ),
            final(self).objects@ == old(self).objects@.push(
                ObjectDesc::ConstantMedium {
                    boundary,
                    density,
                    phase: old(self).materials@.len() as usize,
                },
            ),
            final(self).world@ == old(self).world@,
            final(self).camera == old(self).camera,
    {
        let t = self.solid(c);
        let m = self.add_material(MaterialDesc::Isotropic { texture: t });
        self.add_object(ObjectDesc::ConstantMedium { boundary, density, phase: m })
    }

    /// Adds the six faces of the box with opposite corners `a` and `b`, then a
    /// list of them, whose index is returned.
    pub fn box_new(&mut self, a: Point3, b: Point3, mat: usize) -> (r: usize)
        requires
            old(self).wf(),
            room(*old(self), 7),
            mat < old(self).materials@.len(),
            bounded(a),
            bounded(b),
            a.x != b.x,
            a.y != b.y,
            a.z != b.z,
        ensures
            final(self).wf(),
            r == old(self).objects@.len() + 6,
            final(self).objects@.len() == old(self).objects@.len() + 7,
            final(self).objects@.subrange(0, old(self).objects@.len() as int) == old(
                self,
            ).objects@,
            final(self).objects@.subrange(
                old(self).objects@.len() as int,
                old(self).objects@.len() + 6 as int,
            ) == box_sides(a, b, mat),
            is_list(final(self).objects@[r as int], span(old(self).objects@.len() as int, 6)),
            final(self).textures@ == old(self).textures@,
            final(self).materials@ == old(self).materials@,
            final(self).world@ == old(self).world@,
            final(self).camera == old(self).camera,
    {
        let ghost n = old(self).objects@.len() as int;
        let x0 = a.x.min(b.x);
        let y0 = a.y.min(b.y);
        let z0 = a.z.min(b.z);
        let x1 = a.x.max(b.x);
        let y1 = a.y.max(b.y);
        let z1 = a.z.max(b.z);
        let w = x1.sub(x0);
        let h = y1.sub(y0);
        let d = z1.sub(z0);
        let zero = Fixed::zero();
        let dx = Rvec3::new_arg(w, zero, zero);
        let dy = Rvec3::new_arg(zero, h, zero);
        let dz = Rvec3::new_arg(zero, zero, d);
        let ndx = dx.neg();
        let ndz = dz.neg();
        let ghost sides = box_sides(a, b, mat);
        proof {
            let (wu, hu, du) = (w.units as int, h.units as int, d.units as int);
            lemma_cross_first(wu, hu, 0, 0);
            lemma_cross_second(0, 0, -du, hu);
            lemma_cross_first(-wu, hu, 0, 0);
            lemma_cross_second(0, 0, du, hu);
            lemma_cross_second(0, 0, wu, -du);
            lemma_cross_second(0, 0, wu, du);
        }
        let s0 = self.add_object(
            ObjectDesc::Quad { q: Rvec3::new_arg(x0, y0, z1), u: dx, v: dy, material: mat },
        );
        let s1 = self.add_object(
            ObjectDesc::Quad { q: Rvec3::new_arg(x1, y0, z1), u: ndz, v: dy, material: mat },
        );
        let s2 = self.add_object(
            ObjectDesc::Quad { q: Rvec3::new_arg(x1, y0, z0), u: ndx, v: dy, material: mat },
        );
        let s3 = self.add_object(
            ObjectDesc::Quad { q: Rvec3::new_arg(x0, y0, z0), u: dz, v: dy, material: mat },
        );
        let s4 = self.add_object(
            ObjectDesc::Quad { q: Rvec3::new_arg(x0, y1, z1), u: dx, v: ndz, material: mat },
        );
        let s5 = self.add_object(
            ObjectDesc::Quad { q: Rvec3::new_arg(x0, y0, z0), u: dx, v: dz, material: mat },
        );
        let mut items: Vec<usize> = Vec::new();
        items.push(s0);
        items.push(s1);
        items.push(s2);
        items.push(s3);
        items.push(s4);
        items.push(s5);
        assert(items@ =~= span(n, 6));
        let r = self.add_object(ObjectDesc::List { items });
        assert(self.objects@.subrange(0, n) =~= old(self).objects@);
        assert(self.objects@.subrange(n, n + 6) =~= sides);
        r
    }
}

/// Why an object cannot join a scene.
#[derive(Clone, Copy, Debug, PartialEq, Eq, Structural)]
pub enum SceneError {
    /// It names a material, or an object, that the scene does not hold yet.
    BadReference,
    /// A sphere of radius zero or less.
    NonPositiveRadius,
    /// A quad whose edges are parallel, so it has no normal.
    DegenerateQuad,
    /// A medium of density zero or less.
    NonPositiveDensity,
    /// A medium whose phase material is not isotropic.
    PhaseNotIsotropic,
}

/// The first defect of object `o`, were it object number `i` of a scene
/// with materials `mats`: references are checked before parameters.
pub open spec fn object_defect(o: ObjectDesc, i: int, mats: Seq<MaterialDesc>) -> Option<SceneError> {
    match o {
        ObjectDesc::Sphere { radius, material, .. } => if material >= mats.len() {
            Some(SceneError::BadReference)
        } else if radius.units <= 0 {
            Some(SceneError::NonPositiveRadius)
        } else {
            None
        },
        ObjectDesc::MovingSphere { radius, material, .. } => if material >= mats.len() {
            Some(SceneError::BadReference)
        } else if radius.units <= 0 {
            Some(SceneError::NonPositiveRadius)
        } else {
            None
        },
        ObjectDesc::Quad { u, v, material, .. } => if material >= mats.len() {
            Some(SceneError::BadReference)
        } else if !edges_span(u, v) {
            Some(SceneError::DegenerateQuad)
        } else {
            None
        },
        ObjectDesc::List { items } => if !refs_before(items@, i) {
            Some(SceneError::BadReference)
        } else {
            None
        },
        ObjectDesc::Translate { object, .. } => if object >= i {
            Some(SceneError::BadReference)
        } else {
            None
        },
        ObjectDesc::RotateY { object, .. } => if object >= i {
            Some(SceneError::BadReference)
        } else {
            None
        },
        ObjectDesc::ConstantMedium { boundary, density, phase } => if boundary >= i || phase
            >= mats.len() {
            Some(SceneError::BadReference)
        } else if !(mats[phase as int] is Isotropic) {
            Some(SceneError::PhaseNotIsotropic)
        } else if density.units <= 0 {
            Some(SceneError::NonPositiveDensity)
        } else {
            None
        },
    }
}

/// Tests that the edges `u` and `v` are not parallel.
fn spans_plane(u: &Rvec3, v: &Rvec3) -> (r: bool)
    ensures
        r == edges_span(*u, *v),
{
    let (ux, uy, uz) = (u.x.units as i128, u.y.units as i128, u.z.units as i128);
    let (vx, vy, vz) = (v.x.units as i128, v.y.units as i128, v.z.units as i128);
    let m: i128 = 0x8000_0000_0000_0000;
    proof {
        lemma_product_bound(ux as int, vy as int);
        lemma_product_bound(uy as int, vx as int);
        lemma_product_bound(uy as int, vz as int);
        lemma_product_bound(uz as int, vy as int);
        lemma_product_bound(uz as int, vx as int);
        lemma_product_bound(ux as int, vz as int);
    }
    uy * vz - uz * vy != 0 || uz * vx - ux * vz != 0 || ux * vy - uy * vx != 0
}

/// The product of two `i64` values lies within `2^126` of zero.
proof fn lemma_product_bound(a: int, b: int)
    requires
        -0x8000_0000_0000_0000 <= a < 0x8000_0000_0000_0000,
        -0x8000_0000_0000_0000 <= b < 0x8000_0000_0000_0000,
    ensures
        -0x4000_0000_0000_0000_0000_0000_0000_0000 < a * b <= 0x4000_0000_0000_0000_0000_0000_0000_0000,
{
    assert(-0x4000_0000_0000_0000_0000_0000_0000_0000 < a * b <= 0x4000_0000_0000_0000_0000_0000_0000_0000)
        by (nonlinear_arith)
        requires
            -0x8000_0000_0000_0000 <= a < 0x8000_0000_0000_0000,
            -0x8000_0000_0000_0000 <= b < 0x8000_0000_0000_0000,
    ;
}

impl Scene {
    /// The first defect of `o` as the next object of this scene, if any.
    pub fn check_object(&self, o: &ObjectDesc) -> (r: Option<SceneError>)
        ensures
            r == object_defect(*o, self.objects@.len() as int, self.materials@),
    {
        let n = self.objects.len();
        let nm = self.materials.len();
        match o {
            ObjectDesc::Sphere { radius, material, .. } => if *material >= nm {
                Some(SceneError::BadReference)
            } else if radius.units <= 0 {
                Some(SceneError::NonPositiveRadius)
            } else {
                None
            },
            ObjectDesc::MovingSphere { radius, material, .. } => if *material >= nm {
                Some(SceneError::BadReference)
            } else if radius.units <= 0 {
                Some(SceneError::NonPositiveRadius)
            } else {
                None
            },
            ObjectDesc::Quad { u, v, material, .. } => if *material >= nm {
                Some(SceneError::BadReference)
            } else if !spans_plane(u, v) {
                Some(SceneError::DegenerateQuad)
            } else {
                None
            },
            ObjectDesc::List { items } => {
                let mut k: usize = 0;
                while k < items.len()
                    invariant
                        k <= items@.len(),
                        n == self.objects@.len(),
                        *o == (ObjectDesc::List { items: *items }),
                        forall|q: int| 0 <= q < k ==> items@[q] < n,
                    decreases items@.len() - k,
                {
                    if items[k] >= n {
                        assert(!refs_before(items@, n as int));
                        return Some(SceneError::BadReference);
                    }
                    k = k + 1;
                }
                None
            },
            ObjectDesc::Translate { object, .. } => if *object >= n {
                Some(SceneError::BadReference)
            } else {
                None
            },
            ObjectDesc::RotateY { object, .. } => if *object >= n {
                Some(SceneError::BadReference)
            } else {
                None
            },
            ObjectDesc::ConstantMedium { boundary, density, phase } => if *boundary >= n || *phase
                >= nm {
                Some(SceneError::BadReference)
            } else if !matches!(self.materials[*phase], MaterialDesc::Isotropic { .. }) {
                Some(SceneError::PhaseNotIsotropic)
            } else if density.units <= 0 {
                Some(SceneError::NonPositiveDensity)
            } else {
                None
            },
        }
    }

    /// Adds `o` when it has no defect; otherwise leaves the scene as it was
    /// and says what is wrong.
    pub fn try_add_object(&mut self, o: ObjectDesc) -> (r: Result<usize, SceneError>)
        requires
            old(self).wf(),
            old(self).objects@.len() < usize::MAX,
        ensures
            final(self).wf(),
            match object_defect(o, old(self).objects@.len() as int, old(self).materials@) {
                None => r == Ok::<usize, SceneError>(old(self).objects@.len() as usize)
                    && final(self).objects@ == old(self).objects@.push(o),
                Some(e) => r == Err::<usize, SceneError>(e) && final(self).objects@ == old(
                    self,
                ).objects@,
            },
            final(self).textures@ == old(self).textures@,
            final(self).materials@ == old(self).materials@,
            final(self).world@ == old(self).world@,
            final(self).camera == old(self).camera,
    {
        match self.check_object(&o) {
            Some(e) => Err(e),
            None => Ok(self.add_object(o)),
        }
    }
}

} // verus!
