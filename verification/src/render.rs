//! Local illumination and the per-pixel render loop.

use vstd::prelude::*;
use crate::camera::{Camera, cam_base_change};
use crate::color::{Color, c_add, c_scale, c_to_hex};
use crate::cube::{Cube, cube_intersect};
use crate::framebuffer::Framebuffer;
use crate::fx::{
    fx_add, fx_sub, fx_neg, fx_mul, fx_div, fx_max, fx_clamp, fx_pow, fx_of_int, add_fx, sub_fx,
    mul_fx, div_fx, max_fx, clamp_fx, pow_fx, FX_ONE, FX_MINUS_ONE,
};
use crate::light::Light;
use crate::plane::{Plane, plane_intersect};
use crate::ray_intersect::{Intersect, RayIntersect};
use crate::skybox::Skybox;
use crate::vec3::{Vec3, v3_sub, v3_neg, v3_scale, v3_dot, v3_normalize};

verus! {

/// The fixed-point representation of 2.
pub const FX_TWO: i64 = 131072;

/// The flat ambient weight (about 0.2) applied to every hit's diffuse
/// color, independent of the light.
pub const AMBIENT_WEIGHT: i64 = 13107;

/// The field-of-view scale `tan(fov/2)` for the fixed 60-degree field of
/// view, about 0.57735 in fixed point.
pub const TAN_HALF_FOV: i64 = 37837;

/// The incident vector mirrored about a surface normal:
/// `incident - 2 * dot(incident, normal) * normal`.
pub open spec fn spec_reflect(incident: Vec3, normal: Vec3) -> Vec3 {
    v3_sub(incident, v3_scale(normal, fx_mul(FX_TWO, v3_dot(incident, normal))))
}

/// The color of a resolved intersection under one point light: the sky
/// fallback on a miss; otherwise the channel-wise sum of the diffuse,
/// specular and flat ambient terms, unclamped. The ray direction plays no
/// role: the sky is uniform and the view vector is rebuilt from the origin.
pub open spec fn shade(it: Intersect, origin: Vec3, light: Light, skybox: Skybox) -> Color {
    if !it.is_intersecting {
        skybox.current_material.diffuse
    } else {
        let light_dir = v3_normalize(v3_sub(light.position, it.point));
        let view_dir = v3_normalize(v3_sub(origin, it.point));
        let reflect_dir = v3_normalize(spec_reflect(v3_neg(light_dir), it.normal));
        let diffuse_intensity = fx_clamp(v3_dot(it.normal, light_dir), 0, FX_ONE);
        let diffuse = c_scale(c_scale(it.material.diffuse, it.material.albedo.0), diffuse_intensity);
        let specular_intensity = fx_pow(
            fx_max(v3_dot(view_dir, reflect_dir), 0),
            it.material.specular as nat,
        );
        let specular = c_scale(c_scale(light.color, it.material.albedo.1), specular_intensity);
        let ambient = c_scale(it.material.diffuse, AMBIENT_WEIGHT);
        c_add(c_add(diffuse, specular), ambient)
    }
}

/// A missed intersection shades to exactly the current sky color, whatever
/// the ray origin and the light.
pub proof fn lemma_miss_shades_sky(it: Intersect, origin: Vec3, light: Light, skybox: Skybox)
    requires
        !it.is_intersecting,
    ensures
        shade(it, origin, light, skybox) == skybox.current_material.diffuse,
{
}

/// The unit power stays one at every exponent, so a specular base of
/// exactly one (a view direction equal to the reflect direction of unit
/// square length) yields the maximal specular intensity.
pub proof fn lemma_pow_one(e: nat)
    ensures
        fx_pow(FX_ONE, e) == FX_ONE,
    decreases e,
{
    if e > 0 {
        lemma_pow_one((e - 1) as nat);
    }
}

/// A view direction equal to the reflect direction, of unit square length,
/// drives the specular intensity to its maximum, whatever the exponent.
pub proof fn lemma_max_specular(v: Vec3, e: nat)
    requires
        v3_dot(v, v) == FX_ONE,
    ensures
        fx_pow(fx_max(v3_dot(v, v), 0), e) == FX_ONE,
{
    lemma_pow_one(e);
}

/// Reflecting the reversed normal about the normal itself gives back the
/// normal exactly, for each of the six axis-aligned unit normals a cube
/// face can carry.
pub proof fn lemma_reflect_head_on(n: Vec3)
    requires
        (n == (Vec3 { x: FX_ONE, y: 0, z: 0 }) || n == (Vec3 { x: FX_MINUS_ONE, y: 0, z: 0 }) || n
            == (Vec3 { x: 0, y: FX_ONE, z: 0 }) || n == (Vec3 { x: 0, y: FX_MINUS_ONE, z: 0 }) || n
            == (Vec3 { x: 0, y: 0, z: FX_ONE }) || n == (Vec3 { x: 0, y: 0, z: FX_MINUS_ONE })),
    ensures
        spec_reflect(v3_neg(n), n) == n,
{
}

/// The scan of the cube list against one ray, carried out from an initial
/// color and least hit distance: each cube strictly nearer than every hit
/// seen before it replaces the color with its own shade.
pub open spec fn scan_cubes(
    cubes: Seq<Cube>,
    o: Vec3,
    d: Vec3,
    color: Color,
    nearest: i64,
    light: Light,
    skybox: Skybox,
) -> (Color, i64)
    decreases cubes.len(),
{
    if cubes.len() == 0 {
        (color, nearest)
    } else {
        let it = cube_intersect(cubes[0], o, d);
        if it.is_intersecting && it.distance < nearest {
            scan_cubes(
                cubes.subrange(1, cubes.len() as int),
                o,
                d,
                shade(it, o, light, skybox),
                it.distance,
                light,
                skybox,
            )
        } else {
            scan_cubes(cubes.subrange(1, cubes.len() as int), o, d, color, nearest, light, skybox)
        }
    }
}

/// A scan over cubes that all miss the ray keeps the incoming color and
/// least distance untouched.
pub proof fn lemma_scan_all_miss(
    cubes: Seq<Cube>,
    o: Vec3,
    d: Vec3,
    color: Color,
    nearest: i64,
    light: Light,
    skybox: Skybox,
)
    requires
        forall|i: int| 0 <= i < cubes.len() ==> !cube_intersect(cubes[i], o, d).is_intersecting,
    ensures
        scan_cubes(cubes, o, d, color, nearest, light, skybox) == (color, nearest),
    decreases cubes.len(),
{
    if cubes.len() > 0 {
        lemma_scan_all_miss(
            cubes.subrange(1, cubes.len() as int),
            o,
            d,
            color,
            nearest,
            light,
            skybox,
        );
    }
}

/// Once any cube hit with a representable distance occurs, the scan's
/// result no longer depends on the color it started from: the base color
/// from the plane or sky is discarded outright.
pub proof fn lemma_cube_hit_ignores_base(
    cubes: Seq<Cube>,
    o: Vec3,
    d: Vec3,
    c1: Color,
    c2: Color,
    light: Light,
    skybox: Skybox,
)
    requires
        exists|i: int|
            0 <= i < cubes.len() && cube_intersect(cubes[i], o, d).is_intersecting
                && cube_intersect(cubes[i], o, d).distance < i64::MAX,
    ensures
        scan_cubes(cubes, o, d, c1, i64::MAX, light, skybox).0 == scan_cubes(
            cubes,
            o,
            d,
            c2,
            i64::MAX,
            light,
            skybox,
        ).0,
    decreases cubes.len(),
{
    let it0 = cube_intersect(cubes[0], o, d);
    if !(it0.is_intersecting && it0.distance < i64::MAX) {
        let i = choose|i: int|
            0 <= i < cubes.len() && cube_intersect(cubes[i], o, d).is_intersecting
                && cube_intersect(cubes[i], o, d).distance < i64::MAX;
        let tail = cubes.subrange(1, cubes.len() as int);
        assert(tail[i - 1] == cubes[i]);
        assert(cube_intersect(tail[i - 1], o, d).is_intersecting && cube_intersect(
            tail[i - 1],
            o,
            d,
        ).distance < i64::MAX);
        lemma_cube_hit_ignores_base(tail, o, d, c1, c2, light, skybox);
    }
}

/// The world-space primary ray direction for pixel `(x, y)` of a
/// width-by-height image: the pixel mapped to `[-1, 1]` device coordinates
/// with the y axis flipped, scaled by the aspect ratio and field of view,
/// normalized in camera space and carried through the camera basis.
pub open spec fn spec_pixel_dir(cam: Camera, width: usize, height: usize, x: int, y: int) -> Vec3 {
    let wf = fx_of_int(width as int);
    let hf = fx_of_int(height as int);
    let aspect = fx_div(wf, hf);
    let xf = fx_of_int(x);
    let yf = fx_of_int(y);
    let sx0 = fx_sub(fx_div(fx_add(xf, xf), wf), FX_ONE);
    let sy0 = fx_add(fx_neg(fx_div(fx_add(yf, yf), hf)), FX_ONE);
    let sx = fx_mul(fx_mul(sx0, aspect), TAN_HALF_FOV);
    let sy = fx_mul(sy0, TAN_HALF_FOV);
    cam_base_change(cam, v3_normalize(Vec3 { x: sx, y: sy, z: FX_MINUS_ONE }))
}

/// The pixel color before cubes are considered: the shaded plane where the
/// ray hits the tile, the sky color otherwise.
pub open spec fn spec_base_color(
    plane: Plane,
    o: Vec3,
    dir: Vec3,
    light: Light,
    skybox: Skybox,
) -> Color {
    if plane_intersect(plane, o, dir).is_intersecting {
        shade(plane_intersect(plane, o, dir), o, light, skybox)
    } else {
        skybox.current_material.diffuse
    }
}

/// The packed color of pixel `(x, y)`: the base color from the plane or
/// sky, overridden by each strictly nearer cube hit in scan order, packed
/// to `0x00RRGGBB`. The nearest cube hit always overrides the plane,
/// whether or not the plane is closer.
#[verifier::opaque]
pub open spec fn spec_render_pixel(
    plane: Plane,
    cubes: Seq<Cube>,
    cam: Camera,
    light: Light,
    skybox: Skybox,
    width: usize,
    height: usize,
    x: int,
    y: int,
) -> u32 {
    let dir = spec_pixel_dir(cam, width, height, x, y);
    let base = spec_base_color(plane, cam.eye, dir, light, skybox);
    c_to_hex(scan_cubes(cubes, cam.eye, dir, base, i64::MAX, light, skybox).0)
}

/// A pixel whose ray misses the tile and every cube shows exactly the
/// current sky color.
pub proof fn lemma_pixel_sky(
    plane: Plane,
    cubes: Seq<Cube>,
    cam: Camera,
    light: Light,
    skybox: Skybox,
    width: usize,
    height: usize,
    x: int,
    y: int,
)
    requires
        !plane_intersect(plane, cam.eye, spec_pixel_dir(cam, width, height, x, y)).is_intersecting,
        forall|i: int|
            0 <= i < cubes.len() ==> !cube_intersect(
                cubes[i],
                cam.eye,
                spec_pixel_dir(cam, width, height, x, y),
            ).is_intersecting,
    ensures
        spec_render_pixel(plane, cubes, cam, light, skybox, width, height, x, y) == c_to_hex(
            skybox.current_material.diffuse,
        ),
{
    reveal(spec_render_pixel);
    let dir = spec_pixel_dir(cam, width, height, x, y);
    lemma_scan_all_miss(
        cubes,
        cam.eye,
        dir,
        skybox.current_material.diffuse,
        i64::MAX,
        light,
        skybox,
    );
}

/// Whenever some cube hits a pixel's ray at a representable distance, the
/// pixel shows a cube and nothing of the plane — even a plane nearer to
/// the camera than every cube is discarded. This is the renderer's known
/// depth-ordering gap between the plane and the cubes, kept deliberately.
pub proof fn lemma_cube_hit_overrides_any_plane(
    plane_a: Plane,
    plane_b: Plane,
    cubes: Seq<Cube>,
    cam: Camera,
    light: Light,
    skybox: Skybox,
    width: usize,
    height: usize,
    x: int,
    y: int,
)
    requires
        exists|i: int|
            0 <= i < cubes.len() && cube_intersect(
                cubes[i],
                cam.eye,
                spec_pixel_dir(cam, width, height, x, y),
            ).is_intersecting && cube_intersect(
                cubes[i],
                cam.eye,
                spec_pixel_dir(cam, width, height, x, y),
            ).distance < i64::MAX,
    ensures
        spec_render_pixel(plane_a, cubes, cam, light, skybox, width, height, x, y)
            == spec_render_pixel(plane_b, cubes, cam, light, skybox, width, height, x, y),
{
    reveal(spec_render_pixel);
    let dir = spec_pixel_dir(cam, width, height, x, y);
    lemma_cube_hit_ignores_base(
        cubes,
        cam.eye,
        dir,
        spec_base_color(plane_a, cam.eye, dir, light, skybox),
        spec_base_color(plane_b, cam.eye, dir, light, skybox),
        light,
        skybox,
    );
}

/// The incident vector mirrored about a surface normal.
pub fn reflect(incident: &Vec3, normal: &Vec3) -> (r: Vec3)
    ensures
        r == spec_reflect(*incident, *normal),
{
    incident.sub(normal.scale(mul_fx(FX_TWO, incident.dot(*normal))))
}

/// Shade one object under one light: intersect the ray with the object and
/// return the sky fallback on a miss, the local Phong-style illumination on
/// a hit. The recursion depth is accepted for interface symmetry and never
/// advanced past the top level.
#[allow(unused_variables)]
pub fn cast_ray<T: RayIntersect>(
    ray_origin: &Vec3,
    ray_direction: &Vec3,
    object: &T,
    light: &Light,
    depth: u32,
    skybox: &Skybox,
) -> (c: Color)
    ensures
        c == shade(
            object.spec_ray_intersect(*ray_origin, *ray_direction),
            *ray_origin,
            *light,
            *skybox,
        ),
        !object.spec_ray_intersect(*ray_origin, *ray_direction).is_intersecting ==> c
            == skybox.current_material.diffuse,
{
    let intersect: Intersect = object.ray_intersect(ray_origin, ray_direction);
    if !intersect.is_intersecting {
        return skybox.sample(*ray_direction);
    }
    let light_dir: Vec3 = light.position.sub(intersect.point).normalize();
    let view_dir: Vec3 = ray_origin.sub(intersect.point).normalize();
    let reflect_dir: Vec3 = reflect(&light_dir.neg(), &intersect.normal).normalize();

    let diffuse_intensity: i64 = clamp_fx(intersect.normal.dot(light_dir), 0, FX_ONE);
    let diffuse: Color = intersect.material.diffuse.scale(intersect.material.albedo.0).scale(
        diffuse_intensity,
    );

    let specular_intensity: i64 = pow_fx(
        max_fx(view_dir.dot(reflect_dir), 0),
        intersect.material.specular,
    );
    let specular: Color = light.color.scale(intersect.material.albedo.1).scale(specular_intensity);

    let ambient: Color = intersect.material.diffuse.scale(AMBIENT_WEIGHT);

    diffuse.add(specular).add(ambient)
}

/// Scan every cube against one ray, starting from the base color and no
/// hit seen, and return the color left by the last strictly nearer hit.
#[verifier::loop_isolation(false)]
fn scan_cubes_exec(
    cubes: &Vec<Cube>,
    origin: &Vec3,
    dir: &Vec3,
    base: Color,
    light: &Light,
    skybox: &Skybox,
) -> (c: Color)
    ensures
        c == scan_cubes(cubes@, *origin, *dir, base, i64::MAX, *light, *skybox).0,
{
    let mut color: Color = base;
    let mut nearest: i64 = i64::MAX;
    let mut i: usize = 0;
    proof {
        assert(cubes@.subrange(0, cubes@.len() as int) =~= cubes@);
    }
    while i < cubes.len()
        invariant
            i <= cubes@.len(),
            scan_cubes(cubes@, *origin, *dir, base, i64::MAX, *light, *skybox) == scan_cubes(
                cubes@.subrange(i as int, cubes@.len() as int),
                *origin,
                *dir,
                color,
                nearest,
                *light,
                *skybox,
            ),
        decreases cubes@.len() - i,
    {
        let cu: Cube = cubes[i];
        proof {
            let rest = cubes@.subrange(i as int, cubes@.len() as int);
            assert(rest[0] == cubes@[i as int]);
            assert(rest.subrange(1, rest.len() as int) =~= cubes@.subrange(
                i as int + 1,
                cubes@.len() as int,
            ));
        }
        let it: Intersect = cu.ray_intersect(origin, dir);
        if it.is_intersecting && it.distance < nearest {
            nearest = it.distance;
            color = cast_ray(origin, dir, &cu, light, 0, skybox);
        }
        i = i + 1;
    }
    proof {
        assert(cubes@.subrange(cubes@.len() as int, cubes@.len() as int).len() == 0);
    }
    color
}

/// Resolve and shade one pixel: build the primary ray, take the plane or
/// sky as the base color, then let each strictly nearer cube hit in scan
/// order override it, and pack the result.
pub fn render_pixel(
    plane: &Plane,
    cubes: &Vec<Cube>,
    camera: &Camera,
    light: &Light,
    skybox: &Skybox,
    width: usize,
    height: usize,
    x: usize,
    y: usize,
) -> (px: u32)
    ensures
        px == spec_render_pixel(
            *plane,
            cubes@,
            *camera,
            *light,
            *skybox,
            width,
            height,
            x as int,
            y as int,
        ),
{
    proof {
        reveal(spec_render_pixel);
    }
    let wf: i64 = crate::fx::fx_from_usize(width);
    let hf: i64 = crate::fx::fx_from_usize(height);
    let aspect: i64 = div_fx(wf, hf);
    let xf: i64 = crate::fx::fx_from_usize(x);
    let yf: i64 = crate::fx::fx_from_usize(y);
    let sx0: i64 = sub_fx(div_fx(add_fx(xf, xf), wf), FX_ONE);
    let sy0: i64 = add_fx(crate::fx::neg_fx(div_fx(add_fx(yf, yf), hf)), FX_ONE);
    let sx: i64 = mul_fx(mul_fx(sx0, aspect), TAN_HALF_FOV);
    let sy: i64 = mul_fx(sy0, TAN_HALF_FOV);
    let dir: Vec3 = Vec3 { x: sx, y: sy, z: FX_MINUS_ONE }.normalize();
    let rotated: Vec3 = camera.base_change(&dir);

    let plane_probe: Intersect = plane.ray_intersect(&camera.eye, &rotated);
    let base: Color = if plane_probe.is_intersecting {
        cast_ray(&camera.eye, &rotated, plane, light, 0, skybox)
    } else {
        skybox.sample(rotated)
    };

    let color: Color = scan_cubes_exec(cubes, &camera.eye, &rotated, base, light, skybox);
    color.to_hex()
}

/// Pixels written strictly before `(x, y)` in row-major order keep their
/// place when the pixel at `(x, y)` is written.
proof fn lemma_row_major_below(yy: int, xx: int, y: int, x: int, w: int)
    by (nonlinear_arith)
    requires
        0 <= xx < w,
        yy < y,
        0 <= x,
    ensures
        yy * w + xx < y * w + x,
{
}

/// A row-major pixel index lies within the buffer of a well-formed frame.
proof fn lemma_row_major_bound(yy: int, xx: int, w: int, h: int)
    by (nonlinear_arith)
    requires
        0 <= xx < w,
        0 <= yy < h,
    ensures
        0 <= yy * w + xx < w * h,
{
}

/// Render the whole frame: for every pixel, build the primary ray, resolve
/// the plane, the sky and every cube, and write the packed color at that
/// pixel, row by row.
#[verifier::loop_isolation(false)]
pub fn render(
    framebuffer: &mut Framebuffer,
    plane: &Plane,
    cubes: &Vec<Cube>,
    camera: &Camera,
    light: &Light,
    skybox: &Skybox,
)
    requires
        old(framebuffer).wf(),
    ensures
        final(framebuffer).wf(),
        final(framebuffer).width == old(framebuffer).width,
        final(framebuffer).height == old(framebuffer).height,
        forall|xx: int, yy: int|
            0 <= xx < old(framebuffer).width && 0 <= yy < old(framebuffer).height
                ==> final(framebuffer).buffer@[yy * old(framebuffer).width + xx]
                == spec_render_pixel(
                *plane,
                cubes@,
                *camera,
                *light,
                *skybox,
                old(framebuffer).width,
                old(framebuffer).height,
                xx,
                yy,
            ),
{
    let width: usize = framebuffer.width;
    let height: usize = framebuffer.height;
    let mut y: usize = 0;
    while y < height
        invariant
            y <= height,
            framebuffer.wf(),
            framebuffer.width == width,
            framebuffer.height == height,
            forall|xx: int, yy: int|
                0 <= xx < width && 0 <= yy < y ==> framebuffer.buffer@[yy * width + xx]
                    == spec_render_pixel(
                    *plane,
                    cubes@,
                    *camera,
                    *light,
                    *skybox,
                    width,
                    height,
                    xx,
                    yy,
                ),
        decreases height - y,
    {
        let mut x: usize = 0;
        while x < width
            invariant
                y < height,
                x <= width,
                framebuffer.wf(),
                framebuffer.width == width,
                framebuffer.height == height,
                forall|xx: int, yy: int|
                    0 <= xx < width && (0 <= yy < y || (yy == y && 0 <= xx < x))
                        ==> framebuffer.buffer@[yy * width + xx] == spec_render_pixel(
                        *plane,
                        cubes@,
                        *camera,
                        *light,
                        *skybox,
                        width,
                        height,
                        xx,
                        yy,
                    ),
            decreases width - x,
        {
            let px: u32 = render_pixel(plane, cubes, camera, light, skybox, width, height, x, y);
            framebuffer.set_current_color(px);
            framebuffer.point(x, y);
            proof {
                assert forall|xx: int, yy: int|
                    0 <= xx < width && (0 <= yy < y || (yy == y && 0 <= xx < x + 1)) implies
                    framebuffer.buffer@[yy * width + xx] == spec_render_pixel(
                    *plane,
                    cubes@,
                    *camera,
                    *light,
                    *skybox,
                    width,
                    height,
                    xx,
                    yy,
                ) by {
                    lemma_row_major_bound(yy, xx, width as int, height as int);
                    lemma_row_major_bound(y as int, x as int, width as int, height as int);
                    if yy < y {
                        lemma_row_major_below(yy, xx, y as int, x as int, width as int);
                    }
                }
            }
            x = x + 1;
        }
        y = y + 1;
    }
}

} // verus!
