use refractor::camera::Camera;
use refractor::color::Color;
use refractor::cube::Cube;
use refractor::framebuffer::Framebuffer;
use refractor::fx::{mul_fx, FX_ONE, FX_MINUS_ONE};
use refractor::light::Light;
use refractor::material::Material;
use refractor::plane::Plane;
use refractor::render::{cast_ray, reflect, render, render_pixel, AMBIENT_WEIGHT};
use refractor::skybox::{load_skybox, Skybox};
use refractor::vec3::Vec3;

fn fx(v: f64) -> i64 {
    (v * 65536.0).round() as i64
}

fn white_light() -> Light {
    Light::new(Vec3::new(fx(5.0), fx(5.0), fx(5.0)), Color::new(255, 255, 255), FX_ONE)
}

#[test]
fn packing_clamps_each_channel() {
    let c = Color { r: -100000, g: 300 * 65536, b: 127 * 65536 + 32768 };
    assert_eq!(c.to_hex(), 0x00_00FF7F);
    assert_eq!(Color::new(135, 206, 235).to_hex(), 0x0087CEEB);
    assert_eq!(Color::new(0, 0, 0).to_hex(), 0);
}

#[test]
fn color_arithmetic_is_channel_wise() {
    let a = Color::new(10, 20, 30);
    let b = Color::new(1, 2, 3);
    assert_eq!(a.add(b), Color::new(11, 22, 33));
    assert_eq!(a.scale(fx(0.5)), Color { r: 5 * 65536, g: 10 * 65536, b: 15 * 65536 });
}

#[test]
fn skybox_switches_between_presets() {
    let mut sky = load_skybox();
    assert_eq!(sky.current_material.diffuse, Color::new(135, 206, 235));
    sky.set_night();
    assert_eq!(sky.current_material.diffuse, Color::new(10, 10, 30));
    sky.set_day();
    assert_eq!(sky.current_material.diffuse, Color::new(135, 206, 235));
    // Sampling ignores the direction entirely.
    assert_eq!(sky.sample(Vec3::new(fx(1.0), fx(-2.0), fx(0.5))), sky.current_material.diffuse);
    assert_eq!(sky.sample(Vec3::new(0, 0, 0)), sky.current_material.diffuse);
}

#[test]
fn miss_returns_exactly_the_sky_color_for_any_direction() {
    let sky = load_skybox();
    let light = white_light();
    let cube = Cube::new(Vec3::new(fx(50.0), 0, 0), FX_ONE, sky.day_material);
    let origin = Vec3::new(0, 0, fx(5.0));
    let c1 = cast_ray(&origin, &Vec3::new(0, 0, FX_MINUS_ONE), &cube, &light, 0, &sky);
    let c2 = cast_ray(&origin, &Vec3::new(0, FX_ONE, 0), &cube, &light, 0, &sky);
    assert_eq!(c1, Color::new(135, 206, 235));
    assert_eq!(c1, c2);
    let mut night = load_skybox();
    night.set_night();
    let c3 = cast_ray(&origin, &Vec3::new(0, 0, FX_MINUS_ONE), &cube, &light, 0, &night);
    assert_eq!(c3, Color::new(10, 10, 30));
}

#[test]
fn reflection_of_the_reversed_normal_is_the_normal() {
    let n = Vec3::new(0, 0, FX_ONE);
    assert_eq!(reflect(&n.neg(), &n), n);
    let m = Vec3::new(FX_MINUS_ONE, 0, 0);
    assert_eq!(reflect(&m.neg(), &m), m);
}

#[test]
fn head_on_specular_term_is_maximal() {
    // Light straight behind the viewer on the +z axis: light_dir equals the
    // normal, the view direction equals the reflect direction, and the
    // specular base is exactly one, so a pure-specular material returns the
    // light color itself (the diffuse and ambient terms are zero).
    let sky = load_skybox();
    let material = Material::new(Color::new(0, 0, 0), 50, (0, FX_ONE, 0, 0), FX_ONE);
    let cube = Cube::new(Vec3::new(0, 0, 0), FX_ONE, material);
    let light = Light::new(Vec3::new(0, 0, fx(10.0)), Color::new(255, 255, 255), FX_ONE);
    let origin = Vec3::new(0, 0, fx(5.0));
    let c = cast_ray(&origin, &Vec3::new(0, 0, FX_MINUS_ONE), &cube, &light, 0, &sky);
    assert_eq!(c, Color::new(255, 255, 255));
}

#[test]
fn head_on_diffuse_and_ambient_terms_add_up() {
    // Light straight above a ground tile hit head on: the diffuse intensity
    // is exactly one, so each channel is diffuse + 0.2 * diffuse.
    let sky = load_skybox();
    let diffuse = Color::new(100, 100, 100);
    let material = Material::new(diffuse, 50, (FX_ONE, 0, 0, 0), FX_ONE);
    let plane = Plane { point: Vec3::new(0, 0, 0), normal: Vec3::new(0, FX_ONE, 0), material };
    let light = Light::new(Vec3::new(0, fx(10.0), 0), Color::new(255, 255, 255), FX_ONE);
    let origin = Vec3::new(0, fx(5.0), 0);
    let c = cast_ray(&origin, &Vec3::new(0, FX_MINUS_ONE, 0), &plane, &light, 0, &sky);
    let channel = 100 * 65536 + mul_fx(100 * 65536, AMBIENT_WEIGHT);
    assert_eq!(c, Color { r: channel, g: channel, b: channel });
}

#[test]
fn orbit_keeps_the_target_and_the_radius() {
    let base = Camera::new(
        Vec3::new(0, fx(3.0), fx(5.0)),
        Vec3::new(0, 0, 0),
        Vec3::new(0, FX_ONE, 0),
    );
    let radius = base.eye.sub(base.target).norm();
    let two_pi = 2.0 * std::f64::consts::PI;
    for &yaw in &[-two_pi, -0.9, 0.0, 0.3141592, 1.7, two_pi] {
        for &pitch in &[-two_pi, -0.5, 0.0, 0.7, two_pi] {
            let mut cam = base;
            cam.orbit(fx(yaw), fx(pitch));
            assert_eq!(cam.target, base.target);
            assert_eq!(cam.up, base.up);
            let r = cam.eye.sub(cam.target).norm();
            assert!(
                (r - radius).abs() <= 33,
                "radius {radius} became {r} at yaw {yaw}, pitch {pitch}"
            );
        }
    }
}

#[test]
fn orbit_by_zero_angles_is_the_identity() {
    let mut cam = Camera::new(
        Vec3::new(0, fx(3.0), fx(5.0)),
        Vec3::new(0, 0, 0),
        Vec3::new(0, FX_ONE, 0),
    );
    let before = cam;
    cam.orbit(0, 0);
    assert_eq!(cam.eye, before.eye);
    assert_eq!(cam.target, before.target);
}

#[test]
fn orbit_by_a_quarter_turn_moves_the_eye_as_expected() {
    let mut cam = Camera::new(
        Vec3::new(0, 0, fx(5.0)),
        Vec3::new(0, 0, 0),
        Vec3::new(0, FX_ONE, 0),
    );
    cam.orbit(fx(std::f64::consts::FRAC_PI_2), 0);
    // The offset (0, 0, 5) yawed by pi/2 lands on the x axis.
    assert!((cam.eye.x.abs() - fx(5.0)).abs() <= 300, "eye {:?}", cam.eye);
    assert!(cam.eye.z.abs() <= 300, "eye {:?}", cam.eye);
    assert_eq!(cam.eye.y, 0);
}

#[test]
fn zoom_moves_the_eye_along_the_forward_direction() {
    let mut cam = Camera::new(
        Vec3::new(0, 0, fx(5.0)),
        Vec3::new(0, 0, 0),
        Vec3::new(0, FX_ONE, 0),
    );
    cam.zoom(fx(0.5));
    assert_eq!(cam.eye, Vec3::new(0, 0, fx(4.5)));
    assert_eq!(cam.target, Vec3::new(0, 0, 0));
    cam.zoom(fx(-1.0));
    assert_eq!(cam.eye, Vec3::new(0, 0, fx(5.5)));
}

#[test]
fn base_change_carries_the_camera_axes() {
    let cam = Camera::new(
        Vec3::new(0, fx(5.0), 0),
        Vec3::new(0, 0, 0),
        Vec3::new(0, 0, FX_MINUS_ONE),
    );
    // Looking straight down with up toward -z: camera -z is world -y.
    let world = cam.base_change(&Vec3::new(0, 0, FX_MINUS_ONE));
    assert_eq!(world, Vec3::new(0, FX_MINUS_ONE, 0));
}

#[test]
fn framebuffer_point_writes_the_current_color() {
    let mut fb = Framebuffer::new(4, 3);
    assert_eq!(fb.width, 4);
    assert_eq!(fb.height, 3);
    assert_eq!(fb.buffer.len(), 12);
    assert!(fb.buffer.iter().all(|&p| p == 0));
    fb.set_current_color(0xABCDEF);
    fb.point(2, 1);
    assert_eq!(fb.buffer[1 * 4 + 2], 0xABCDEF);
    assert_eq!(fb.buffer.iter().filter(|&&p| p != 0).count(), 1);
}

#[test]
fn any_cube_hit_overrides_the_plane_even_when_farther() {
    // The tile sits at t = 5 on the ray, the cube behind it at t = 7.5;
    // the renderer still shows the cube: the plane is never depth-compared
    // against cubes. This depth-ordering policy is deliberate.
    let (plane, _, camera, light, sky) = overhead_scene();
    let red = Material::new(Color::new(200, 0, 0), 50, (FX_ONE, 0, 0, 0), FX_ONE);
    let buried = Cube::new(Vec3::new(0, fx(-3.0), 0), FX_ONE, red);
    let cubes = vec![buried];
    let down = Vec3::new(0, FX_MINUS_ONE, 0);
    let px = render_pixel(&plane, &cubes, &camera, &light, &sky, 2, 2, 1, 1);
    let expected = cast_ray(&camera.eye, &down, &buried, &light, 0, &sky).to_hex();
    assert_eq!(px, expected);
    let plane_only = render_pixel(&plane, &Vec::new(), &camera, &light, &sky, 2, 2, 1, 1);
    assert_ne!(px, plane_only);
}

#[test]
fn water_cubes_bob_out_of_phase() {
    let water = Material::new(Color::new(0, 0, 255), 50, (fx(0.5), fx(0.5), 0, 0), FX_ONE);
    let mut cluster = vec![
        Cube::new(Vec3::new(0, 0, 0), fx(0.10), water),
        Cube::new(Vec3::new(fx(-0.1), 0, 0), fx(0.10), water),
    ];
    let time = fx(0.5);
    refractor::water::animate_water(&mut cluster, time, 0);
    for (i, cube) in cluster.iter().enumerate() {
        let expected = refractor::water::water_offset(time, i);
        assert_eq!(cube.center.y, expected);
        let reference = fx((0.5 + i as f64).sin() * 0.05);
        assert!((expected - reference).abs() <= 8, "cube {i}: {expected} vs {reference}");
    }
    // Out of phase: the two heights differ.
    assert_ne!(cluster[0].center.y, cluster[1].center.y);
    // Only the height moved.
    assert_eq!(cluster[0].center.x, 0);
    assert_eq!(cluster[1].center.x, fx(-0.1));
    assert_eq!(cluster[0].size, fx(0.10));
    assert_eq!(cluster[0].material, water);
}

fn overhead_scene() -> (Plane, Vec<Cube>, Camera, Light, Skybox) {
    let material = Material::new(Color::new(34, 139, 34), 50, (FX_ONE, 0, 0, 0), FX_ONE);
    let plane = Plane { point: Vec3::new(0, 0, 0), normal: Vec3::new(0, FX_ONE, 0), material };
    let camera = Camera::new(
        Vec3::new(0, fx(5.0), 0),
        Vec3::new(0, 0, 0),
        Vec3::new(0, 0, FX_MINUS_ONE),
    );
    (plane, Vec::new(), camera, white_light(), load_skybox())
}

#[test]
fn two_by_two_overhead_render_shows_tile_and_sky() {
    // A 2x2 image of the bare ground tile seen from straight above: the
    // pixel whose ray goes straight down hits the tile; the other three
    // rays land outside |x|,|z| <= 1 and show the day sky exactly.
    let (plane, cubes, camera, light, sky) = overhead_scene();
    let mut fb = Framebuffer::new(2, 2);
    render(&mut fb, &plane, &cubes, &camera, &light, &sky);

    let sky_hex = Color::new(135, 206, 235).to_hex();
    assert_eq!(fb.buffer[0], sky_hex);
    assert_eq!(fb.buffer[1], sky_hex);
    assert_eq!(fb.buffer[2], sky_hex);

    // The (1, 1) ray is exactly (0, -1, 0); shading it through cast_ray
    // directly must give the same packed color the renderer wrote.
    let down = Vec3::new(0, FX_MINUS_ONE, 0);
    let expected = cast_ray(&camera.eye, &down, &plane, &light, 0, &sky).to_hex();
    assert_eq!(fb.buffer[3], expected);
    assert_ne!(fb.buffer[3], sky_hex);

    // And the same pixel through the single-pixel entry point.
    assert_eq!(render_pixel(&plane, &cubes, &camera, &light, &sky, 2, 2, 1, 1), expected);
    assert_eq!(render_pixel(&plane, &cubes, &camera, &light, &sky, 2, 2, 0, 0), sky_hex);
}

#[test]
fn nearest_cube_overrides_the_base_color() {
    // Two cubes stacked along the view ray: the scan keeps the nearer one.
    let (plane, _, camera, light, sky) = overhead_scene();
    let red = Material::new(Color::new(200, 0, 0), 50, (FX_ONE, 0, 0, 0), FX_ONE);
    let blue = Material::new(Color::new(0, 0, 200), 50, (FX_ONE, 0, 0, 0), FX_ONE);
    let far = Cube::new(Vec3::new(0, fx(1.0), 0), FX_ONE, red);
    let near = Cube::new(Vec3::new(0, fx(3.0), 0), FX_ONE, blue);
    let down = Vec3::new(0, FX_MINUS_ONE, 0);

    let cubes = vec![far, near];
    let px = render_pixel(&plane, &cubes, &camera, &light, &sky, 2, 2, 1, 1);
    let expected = cast_ray(&camera.eye, &down, &near, &light, 0, &sky).to_hex();
    assert_eq!(px, expected);

    // The same scene with the scan order reversed resolves the same pixel.
    let cubes_rev = vec![near, far];
    assert_eq!(render_pixel(&plane, &cubes_rev, &camera, &light, &sky, 2, 2, 1, 1), expected);
}
