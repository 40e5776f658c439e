use solar_raster::fx::{FX_ONE, FX_HALF};
use solar_raster::vec3::Vec3;
use solar_raster::vertex::{Vertex, Color3};
use solar_raster::framebuffer::{Framebuffer, rgb_to_u32, DEPTH_FAR, BACKGROUND_COLOR};
use solar_raster::raster::{
    rasterize_triangle, rasterize_with_shader, render_mesh, edge_function, to_screen,
    to_screen_coords, is_visible, calculate_face_normal, draw_line, Triangle,
};
use solar_raster::vertex::TransformedVertex;
use solar_raster::shaders::ShaderType;

fn ndc_x(px: i64, w: i64) -> i64 {
    2 * px * FX_ONE / w - FX_ONE
}

fn ndc_y(py: i64, h: i64) -> i64 {
    FX_ONE - 2 * py * FX_ONE / h
}

fn white_vertex(x: i64, y: i64, z: i64) -> Vertex {
    Vertex::new(
        Vec3::new(x, y, z),
        Vec3::new(0, 0, FX_ONE),
        Color3 { r: FX_ONE, g: FX_ONE, b: FX_ONE },
    )
}

fn colored_vertex(x: i64, y: i64, z: i64, color: Color3) -> Vertex {
    Vertex::new(Vec3::new(x, y, z), Vec3::new(0, 0, FX_ONE), color)
}

#[test]
fn screen_mapping_is_exact_on_grid_points() {
    let p = Vec3::new(ndc_x(10, 64), ndc_y(10, 64), FX_HALF);
    let s = to_screen(&p, 64, 64);
    assert_eq!(s, (10, 10));
    let s2 = to_screen_coords(&p, 64, 64);
    assert_eq!(s2, (10, 10));
}

#[test]
fn edge_function_values_sum_to_area() {
    let (x0, y0, x1, y1, x2, y2) = (10i64, 10i64, 50i64, 10i64, 30i64, 40i64);
    let area = edge_function(x0, y0, x1, y1, x2, y2);
    for p in [(30i64, 20i64), (0i64, 0i64), (49i64, 11i64)] {
        let w0 = edge_function(x1, y1, x2, y2, p.0, p.1);
        let w1 = edge_function(x2, y2, x0, y0, p.0, p.1);
        let w2 = edge_function(x0, y0, x1, y1, p.0, p.1);
        assert_eq!(w0 + w1 + w2, area);
    }
}

#[test]
fn single_triangle_interior_and_exterior_pixels() {
    let mut fb = Framebuffer::new(64, 64);
    fb.clear();
    let v0 = white_vertex(ndc_x(10, 64), ndc_y(10, 64), FX_HALF);
    let v1 = white_vertex(ndc_x(50, 64), ndc_y(10, 64), FX_HALF);
    let v2 = white_vertex(ndc_x(30, 64), ndc_y(40, 64), FX_HALF);
    let light = Vec3::new(0, 0, FX_ONE);
    rasterize_triangle(&mut fb, &v0, &v1, &v2, &light, true);
    // Interior pixel: pure white, exactly — the renormalized weights sum
    // to one, so equal vertex attributes interpolate to themselves.
    let interior = fb.buffer[20 * 64 + 30];
    assert_eq!(interior, rgb_to_u32(255, 255, 255));
    assert_ne!(interior, fb.background_color);
    // Exterior pixel keeps the background.
    assert_eq!(fb.buffer[0], BACKGROUND_COLOR);
    assert_eq!(fb.zbuffer[0], DEPTH_FAR);
    // Interior depth is exactly the shared vertex depth 0.5.
    assert_eq!(fb.zbuffer[20 * 64 + 30], FX_HALF);
}

#[test]
fn overlapping_triangles_keep_the_closer_color_in_either_order() {
    let red = Color3 { r: FX_ONE, g: 0, b: 0 };
    let green = Color3 { r: 0, g: FX_ONE, b: 0 };
    let make = |z: i64, c: Color3| {
        (
            colored_vertex(ndc_x(10, 64), ndc_y(10, 64), z, c),
            colored_vertex(ndc_x(50, 64), ndc_y(10, 64), z, c),
            colored_vertex(ndc_x(30, 64), ndc_y(40, 64), z, c),
        )
    };
    let near = make(19661, red);
    let far = make(45875, green);
    let light = Vec3::new(0, 0, FX_ONE);

    let mut fb_near_first = Framebuffer::new(64, 64);
    fb_near_first.clear();
    rasterize_triangle(&mut fb_near_first, &near.0, &near.1, &near.2, &light, true);
    rasterize_triangle(&mut fb_near_first, &far.0, &far.1, &far.2, &light, true);

    let mut fb_far_first = Framebuffer::new(64, 64);
    fb_far_first.clear();
    rasterize_triangle(&mut fb_far_first, &far.0, &far.1, &far.2, &light, true);
    rasterize_triangle(&mut fb_far_first, &near.0, &near.1, &near.2, &light, true);

    let mut fb_near_only = Framebuffer::new(64, 64);
    fb_near_only.clear();
    rasterize_triangle(&mut fb_near_only, &near.0, &near.1, &near.2, &light, true);

    let idx = 20 * 64 + 30;
    assert_eq!(fb_near_first.buffer[idx], fb_near_only.buffer[idx]);
    assert_eq!(fb_far_first.buffer[idx], fb_near_only.buffer[idx]);
    assert_eq!(fb_near_first.zbuffer[idx], fb_far_first.zbuffer[idx]);
    // The stored depth is exactly the near triangle's 0.3.
    assert_eq!(fb_near_first.zbuffer[idx], 19661);
    // The stored color is dominated by red, not green.
    let pixel = fb_near_first.buffer[idx];
    assert!((pixel >> 16) & 0xFF > (pixel >> 8) & 0xFF);
}

#[test]
fn whole_depth_buffers_agree_between_render_orders() {
    let red = Color3 { r: FX_ONE, g: 0, b: 0 };
    let a = (
        colored_vertex(ndc_x(5, 64), ndc_y(5, 64), 13107, red),
        colored_vertex(ndc_x(60, 64), ndc_y(8, 64), 19661, red),
        colored_vertex(ndc_x(33, 64), ndc_y(55, 64), 26214, red),
    );
    let b = (
        colored_vertex(ndc_x(12, 64), ndc_y(50, 64), 45875, red),
        colored_vertex(ndc_x(55, 64), ndc_y(44, 64), 39322, red),
        colored_vertex(ndc_x(30, 64), ndc_y(3, 64), 52429, red),
    );
    let light = Vec3::new(0, 0, FX_ONE);
    let mut fb1 = Framebuffer::new(64, 64);
    fb1.clear();
    rasterize_triangle(&mut fb1, &a.0, &a.1, &a.2, &light, true);
    rasterize_triangle(&mut fb1, &b.0, &b.1, &b.2, &light, true);
    let mut fb2 = Framebuffer::new(64, 64);
    fb2.clear();
    rasterize_triangle(&mut fb2, &b.0, &b.1, &b.2, &light, true);
    rasterize_triangle(&mut fb2, &a.0, &a.1, &a.2, &light, true);
    for i in 0..fb1.zbuffer.len() {
        assert_eq!(fb1.zbuffer[i], fb2.zbuffer[i]);
    }
}

#[test]
fn degenerate_triangle_is_skipped() {
    let mut fb = Framebuffer::new(32, 32);
    fb.clear();
    let v = white_vertex(0, 0, FX_HALF);
    let light = Vec3::new(0, 0, FX_ONE);
    rasterize_triangle(&mut fb, &v, &v, &v, &light, true);
    for i in 0..fb.zbuffer.len() {
        assert_eq!(fb.zbuffer[i], DEPTH_FAR);
    }
}

#[test]
fn depth_test_rejects_farther_writes() {
    let mut fb = Framebuffer::new(4, 4);
    fb.clear();
    fb.set_pixel(1, 1, 1000, 0xFFAA0000);
    assert_eq!(fb.zbuffer[1 * 4 + 1], 1000);
    assert_eq!(fb.buffer[1 * 4 + 1], 0xFFAA0000);
    fb.set_pixel(1, 1, 2000, 0xFF00BB00);
    assert_eq!(fb.zbuffer[1 * 4 + 1], 1000);
    assert_eq!(fb.buffer[1 * 4 + 1], 0xFFAA0000);
    fb.set_pixel(1, 1, 500, 0xFF0000CC);
    assert_eq!(fb.zbuffer[1 * 4 + 1], 500);
    assert_eq!(fb.buffer[1 * 4 + 1], 0xFF0000CC);
    // Out-of-bounds writes are silently discarded.
    fb.set_pixel(10, 10, 0, 0xFFFFFFFF);
}

#[test]
fn line_drawing_writes_endpoints_without_depth() {
    let mut fb = Framebuffer::new(16, 16);
    fb.clear();
    draw_line(&mut fb, 2, 3, 12, 9, 0xFF123456);
    assert_eq!(fb.buffer[3 * 16 + 2], 0xFF123456);
    assert_eq!(fb.buffer[9 * 16 + 12], 0xFF123456);
    // The walk takes one horizontal step per column: at least 11 pixels.
    let lit = fb.buffer.iter().filter(|&&c| c == 0xFF123456).count();
    assert!(lit >= 11);
    for i in 0..fb.zbuffer.len() {
        assert_eq!(fb.zbuffer[i], DEPTH_FAR);
    }
}

#[test]
fn visibility_and_face_normals() {
    assert!(is_visible(&Vec3::new(0, 0, FX_HALF)));
    assert!(!is_visible(&Vec3::new(2 * FX_ONE, 0, FX_HALF)));
    assert!(!is_visible(&Vec3::new(0, 0, -1)));
    let n = calculate_face_normal(
        &Vec3::new(0, 0, 0),
        &Vec3::new(FX_ONE, 0, 0),
        &Vec3::new(0, FX_ONE, 0),
    );
    assert_eq!((n.x, n.y, n.z), (0, 0, FX_ONE));
}

fn tvert(x: i64, y: i64, z: i64) -> TransformedVertex {
    let p = Vec3::new(x, y, z);
    TransformedVertex { screen: p, normal: Vec3::new(0, 0, FX_ONE), local: p }
}

#[test]
fn mesh_rendering_matches_per_triangle_rasterization() {
    let t1 = Triangle {
        a: tvert(ndc_x(8, 64), ndc_y(8, 64), 19661),
        b: tvert(ndc_x(52, 64), ndc_y(12, 64), 26214),
        c: tvert(ndc_x(28, 64), ndc_y(48, 64), 13107),
    };
    let t2 = Triangle {
        a: tvert(ndc_x(16, 64), ndc_y(40, 64), 45875),
        b: tvert(ndc_x(58, 64), ndc_y(36, 64), 39322),
        c: tvert(ndc_x(34, 64), ndc_y(6, 64), 52429),
    };
    let light = Vec3::new(FX_ONE, FX_ONE, 2 * FX_ONE).normalize();
    let mut fb_mesh = Framebuffer::new(64, 64);
    fb_mesh.clear();
    render_mesh(&mut fb_mesh, &vec![t1, t2], ShaderType::Rocky, FX_ONE, &light);
    let mut fb_single = Framebuffer::new(64, 64);
    fb_single.clear();
    rasterize_with_shader(&mut fb_single, &t1.a, &t1.b, &t1.c, ShaderType::Rocky, FX_ONE, &light);
    rasterize_with_shader(&mut fb_single, &t2.a, &t2.b, &t2.c, ShaderType::Rocky, FX_ONE, &light);
    for i in 0..fb_mesh.buffer.len() {
        assert_eq!(fb_mesh.buffer[i], fb_single.buffer[i]);
        assert_eq!(fb_mesh.zbuffer[i], fb_single.zbuffer[i]);
    }
    // Something was actually drawn.
    assert!(fb_mesh.zbuffer.iter().any(|&z| z != DEPTH_FAR));
}

#[test]
fn line_endpoints_take_the_color_even_when_steep_or_reversed() {
    let mut fb = Framebuffer::new(16, 16);
    fb.clear();
    draw_line(&mut fb, 12, 14, 3, 1, 0xFFABCDEF);
    assert_eq!(fb.buffer[14 * 16 + 12], 0xFFABCDEF);
    assert_eq!(fb.buffer[1 * 16 + 3], 0xFFABCDEF);
    // A single-point line colors its one pixel.
    draw_line(&mut fb, 5, 5, 5, 5, 0xFF101010);
    assert_eq!(fb.buffer[5 * 16 + 5], 0xFF101010);
    // Endpoints outside the framebuffer are clipped: the walk still colors
    // the pixels it crosses inside, and panics nowhere.
    draw_line(&mut fb, -8, -3, 40, 40, 0xFF202020);
    assert!(fb.buffer.iter().any(|&c| c == 0xFF202020));
}
