use terra_graphics_engine::context::{init_opengl_drawing, TContext};
use terra_graphics_engine::draw::{
    draw_circle_call, draw_quarter_circle_call, draw_rect_call, place_img_call,
    rounded_rect_steps, Attribute, GlCommand, RoundedStep, Shape, Span, Tint, Topology,
};
use terra_graphics_engine::geometry::{quad_corners, Corner};
use terra_graphics_engine::texture::{prepare_texture, wants_mipmaps};

fn ready() -> TContext {
    let mut ctx = TContext::init();
    init_opengl_drawing(&mut ctx, 3, 1, 2);
    ctx
}

#[test]
fn rectangle_after_setup_draws_six_vertices() {
    let ctx = ready();
    let d = draw_rect_call(&ctx);
    assert_eq!((d.vertex_array, d.vertex_buffer, d.program), (1, 2, 3));
    assert_eq!(d.topology, Topology::Triangles);
    assert_eq!(d.vertex_count, 6);
    assert_eq!(d.stride, 2);
    assert_eq!(d.tint, Tint::Given);
    assert!(matches!(d.shape, Shape::Quad));
    let (x, y, w, h) = (0.0f32, 0.0f32, 100.0f32, 50.0f32);
    let pts: Vec<(f32, f32)> = quad_corners()
        .iter()
        .map(|c| (if c.ux == 1 { x + w } else { x }, if c.uy == 1 { y + h } else { y }))
        .collect();
    assert_eq!(
        pts,
        vec![(0.0, 0.0), (100.0, 0.0), (0.0, 50.0), (100.0, 0.0), (100.0, 50.0), (0.0, 50.0)]
    );
}

#[test]
fn hexagon_has_centre_six_corners_and_closing_vertex() {
    let ctx = ready();
    let d = draw_circle_call(&ctx, 6);
    assert_eq!(d.vertex_count, 8);
    assert_eq!(d.topology, Topology::TriangleFan);
    let f = match d.shape {
        Shape::Fan(f) => f,
        _ => panic!("a circle is a fan"),
    };
    assert_eq!(f.samples.len(), 7);
    let r = 10.0f64;
    for (i, s) in f.samples.iter().enumerate().take(6) {
        let a = 2.0 * std::f64::consts::PI * s.num as f64 / s.den as f64;
        let expected = (i as f64 * 60.0).to_radians();
        assert!((a - expected).abs() < 1e-12);
        assert!(((r * a.cos()).hypot(r * a.sin()) - r).abs() < 1e-12);
    }
}

#[test]
fn quarter_circle_draws_segments_plus_two() {
    let ctx = ready();
    let d = draw_quarter_circle_call(&ctx, 100, "top-left").unwrap();
    assert_eq!(d.vertex_count, 102);
    assert_eq!(d.topology, Topology::TriangleFan);
    let d = draw_quarter_circle_call(&ctx, -1, "top-left").unwrap();
    assert_eq!(d.vertex_count, 1);
}

#[test]
fn unknown_corner_draws_nothing() {
    let ctx = ready();
    assert!(draw_quarter_circle_call(&ctx, 100, "left").is_none());
}

#[test]
fn missing_texture_file_is_an_error_without_a_draw() {
    let ctx = ready();
    let loaded = image::open("/nonexistent/texture.png")
        .map(|_| 1u32)
        .map_err(|e| format!("Failed to open image: {}", e));
    match place_img_call(&ctx, loaded) {
        Err(m) => assert!(m.starts_with("Failed to open image")),
        Ok(_) => panic!("expected a texture error"),
    }
}

#[test]
fn textured_quad_interleaves_texture_coordinates() {
    let ctx = ready();
    let d = place_img_call(&ctx, Ok(42)).unwrap();
    assert_eq!(d.texture, Some(42));
    assert_eq!(d.stride, 4);
    assert_eq!(d.vertex_count, 6);
    assert_eq!(d.tint, Tint::White);
    assert_eq!(
        d.attributes,
        vec![
            Attribute { index: 0, size: 2, offset: 0 },
            Attribute { index: 1, size: 2, offset: 2 }
        ]
    );
}

#[test]
fn rounded_rectangle_is_the_same_every_time() {
    let a = rounded_rect_steps();
    let b = rounded_rect_steps();
    assert_eq!(a, b);
    assert_eq!(a.len(), 9);
    assert_eq!(a[0], RoundedStep::EnableBlend);
    assert_eq!(a[8], RoundedStep::DisableBlend);
    assert_eq!(
        a[1],
        RoundedStep::Rect {
            x: Span { along: 0, radii: 1 },
            y: Span { along: 0, radii: 0 },
            width: Span { along: 1, radii: -2 },
            height: Span { along: 1, radii: 0 },
        }
    );
    assert_eq!(
        a[2],
        RoundedStep::Rect {
            x: Span { along: 0, radii: 0 },
            y: Span { along: 0, radii: 1 },
            width: Span { along: 0, radii: 1 },
            height: Span { along: 1, radii: -2 },
        }
    );
    assert_eq!(
        a[3],
        RoundedStep::Rect {
            x: Span { along: 1, radii: -1 },
            y: Span { along: 0, radii: 1 },
            width: Span { along: 0, radii: 1 },
            height: Span { along: 1, radii: -2 },
        }
    );
    assert_eq!(
        a[7],
        RoundedStep::Arc {
            x: Span { along: 1, radii: -1 },
            y: Span { along: 1, radii: -1 },
            corner: Corner::BottomRight,
            segments: 100,
        }
    );
}

#[test]
fn mipmaps_only_for_power_of_two_sizes() {
    assert!(wants_mipmaps(256, 64));
    assert!(wants_mipmaps(1, 1));
    assert!(!wants_mipmaps(256, 100));
    assert!(!wants_mipmaps(0, 64));
    assert!(!wants_mipmaps(3, 4));
}

#[test]
fn decoded_image_becomes_rgba_bytes() {
    let t = prepare_texture(&image::DynamicImage::new_luma8(2, 4));
    assert_eq!((t.width, t.height), (2, 4));
    assert_eq!(t.pixels.len(), 2 * 4 * 4);
    assert!(t.mipmaps);
    let t = prepare_texture(&image::DynamicImage::new_rgba8(3, 4));
    assert_eq!(t.pixels.len(), 3 * 4 * 4);
    assert!(!t.mipmaps);
}

#[test]
fn rectangle_commands_follow_the_draw_protocol() {
    let ctx = ready();
    let d = draw_rect_call(&ctx);
    assert_eq!(
        d.commands(),
        vec![
            GlCommand::EnableBlend,
            GlCommand::BindVertexArray(Some(1)),
            GlCommand::BindArrayBuffer(Some(2)),
            GlCommand::UploadVertices,
            GlCommand::VertexAttribute {
                attribute: Attribute { index: 0, size: 2, offset: 0 },
                stride: 2
            },
            GlCommand::SetColor(Tint::Given),
            GlCommand::DrawArrays { topology: Topology::Triangles, count: 6 },
            GlCommand::BindArrayBuffer(None),
            GlCommand::BindVertexArray(None),
        ]
    );
}

#[test]
fn textured_commands_bind_and_release_the_texture() {
    let ctx = ready();
    let d = place_img_call(&ctx, Ok(7)).unwrap();
    let c = d.commands();
    assert_eq!(c.len(), 13);
    assert_eq!(c[0], GlCommand::EnableBlend);
    assert_eq!(
        c[5],
        GlCommand::VertexAttribute { attribute: Attribute { index: 1, size: 2, offset: 2 }, stride: 4 }
    );
    assert_eq!(c[6], GlCommand::BindTexture(Some(7)));
    assert_eq!(c[7], GlCommand::SetColor(Tint::White));
    assert_eq!(c[8], GlCommand::SetImageUnit);
    assert_eq!(c[9], GlCommand::DrawArrays { topology: Topology::Triangles, count: 6 });
    assert_eq!(c[10], GlCommand::BindTexture(None));
    assert_eq!(c[12], GlCommand::BindVertexArray(None));
}

#[test]
fn fan_commands_draw_every_vertex() {
    let ctx = ready();
    let d = draw_circle_call(&ctx, 6);
    let c = d.commands();
    assert_eq!(c[6], GlCommand::DrawArrays { topology: Topology::TriangleFan, count: 8 });
    assert!(!c.contains(&GlCommand::SetImageUnit));
}

#[test]
fn decoded_pixels_are_converted_to_rgba() {
    let rgb = image::RgbImage::from_pixel(2, 1, image::Rgb([10, 20, 30]));
    let t = prepare_texture(&image::DynamicImage::ImageRgb8(rgb));
    assert_eq!((t.width, t.height), (2, 1));
    assert_eq!(t.pixels, vec![10, 20, 30, 255, 10, 20, 30, 255]);
    assert!(t.mipmaps);
}
