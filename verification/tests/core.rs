//! Tests of the adjustment parameters, the texture store, the pipeline
//! description, the renderer's dirty tracking, and the pixel transform.

use editor_studio::bitmap::Image;
use editor_studio::decode::ImageFormat;
use editor_studio::error::RenderError;
use editor_studio::params::AdjustmentParams;
use editor_studio::pipelines::{BindingKind, RenderPipelines, FULLSCREEN_VERTEX_COUNT};
use editor_studio::renderer::{Renderer, RenderWork};
use editor_studio::shader::{shade_image, shade_pixel};
use editor_studio::texture::TextureManager;

fn white() -> (u8, u8, u8, u8) {
    (255, 255, 255, 255)
}

#[test]
fn params_default_values() {
    let p = AdjustmentParams::default();
    assert_eq!(p.brightness, 0);
    assert_eq!(p.contrast, 1000);
    assert_eq!(p.saturation, 1000);
    assert_eq!(p.padding, 0);
}

#[test]
fn params_reset_restores_defaults() {
    let mut p = AdjustmentParams::default();
    p.set_brightness(700);
    p.set_contrast(30);
    p.set_saturation(1999);
    p.reset();
    assert_eq!(p, AdjustmentParams::default());
}

#[test]
fn setters_clamp_to_nearest_boundary() {
    let mut p = AdjustmentParams::default();
    p.set_brightness(5000);
    assert_eq!(p.brightness, 1000);
    p.set_brightness(-5000);
    assert_eq!(p.brightness, -1000);
    p.set_brightness(250);
    assert_eq!(p.brightness, 250);
    p.set_contrast(-1);
    assert_eq!(p.contrast, 0);
    p.set_contrast(9999);
    assert_eq!(p.contrast, 2000);
    p.set_contrast(1500);
    assert_eq!(p.contrast, 1500);
    p.set_saturation(-42);
    assert_eq!(p.saturation, 0);
    p.set_saturation(2001);
    assert_eq!(p.saturation, 2000);
    p.set_saturation(1);
    assert_eq!(p.saturation, 1);
}

#[test]
fn encode_is_little_endian_in_field_order() {
    let block = AdjustmentParams::default().encode();
    assert_eq!(
        block,
        vec![0, 0, 0, 0, 232, 3, 0, 0, 232, 3, 0, 0, 0, 0, 0, 0]
    );
    let mut p = AdjustmentParams::default();
    p.set_brightness(-1000);
    let dark = p.encode();
    assert_eq!(dark.len(), 16);
    // -1000 in two's complement, little-endian
    assert_eq!(&dark[0..4], &[24, 252, 255, 255]);
    assert_eq!(&dark[12..16], &[0, 0, 0, 0]);
}

#[test]
fn texture_store_lifecycle() {
    let mut tm = TextureManager::new(8192);
    assert!(tm.source_texture().is_none());
    let zeroed = *tm.uniform_buffer();
    assert_eq!(zeroed.brightness, 0);
    assert_eq!(zeroed.contrast, 0);
    assert_eq!(zeroed.saturation, 0);
    assert!(tm.load_image(100, 50).is_ok());
    let dims = tm.source_texture().expect("texture resident after load");
    assert_eq!(dims.width, 100);
    assert_eq!(dims.height, 50);
    let p = AdjustmentParams::default();
    tm.update_uniform_buffer(&p);
    assert_eq!(*tm.uniform_buffer(), p);
}

#[test]
fn texture_store_rejects_oversized_image() {
    let mut tm = TextureManager::new(8192);
    assert!(tm.load_image(100, 50).is_ok());
    assert_eq!(tm.load_image(9000, 10), Err(RenderError::ImageTooLarge));
    assert_eq!(tm.load_image(10, 8193), Err(RenderError::ImageTooLarge));
    // the previously loaded texture is untouched
    let dims = tm.source_texture().unwrap();
    assert_eq!((dims.width, dims.height), (100, 50));
}

#[test]
fn pipeline_layout_names_three_slots() {
    let p = RenderPipelines::new();
    let pipeline = p.main_pipeline().expect("pipeline built at construction");
    assert_eq!(pipeline.vertex_count, FULLSCREEN_VERTEX_COUNT);
    let layout = p.bind_group_layout().expect("layout built at construction");
    assert_eq!(layout.len(), 3);
    assert_eq!(layout[0].binding, 0);
    assert_eq!(layout[0].kind, BindingKind::SampledTexture);
    assert_eq!(layout[1].binding, 1);
    assert_eq!(layout[1].kind, BindingKind::Sampler);
    assert_eq!(layout[2].binding, 2);
    assert_eq!(layout[2].kind, BindingKind::UniformBuffer);
}

#[test]
fn bind_requires_a_texture() {
    let p = RenderPipelines::new();
    let mut tm = TextureManager::new(8192);
    assert_eq!(p.bind(&tm).unwrap_err(), RenderError::NoImageLoaded);
    tm.load_image(4, 3).unwrap();
    let plan = p.bind(&tm).unwrap();
    assert_eq!((plan.texture.width, plan.texture.height), (4, 3));
}

#[test]
fn render_before_load_fails_without_device_work() {
    let mut r = Renderer::new(8192);
    assert_eq!(r.render().unwrap_err(), RenderError::NoImageLoaded);
    // still empty, still clean: a second call fails the same way
    assert_eq!(r.render().unwrap_err(), RenderError::NoImageLoaded);
}

#[test]
fn render_twice_draws_once() {
    let mut r = Renderer::new(8192);
    r.load_image(1, 1).unwrap();
    let first = r.render().unwrap();
    match first {
        RenderWork::Draw(plan) => {
            assert_eq!(plan.params, AdjustmentParams::default());
            assert_eq!(plan.vertex_count, FULLSCREEN_VERTEX_COUNT);
            assert_eq!((plan.bind_group.texture.width, plan.bind_group.texture.height), (1, 1));
        }
        RenderWork::Skipped => panic!("first render after a load must draw"),
    }
    // the pass pushed the parameters to the store's buffer
    assert_eq!(*r.texture_manager().uniform_buffer(), AdjustmentParams::default());
    let second = r.render().unwrap();
    assert_eq!(second, RenderWork::Skipped);
}

#[test]
fn any_setter_forces_a_redraw() {
    let mut r = Renderer::new(8192);
    r.load_image(2, 2).unwrap();
    r.render().unwrap();
    r.set_brightness(5000);
    assert!(matches!(r.render().unwrap(), RenderWork::Draw(_)));
    // clamps to the same stored value, but still forces a pass
    r.set_brightness(1000);
    assert_eq!(r.params().brightness, 1000);
    assert!(matches!(r.render().unwrap(), RenderWork::Draw(_)));
    assert_eq!(r.render().unwrap(), RenderWork::Skipped);
}

#[test]
fn reset_and_request_render_dirty_the_state() {
    let mut r = Renderer::new(8192);
    r.load_image(2, 2).unwrap();
    r.set_contrast(40);
    r.set_saturation(1200);
    r.render().unwrap();
    r.reset_adjustments();
    assert_eq!(*r.params(), AdjustmentParams::default());
    assert!(matches!(r.render().unwrap(), RenderWork::Draw(_)));
    r.request_render();
    assert!(matches!(r.render().unwrap(), RenderWork::Draw(_)));
}

#[test]
fn failed_load_keeps_previous_texture_and_flag() {
    let mut r = Renderer::new(8192);
    r.load_image(10, 10).unwrap();
    r.render().unwrap();
    assert_eq!(r.load_image(8193, 1), Err(RenderError::ImageTooLarge));
    let dims = r.texture_manager().source_texture().unwrap();
    assert_eq!((dims.width, dims.height), (10, 10));
    // the failed load did not dirty the state either
    assert_eq!(r.render().unwrap(), RenderWork::Skipped);
}

#[test]
fn neutral_parameters_leave_white_pixel_unchanged() {
    let (r, g, b, a) = white();
    let out = shade_pixel(r, g, b, a, &AdjustmentParams::default());
    assert_eq!(out, (255, 255, 255, 255));
}

#[test]
fn full_darkening_clamps_white_to_black() {
    let mut p = AdjustmentParams::default();
    p.set_brightness(-1000);
    let (r, g, b, a) = white();
    let out = shade_pixel(r, g, b, a, &p);
    assert_eq!(out, (0, 0, 0, 255));
}

#[test]
fn neutral_parameters_are_identity_on_any_pixel() {
    let p = AdjustmentParams::default();
    for &(r, g, b, a) in
        &[(0, 0, 0, 0), (1, 2, 3, 4), (10, 200, 30, 128), (255, 0, 255, 7)]
    {
        assert_eq!(shade_pixel(r, g, b, a, &p), (r, g, b, a));
    }
}

#[test]
fn shade_image_matches_pixel_transform() {
    let img = Image {
        data: vec![255, 255, 255, 255],
        width: 1,
        height: 1,
        format: ImageFormat::Rgba8,
    };
    let same = shade_image(&img, &AdjustmentParams::default());
    assert_eq!(same.data, vec![255, 255, 255, 255]);
    let mut p = AdjustmentParams::default();
    p.set_brightness(-1000);
    let dark = shade_image(&img, &p);
    assert_eq!(dark.data, vec![0, 0, 0, 255]);
    assert_eq!((dark.width, dark.height), (1, 1));
}

#[test]
fn error_messages_name_the_failure() {
    assert_eq!(RenderError::NoImageLoaded.message(), "no image is loaded");
    assert_eq!(
        RenderError::ImageTooLarge.message(),
        "image exceeds the device texture limit"
    );
    assert_eq!(RenderError::UploadFailed.message(), "the device rejected the transfer");
    assert_eq!(
        RenderError::DeviceInitFailed.message(),
        "the graphics device could not be initialized"
    );
}
