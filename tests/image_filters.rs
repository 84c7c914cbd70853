use skia_safe::image_filters::{
    alpha_threshold, arithmetic, blur, color_filter, compose, dilate, displacement_map,
    distant_lit_diffuse, distant_lit_specular, drop_shadow, drop_shadow_only, erode, image,
    kernel_fits, magnifier, matrix_convolution, matrix_transform, merge, offset, paint, picture,
    point_lit_diffuse, point_lit_specular, spot_lit_diffuse, spot_lit_specular, tile, xfermode,
};
use skia_safe::native::{Engine, FilterOp, Node};
use skia_safe::objects::{ColorFilter, Image, ImageFilter, Picture};
use skia_safe::types::{
    BlendMode, Color, ColorChannel, FilterQuality, IPoint, IRect, ISize, Matrix, Paint, Point3,
    Rect, Region, Scalar, TileMode, Vector,
};

fn scalar(v: f32) -> Scalar {
    Scalar::from_bits(v.to_bits())
}

fn fill() -> Paint {
    Paint { color: Color::new(0xff00_ff00), blend_mode: BlendMode::SrcOver, anti_alias: true }
}

fn source(e: &mut Engine) -> ImageFilter {
    paint(e, &fill(), None).unwrap()
}

fn op_at(e: &Engine, a: usize) -> (&FilterOp, Option<IRect>) {
    match e.node(a) {
        Node::Filter { op, crop } => (op, *crop),
        other => panic!("not a filter: {:?}", other),
    }
}

#[test]
fn kernel_size_mismatch_is_detected() {
    assert!(!kernel_fits(ISize::new(2, 2), 6));
    assert!(kernel_fits(ISize::new(2, 2), 4));
    assert!(kernel_fits(ISize::new(3, 2), 6));
    assert!(kernel_fits(ISize::new(-2, -3), 6));
    assert!(!kernel_fits(ISize::new(-1, 2), 0));
    assert!(kernel_fits(ISize::new(0, 5), 0));
}

#[test]
fn matrix_convolution_keeps_kernel() {
    let mut e = Engine::new(8);
    let input = source(&mut e);
    let kernel = [scalar(1.0), scalar(2.0), scalar(3.0), scalar(4.0)];
    let f = matrix_convolution(
        &mut e,
        ISize::new(2, 2),
        &kernel,
        scalar(1.0),
        scalar(0.0),
        IPoint::new(1, 1),
        TileMode::Clamp,
        true,
        input,
        None,
    )
    .unwrap();
    match op_at(&e, f.addr()).0 {
        FilterOp::MatrixConvolution { size, kernel: k, tile_mode, convolve_alpha, .. } => {
            assert_eq!(*size, ISize::new(2, 2));
            assert_eq!(k.as_slice(), &kernel[..]);
            assert_eq!(*tile_mode, TileMode::Clamp);
            assert!(*convolve_alpha);
        }
        other => panic!("unexpected {:?}", other),
    }
    f.drop_in(&mut e);
}

#[test]
fn image_source_defaults_to_bounds() {
    let mut e = Engine::new(8);
    let img = Image::new_raster(&mut e, 640, 480).unwrap();
    let a = img.addr();
    let f = image(&mut e, img, None, None, None).unwrap();
    let bounds = Rect::from_iwh(640, 480);
    assert_eq!(
        op_at(&e, f.addr()),
        (&FilterOp::Image { src: bounds, dst: bounds, quality: FilterQuality::High }, None)
    );
    assert_eq!(e.inputs(f.addr()), &vec![a]);
    assert_eq!(e.ref_count(a), 1);
    f.drop_in(&mut e);
    assert!(!e.is_live(a));
}

#[test]
fn image_explicit_rects_are_kept() {
    let mut e = Engine::new(8);
    let img = Image::new_raster(&mut e, 64, 48).unwrap();
    let src = Rect::new(scalar(1.0), scalar(2.0), scalar(3.0), scalar(4.0));
    let dst = Rect::from_iwh(10, 10);
    let f = image(&mut e, img, Some(&src), Some(&dst), Some(FilterQuality::Low)).unwrap();
    assert_eq!(
        op_at(&e, f.addr()).0,
        &FilterOp::Image { src, dst, quality: FilterQuality::Low }
    );
    f.drop_in(&mut e);
}

#[test]
fn picture_target_defaults_to_cull() {
    let mut e = Engine::new(8);
    let cull = Rect::new(scalar(0.0), scalar(0.0), scalar(100.0), scalar(50.0));
    let pic = Picture::new_picture(&mut e, cull).unwrap();
    let f = picture(&mut e, pic, None).unwrap();
    assert_eq!(op_at(&e, f.addr()).0, &FilterOp::Picture { target: cull });
    let target = Rect::from_iwh(5, 5);
    let pic2 = Picture::new_picture(&mut e, cull).unwrap();
    let g = picture(&mut e, pic2, Some(&target)).unwrap();
    assert_eq!(op_at(&e, g.addr()).0, &FilterOp::Picture { target });
    f.drop_in(&mut e);
    g.drop_in(&mut e);
}

#[test]
fn blur_tile_mode_defaults_to_decal() {
    let mut e = Engine::new(8);
    let input = source(&mut e);
    let f = blur(&mut e, (scalar(2.0), scalar(3.0)), None, input, None).unwrap();
    assert_eq!(
        op_at(&e, f.addr()).0,
        &FilterOp::Blur { sigma_x: scalar(2.0), sigma_y: scalar(3.0), tile_mode: TileMode::Decal }
    );
    let g = blur(&mut e, (scalar(1.0), scalar(1.0)), Some(TileMode::Mirror), f, None).unwrap();
    assert_eq!(
        op_at(&e, g.addr()).0,
        &FilterOp::Blur { sigma_x: scalar(1.0), sigma_y: scalar(1.0), tile_mode: TileMode::Mirror }
    );
    g.drop_in(&mut e);
}

#[test]
fn crop_rect_is_passed_or_left_out() {
    let mut e = Engine::new(8);
    let input = source(&mut e);
    let crop = IRect::new(1, 2, 30, 40);
    let f = offset(&mut e, Vector::new(scalar(5.0), scalar(-5.0)), input, Some(&crop)).unwrap();
    assert_eq!(
        op_at(&e, f.addr()),
        (&FilterOp::Offset { dx: scalar(5.0), dy: scalar(-5.0) }, Some(crop))
    );
    let g = dilate(&mut e, (2, 3), f, None).unwrap();
    assert_eq!(op_at(&e, g.addr()), (&FilterOp::Dilate { radius_x: 2, radius_y: 3 }, None));
    g.drop_in(&mut e);
}

#[test]
fn compose_consumes_both_inputs() {
    let mut e = Engine::new(8);
    let outer = source(&mut e);
    let inner = source(&mut e);
    let (a, b) = (outer.addr(), inner.addr());
    let f = compose(&mut e, outer, inner).unwrap();
    assert_eq!(e.inputs(f.addr()), &vec![a, b]);
    assert_eq!(e.ref_count(a), 1);
    assert_eq!(e.ref_count(b), 1);
    let c = f.addr();
    f.drop_in(&mut e);
    assert!(!e.is_live(c));
    assert!(!e.is_live(a));
    assert!(!e.is_live(b));
}

#[test]
fn declined_compose_still_consumes_inputs() {
    let mut e = Engine::new(2);
    let outer = source(&mut e);
    let inner = source(&mut e);
    let (a, b) = (outer.addr(), inner.addr());
    let kept = inner.clone_in(&mut e);
    assert!(compose(&mut e, outer, inner).is_none());
    assert!(!e.is_live(a));
    assert_eq!(e.ref_count(b), 1);
    kept.drop_in(&mut e);
    assert!(!e.is_live(b));
}

#[test]
fn shared_interior_node_outlives_outer() {
    let mut e = Engine::new(8);
    let base = source(&mut e);
    let a = base.addr();
    let shared = base.clone_in(&mut e);
    let outer = erode(&mut e, (1, 1), base, None).unwrap();
    assert_eq!(e.ref_count(a), 2);
    let o = outer.addr();
    outer.drop_in(&mut e);
    assert!(!e.is_live(o));
    assert!(e.is_live(a));
    assert_eq!(e.ref_count(a), 1);
    shared.drop_in(&mut e);
    assert!(!e.is_live(a));
}

#[test]
fn merge_keeps_input_order() {
    let mut e = Engine::new(8);
    let fs: Vec<ImageFilter> = (0..3).map(|_| source(&mut e)).collect();
    let addrs: Vec<usize> = fs.iter().map(|f| f.addr()).collect();
    let crop = IRect::new(0, 0, 8, 8);
    let m = merge(&mut e, fs, Some(&crop)).unwrap();
    assert_eq!(e.inputs(m.addr()), &addrs);
    assert_eq!(op_at(&e, m.addr()), (&FilterOp::Merge, Some(crop)));
    m.drop_in(&mut e);
    for a in addrs {
        assert!(!e.is_live(a));
    }
}

#[test]
fn merge_of_nothing() {
    let mut e = Engine::new(2);
    let m = merge(&mut e, Vec::new(), None).unwrap();
    assert!(e.inputs(m.addr()).is_empty());
    m.drop_in(&mut e);
}

#[test]
fn xfermode_foreground_is_optional() {
    let mut e = Engine::new(8);
    let bg = source(&mut e);
    let b = bg.addr();
    let f = xfermode(&mut e, BlendMode::Multiply, bg, None, None).unwrap();
    assert_eq!(e.inputs(f.addr()), &vec![b]);
    let fg = source(&mut e);
    let fa = fg.addr();
    let bg2 = f.clone_in(&mut e);
    let g = xfermode(&mut e, BlendMode::Screen, bg2, Some(fg), None).unwrap();
    assert_eq!(e.inputs(g.addr()), &vec![f.addr(), fa]);
    assert_eq!(op_at(&e, g.addr()).0, &FilterOp::Xfermode { mode: BlendMode::Screen });
    f.drop_in(&mut e);
    g.drop_in(&mut e);
    assert!(!e.is_live(b));
}

#[test]
fn two_input_builders_record_their_inputs() {
    let mut e = Engine::new(16);
    let bg = source(&mut e);
    let fg = source(&mut e);
    let (a, b) = (bg.addr(), fg.addr());
    let k = scalar(0.25);
    let f = arithmetic(&mut e, k, k, k, k, true, bg, fg, None).unwrap();
    let fa = f.addr();
    assert_eq!(e.inputs(fa), &vec![a, b]);
    assert_eq!(
        op_at(&e, fa).0,
        &FilterOp::Arithmetic { k1: k, k2: k, k3: k, k4: k, enforce_pm_color: true }
    );
    let cf = ColorFilter::blend(&mut e, Color::new(0x8000_0000), BlendMode::DstIn).unwrap();
    let c = cf.addr();
    let g = color_filter(&mut e, cf, f, None).unwrap();
    assert_eq!(e.inputs(g.addr()), &vec![c, fa]);
    let color = source(&mut e);
    let h = displacement_map(&mut e, (ColorChannel::R, ColorChannel::A), scalar(3.0), g, color, None)
        .unwrap();
    assert_eq!(
        op_at(&e, h.addr()).0,
        &FilterOp::DisplacementMap { x_channel: ColorChannel::R, y_channel: ColorChannel::A, scale: scalar(3.0) }
    );
    assert_eq!(e.inputs(h.addr()).len(), 2);
    h.drop_in(&mut e);
    assert!(!e.is_live(a));
    assert!(!e.is_live(c));
}

#[test]
fn single_input_builders_record_parameters() {
    let mut e = Engine::new(32);
    let color = Color::new(0xff11_2233);
    let p = Point3::new(scalar(1.0), scalar(2.0), scalar(3.0));
    let q = Point3::new(scalar(4.0), scalar(5.0), scalar(6.0));
    let s = scalar(1.5);
    let d = Vector::new(scalar(2.0), scalar(2.0));
    let r = Rect::from_iwh(4, 4);
    let region = Region::new(vec![IRect::new(0, 0, 2, 2), IRect::new(2, 2, 4, 4)]);
    let m = Matrix {
        scale_x: s, skew_x: s, trans_x: s, skew_y: s, scale_y: s, trans_y: s,
        persp_0: s, persp_1: s, persp_2: s,
    };

    let input = source(&mut e);
    let f = drop_shadow(&mut e, d, (s, s), color, input, None).unwrap();
    assert_eq!(op_at(&e, f.addr()).0, &FilterOp::DropShadow { dx: d.x, dy: d.y, sigma_x: s, sigma_y: s, color });
    let f = drop_shadow_only(&mut e, d, (s, s), color, f, None).unwrap();
    assert_eq!(op_at(&e, f.addr()).0, &FilterOp::DropShadowOnly { dx: d.x, dy: d.y, sigma_x: s, sigma_y: s, color });
    let f = magnifier(&mut e, &r, s, f, None).unwrap();
    assert_eq!(op_at(&e, f.addr()).0, &FilterOp::Magnifier { src: r, inset: s });
    let f = matrix_transform(&mut e, &m, FilterQuality::Medium, f).unwrap();
    assert_eq!(op_at(&e, f.addr()).0, &FilterOp::MatrixTransform { matrix: m, quality: FilterQuality::Medium });
    let f = tile(&mut e, &r, &r, f).unwrap();
    assert_eq!(op_at(&e, f.addr()).0, &FilterOp::Tile { src: r, dst: r });
    let f = alpha_threshold(&mut e, &region, s, s, f, None).unwrap();
    assert_eq!(
        op_at(&e, f.addr()).0,
        &FilterOp::AlphaThreshold { region: region.rects.clone(), inner_min: s, outer_max: s }
    );
    let f = distant_lit_diffuse(&mut e, p, color, s, s, f, None).unwrap();
    assert_eq!(op_at(&e, f.addr()).0, &FilterOp::DistantLitDiffuse { direction: p, color, surface_scale: s, kd: s });
    let f = point_lit_diffuse(&mut e, p, color, s, s, f, None).unwrap();
    assert_eq!(op_at(&e, f.addr()).0, &FilterOp::PointLitDiffuse { location: p, color, surface_scale: s, kd: s });
    let f = spot_lit_diffuse(&mut e, p, q, s, s, color, s, s, f, None).unwrap();
    assert_eq!(
        op_at(&e, f.addr()).0,
        &FilterOp::SpotLitDiffuse { location: p, target: q, specular_exponent: s, cutoff_angle: s, color, surface_scale: s, kd: s }
    );
    let f = distant_lit_specular(&mut e, p, color, s, s, s, f, None).unwrap();
    assert_eq!(
        op_at(&e, f.addr()).0,
        &FilterOp::DistantLitSpecular { direction: p, color, surface_scale: s, ks: s, shininess: s }
    );
    let f = point_lit_specular(&mut e, p, color, s, s, s, f, None).unwrap();
    assert_eq!(
        op_at(&e, f.addr()).0,
        &FilterOp::PointLitSpecular { location: p, color, surface_scale: s, ks: s, shininess: s }
    );
    let f = spot_lit_specular(&mut e, p, q, s, s, color, s, s, s, f, None).unwrap();
    assert_eq!(
        op_at(&e, f.addr()).0,
        &FilterOp::SpotLitSpecular { location: p, target: q, specular_exponent: s, cutoff_angle: s, color, surface_scale: s, ks: s, shininess: s }
    );
    let f = erode(&mut e, (1, 2), f, None).unwrap();
    assert_eq!(op_at(&e, f.addr()).0, &FilterOp::Erode { radius_x: 1, radius_y: 2 });
    let n = e.object_count();
    f.drop_in(&mut e);
    for a in 1..=n {
        assert!(!e.is_live(a));
    }
}
