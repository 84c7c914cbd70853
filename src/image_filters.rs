use vstd::prelude::*;

use crate::native::{addrs, Engine, FilterOp, Node, RawPtr};
use crate::objects::{
    image_bounds, made, picture_cull, ColorFilter, Image, ImageFilter, Picture,
};
use crate::types::{
    BlendMode, Color, ColorChannel, FilterQuality, IPoint, IRect, ISize, Matrix, Paint, Point3,
    Rect, Region, Scalar, TileMode, Vector,
};

verus! {

/// The value an optional argument stands for: its own, or the default.
pub open spec fn or_default<T>(o: Option<T>, d: T) -> T {
    match o {
        Some(v) => v,
        None => d,
    }
}

/// The rectangle an optional argument stands for: its own, or the default.
pub open spec fn rect_or(o: Option<&Rect>, d: Rect) -> Rect {
    match o {
        Some(r) => *r,
        None => d,
    }
}

/// The crop rectangle the engine receives: the given one, or none, which the
/// engine reads as the bounds of the filter's input.
pub open spec fn crop_of(crop: Option<&IRect>) -> Option<IRect> {
    match crop {
        Some(r) => Some(*r),
        None => None,
    }
}

/// A builder's outcome: a new filter node for `op` over `inputs` whose handle
/// is returned, or, when the engine declines, `None` with the inputs released.
pub open spec fn built(
    old: &Engine,
    new: &Engine,
    op: FilterOp,
    inputs: Seq<usize>,
    crop: Option<IRect>,
    r: Option<ImageFilter>,
) -> bool {
    &&& new.wf()
    &&& made(new, old, Node::Filter { op, crop }, inputs, r)
    &&& r matches Some(h) ==> h.valid_in(new)
}

/// Whether a kernel of `len` values fits a kernel size: `len` is its width
/// times its height.
pub open spec fn kernel_fits_spec(size: ISize, len: nat) -> bool {
    size.width as int * size.height as int == len as int
}

pub fn kernel_fits(size: ISize, len: usize) -> (r: bool)
    ensures
        r == kernel_fits_spec(size, len as nat),
{
    let ghost w = size.width as int;
    let ghost h = size.height as int;
    proof {
        assert(-0x4000_0000_0000_0000 <= w * h <= 0x4000_0000_0000_0000) by (nonlinear_arith)
            requires
                -0x8000_0000 <= w <= 0x7fff_ffff,
                -0x8000_0000 <= h <= 0x7fff_ffff,
        ;
    }
    let n: i64 = (size.width as i64) * (size.height as i64);
    (n as i128) == (len as i128)
}

fn crop_value(crop_rect: Option<&IRect>) -> (r: Option<IRect>)
    ensures
        r == crop_of(crop_rect),
{
    match crop_rect {
        Some(r) => Some(*r),
        None => None,
    }
}

fn one(p: RawPtr) -> (v: Vec<RawPtr>)
    ensures
        addrs(v@) == seq![p@],
{
    let ghost a = p@;
    let mut v: Vec<RawPtr> = Vec::new();
    v.push(p);
    assert(addrs(v@) =~= seq![a]);
    v
}

fn two(p: RawPtr, q: RawPtr) -> (v: Vec<RawPtr>)
    ensures
        addrs(v@) == seq![p@, q@],
{
    let ghost a = p@;
    let ghost b = q@;
    let mut v: Vec<RawPtr> = Vec::new();
    v.push(p);
    v.push(q);
    assert(addrs(v@) =~= seq![a, b]);
    v
}

/// Hands the released inputs to the engine and wraps what it returns.
fn build(engine: &mut Engine, op: FilterOp, inputs: Vec<RawPtr>, crop: Option<IRect>) -> (r: Option<ImageFilter>)
    requires
        old(engine).wf(),
        forall|k: int| 0 <= k < addrs(inputs@).len() ==> old(engine).live(#[trigger] addrs(inputs@)[k]),
    ensures
        built(old(engine), final(engine), op, addrs(inputs@), crop, r),
{
    assert forall|k: int| 0 <= k < inputs@.len() implies old(engine).contains(#[trigger] inputs@[k]@) by {
        assert(addrs(inputs@)[k] == inputs@[k]@);
    }
    let p = engine.make_filter(op, inputs, crop);
    ImageFilter::from_ptr(p)
}

pub fn alpha_threshold(
    engine: &mut Engine,
    region: &Region,
    inner_min: Scalar,
    outer_max: Scalar,
    input: ImageFilter,
    crop_rect: Option<&IRect>,
) -> (r: Option<ImageFilter>)
    requires
        old(engine).wf(),
        input.valid_in(old(engine)),
    ensures
        exists|k: Vec<IRect>|
            k@ == region.rects@ && #[trigger] built(
                old(engine),
                final(engine),
                FilterOp::AlphaThreshold { region: k, inner_min, outer_max },
                seq![input@],
                crop_of(crop_rect),
                r,
            ),
{
    let mut rects: Vec<IRect> = Vec::new();
    let mut t: usize = 0;
    while t < region.rects.len()
        invariant
            0 <= t <= region.rects@.len(),
            rects@ == region.rects@.take(t as int),
        decreases region.rects@.len() - t,
    {
        rects.push(region.rects[t]);
        assert(region.rects@.take(t + 1) =~= region.rects@.take(t as int).push(region.rects@[t as int]));
        t = t + 1;
    }
    assert(rects@ =~= region.rects@);
    let ghost k = rects;
    build(
        engine,
        FilterOp::AlphaThreshold { region: rects, inner_min, outer_max },
        one(input.into_ptr()),
        crop_value(crop_rect),
    )
}

pub fn arithmetic(
    engine: &mut Engine,
    k1: Scalar,
    k2: Scalar,
    k3: Scalar,
    k4: Scalar,
    enforce_pm_color: bool,
    background: ImageFilter,
    foreground: ImageFilter,
    crop_rect: Option<&IRect>,
) -> (r: Option<ImageFilter>)
    requires
        old(engine).wf(),
        background.valid_in(old(engine)),
        foreground.valid_in(old(engine)),
    ensures
        built(
            old(engine),
            final(engine),
            FilterOp::Arithmetic { k1, k2, k3, k4, enforce_pm_color },
            seq![background@, foreground@],
            crop_of(crop_rect),
            r,
        ),
{
    build(
        engine,
        FilterOp::Arithmetic { k1, k2, k3, k4, enforce_pm_color },
        two(background.into_ptr(), foreground.into_ptr()),
        crop_value(crop_rect),
    )
}

/// A blur; the tile mode defaults to `Decal`.
pub fn blur(
    engine: &mut Engine,
    sigma: (Scalar, Scalar),
    tile_mode: Option<TileMode>,
    input: ImageFilter,
    crop_rect: Option<&IRect>,
) -> (r: Option<ImageFilter>)
    requires
        old(engine).wf(),
        input.valid_in(old(engine)),
    ensures
        built(
            old(engine),
            final(engine),
            FilterOp::Blur {
                sigma_x: sigma.0,
                sigma_y: sigma.1,
                tile_mode: or_default(tile_mode, TileMode::Decal),
            },
            seq![input@],
            crop_of(crop_rect),
            r,
        ),
{
    let tile_mode = match tile_mode {
        Some(t) => t,
        None => TileMode::Decal,
    };
    build(
        engine,
        FilterOp::Blur { sigma_x: sigma.0, sigma_y: sigma.1, tile_mode },
        one(input.into_ptr()),
        crop_value(crop_rect),
    )
}

pub fn color_filter(
    engine: &mut Engine,
    cf: ColorFilter,
    input: ImageFilter,
    crop_rect: Option<&IRect>,
) -> (r: Option<ImageFilter>)
    requires
        old(engine).wf(),
        cf.valid_in(old(engine)),
        input.valid_in(old(engine)),
    ensures
        built(
            old(engine),
            final(engine),
            FilterOp::ColorFilter,
            seq![cf@, input@],
            crop_of(crop_rect),
            r,
        ),
{
    build(engine, FilterOp::ColorFilter, two(cf.into_ptr(), input.into_ptr()), crop_value(crop_rect))
}

pub fn compose(engine: &mut Engine, outer: ImageFilter, inner: ImageFilter) -> (r: Option<ImageFilter>)
    requires
        old(engine).wf(),
        outer.valid_in(old(engine)),
        inner.valid_in(old(engine)),
    ensures
        built(old(engine), final(engine), FilterOp::Compose, seq![outer@, inner@], None, r),
{
    build(engine, FilterOp::Compose, two(outer.into_ptr(), inner.into_ptr()), None)
}

pub fn displacement_map(
    engine: &mut Engine,
    channels: (ColorChannel, ColorChannel),
    scale: Scalar,
    displacement: ImageFilter,
    color: ImageFilter,
    crop_rect: Option<&IRect>,
) -> (r: Option<ImageFilter>)
    requires
        old(engine).wf(),
        displacement.valid_in(old(engine)),
        color.valid_in(old(engine)),
    ensures
        built(
            old(engine),
            final(engine),
            FilterOp::DisplacementMap { x_channel: channels.0, y_channel: channels.1, scale },
            seq![displacement@, color@],
            crop_of(crop_rect),
            r,
        ),
{
    build(
        engine,
        FilterOp::DisplacementMap { x_channel: channels.0, y_channel: channels.1, scale },
        two(displacement.into_ptr(), color.into_ptr()),
        crop_value(crop_rect),
    )
}

pub fn drop_shadow(
    engine: &mut Engine,
    delta: Vector,
    sigma: (Scalar, Scalar),
    color: Color,
    input: ImageFilter,
    crop_rect: Option<&IRect>,
) -> (r: Option<ImageFilter>)
    requires
        old(engine).wf(),
        input.valid_in(old(engine)),
    ensures
        built(
            old(engine),
            final(engine),
            FilterOp::DropShadow { dx: delta.x, dy: delta.y, sigma_x: sigma.0, sigma_y: sigma.1, color },
            seq![input@],
            crop_of(crop_rect),
            r,
        ),
{
    build(
        engine,
        FilterOp::DropShadow { dx: delta.x, dy: delta.y, sigma_x: sigma.0, sigma_y: sigma.1, color },
        one(input.into_ptr()),
        crop_value(crop_rect),
    )
}

pub fn drop_shadow_only(
    engine: &mut Engine,
    delta: Vector,
    sigma: (Scalar, Scalar),
    color: Color,
    input: ImageFilter,
    crop_rect: Option<&IRect>,
) -> (r: Option<ImageFilter>)
    requires
        old(engine).wf(),
        input.valid_in(old(engine)),
    ensures
        built(
            old(engine),
            final(engine),
            FilterOp::DropShadowOnly {
                dx: delta.x,
                dy: delta.y,
                sigma_x: sigma.0,
                sigma_y: sigma.1,
                color,
            },
            seq![input@],
            crop_of(crop_rect),
            r,
        ),
{
    build(
        engine,
        FilterOp::DropShadowOnly { dx: delta.x, dy: delta.y, sigma_x: sigma.0, sigma_y: sigma.1, color },
        one(input.into_ptr()),
        crop_value(crop_rect),
    )
}

/// A filter that draws an image. The source and destination rectangles
/// default to the image's bounds, the quality to `High`.
pub fn image(
    engine: &mut Engine,
    source: Image,
    src_rect: Option<&Rect>,
    dst_rect: Option<&Rect>,
    filter_quality: Option<FilterQuality>,
) -> (r: Option<ImageFilter>)
    requires
        old(engine).wf(),
        source.valid_in(old(engine)),
    ensures
        built(
            old(engine),
            final(engine),
            FilterOp::Image {
                src: rect_or(src_rect, image_bounds(old(engine), source@)),
                dst: rect_or(dst_rect, image_bounds(old(engine), source@)),
                quality: or_default(filter_quality, FilterQuality::High),
            },
            seq![source@],
            None,
            r,
        ),
{
    let image_rect = source.bounds(engine);
    let src = match src_rect {
        Some(r) => *r,
        None => image_rect,
    };
    let dst = match dst_rect {
        Some(r) => *r,
        None => image_rect,
    };
    let quality = match filter_quality {
        Some(q) => q,
        None => FilterQuality::High,
    };
    build(engine, FilterOp::Image { src, dst, quality }, one(source.into_ptr()), None)
}

pub fn magnifier(
    engine: &mut Engine,
    src_rect: &Rect,
    inset: Scalar,
    input: ImageFilter,
    crop_rect: Option<&IRect>,
) -> (r: Option<ImageFilter>)
    requires
        old(engine).wf(),
        input.valid_in(old(engine)),
    ensures
        built(
            old(engine),
            final(engine),
            FilterOp::Magnifier { src: *src_rect, inset },
            seq![input@],
            crop_of(crop_rect),
            r,
        ),
{
    build(engine, FilterOp::Magnifier { src: *src_rect, inset }, one(input.into_ptr()), crop_value(crop_rect))
}

/// A convolution with a `kernel_size.width` by `kernel_size.height` kernel,
/// whose values `kernel` holds row by row.
pub fn matrix_convolution(
    engine: &mut Engine,
    kernel_size: ISize,
    kernel: &[Scalar],
    gain: Scalar,
    bias: Scalar,
    kernel_offset: IPoint,
    tile_mode: TileMode,
    convolve_alpha: bool,
    input: ImageFilter,
    crop_rect: Option<&IRect>,
) -> (r: Option<ImageFilter>)
    requires
        old(engine).wf(),
        input.valid_in(old(engine)),
        kernel_fits_spec(kernel_size, kernel@.len()),
    ensures
        exists|k: Vec<Scalar>|
            k@ == kernel@ && #[trigger] built(
                old(engine),
                final(engine),
                FilterOp::MatrixConvolution {
                    size: kernel_size,
                    kernel: k,
                    gain,
                    bias,
                    offset: kernel_offset,
                    tile_mode,
                    convolve_alpha,
                },
                seq![input@],
                crop_of(crop_rect),
                r,
            ),
{
    let mut values: Vec<Scalar> = Vec::new();
    let mut t: usize = 0;
    while t < kernel.len()
        invariant
            0 <= t <= kernel@.len(),
            values@ == kernel@.take(t as int),
        decreases kernel@.len() - t,
    {
        values.push(kernel[t]);
        assert(kernel@.take(t + 1) =~= kernel@.take(t as int).push(kernel@[t as int]));
        t = t + 1;
    }
    assert(values@ =~= kernel@);
    let ghost k = values;
    let r = build(
        engine,
        FilterOp::MatrixConvolution {
            size: kernel_size,
            kernel: values,
            gain,
            bias,
            offset: kernel_offset,
            tile_mode,
            convolve_alpha,
        },
        one(input.into_ptr()),
        crop_value(crop_rect),
    );
    r
}

pub fn matrix_transform(
    engine: &mut Engine,
    matrix: &Matrix,
    filter_quality: FilterQuality,
    input: ImageFilter,
) -> (r: Option<ImageFilter>)
    requires
        old(engine).wf(),
        input.valid_in(old(engine)),
    ensures
        built(
            old(engine),
            final(engine),
            FilterOp::MatrixTransform { matrix: *matrix, quality: filter_quality },
            seq![input@],
            None,
            r,
        ),
{
    build(
        engine,
        FilterOp::MatrixTransform { matrix: *matrix, quality: filter_quality },
        one(input.into_ptr()),
        None,
    )
}

/// The addresses of a sequence of handles.
pub open spec fn handle_addrs(hs: Seq<ImageFilter>) -> Seq<usize> {
    hs.map_values(|h: ImageFilter| h@)
}

/// A filter that draws its inputs one over the other, in order.
pub fn merge(engine: &mut Engine, filters: Vec<ImageFilter>, crop_rect: Option<&IRect>) -> (r: Option<ImageFilter>)
    requires
        old(engine).wf(),
        forall|k: int| 0 <= k < filters@.len() ==> (#[trigger] filters@[k]).valid_in(old(engine)),
    ensures
        built(
            old(engine),
            final(engine),
            FilterOp::Merge,
            handle_addrs(filters@),
            crop_of(crop_rect),
            r,
        ),
{
    let ghost all = handle_addrs(filters@);
    let mut rest = filters;
    let mut ptrs: Vec<RawPtr> = Vec::new();
    while rest.len() > 0
        invariant
            addrs(ptrs@) + handle_addrs(rest@) == all,
            forall|k: int| 0 <= k < all.len() ==> old(engine).live(#[trigger] all[k]),
        decreases rest@.len(),
    {
        let ghost before = rest@;
        let f = rest.remove(0);
        assert(handle_addrs(before) =~= seq![f@] + handle_addrs(rest@));
        let ghost prev = addrs(ptrs@);
        ptrs.push(f.into_ptr());
        assert(addrs(ptrs@) =~= prev.push(ptrs@.last()@));
    }
    assert(addrs(ptrs@) =~= all);
    assert forall|k: int| 0 <= k < ptrs@.len() implies old(engine).live(#[trigger] ptrs@[k]@) by {
        assert(addrs(ptrs@)[k] == ptrs@[k]@);
    }
    build(engine, FilterOp::Merge, ptrs, crop_value(crop_rect))
}

pub fn offset(
    engine: &mut Engine,
    delta: Vector,
    input: ImageFilter,
    crop_rect: Option<&IRect>,
) -> (r: Option<ImageFilter>)
    requires
        old(engine).wf(),
        input.valid_in(old(engine)),
    ensures
        built(
            old(engine),
            final(engine),
            FilterOp::Offset { dx: delta.x, dy: delta.y },
            seq![input@],
            crop_of(crop_rect),
            r,
        ),
{
    build(engine, FilterOp::Offset { dx: delta.x, dy: delta.y }, one(input.into_ptr()), crop_value(crop_rect))
}

pub fn paint(engine: &mut Engine, fill: &Paint, crop_rect: Option<&IRect>) -> (r: Option<ImageFilter>)
    requires
        old(engine).wf(),
    ensures
        built(
            old(engine),
            final(engine),
            FilterOp::Paint { paint: *fill },
            Seq::empty(),
            crop_of(crop_rect),
            r,
        ),
{
    let r = build(engine, FilterOp::Paint { paint: *fill }, Vec::new(), crop_value(crop_rect));
    assert(addrs(Seq::<RawPtr>::empty()) =~= Seq::<usize>::empty());
    r
}

/// A filter that draws a picture; the target rectangle defaults to the
/// picture's cull rectangle.
pub fn picture(engine: &mut Engine, source: Picture, target_rect: Option<&Rect>) -> (r: Option<ImageFilter>)
    requires
        old(engine).wf(),
        source.valid_in(old(engine)),
    ensures
        built(
            old(engine),
            final(engine),
            FilterOp::Picture { target: rect_or(target_rect, picture_cull(old(engine), source@)) },
            seq![source@],
            None,
            r,
        ),
{
    let picture_rect = source.cull_rect(engine);
    let target = match target_rect {
        Some(r) => *r,
        None => picture_rect,
    };
    build(engine, FilterOp::Picture { target }, one(source.into_ptr()), None)
}

pub fn tile(engine: &mut Engine, src: &Rect, dst: &Rect, input: ImageFilter) -> (r: Option<ImageFilter>)
    requires
        old(engine).wf(),
        input.valid_in(old(engine)),
    ensures
        built(
            old(engine),
            final(engine),
            FilterOp::Tile { src: *src, dst: *dst },
            seq![input@],
            None,
            r,
        ),
{
    build(engine, FilterOp::Tile { src: *src, dst: *dst }, one(input.into_ptr()), None)
}

/// The inputs of a blend: the background, and the foreground when there is one.
pub open spec fn blend_inputs(background: ImageFilter, foreground: Option<ImageFilter>) -> Seq<usize> {
    match foreground {
        Some(f) => seq![background@, f@],
        None => seq![background@],
    }
}

/// A filter that blends a foreground over a background; without a foreground
/// the engine blends the source over the background.
pub fn xfermode(
    engine: &mut Engine,
    blend_mode: BlendMode,
    background: ImageFilter,
    foreground: Option<ImageFilter>,
    crop_rect: Option<&IRect>,
) -> (r: Option<ImageFilter>)
    requires
        old(engine).wf(),
        background.valid_in(old(engine)),
        foreground matches Some(f) ==> f.valid_in(old(engine)),
    ensures
        built(
            old(engine),
            final(engine),
            FilterOp::Xfermode { mode: blend_mode },
            blend_inputs(background, foreground),
            crop_of(crop_rect),
            r,
        ),
{
    let inputs = match foreground {
        Some(f) => two(background.into_ptr(), f.into_ptr()),
        None => one(background.into_ptr()),
    };
    build(engine, FilterOp::Xfermode { mode: blend_mode }, inputs, crop_value(crop_rect))
}

pub fn dilate(
    engine: &mut Engine,
    radius: (i32, i32),
    input: ImageFilter,
    crop_rect: Option<&IRect>,
) -> (r: Option<ImageFilter>)
    requires
        old(engine).wf(),
        input.valid_in(old(engine)),
    ensures
        built(
            old(engine),
            final(engine),
            FilterOp::Dilate { radius_x: radius.0, radius_y: radius.1 },
            seq![input@],
            crop_of(crop_rect),
            r,
        ),
{
    build(
        engine,
        FilterOp::Dilate { radius_x: radius.0, radius_y: radius.1 },
        one(input.into_ptr()),
        crop_value(crop_rect),
    )
}

pub fn erode(
    engine: &mut Engine,
    radius: (i32, i32),
    input: ImageFilter,
    crop_rect: Option<&IRect>,
) -> (r: Option<ImageFilter>)
    requires
        old(engine).wf(),
        input.valid_in(old(engine)),
    ensures
        built(
            old(engine),
            final(engine),
            FilterOp::Erode { radius_x: radius.0, radius_y: radius.1 },
            seq![input@],
            crop_of(crop_rect),
            r,
        ),
{
    build(
        engine,
        FilterOp::Erode { radius_x: radius.0, radius_y: radius.1 },
        one(input.into_ptr()),
        crop_value(crop_rect),
    )
}

pub fn distant_lit_diffuse(
    engine: &mut Engine,
    direction: Point3,
    light_color: Color,
    surface_scale: Scalar,
    kd: Scalar,
    input: ImageFilter,
    crop_rect: Option<&IRect>,
) -> (r: Option<ImageFilter>)
    requires
        old(engine).wf(),
        input.valid_in(old(engine)),
    ensures
        built(
            old(engine),
            final(engine),
            FilterOp::DistantLitDiffuse { direction, color: light_color, surface_scale, kd },
            seq![input@],
            crop_of(crop_rect),
            r,
        ),
{
    build(
        engine,
        FilterOp::DistantLitDiffuse { direction, color: light_color, surface_scale, kd },
        one(input.into_ptr()),
        crop_value(crop_rect),
    )
}

pub fn point_lit_diffuse(
    engine: &mut Engine,
    location: Point3,
    light_color: Color,
    surface_scale: Scalar,
    kd: Scalar,
    input: ImageFilter,
    crop_rect: Option<&IRect>,
) -> (r: Option<ImageFilter>)
    requires
        old(engine).wf(),
        input.valid_in(old(engine)),
    ensures
        built(
            old(engine),
            final(engine),
            FilterOp::PointLitDiffuse { location, color: light_color, surface_scale, kd },
            seq![input@],
            crop_of(crop_rect),
            r,
        ),
{
    build(
        engine,
        FilterOp::PointLitDiffuse { location, color: light_color, surface_scale, kd },
        one(input.into_ptr()),
        crop_value(crop_rect),
    )
}

pub fn spot_lit_diffuse(
    engine: &mut Engine,
    location: Point3,
    target: Point3,
    specular_exponent: Scalar,
    cutoff_angle: Scalar,
    light_color: Color,
    surface_scale: Scalar,
    kd: Scalar,
    input: ImageFilter,
    crop_rect: Option<&IRect>,
) -> (r: Option<ImageFilter>)
    requires
        old(engine).wf(),
        input.valid_in(old(engine)),
    ensures
        built(
            old(engine),
            final(engine),
            FilterOp::SpotLitDiffuse {
                location,
                target,
                specular_exponent,
                cutoff_angle,
                color: light_color,
                surface_scale,
                kd,
            },
            seq![input@],
            crop_of(crop_rect),
            r,
        ),
{
    build(
        engine,
        FilterOp::SpotLitDiffuse {
            location,
            target,
            specular_exponent,
            cutoff_angle,
            color: light_color,
            surface_scale,
            kd,
        },
        one(input.into_ptr()),
        crop_value(crop_rect),
    )
}

pub fn distant_lit_specular(
    engine: &mut Engine,
    direction: Point3,
    light_color: Color,
    surface_scale: Scalar,
    ks: Scalar,
    shininess: Scalar,
    input: ImageFilter,
    crop_rect: Option<&IRect>,
) -> (r: Option<ImageFilter>)
    requires
        old(engine).wf(),
        input.valid_in(old(engine)),
    ensures
        built(
            old(engine),
            final(engine),
            FilterOp::DistantLitSpecular { direction, color: light_color, surface_scale, ks, shininess },
            seq![input@],
            crop_of(crop_rect),
            r,
        ),
{
    build(
        engine,
        FilterOp::DistantLitSpecular { direction, color: light_color, surface_scale, ks, shininess },
        one(input.into_ptr()),
        crop_value(crop_rect),
    )
}

pub fn point_lit_specular(
    engine: &mut Engine,
    location: Point3,
    light_color: Color,
    surface_scale: Scalar,
    ks: Scalar,
    shininess: Scalar,
    input: ImageFilter,
    crop_rect: Option<&IRect>,
) -> (r: Option<ImageFilter>)
    requires
        old(engine).wf(),
        input.valid_in(old(engine)),
    ensures
        built(
            old(engine),
            final(engine),
            FilterOp::PointLitSpecular { location, color: light_color, surface_scale, ks, shininess },
            seq![input@],
            crop_of(crop_rect),
            r,
        ),
{
    build(
        engine,
        FilterOp::PointLitSpecular { location, color: light_color, surface_scale, ks, shininess },
        one(input.into_ptr()),
        crop_value(crop_rect),
    )
}

pub fn spot_lit_specular(
    engine: &mut Engine,
    location: Point3,
    target: Point3,
    specular_exponent: Scalar,
    cutoff_angle: Scalar,
    light_color: Color,
    surface_scale: Scalar,
    ks: Scalar,
    shininess: Scalar,
    input: ImageFilter,
    crop_rect: Option<&IRect>,
) -> (r: Option<ImageFilter>)
    requires
        old(engine).wf(),
        input.valid_in(old(engine)),
    ensures
        built(
            old(engine),
            final(engine),
            FilterOp::SpotLitSpecular {
                location,
                target,
                specular_exponent,
                cutoff_angle,
                color: light_color,
                surface_scale,
                ks,
                shininess,
            },
            seq![input@],
            crop_of(crop_rect),
            r,
        ),
{
    build(
        engine,
        FilterOp::SpotLitSpecular {
            location,
            target,
            specular_exponent,
            cutoff_angle,
            color: light_color,
            surface_scale,
            ks,
            shininess,
        },
        one(input.into_ptr()),
        crop_value(crop_rect),
    )
}

} // verus!
