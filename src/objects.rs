use vstd::prelude::*;

use crate::handle::{NativeBase, NativeRefCounted, RCHandle};
use crate::native::{Engine, Kind, Node};
use crate::types::{BlendMode, Color, Rect};

verus! {

/// The native image type.
pub struct SkImage;

/// The native picture type.
pub struct SkPicture;

/// The native color filter type.
pub struct SkColorFilter;

/// The native image filter type.
pub struct SkImageFilter;

/// The native font manager type.
pub struct SkFontMgr;

/// The native lazy typeface font provider, a font manager.
pub struct SkLazyTypefaceFontProvider;

impl NativeRefCounted for SkImage {
    open spec fn kind_spec() -> Kind {
        Kind::Image
    }
}

impl NativeRefCounted for SkPicture {
    open spec fn kind_spec() -> Kind {
        Kind::Picture
    }
}

impl NativeRefCounted for SkColorFilter {
    open spec fn kind_spec() -> Kind {
        Kind::ColorFilter
    }
}

impl NativeRefCounted for SkImageFilter {
    open spec fn kind_spec() -> Kind {
        Kind::ImageFilter
    }
}

impl NativeRefCounted for SkFontMgr {
    open spec fn kind_spec() -> Kind {
        Kind::FontMgr
    }
}

impl NativeRefCounted for SkLazyTypefaceFontProvider {
    open spec fn kind_spec() -> Kind {
        Kind::LazyTypefaceFontProvider
    }
}

impl NativeBase<SkFontMgr> for SkLazyTypefaceFontProvider {
    proof fn lemma_layout() {
    }
}

pub type Image = RCHandle<SkImage>;

pub type Picture = RCHandle<SkPicture>;

pub type ColorFilter = RCHandle<SkColorFilter>;

pub type ImageFilter = RCHandle<SkImageFilter>;

pub type FontMgr = RCHandle<SkFontMgr>;

/// The bounds of the image at `a`, at the origin.
pub open spec fn image_bounds(e: &Engine, a: usize) -> Rect {
    match e.node_at(a) {
        Node::Image { width, height } => Rect::spec_from_iwh(width, height),
        _ => Rect::spec_from_iwh(0, 0),
    }
}

/// The cull rectangle of the picture at `a`.
pub open spec fn picture_cull(e: &Engine, a: usize) -> Rect {
    match e.node_at(a) {
        Node::Picture { cull } => cull,
        _ => Rect::spec_from_iwh(0, 0),
    }
}

/// `r` wraps what a native constructor returned: the new object's handle, or
/// `None` when the engine declined.
pub open spec fn made<T>(
    new: &Engine,
    old: &Engine,
    node: Node,
    inputs: Seq<usize>,
    r: Option<RCHandle<T>>,
) -> bool {
    new.constructed(
        old,
        node,
        inputs,
        match r {
            Some(h) => h@,
            None => 0,
        },
    )
}

impl RCHandle<SkImage> {
    /// A new image of the given size; `None` when the engine declines.
    pub fn new_raster(engine: &mut Engine, width: i32, height: i32) -> (r: Option<Image>)
        requires
            old(engine).wf(),
        ensures
            final(engine).wf(),
            made(final(engine), old(engine), Node::Image { width, height }, Seq::empty(), r),
            r matches Some(h) ==> h.valid_in(final(engine)),
    {
        let p = engine.make_image(width, height);
        Image::from_ptr(p)
    }

    pub fn width(&self, engine: &Engine) -> (r: i32)
        requires
            engine.wf(),
            self.valid_in(engine),
        ensures
            engine.node_at(self@) matches Node::Image { width, .. } && r == width,
    {
        engine.image_size(self.addr()).0
    }

    pub fn height(&self, engine: &Engine) -> (r: i32)
        requires
            engine.wf(),
            self.valid_in(engine),
        ensures
            engine.node_at(self@) matches Node::Image { height, .. } && r == height,
    {
        engine.image_size(self.addr()).1
    }

    /// The image's bounds at the origin.
    pub fn bounds(&self, engine: &Engine) -> (r: Rect)
        requires
            engine.wf(),
            self.valid_in(engine),
        ensures
            r == image_bounds(engine, self@),
    {
        let (w, h) = engine.image_size(self.addr());
        Rect::from_iwh(w, h)
    }
}

impl RCHandle<SkPicture> {
    /// A new picture with the given cull rectangle; `None` when the engine declines.
    pub fn new_picture(engine: &mut Engine, cull: Rect) -> (r: Option<Picture>)
        requires
            old(engine).wf(),
        ensures
            final(engine).wf(),
            made(final(engine), old(engine), Node::Picture { cull }, Seq::empty(), r),
            r matches Some(h) ==> h.valid_in(final(engine)),
    {
        let p = engine.make_picture(cull);
        Picture::from_ptr(p)
    }

    pub fn cull_rect(&self, engine: &Engine) -> (r: Rect)
        requires
            engine.wf(),
            self.valid_in(engine),
        ensures
            r == picture_cull(engine, self@),
    {
        engine.picture_cull(self.addr())
    }
}

impl RCHandle<SkColorFilter> {
    /// A new color filter blending `color` with `mode`; `None` when the engine
    /// declines.
    pub fn blend(engine: &mut Engine, color: Color, mode: BlendMode) -> (r: Option<ColorFilter>)
        requires
            old(engine).wf(),
        ensures
            final(engine).wf(),
            made(final(engine), old(engine), Node::ColorFilter { color, mode }, Seq::empty(), r),
            r matches Some(h) ==> h.valid_in(final(engine)),
    {
        let p = engine.make_color_filter(color, mode);
        ColorFilter::from_ptr(p)
    }
}

} // verus!
