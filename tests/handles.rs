use skia_safe::font_provider::LazyTypefaceFontProvider;
use skia_safe::native::{Engine, Kind, Node, RawPtr};
use skia_safe::objects::{FontMgr, Image, Picture};
use skia_safe::types::{Rect, Scalar};

fn scalar(v: f32) -> Scalar {
    Scalar::from_bits(v.to_bits())
}

#[test]
fn clone_then_drop_first_keeps_clone() {
    let mut e = Engine::new(8);
    let h1 = Image::new_raster(&mut e, 4, 3).unwrap();
    let a = h1.addr();
    assert_eq!(e.ref_count(a), 1);
    let h2 = h1.clone_in(&mut e);
    assert_eq!(e.ref_count(a), 2);
    assert_eq!(h2.addr(), a);
    h1.drop_in(&mut e);
    assert_eq!(e.ref_count(a), 1);
    assert!(e.is_live(a));
    assert_eq!(h2.width(&e), 4);
    assert_eq!(h2.height(&e), 3);
    h2.drop_in(&mut e);
    assert_eq!(e.ref_count(a), 0);
    assert!(!e.is_live(a));
}

#[test]
fn clones_then_drops_restore_count() {
    let mut e = Engine::new(8);
    let h = Image::new_raster(&mut e, 1, 1).unwrap();
    let a = h.addr();
    let mut clones = Vec::new();
    for n in 1..=5u64 {
        clones.push(h.clone_in(&mut e));
        assert_eq!(e.ref_count(a), 1 + n);
    }
    for c in clones {
        c.drop_in(&mut e);
    }
    assert_eq!(e.ref_count(a), 1);
    assert!(e.is_live(a));
}

#[test]
fn clone_then_drop_clone_leaves_count() {
    let mut e = Engine::new(8);
    let h = Image::new_raster(&mut e, 2, 2).unwrap();
    let a = h.addr();
    let before = e.ref_count(a);
    let c = h.clone_in(&mut e);
    c.drop_in(&mut e);
    assert_eq!(e.ref_count(a), before);
}

#[test]
fn release_keeps_count_and_rewraps() {
    let mut e = Engine::new(8);
    let h = Image::new_raster(&mut e, 2, 2).unwrap();
    let a = h.addr();
    let p = h.into_ptr();
    assert_eq!(p.addr(), a);
    assert_eq!(e.ref_count(a), 1);
    assert!(e.is_live(a));
    let h = Image::from_ptr(p).unwrap();
    assert_eq!(h.addr(), a);
    assert_eq!(e.ref_count(a), 1);
    h.drop_in(&mut e);
    assert!(!e.is_live(a));
}

#[test]
fn null_pointer_wraps_to_none() {
    assert!(Image::from_ptr(RawPtr::null()).is_none());
    assert!(RawPtr::null().is_null());
}

#[test]
fn engine_declines_when_full() {
    let mut e = Engine::new(1);
    let h = Image::new_raster(&mut e, 1, 1).unwrap();
    assert!(Image::new_raster(&mut e, 1, 1).is_none());
    assert!(Picture::new_picture(&mut e, Rect::from_iwh(1, 1)).is_none());
    assert_eq!(e.object_count(), 1);
    h.drop_in(&mut e);
}

#[test]
fn upcast_keeps_address_and_count() {
    let mut e = Engine::new(4);
    let provider = LazyTypefaceFontProvider::new(&mut e);
    let a = provider.addr();
    let mgr: FontMgr = provider.into_font_mgr();
    assert_eq!(mgr.addr(), a);
    assert_eq!(e.ref_count(a), 1);
    assert_eq!(e.node(a), &Node::FontProvider);
    let extra = mgr.clone_in(&mut e);
    assert_eq!(e.ref_count(a), 2);
    extra.drop_in(&mut e);
    mgr.drop_in(&mut e);
    assert!(!e.is_live(a));
}

#[test]
fn register_typeface_counts() {
    let mut e = Engine::new(4);
    let provider = LazyTypefaceFontProvider::new(&mut e);
    assert_eq!(provider.register_typeface(&mut e, "fonts/a.ttf", ""), 0);
    assert_eq!(e.registration_count(), 0);
    assert_eq!(provider.register_typeface(&mut e, "fonts/a.ttf", "Sans"), 1);
    assert_eq!(e.registration_count(), 1);
    let r = e.registration(0);
    assert_eq!(r.provider, provider.addr());
    assert_eq!(r.path, "fonts/a.ttf");
    assert_eq!(r.alias, "Sans");
    provider.drop_in(&mut e);
}

#[test]
fn picture_cull_rect_reads_back() {
    let mut e = Engine::new(4);
    let cull = Rect::new(scalar(0.5), scalar(1.0), scalar(10.0), scalar(20.0));
    let p = Picture::new_picture(&mut e, cull).unwrap();
    assert_eq!(p.cull_rect(&e), cull);
    assert_eq!(e.node(p.addr()), &Node::Picture { cull });
    let _ = Kind::Picture;
    p.drop_in(&mut e);
}
