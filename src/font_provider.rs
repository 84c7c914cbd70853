use vstd::prelude::*;

use crate::handle::RCHandle;
use crate::native::{Engine, Node, Registration};
use crate::objects::{FontMgr, SkFontMgr, SkLazyTypefaceFontProvider};

verus! {

/// A font manager that registers typefaces by file path, to be loaded when
/// first asked for.
pub type LazyTypefaceFontProvider = RCHandle<SkLazyTypefaceFontProvider>;

impl RCHandle<SkLazyTypefaceFontProvider> {
    /// A new, empty provider. The engine must have room for it.
    pub fn new(engine: &mut Engine) -> (r: LazyTypefaceFontProvider)
        requires
            old(engine).wf(),
            old(engine).has_room(),
        ensures
            final(engine).wf(),
            r@ == old(engine).len() + 1,
            final(engine).grown(old(engine), Node::FontProvider, Seq::empty()),
            r.valid_in(final(engine)),
    {
        let p = engine.make_font_provider();
        RCHandle::from_addr(p.addr())
    }

    /// Registers the font file at `font_file_path` under the family name
    /// `alias`, and returns how many typefaces were registered: none for an
    /// empty family name, else one.
    pub fn register_typeface(&self, engine: &mut Engine, font_file_path: &str, alias: &str) -> (r: usize)
        requires
            old(engine).wf(),
            self.valid_in(old(engine)),
        ensures
            final(engine).wf(),
            final(engine).slots() == old(engine).slots(),
            final(engine).nodes() == old(engine).nodes(),
            final(engine).edges() == old(engine).edges(),
            final(engine).capacity() == old(engine).capacity(),
            alias@.len() == 0 ==> r == 0 && final(engine).fonts() == old(engine).fonts(),
            alias@.len() != 0 ==> r == 1 && exists|path: String, name: String|
                path@ == font_file_path@ && name@ == alias@ && #[trigger] final(engine).fonts()
                    == old(engine).fonts().push(
                    Registration { provider: self@, path, alias: name },
                ),
    {
        let path = font_file_path.to_owned();
        let name = alias.to_owned();
        engine.register_typeface(self.addr(), path, name)
    }

    /// The provider as a handle to its base, a font manager; same object,
    /// same count.
    pub fn into_font_mgr(self) -> (r: FontMgr)
        ensures
            r@ == self@,
            forall|e: &Engine| self.valid_in(e) ==> #[trigger] r.valid_in(e),
    {
        self.upcast::<SkFontMgr>()
    }
}

} // verus!
