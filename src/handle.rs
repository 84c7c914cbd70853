use vstd::prelude::*;

use crate::native::{extends, inc, released, Engine, Kind, RawPtr};
use std::marker::PhantomData;

verus! {

/// A native reference-counted type: it fixes the kind of object a handle to it
/// points at.
pub trait NativeRefCounted {
    spec fn kind_spec() -> Kind;
}

/// A native type whose objects begin with the layout of `B`'s objects, so that
/// a handle to it can be relabelled as a handle to `B`.
pub trait NativeBase<B: NativeRefCounted>: NativeRefCounted {
    proof fn lemma_layout()
        ensures
            extends(Self::kind_spec(), B::kind_spec()),
    ;
}

/// An owning handle to a native object of type `T`: one reference of the
/// object's count belongs to it. Clone it with `clone_in`, give it back with
/// `drop_in`, or hand its reference to the engine with `into_ptr`.
pub struct RCHandle<T> {
    addr: usize,
    marker: PhantomData<T>,
}

impl<T> View for RCHandle<T> {
    type V = usize;

    closed spec fn view(&self) -> usize {
        self.addr
    }
}

impl<T: NativeRefCounted> RCHandle<T> {
    /// The handle points at a live object of a kind that `T` may stand for.
    pub open spec fn valid_in(&self, e: &Engine) -> bool {
        e.live(self@) && extends(e.kind_at(self@), T::kind_spec())
    }

    /// Takes over the reference a native constructor returned with `ptr`,
    /// without touching the count; a null pointer gives `None`.
    pub fn from_ptr(ptr: RawPtr) -> (r: Option<Self>)
        ensures
            r is None <==> ptr@ == 0,
            r matches Some(h) ==> h@ == ptr@,
    {
        if ptr.is_null() {
            None
        } else {
            Some(RCHandle { addr: ptr.addr(), marker: PhantomData })
        }
    }

    pub(crate) fn from_addr(addr: usize) -> (r: Self)
        ensures
            r@ == addr,
    {
        RCHandle { addr, marker: PhantomData }
    }

    /// Gives up the handle without dropping its reference, which the pointer
    /// then carries.
    pub fn into_ptr(self) -> (r: RawPtr)
        ensures
            r@ == self@,
    {
        RawPtr::from_addr(self.addr)
    }

    /// The object's address, for comparison and inspection.
    pub fn addr(&self) -> (r: usize)
        ensures
            r == self@,
    {
        self.addr
    }

    /// A second handle to the same object, which adds one reference.
    pub fn clone_in(&self, engine: &mut Engine) -> (r: Self)
        requires
            old(engine).wf(),
            self.valid_in(old(engine)),
            old(engine).refs(self@) < u64::MAX,
        ensures
            r@ == self@,
            final(engine).wf(),
            final(engine).slots() == inc(old(engine).slots(), self@),
            final(engine).same_but_slots(old(engine)),
            r.valid_in(final(engine)),
            self.valid_in(final(engine)),
    {
        engine.ref_object(self.addr);
        RCHandle { addr: self.addr, marker: PhantomData }
    }

    /// Ends the handle and drops its reference; the object is destroyed when
    /// that was the last one.
    pub fn drop_in(self, engine: &mut Engine)
        requires
            old(engine).wf(),
            self.valid_in(old(engine)),
        ensures
            final(engine).wf(),
            final(engine).slots() == released(old(engine).slots(), old(engine).edges(), self@),
            final(engine).same_but_slots(old(engine)),
    {
        engine.unref_object(self.addr);
    }

    /// The same handle relabelled as one to the base type `B`: the address and
    /// the count are unchanged.
    pub fn upcast<B: NativeRefCounted>(self) -> (r: RCHandle<B>)
        where T: NativeBase<B>,
        ensures
            r@ == self@,
            forall|e: &Engine| self.valid_in(e) ==> #[trigger] r.valid_in(e),
    {
        proof {
            T::lemma_layout();
        }
        RCHandle { addr: self.addr, marker: PhantomData }
    }
}

} // verus!
