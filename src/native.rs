use vstd::prelude::*;
use vstd::string::StrSliceExecFns;

use crate::types::{
    BlendMode, Color, ColorChannel, FilterQuality, IPoint, IRect, ISize, Matrix, Paint, Point3,
    Rect, Scalar, TileMode,
};

verus! {

/// The kind of a native object, its type tag.
#[derive(Clone, Copy, Debug, PartialEq, Eq, Structural)]
pub enum Kind {
    Image,
    Picture,
    ColorFilter,
    ImageFilter,
    FontMgr,
    LazyTypefaceFontProvider,
}

/// Whether an object of kind `k` may be used as an object of kind `base`: the
/// engine lays out a derived object as its base followed by its own fields.
pub open spec fn extends(k: Kind, base: Kind) -> bool {
    k == base || (k == Kind::LazyTypefaceFontProvider && base == Kind::FontMgr)
}

/// The reference count of one object and whether it has been destroyed.
#[derive(Clone, Copy, Debug, PartialEq, Eq, Structural)]
pub struct Slot {
    pub refs: u64,
    pub alive: bool,
}

/// The parameters of one image filter operation. Input filters are not part
/// of it: they are the node's edges.
#[derive(Debug, PartialEq)]
pub enum FilterOp {
    AlphaThreshold { region: Vec<IRect>, inner_min: Scalar, outer_max: Scalar },
    Arithmetic { k1: Scalar, k2: Scalar, k3: Scalar, k4: Scalar, enforce_pm_color: bool },
    Blur { sigma_x: Scalar, sigma_y: Scalar, tile_mode: TileMode },
    ColorFilter,
    Compose,
    DisplacementMap { x_channel: ColorChannel, y_channel: ColorChannel, scale: Scalar },
    DropShadow { dx: Scalar, dy: Scalar, sigma_x: Scalar, sigma_y: Scalar, color: Color },
    DropShadowOnly { dx: Scalar, dy: Scalar, sigma_x: Scalar, sigma_y: Scalar, color: Color },
    Image { src: Rect, dst: Rect, quality: FilterQuality },
    Magnifier { src: Rect, inset: Scalar },
    MatrixConvolution {
        size: ISize,
        kernel: Vec<Scalar>,
        gain: Scalar,
        bias: Scalar,
        offset: IPoint,
        tile_mode: TileMode,
        convolve_alpha: bool,
    },
    MatrixTransform { matrix: Matrix, quality: FilterQuality },
    Merge,
    Offset { dx: Scalar, dy: Scalar },
    Paint { paint: Paint },
    Picture { target: Rect },
    Tile { src: Rect, dst: Rect },
    Xfermode { mode: BlendMode },
    Dilate { radius_x: i32, radius_y: i32 },
    Erode { radius_x: i32, radius_y: i32 },
    DistantLitDiffuse { direction: Point3, color: Color, surface_scale: Scalar, kd: Scalar },
    PointLitDiffuse { location: Point3, color: Color, surface_scale: Scalar, kd: Scalar },
    SpotLitDiffuse {
        location: Point3,
        target: Point3,
        specular_exponent: Scalar,
        cutoff_angle: Scalar,
        color: Color,
        surface_scale: Scalar,
        kd: Scalar,
    },
    DistantLitSpecular {
        direction: Point3,
        color: Color,
        surface_scale: Scalar,
        ks: Scalar,
        shininess: Scalar,
    },
    PointLitSpecular {
        location: Point3,
        color: Color,
        surface_scale: Scalar,
        ks: Scalar,
        shininess: Scalar,
    },
    SpotLitSpecular {
        location: Point3,
        target: Point3,
        specular_exponent: Scalar,
        cutoff_angle: Scalar,
        color: Color,
        surface_scale: Scalar,
        ks: Scalar,
        shininess: Scalar,
    },
}

/// The payload of a native object.
#[derive(Debug, PartialEq)]
pub enum Node {
    Image { width: i32, height: i32 },
    Picture { cull: Rect },
    ColorFilter { color: Color, mode: BlendMode },
    Filter { op: FilterOp, crop: Option<IRect> },
    FontProvider,
}

impl Node {
    pub open spec fn kind(&self) -> Kind {
        match self {
            Node::Image { .. } => Kind::Image,
            Node::Picture { .. } => Kind::Picture,
            Node::ColorFilter { .. } => Kind::ColorFilter,
            Node::Filter { .. } => Kind::ImageFilter,
            Node::FontProvider => Kind::LazyTypefaceFontProvider,
        }
    }
}

/// A typeface registered with a font provider: the provider's address, the
/// font file's path and the family alias.
#[derive(Debug)]
pub struct Registration {
    pub provider: usize,
    pub path: String,
    pub alias: String,
}

/// A pointer as the engine hands it out and takes it back: an address, with
/// 0 for null. Address `a > 0` names the object at index `a - 1`.
pub struct RawPtr {
    addr: usize,
}

impl View for RawPtr {
    type V = usize;

    closed spec fn view(&self) -> usize {
        self.addr
    }
}

impl RawPtr {
    pub fn null() -> (r: RawPtr)
        ensures
            r@ == 0,
    {
        RawPtr { addr: 0 }
    }

    pub fn addr(&self) -> (r: usize)
        ensures
            r == self@,
    {
        self.addr
    }

    pub(crate) fn from_addr(addr: usize) -> (r: RawPtr)
        ensures
            r@ == addr,
    {
        RawPtr { addr }
    }

    pub fn is_null(&self) -> (r: bool)
        ensures
            r == (self@ == 0),
    {
        self.addr == 0
    }
}

/// The addresses held by a sequence of pointers.
pub open spec fn addrs(ps: Seq<RawPtr>) -> Seq<usize> {
    ps.map_values(|p: RawPtr| p@)
}

/// Slots after one saturating decrement of the object at address `a`.
pub open spec fn dec(s: Seq<Slot>, a: usize) -> Seq<Slot> {
    if 1 <= a <= s.len() && s[a - 1].refs > 0 {
        s.update(a - 1, Slot { refs: (s[a - 1].refs - 1) as u64, alive: s[a - 1].alive })
    } else {
        s
    }
}

/// Slots after one decrement for each address of `ps`, in order.
pub open spec fn dec_all(s: Seq<Slot>, ps: Seq<usize>) -> Seq<Slot>
    decreases ps.len(),
{
    if ps.len() == 0 {
        s
    } else {
        dec(dec_all(s, ps.drop_last()), ps.last())
    }
}

/// Destroys, from index `i - 1` down to 0, each object whose count has reached
/// zero and that is not destroyed yet; destroying one drops a reference to each
/// of its inputs, which all stand at lower indices.
pub open spec fn sweep(s: Seq<Slot>, edges: Seq<Seq<usize>>, i: int) -> Seq<Slot>
    decreases i,
{
    if i <= 0 {
        s
    } else {
        let j = i - 1;
        if s[j].alive && s[j].refs == 0 {
            sweep(dec_all(s.update(j, Slot { refs: 0, alive: false }), edges[j]), edges, j)
        } else {
            sweep(s, edges, j)
        }
    }
}

/// Slots after one reference to the object at address `a` is dropped, with
/// every destruction that this causes.
pub open spec fn released(s: Seq<Slot>, edges: Seq<Seq<usize>>, a: usize) -> Seq<Slot> {
    sweep(dec(s, a), edges, a as int)
}

/// Slots after one reference to each address of `ps` is dropped, in order.
pub open spec fn released_all(s: Seq<Slot>, edges: Seq<Seq<usize>>, ps: Seq<usize>) -> Seq<Slot>
    decreases ps.len(),
{
    if ps.len() == 0 {
        s
    } else {
        released(released_all(s, edges, ps.drop_last()), edges, ps.last())
    }
}

/// Slots after one reference to the object at address `a` is added.
pub open spec fn inc(s: Seq<Slot>, a: usize) -> Seq<Slot> {
    s.update(a - 1, Slot { refs: (s[a - 1].refs + 1) as u64, alive: true })
}

/// The native engine's object store. Objects are never moved: an address stays
/// valid as long as the object lives and is not reused after it is destroyed.
pub struct Engine {
    slots: Vec<Slot>,
    nodes: Vec<Node>,
    edges: Vec<Vec<usize>>,
    fonts: Vec<Registration>,
    capacity: usize,
}

impl Engine {
    pub closed spec fn slots(&self) -> Seq<Slot> {
        self.slots@
    }

    pub closed spec fn nodes(&self) -> Seq<Node> {
        self.nodes@
    }

    pub closed spec fn edges(&self) -> Seq<Seq<usize>> {
        self.edges@.map_values(|v: Vec<usize>| v@)
    }

    pub closed spec fn fonts(&self) -> Seq<Registration> {
        self.fonts@
    }

    /// The number of objects the engine can create before it declines.
    pub closed spec fn capacity(&self) -> nat {
        self.capacity as nat
    }

    pub open spec fn len(&self) -> nat {
        self.slots().len()
    }

    pub open spec fn has_room(&self) -> bool {
        self.len() < self.capacity()
    }

    pub open spec fn contains(&self, a: usize) -> bool {
        1 <= a <= self.len()
    }

    pub open spec fn live(&self, a: usize) -> bool {
        self.contains(a) && self.slots()[a - 1].alive
    }

    pub open spec fn refs(&self, a: usize) -> u64 {
        self.slots()[a - 1].refs
    }

    pub open spec fn kind_at(&self, a: usize) -> Kind {
        self.nodes()[a - 1].kind()
    }

    pub open spec fn node_at(&self, a: usize) -> Node {
        self.nodes()[a - 1]
    }

    pub open spec fn edges_at(&self, a: usize) -> Seq<usize> {
        self.edges()[a - 1]
    }

    /// Well-formedness: the tables agree in length, an object is alive exactly
    /// while it is referenced, and every input of an object was created before it.
    pub open spec fn wf(&self) -> bool {
        &&& self.nodes().len() == self.len()
        &&& self.edges().len() == self.len()
        &&& self.capacity() < usize::MAX
        &&& self.len() <= self.capacity()
        &&& forall|i: int| 0 <= i < self.len() ==> (#[trigger] self.slots()[i]).alive == (
        self.slots()[i].refs > 0)
        &&& forall|i: int, k: int|
            0 <= i < self.len() && 0 <= k < self.edges()[i].len() ==> 1 <= (
            #[trigger] self.edges()[i][k]) <= i
    }

    /// Same objects, inputs, registrations and capacity; only counts may differ.
    pub open spec fn same_but_slots(&self, other: &Engine) -> bool {
        &&& self.nodes() == other.nodes()
        &&& self.edges() == other.edges()
        &&& self.fonts() == other.fonts()
        &&& self.capacity() == other.capacity()
    }

    /// `self` is `old` with one more object, referenced once.
    pub open spec fn grown(&self, old: &Engine, node: Node, inputs: Seq<usize>) -> bool {
        &&& self.slots() == old.slots().push(Slot { refs: 1, alive: true })
        &&& self.nodes() == old.nodes().push(node)
        &&& self.edges() == old.edges().push(inputs)
        &&& self.fonts() == old.fonts()
        &&& self.capacity() == old.capacity()
    }

    /// What a native constructor does: with room, `p` is the new object's
    /// address; without, `p` is null and the inputs handed over are released.
    pub open spec fn constructed(
        &self,
        old: &Engine,
        node: Node,
        inputs: Seq<usize>,
        p: usize,
    ) -> bool {
        if old.has_room() {
            p == old.len() + 1 && self.grown(old, node, inputs)
        } else {
            p == 0 && self.slots() == released_all(old.slots(), old.edges(), inputs)
                && self.same_but_slots(old)
        }
    }

    /// An empty engine that can hold up to `capacity` objects.
    pub fn new(capacity: usize) -> (r: Engine)
        requires
            capacity < usize::MAX,
        ensures
            r.wf(),
            r.len() == 0,
            r.fonts().len() == 0,
            r.capacity() == capacity,
    {
        let r = Engine {
            slots: Vec::new(),
            nodes: Vec::new(),
            edges: Vec::new(),
            fonts: Vec::new(),
            capacity,
        };
        assert(r.edges() =~= Seq::<Seq<usize>>::empty());
        r
    }

    pub fn object_count(&self) -> (r: usize)
        ensures
            r == self.len(),
    {
        self.slots.len()
    }

    /// The reference count of the object at `a`; 0 once it is destroyed.
    pub fn ref_count(&self, a: usize) -> (r: u64)
        requires
            self.contains(a),
        ensures
            r == self.refs(a),
    {
        self.slots[a - 1].refs
    }

    pub fn is_live(&self, a: usize) -> (r: bool)
        ensures
            r == self.live(a),
    {
        1 <= a && a <= self.slots.len() && self.slots[a - 1].alive
    }

    /// Adds one reference to a live object.
    pub fn ref_object(&mut self, a: usize)
        requires
            old(self).wf(),
            old(self).live(a),
            old(self).refs(a) < u64::MAX,
        ensures
            final(self).wf(),
            final(self).slots() == inc(old(self).slots(), a),
            final(self).same_but_slots(old(self)),
    {
        let s = self.slots[a - 1];
        self.slots[a - 1] = Slot { refs: s.refs + 1, alive: true };
        assert(self.edges() == old(self).edges());
    }

    fn dec_slot(&mut self, a: usize)
        ensures
            final(self).slots@ == dec(old(self).slots@, a),
            final(self).nodes == old(self).nodes,
            final(self).edges == old(self).edges,
            final(self).fonts == old(self).fonts,
            final(self).capacity == old(self).capacity,
    {
        if 1 <= a && a <= self.slots.len() {
            let s = self.slots[a - 1];
            if s.refs > 0 {
                self.slots[a - 1] = Slot { refs: s.refs - 1, alive: s.alive };
            }
        }
    }

    /// Drops one reference to the object at `a`. An object whose count reaches
    /// zero is destroyed, and drops its references to its inputs in turn.
    pub fn unref_object(&mut self, a: usize)
        requires
            old(self).wf(),
            old(self).contains(a),
        ensures
            final(self).wf(),
            final(self).slots() == released(old(self).slots(), old(self).edges(), a),
            final(self).same_but_slots(old(self)),
    {
        let ghost edges = self.edges();
        let ghost target = released(old(self).slots(), edges, a);
        let ghost len = self.slots@.len();
        assert(self.edges@.len() == len);
        self.dec_slot(a);
        let mut i: usize = a;
        while i > 0
            invariant
                0 <= i <= a <= len,
                self.slots@.len() == len,
                self.edges@.len() == len,
                self.nodes == old(self).nodes,
                self.edges == old(self).edges,
                self.fonts == old(self).fonts,
                self.capacity == old(self).capacity,
                edges == self.edges(),
                old(self).wf(),
                sweep(self.slots@, edges, i as int) == target,
                forall|q: int| 0 <= q < len ==> (#[trigger] self.slots@[q]).refs > 0 ==> self.slots@[q].alive,
                forall|q: int| i <= q < len ==> (#[trigger] self.slots@[q]).alive ==> self.slots@[q].refs > 0,
            decreases i,
        {
            let j = i - 1;
            let s = self.slots[j];
            if s.alive && s.refs == 0 {
                self.slots[j] = Slot { refs: 0, alive: false };
                let ghost start = self.slots@;
                let k = self.edges[j].len();
                assert(edges[j as int] == self.edges@[j as int]@);
                let mut t: usize = 0;
                while t < k
                    invariant
                        0 <= t <= k,
                        k == edges[j as int].len(),
                        j < len,
                        self.slots@.len() == len,
                        self.edges@.len() == len,
                        self.nodes == old(self).nodes,
                        self.edges == old(self).edges,
                        self.fonts == old(self).fonts,
                        self.capacity == old(self).capacity,
                        edges == self.edges(),
                        edges[j as int] == self.edges@[j as int]@,
                        old(self).wf(),
                        self.slots@ == dec_all(start, edges[j as int].take(t as int)),
                        forall|q: int| 0 <= q < len ==> (#[trigger] self.slots@[q]).refs > 0 ==> self.slots@[q].alive,
                        forall|q: int| j <= q < len ==> #[trigger] self.slots@[q] == start[q],
                        forall|q: int| j < q < len ==> (#[trigger] start[q]).alive ==> start[q].refs > 0,
                        start[j as int] == (Slot { refs: 0, alive: false }),
                    decreases k - t,
                {
                    let e = self.edges[j][t];
                    assert(old(self).edges()[j as int][t as int] == e);
                    assert(1 <= e <= j);
                    self.dec_slot(e);
                    assert(edges[j as int].take(t + 1).drop_last() =~= edges[j as int].take(t as int));
                    t = t + 1;
                }
                assert(edges[j as int].take(k as int) =~= edges[j as int]);
            }
            i = j;
        }
    }

    /// Drops one reference to each address of `ps`, in order.
    fn unref_all(&mut self, ps: &Vec<usize>)
        requires
            old(self).wf(),
            forall|k: int| 0 <= k < ps@.len() ==> old(self).contains(#[trigger] ps@[k]),
        ensures
            final(self).wf(),
            final(self).slots() == released_all(old(self).slots(), old(self).edges(), ps@),
            final(self).same_but_slots(old(self)),
    {
        let mut t: usize = 0;
        while t < ps.len()
            invariant
                0 <= t <= ps@.len(),
                self.wf(),
                self.same_but_slots(old(self)),
                self.len() == old(self).len(),
                forall|k: int| 0 <= k < ps@.len() ==> old(self).contains(#[trigger] ps@[k]),
                self.slots() == released_all(old(self).slots(), old(self).edges(), ps@.take(t as int)),
            decreases ps@.len() - t,
        {
            self.unref_object(ps[t]);
            assert(ps@.take(t + 1).drop_last() =~= ps@.take(t as int));
            t = t + 1;
        }
        assert(ps@.take(ps@.len() as int) =~= ps@);
    }

    fn push_object(&mut self, node: Node, inputs: Vec<usize>) -> (a: usize)
        requires
            old(self).wf(),
            old(self).has_room(),
            forall|k: int| 0 <= k < inputs@.len() ==> old(self).contains(#[trigger] inputs@[k]),
        ensures
            final(self).wf(),
            a == old(self).len() + 1,
            final(self).grown(old(self), node, inputs@),
    {
        let ghost ins = inputs@;
        self.slots.push(Slot { refs: 1, alive: true });
        self.nodes.push(node);
        self.edges.push(inputs);
        assert(self.edges() =~= old(self).edges().push(ins));
        self.slots.len()
    }

    /// Hands the inputs over to a new object made by `make`. The addresses are
    /// read before the pointers are given up.
    fn construct(&mut self, node: Node, inputs: Vec<RawPtr>) -> (p: RawPtr)
        requires
            old(self).wf(),
            forall|k: int| 0 <= k < inputs@.len() ==> old(self).contains(#[trigger] inputs@[k]@),
        ensures
            final(self).wf(),
            final(self).constructed(old(self), node, addrs(inputs@), p@),
    {
        let mut ins: Vec<usize> = Vec::new();
        let mut t: usize = 0;
        while t < inputs.len()
            invariant
                0 <= t <= inputs@.len(),
                ins@ == addrs(inputs@).take(t as int),
            decreases inputs@.len() - t,
        {
            ins.push(inputs[t].addr);
            assert(addrs(inputs@).take(t + 1) =~= addrs(inputs@).take(t as int).push(inputs@[t as int]@));
            t = t + 1;
        }
        assert(ins@ =~= addrs(inputs@));
        if self.slots.len() < self.capacity {
            let a = self.push_object(node, ins);
            RawPtr { addr: a }
        } else {
            self.unref_all(&ins);
            RawPtr { addr: 0 }
        }
    }

    /// Creates an image of the given size; null when the engine is full.
    pub fn make_image(&mut self, width: i32, height: i32) -> (p: RawPtr)
        requires
            old(self).wf(),
        ensures
            final(self).wf(),
            final(self).constructed(old(self), Node::Image { width, height }, Seq::empty(), p@),
    {
        let p = self.construct(Node::Image { width, height }, Vec::new());
        assert(addrs(Seq::<RawPtr>::empty()) =~= Seq::<usize>::empty());
        p
    }

    /// Creates a picture with the given cull rectangle; null when the engine is full.
    pub fn make_picture(&mut self, cull: Rect) -> (p: RawPtr)
        requires
            old(self).wf(),
        ensures
            final(self).wf(),
            final(self).constructed(old(self), Node::Picture { cull }, Seq::empty(), p@),
    {
        let p = self.construct(Node::Picture { cull }, Vec::new());
        assert(addrs(Seq::<RawPtr>::empty()) =~= Seq::<usize>::empty());
        p
    }

    /// Creates a color filter that blends `color` with `mode`; null when the
    /// engine is full.
    pub fn make_color_filter(&mut self, color: Color, mode: BlendMode) -> (p: RawPtr)
        requires
            old(self).wf(),
        ensures
            final(self).wf(),
            final(self).constructed(old(self), Node::ColorFilter { color, mode }, Seq::empty(), p@),
    {
        let p = self.construct(Node::ColorFilter { color, mode }, Vec::new());
        assert(addrs(Seq::<RawPtr>::empty()) =~= Seq::<usize>::empty());
        p
    }

    /// Creates an empty lazy typeface font provider; null when the engine is full.
    pub fn make_font_provider(&mut self) -> (p: RawPtr)
        requires
            old(self).wf(),
        ensures
            final(self).wf(),
            final(self).constructed(old(self), Node::FontProvider, Seq::empty(), p@),
    {
        let p = self.construct(Node::FontProvider, Vec::new());
        assert(addrs(Seq::<RawPtr>::empty()) =~= Seq::<usize>::empty());
        p
    }

    /// Creates an image filter node over the given inputs, taking over the
    /// reference each pointer carries; null when the engine is full, and the
    /// inputs are then released.
    pub fn make_filter(&mut self, op: FilterOp, inputs: Vec<RawPtr>, crop: Option<IRect>) -> (p: RawPtr)
        requires
            old(self).wf(),
            forall|k: int| 0 <= k < inputs@.len() ==> old(self).contains(#[trigger] inputs@[k]@),
        ensures
            final(self).wf(),
            final(self).constructed(old(self), Node::Filter { op, crop }, addrs(inputs@), p@),
    {
        self.construct(Node::Filter { op, crop }, inputs)
    }

    /// The width and height of the image at `a`.
    pub fn image_size(&self, a: usize) -> (r: (i32, i32))
        requires
            self.wf(),
            self.contains(a),
            self.kind_at(a) == Kind::Image,
        ensures
            self.node_at(a) == (Node::Image { width: r.0, height: r.1 }),
    {
        match &self.nodes[a - 1] {
            Node::Image { width, height } => (*width, *height),
            _ => (0, 0),
        }
    }

    /// The cull rectangle of the picture at `a`.
    pub fn picture_cull(&self, a: usize) -> (r: Rect)
        requires
            self.wf(),
            self.contains(a),
            self.kind_at(a) == Kind::Picture,
        ensures
            self.node_at(a) == (Node::Picture { cull: r }),
    {
        match &self.nodes[a - 1] {
            Node::Picture { cull } => *cull,
            _ => Rect::new(Scalar::Int(0), Scalar::Int(0), Scalar::Int(0), Scalar::Int(0)),
        }
    }

    /// Registers the font file at `path` under the family name `alias` with the
    /// provider at `a`, and returns how many typefaces the call registered: none
    /// for an empty family name, else one.
    pub fn register_typeface(&mut self, a: usize, path: String, alias: String) -> (r: usize)
        requires
            old(self).wf(),
        ensures
            final(self).wf(),
            final(self).slots() == old(self).slots(),
            final(self).nodes() == old(self).nodes(),
            final(self).edges() == old(self).edges(),
            final(self).capacity() == old(self).capacity(),
            alias@.len() == 0 ==> r == 0 && final(self).fonts() == old(self).fonts(),
            alias@.len() != 0 ==> r == 1 && final(self).fonts() == old(self).fonts().push(
                Registration { provider: a, path, alias },
            ),
    {
        if alias.as_str().unicode_len() == 0 {
            0
        } else {
            self.fonts.push(Registration { provider: a, path, alias });
            1
        }
    }

    /// The payload of the object at `a`.
    pub fn node(&self, a: usize) -> (r: &Node)
        requires
            self.wf(),
            self.contains(a),
        ensures
            *r == self.node_at(a),
    {
        &self.nodes[a - 1]
    }

    /// The addresses of the inputs of the object at `a`, in order.
    pub fn inputs(&self, a: usize) -> (r: &Vec<usize>)
        requires
            self.wf(),
            self.contains(a),
        ensures
            r@ == self.edges_at(a),
    {
        &self.edges[a - 1]
    }

    pub fn registration_count(&self) -> (r: usize)
        ensures
            r == self.fonts().len(),
    {
        self.fonts.len()
    }

    pub fn registration(&self, i: usize) -> (r: &Registration)
        requires
            i < self.fonts().len(),
        ensures
            *r == self.fonts()[i as int],
    {
        &self.fonts[i]
    }
}

} // verus!
