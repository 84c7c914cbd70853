use vstd::prelude::*;

use crate::native::{dec, dec_all, inc, released, released_all, sweep, Engine, Node, Slot};

verus! {

/// Every object is alive exactly while its count is positive.
pub open spec fn counts_consistent(s: Seq<Slot>) -> bool {
    forall|i: int| 0 <= i < s.len() ==> (#[trigger] s[i]).alive == (s[i].refs > 0)
}

/// Slots after `n` references to the object at `a` are added.
pub open spec fn inc_n(s: Seq<Slot>, a: usize, n: nat) -> Seq<Slot>
    decreases n,
{
    if n == 0 {
        s
    } else {
        inc(inc_n(s, a, (n - 1) as nat), a)
    }
}

/// The address `a`, `n` times.
pub open spec fn repeat(a: usize, n: nat) -> Seq<usize> {
    Seq::new(n, |i: int| a)
}

proof fn lemma_sweep_identity(s: Seq<Slot>, edges: Seq<Seq<usize>>, i: int)
    requires
        i <= s.len(),
        counts_consistent(s),
    ensures
        sweep(s, edges, i) == s,
    decreases i,
{
    if i > 0 {
        assert(s[i - 1].alive == (s[i - 1].refs > 0));
        lemma_sweep_identity(s, edges, i - 1);
    }
}

proof fn lemma_inc_n(s: Seq<Slot>, a: usize, n: nat)
    requires
        counts_consistent(s),
        1 <= a <= s.len(),
        s[a - 1].alive,
        s[a - 1].refs + n <= u64::MAX,
    ensures
        inc_n(s, a, n).len() == s.len(),
        counts_consistent(inc_n(s, a, n)),
        inc_n(s, a, n)[a - 1] == (Slot { refs: (s[a - 1].refs + n) as u64, alive: true }),
    decreases n,
{
    if n > 0 {
        lemma_inc_n(s, a, (n - 1) as nat);
        let t = inc_n(s, a, (n - 1) as nat);
        assert forall|i: int| 0 <= i < t.len() implies (#[trigger] inc(t, a)[i]).alive == (inc(t, a)[i].refs > 0) by {
            if i != a - 1 {
                assert(t[i].alive == (t[i].refs > 0));
            }
        }
    }
}

/// Dropping the reference that a clone added leaves every count as it was.
pub proof fn lemma_clone_then_drop(e: Engine, a: usize)
    requires
        e.wf(),
        e.live(a),
        e.refs(a) < u64::MAX,
    ensures
        released(inc(e.slots(), a), e.edges(), a) == e.slots(),
{
    let s = e.slots();
    assert(s[a - 1].alive == (s[a - 1].refs > 0));
    assert(dec(inc(s, a), a) =~= s);
    lemma_sweep_identity(s, e.edges(), a as int);
}

proof fn lemma_drop_prefix(e: Engine, a: usize, n: nat, m: nat)
    requires
        e.wf(),
        e.live(a),
        e.refs(a) + n <= u64::MAX,
        m <= n,
    ensures
        released_all(inc_n(e.slots(), a, n), e.edges(), repeat(a, m)) == inc_n(e.slots(), a, (n - m) as nat),
    decreases m,
{
    let s = e.slots();
    let edges = e.edges();
    assert(s[a - 1].alive == (s[a - 1].refs > 0));
    if m > 0 {
        lemma_drop_prefix(e, a, n, (m - 1) as nat);
        assert(repeat(a, m).drop_last() =~= repeat(a, (m - 1) as nat));
        let k = (n - m) as nat;
        let t = inc_n(s, a, k);
        lemma_inc_n(s, a, k);
        assert(dec(inc(t, a), a) =~= t);
        lemma_sweep_identity(t, edges, a as int);
    }
}

/// Handles to one object made by `n` clones, once all dropped, leave every
/// count as it was before the first clone: the clones hold exactly `n`
/// references, and give back exactly those.
pub proof fn lemma_clones_then_drops(e: Engine, a: usize, n: nat)
    requires
        e.wf(),
        e.live(a),
        e.refs(a) + n <= u64::MAX,
    ensures
        inc_n(e.slots(), a, n)[a - 1].refs == e.refs(a) + n,
        released_all(inc_n(e.slots(), a, n), e.edges(), repeat(a, n)) == e.slots(),
{
    assert(e.slots()[a - 1].alive == (e.slots()[a - 1].refs > 0));
    lemma_inc_n(e.slots(), a, n);
    lemma_drop_prefix(e, a, n, n);
}

/// An object that a constructor made from no inputs, once its one handle is
/// dropped, is destroyed, and every other count is as it was before it was
/// made.
pub proof fn lemma_make_then_drop(old: Engine, new: Engine, node: Node)
    requires
        old.wf(),
        old.has_room(),
        new.constructed(&old, node, Seq::empty(), (old.len() + 1) as usize),
    ensures
        released(new.slots(), new.edges(), (old.len() + 1) as usize) == old.slots().push(
            Slot { refs: 0, alive: false },
        ),
{
    let s = new.slots();
    let a = (old.len() + 1) as usize;
    let t = dec(s, a);
    assert(t =~= old.slots().push(Slot { refs: 0, alive: true }));
    let u = old.slots().push(Slot { refs: 0, alive: false });
    assert(t.update(a - 1, Slot { refs: 0, alive: false }) =~= u);
    assert(new.edges()[a - 1] == Seq::<usize>::empty());
    assert(dec_all(u, Seq::<usize>::empty()) == u);
    assert forall|i: int| 0 <= i < u.len() implies (#[trigger] u[i]).alive == (u[i].refs > 0) by {
        if i < old.len() {
            assert(old.slots()[i].alive == (old.slots()[i].refs > 0));
        }
    }
    lemma_sweep_identity(u, new.edges(), old.len() as int);
}

/// A constructor consumes every input it is handed, whether or not it
/// succeeds: when it makes the object, each input's reference now belongs to
/// the new object and no count changes; when it declines, each input has been
/// dropped once.
pub proof fn lemma_inputs_consumed(old: Engine, new: Engine, node: Node, inputs: Seq<usize>, p: usize)
    requires
        old.wf(),
        new.constructed(&old, node, inputs, p),
    ensures
        old.has_room() ==> p != 0 && new.edges_at(p) == inputs && forall|a: usize|
            #[trigger] old.contains(a) ==> new.slots()[a - 1] == old.slots()[a - 1],
        !old.has_room() ==> p == 0 && new.slots() == released_all(old.slots(), old.edges(), inputs),
{
}

} // verus!
