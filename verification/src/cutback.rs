//! The power-cutback ordering.
//!
//! Under scarcity the outpost throttles modules one energy level at a time,
//! walking them in a fixed order: ascending by priority rank (so `Low`
//! before `Mid` before `High`) and, within a rank, ascending by consumption
//! compared lexicographically field by field. The sort is stable, so modules
//! that compare equal keep their insertion order.

use crate::modules::eff_level;
use crate::modules::Module;
use crate::resources::Resources;
use crate::store::SortableStorage;
use vstd::prelude::*;

verus! {

/// Lexicographic comparison of resource bundles, field by field in
/// declaration order.
pub open spec fn res_le(a: Resources, b: Resources) -> bool {
    if a.energy != b.energy {
        a.energy < b.energy
    } else if a.living_space != b.living_space {
        a.living_space < b.living_space
    } else if a.minerals != b.minerals {
        a.minerals < b.minerals
    } else if a.food != b.food {
        a.food < b.food
    } else {
        a.water <= b.water
    }
}

/// Executable form of `res_le`.
pub fn res_le_exec(a: &Resources, b: &Resources) -> (r: bool)
    ensures
        r == res_le(*a, *b),
{
    if a.energy != b.energy {
        a.energy < b.energy
    } else if a.living_space != b.living_space {
        a.living_space < b.living_space
    } else if a.minerals != b.minerals {
        a.minerals < b.minerals
    } else if a.food != b.food {
        a.food < b.food
    } else {
        a.water <= b.water
    }
}

/// Whether `a` comes no later than `b` in cutback order.
pub open spec fn cut_le(a: Module, b: Module) -> bool {
    let ra = a.spec_priority().spec_rank();
    let rb = b.spec_priority().spec_rank();
    if ra != rb {
        ra > rb
    } else {
        res_le(a.spec_consumption(), b.spec_consumption())
    }
}

/// Executable form of `cut_le`.
pub fn cut_le_exec(a: &Module, b: &Module) -> (r: bool)
    ensures
        r == cut_le(*a, *b),
{
    let ra = a.priority().rank();
    let rb = b.priority().rank();
    if ra != rb {
        ra > rb
    } else {
        res_le_exec(&a.consumption(), &b.consumption())
    }
}

/// Insert `x` into the sorted sequence `s`, after every entry that compares
/// no later than `x`; this keeps the sort stable.
pub open spec fn insert_sorted(s: Seq<Module>, x: Module) -> Seq<Module>
    decreases s.len(),
{
    if s.len() == 0 {
        seq![x]
    } else if cut_le(s.last(), x) {
        s.push(x)
    } else {
        insert_sorted(s.drop_last(), x).push(s.last())
    }
}

/// Stable insertion sort by cutback order.
pub open spec fn sort_cutback(s: Seq<Module>) -> Seq<Module>
    decreases s.len(),
{
    if s.len() == 0 {
        s
    } else {
        insert_sorted(sort_cutback(s.drop_last()), s.last())
    }
}

/// Where `insert_sorted` places the new entry: at the position scanned from
/// the back past every entry later than `x`.
pub proof fn lemma_insert_sorted_at(s: Seq<Module>, x: Module, p: int)
    requires
        0 <= p <= s.len(),
        forall|j: int| p <= j < s.len() ==> !cut_le(#[trigger] s[j], x),
        p > 0 ==> cut_le(s[p - 1], x),
    ensures
        insert_sorted(s, x) == s.insert(p, x),
    decreases s.len(),
{
    if s.len() == 0 {
        assert(insert_sorted(s, x) =~= s.insert(0, x));
    } else if cut_le(s.last(), x) {
        assert(p == s.len());
        assert(s.push(x) =~= s.insert(p, x));
    } else {
        assert(p < s.len());
        let dl = s.drop_last();
        assert(forall|j: int| p <= j < dl.len() ==> !cut_le(#[trigger] dl[j], x));
        if p > 0 {
            assert(dl[p - 1] == s[p - 1]);
        }
        lemma_insert_sorted_at(dl, x, p);
        assert(dl.insert(p, x).push(s.last()) =~= s.insert(p, x));
    }
}

/// Total effective energy level of a module sequence, the measure the
/// cutback loop decreases.
pub open spec fn total_eff(s: Seq<Module>) -> int
    decreases s.len(),
{
    if s.len() == 0 {
        0
    } else {
        total_eff(s.drop_last()) + eff_level(s.last().spec_level())
    }
}

pub proof fn lemma_total_eff_nonneg(s: Seq<Module>)
    ensures
        0 <= total_eff(s) <= 3 * s.len(),
    decreases s.len(),
{
    if s.len() > 0 {
        lemma_total_eff_nonneg(s.drop_last());
    }
}

pub proof fn lemma_total_eff_push(s: Seq<Module>, x: Module)
    ensures
        total_eff(s.push(x)) == total_eff(s) + eff_level(x.spec_level()),
{
    assert(s.push(x).drop_last() =~= s);
    assert(s.push(x).last() == x);
}

/// Inserting one module adds exactly its effective level to the total.
pub proof fn lemma_total_eff_insert_sorted(s: Seq<Module>, x: Module)
    ensures
        total_eff(insert_sorted(s, x)) == total_eff(s) + eff_level(x.spec_level()),
    decreases s.len(),
{
    if s.len() == 0 {
        assert(insert_sorted(s, x) =~= Seq::<Module>::empty().push(x));
        lemma_total_eff_push(Seq::<Module>::empty(), x);
    } else if cut_le(s.last(), x) {
        lemma_total_eff_push(s, x);
    } else {
        lemma_total_eff_insert_sorted(s.drop_last(), x);
        lemma_total_eff_push(insert_sorted(s.drop_last(), x), s.last());
    }
}

/// Sorting does not change the total effective level.
pub proof fn lemma_total_eff_sort(s: Seq<Module>)
    ensures
        total_eff(sort_cutback(s)) == total_eff(s),
    decreases s.len(),
{
    if s.len() > 0 {
        lemma_total_eff_sort(s.drop_last());
        lemma_total_eff_insert_sorted(sort_cutback(s.drop_last()), s.last());
    }
}

/// Replacing one module shifts the total by the difference of effective
/// levels.
pub proof fn lemma_total_eff_update(s: Seq<Module>, i: int, x: Module)
    requires
        0 <= i < s.len(),
    ensures
        total_eff(s.update(i, x)) == total_eff(s) - eff_level(s[i].spec_level()) + eff_level(
            x.spec_level(),
        ),
    decreases s.len(),
{
    let u = s.update(i, x);
    if i == s.len() - 1 {
        assert(u.drop_last() =~= s.drop_last());
        assert(u.last() == x);
    } else {
        assert(u.drop_last() =~= s.drop_last().update(i, x));
        assert(u.last() == s.last());
        lemma_total_eff_update(s.drop_last(), i, x);
    }
}

impl SortableStorage<Module> {
    /// Sort the stored modules into cutback order; stable, so equal modules
    /// keep their relative order.
    pub fn sort_by_cut_order(&mut self)
        ensures
            final(self)@ == sort_cutback(old(self)@),
    {
        let ghost orig = self@;
        let mut rest = self.take_entries();
        let mut out: Vec<Module> = Vec::new();
        let ghost mut done: int = 0;
        proof {
            assert(orig.subrange(0, 0) =~= Seq::<Module>::empty());
        }
        while rest.len() > 0
            invariant
                0 <= done <= orig.len(),
                rest@ =~= orig.subrange(done, orig.len() as int),
                out@ == sort_cutback(orig.subrange(0, done)),
            decreases rest@.len(),
        {
            let x = rest.remove(0);
            proof {
                assert(x == orig[done]);
            }
            let mut p = out.len();
            while p > 0 && !cut_le_exec(&out[p - 1], &x)
                invariant
                    0 <= p <= out@.len(),
                    forall|j: int| p <= j < out@.len() ==> !cut_le(#[trigger] out@[j], x),
                decreases p,
            {
                p = p - 1;
            }
            let ghost before = out@;
            out.insert(p, x);
            proof {
                lemma_insert_sorted_at(before, x, p as int);
                let next = orig.subrange(0, done + 1);
                assert(next.drop_last() =~= orig.subrange(0, done));
                assert(next.last() == orig[done]);
                assert(out@ == insert_sorted(sort_cutback(orig.subrange(0, done)), x));
                done = done + 1;
                assert(rest@ =~= orig.subrange(done, orig.len() as int));
            }
        }
        proof {
            assert(orig.subrange(0, done) =~= orig);
        }
        self.put_entries(out);
    }
}

} // verus!
