//! The intersection engine: hit selection, per-hit precomputation, the
//! refractive-index stack for nested transparent solids, and the Schlick
//! reflectance approximation.
//!
//! An intersection names its shape by index into the world's object list,
//! so two materially identical shapes stay distinguishable inside the
//! containment stack.

use vstd::prelude::*;

verus! {

use crate::fixed::{
    Fx, fx_add, fx_sub, fx_neg, fx_mul, fx_div, fx_sqrt, fx_powf, iabs, EPS_RAW, SCALE, TWO_RAW,
};
use crate::material::spec_material_approx;
use crate::ray::{Ray, spec_position};
use crate::shape::{Shape, spec_normal_at};
use crate::tuple::{Tuple, spec_add, spec_sub, spec_neg, spec_scale, spec_dot, spec_reflect};

/// The scalar 5.0 in raw units.
pub const FIVE_RAW: i64 = 21474836480;

/// A ray/shape crossing: the ray parameter and the shape's index in the
/// world's object list.
#[derive(Clone, Copy, Debug, PartialEq, Eq, Structural)]
pub struct Intersection {
    pub t: Fx,
    pub object: usize,
}

/// Build an intersection from a parameter and an object index.
pub fn intersection(t: Fx, object: usize) -> (r: Intersection)
    ensures
        r == (Intersection { t, object }),
{
    Intersection { t, object }
}

/// Every intersection names an object inside the list.
pub open spec fn ix_objects_ok(xs: Seq<Intersection>, objects: Seq<Shape>) -> bool {
    forall|i: int| 0 <= i < xs.len() ==> #[trigger] xs[i].object < objects.len()
}

/// The tolerance equality the engine inherits from its intersections: the
/// parameters within about 1e-5 and the materials close (not the positions).
pub open spec fn spec_ix_eq(a: Intersection, b: Intersection, objects: Seq<Shape>) -> bool {
    &&& iabs(a.t@ - b.t@) < EPS_RAW as int
    &&& spec_material_approx(
        objects[a.object as int].material,
        objects[b.object as int].material,
    )
}

/// Insert into a list sorted ascending by `t`, after any equal parameters.
pub open spec fn spec_insert(s: Seq<Intersection>, x: Intersection) -> Seq<Intersection>
    decreases s.len(),
{
    if s.len() == 0 {
        seq![x]
    } else if s[0].t@ <= x.t@ {
        seq![s[0]] + spec_insert(s.drop_first(), x)
    } else {
        seq![x] + s
    }
}

/// Insertion sort ascending by `t`, stable for equal parameters.
pub open spec fn spec_sort_ix(s: Seq<Intersection>) -> Seq<Intersection>
    decreases s.len(),
{
    if s.len() == 0 {
        Seq::empty()
    } else {
        spec_insert(spec_sort_ix(s.drop_last()), s.last())
    }
}

/// The position of the first intersection with `t >= 0`, if any.
pub open spec fn spec_first_nonneg(s: Seq<Intersection>) -> Option<int>
    decreases s.len(),
{
    if s.len() == 0 {
        Option::None
    } else if s[0].t@ >= 0 {
        Option::Some(0int)
    } else {
        match spec_first_nonneg(s.drop_first()) {
            Option::Some(i) => Option::Some(i + 1),
            Option::None => Option::None,
        }
    }
}

/// The hit in a sorted list: its first intersection with `t >= 0`.
pub open spec fn spec_hit(s: Seq<Intersection>) -> Option<Intersection> {
    match spec_first_nonneg(s) {
        Option::Some(i) => Option::Some(s[i]),
        Option::None => Option::None,
    }
}

/// Insert an intersection into a list, keeping ascending `t` order.
fn insert_sorted(v: &mut Vec<Intersection>, x: Intersection)
    ensures
        final(v)@ == spec_insert(old(v)@, x),
{
    let ghost orig = v@;
    let mut j: usize = 0;
    while j < v.len() && v[j].t.raw <= x.t.raw
        invariant
            v@ == orig,
            j <= v@.len(),
            forall|k: int| 0 <= k < j ==> #[trigger] v@[k].t@ <= x.t@,
        decreases v@.len() - j,
    {
        j = j + 1;
    }
    v.insert(j, x);
    proof {
        lemma_insert_at(orig, x, j as int);
    }
}

/// Inserting at the found position matches the recursive insertion spec.
proof fn lemma_insert_at(s: Seq<Intersection>, x: Intersection, j: int)
    requires
        0 <= j <= s.len(),
        forall|k: int| 0 <= k < j ==> #[trigger] s[k].t@ <= x.t@,
        j < s.len() ==> !(s[j].t@ <= x.t@),
    ensures
        s.insert(j, x) == spec_insert(s, x),
    decreases j,
{
    if j == 0 {
        if s.len() == 0 {
            assert(s.insert(0, x) =~= seq![x]);
        } else {
            assert(s.insert(0, x) =~= seq![x] + s);
        }
    } else {
        lemma_insert_at(s.drop_first(), x, j - 1);
        assert(s.insert(j, x) =~= seq![s[0]] + s.drop_first().insert(j - 1, x));
    }
}

/// Sort a list of intersections ascending by `t` (stable).
pub fn sort_intersections(xs: &Vec<Intersection>) -> (out: Vec<Intersection>)
    ensures
        out@ == spec_sort_ix(xs@),
{
    let mut out: Vec<Intersection> = Vec::new();
    let mut i: usize = 0;
    while i < xs.len()
        invariant
            i <= xs@.len(),
            out@ == spec_sort_ix(xs@.take(i as int)),
        decreases xs@.len() - i,
    {
        insert_sorted(&mut out, xs[i]);
        proof {
            assert(xs@.take(i + 1 as int).drop_last() =~= xs@.take(i as int));
            assert(xs@.take(i + 1 as int).last() == xs@[i as int]);
        }
        i = i + 1;
    }
    proof {
        assert(xs@.take(xs@.len() as int) =~= xs@);
    }
    out
}

/// The first intersection with `t >= 0` in a list, as an index.
pub fn hit_index(xs: &Vec<Intersection>) -> (r: Option<usize>)
    ensures
        match r {
            Option::Some(i) => spec_first_nonneg(xs@) == Option::Some(i as int) && i < xs@.len(),
            Option::None => spec_first_nonneg(xs@) == Option::<int>::None,
        },
{
    proof {
        assert(xs@.skip(0) =~= xs@);
    }
    let mut i: usize = 0;
    while i < xs.len()
        invariant
            i <= xs@.len(),
            forall|k: int| 0 <= k < i ==> #[trigger] xs@[k].t@ < 0,
            spec_first_nonneg(xs@) == match spec_first_nonneg(xs@.skip(i as int)) {
                Option::Some(j) => Option::Some(j + i),
                Option::None => Option::<int>::None,
            },
        decreases xs@.len() - i,
    {
        if xs[i].t.raw >= 0 {
            proof {
                assert(xs@.skip(i as int)[0] == xs@[i as int]);
            }
            return Some(i);
        }
        proof {
            assert(xs@.skip(i as int).drop_first() =~= xs@.skip(i + 1));
            assert(xs@.skip(i as int)[0] == xs@[i as int]);
        }
        i = i + 1;
    }
    proof {
        assert(xs@.skip(i as int) =~= Seq::<Intersection>::empty());
    }
    None
}

/// Sort a list of intersections and return its hit: the first intersection
/// with a nonnegative parameter, which in the sorted list is the nearest
/// one in front of the ray's origin.
pub fn hit(xs: &Vec<Intersection>) -> (r: Option<Intersection>)
    ensures
        r == spec_hit(spec_sort_ix(xs@)),
{
    let sorted = sort_intersections(xs);
    match hit_index(&sorted) {
        Some(i) => Some(sorted[i]),
        None => None,
    }
}

/// Everything shading needs about one hit, precomputed.
#[derive(Clone, Copy, Debug)]
pub struct ComputedIntersection {
    pub t: Fx,
    pub object: usize,
    pub point: Tuple,
    pub eye_v: Tuple,
    pub normal_v: Tuple,
    pub reflect_v: Tuple,
    pub is_inside: bool,
    pub over_point: Tuple,
    pub under_point: Tuple,
    pub n1: Fx,
    pub n2: Fx,
}

/// Remove every occurrence of an index from the containment stack.
pub open spec fn stack_remove(s: Seq<usize>, x: usize) -> Seq<usize>
    decreases s.len(),
{
    if s.len() == 0 {
        Seq::empty()
    } else if s.last() == x {
        stack_remove(s.drop_last(), x)
    } else {
        stack_remove(s.drop_last(), x).push(s.last())
    }
}

/// The refractive index of the medium a stack top names, or 1.0 for empty.
pub open spec fn stack_medium(s: Seq<usize>, objects: Seq<Shape>) -> Fx {
    if s.len() == 0 {
        Fx { raw: SCALE }
    } else {
        objects[s.last() as int].material.refractive_index
    }
}

/// Walk the first `i` intersections of the sorted list, maintaining the
/// stack of currently entered shapes, and record the media on both sides of
/// the boundary whenever the walked element equals the hit: n1 before the
/// stack update, n2 after it.
pub open spec fn spec_refr_walk(
    xs: Seq<Intersection>,
    idx: int,
    objects: Seq<Shape>,
    i: nat,
) -> (Seq<usize>, Fx, Fx)
    decreases i,
{
    if i == 0 {
        (Seq::empty(), Fx { raw: SCALE }, Fx { raw: SCALE })
    } else {
        let prev = spec_refr_walk(xs, idx, objects, (i - 1) as nat);
        let cont = prev.0;
        let x = xs[i - 1];
        let is_hit = spec_ix_eq(x, xs[idx], objects);
        let n1 = if is_hit {
            stack_medium(cont, objects)
        } else {
            prev.1
        };
        let cont2 = if cont.contains(x.object) {
            stack_remove(cont, x.object)
        } else {
            cont.push(x.object)
        };
        let n2 = if is_hit {
            stack_medium(cont2, objects)
        } else {
            prev.2
        };
        (cont2, n1, n2)
    }
}

/// The precomputation of one hit against the full sorted intersection list
/// (assuming the hit shape's transform is invertible).
#[verifier::opaque]
pub open spec fn spec_prepare(
    xs: Seq<Intersection>,
    idx: int,
    r: Ray,
    objects: Seq<Shape>,
) -> ComputedIntersection {
    let t = xs[idx].t;
    let object = xs[idx].object;
    let point = spec_position(r, t);
    let eye_v = spec_neg(r.direction);
    let normal0 = spec_normal_at(objects[object as int], point);
    let is_inside = spec_dot(normal0, eye_v)@ < 0;
    let normal_v = if is_inside {
        spec_neg(normal0)
    } else {
        normal0
    };
    let reflect_v = spec_reflect(r.direction, normal_v);
    let eps = Fx { raw: EPS_RAW };
    let over_point = spec_add(point, spec_scale(normal_v, eps));
    let under_point = spec_sub(point, spec_scale(normal_v, eps));
    let walk = spec_refr_walk(xs, idx, objects, xs.len());
    ComputedIntersection {
        t,
        object,
        point,
        eye_v,
        normal_v,
        reflect_v,
        is_inside,
        over_point,
        under_point,
        n1: walk.1,
        n2: walk.2,
    }
}

/// Whether two intersections count as the same boundary crossing.
fn ix_eq(a: Intersection, b: Intersection, objects: &Vec<Shape>) -> (r: bool)
    requires
        a.object < objects@.len(),
        b.object < objects@.len(),
        forall|i: int| 0 <= i < objects@.len() ==> #[trigger] objects@[i].wf(),
    ensures
        r == spec_ix_eq(a, b, objects@),
{
    proof {
        assert(objects@[a.object as int].wf());
        assert(objects@[b.object as int].wf());
    }
    let d: i128 = (a.t.raw as i128) - (b.t.raw as i128);
    let m: i128 = if d < 0 {
        -d
    } else {
        d
    };
    m < EPS_RAW as i128 && objects[a.object].material.approx_eq(&objects[b.object].material)
}

/// Whether the containment stack holds an index.
fn stack_contains(v: &Vec<usize>, x: usize) -> (r: bool)
    ensures
        r == v@.contains(x),
{
    let mut i: usize = 0;
    while i < v.len()
        invariant
            i <= v@.len(),
            forall|k: int| 0 <= k < i ==> #[trigger] v@[k] != x,
        decreases v@.len() - i,
    {
        if v[i] == x {
            return true;
        }
        i = i + 1;
    }
    false
}

/// Elements surviving a stack removal keep any bound the stack had.
proof fn lemma_stack_remove_bound(s: Seq<usize>, x: usize, b: int)
    requires
        forall|k: int| 0 <= k < s.len() ==> #[trigger] s[k] < b,
    ensures
        forall|k: int|
            0 <= k < stack_remove(s, x).len() ==> #[trigger] stack_remove(s, x)[k] < b,
    decreases s.len(),
{
    if s.len() > 0 {
        lemma_stack_remove_bound(s.drop_last(), x, b);
        let r0 = stack_remove(s.drop_last(), x);
        if s.last() == x {
        } else {
            assert(s[s.len() - 1] < b);
            assert forall|k: int| 0 <= k < r0.push(s.last()).len() implies #[trigger] r0.push(
                s.last(),
            )[k] < b by {
                if k < r0.len() {
                    assert(r0.push(s.last())[k] == r0[k]);
                } else {
                    assert(r0.push(s.last())[k] == s.last());
                }
            }
        }
    }
}

/// Remove every occurrence of an index from the containment stack.
fn stack_retain(v: &Vec<usize>, x: usize) -> (out: Vec<usize>)
    ensures
        out@ == stack_remove(v@, x),
{
    let mut out: Vec<usize> = Vec::new();
    let mut i: usize = 0;
    while i < v.len()
        invariant
            i <= v@.len(),
            out@ == stack_remove(v@.take(i as int), x),
        decreases v@.len() - i,
    {
        proof {
            assert(v@.take(i + 1 as int).drop_last() =~= v@.take(i as int));
            assert(v@.take(i + 1 as int).last() == v@[i as int]);
        }
        if v[i] != x {
            out.push(v[i]);
        }
        i = i + 1;
    }
    proof {
        assert(v@.take(v@.len() as int) =~= v@);
    }
    out
}

/// Precompute everything shading needs about the hit at position `idx` of
/// the sorted intersection list `xs`.  Fails exactly when the hit shape's
/// placement transform is not invertible.
#[verifier::rlimit(100)]
pub fn prepare(
    xs: &Vec<Intersection>,
    idx: usize,
    r: &Ray,
    objects: &Vec<Shape>,
) -> (res: Result<ComputedIntersection, ()>)
    requires
        idx < xs@.len(),
        ix_objects_ok(xs@, objects@),
        forall|i: int| 0 <= i < objects@.len() ==> #[trigger] objects@[i].wf(),
    ensures
        res is Err <==> !objects@[xs@[idx as int].object as int].invertible(),
        res matches Ok(c) ==> c == spec_prepare(xs@, idx as int, *r, objects@) && c.object
            == xs@[idx as int].object,
{
    let hit_x = xs[idx];
    let t = hit_x.t;
    let object = hit_x.object;
    let point = r.position(t);
    let eye_v = r.direction.neg();
    let normal0 = match objects[object].normal_at(point) {
        Ok(n) => n,
        Err(()) => {
            return Err(());
        },
    };
    let is_inside = normal0.dot(eye_v).raw < 0;
    let normal_v = if is_inside {
        normal0.neg()
    } else {
        normal0
    };
    let reflect_v = r.direction.reflect(normal_v);
    let eps = Fx { raw: EPS_RAW };
    let over_point = point.add(normal_v.scale(eps));
    let under_point = point.sub(normal_v.scale(eps));

    let mut containers: Vec<usize> = Vec::new();
    let mut n1 = Fx { raw: SCALE };
    let mut n2 = Fx { raw: SCALE };
    let mut i: usize = 0;
    while i < xs.len()
        invariant
            idx < xs@.len(),
            i <= xs@.len(),
            ix_objects_ok(xs@, objects@),
            forall|k: int| 0 <= k < objects@.len() ==> #[trigger] objects@[k].wf(),
            forall|k: int| 0 <= k < containers@.len() ==> #[trigger] containers@[k] < objects@.len(),
            (containers@, n1, n2) == spec_refr_walk(xs@, idx as int, objects@, i as nat),
        decreases xs@.len() - i,
    {
        let x = xs[i];
        let is_hit = ix_eq(x, xs[idx], objects);
        if is_hit {
            if containers.len() == 0 {
                n1 = Fx { raw: SCALE };
            } else {
                n1 = objects[containers[containers.len() - 1]].material.refractive_index;
            }
        }
        if stack_contains(&containers, x.object) {
            proof {
                lemma_stack_remove_bound(containers@, x.object, objects@.len() as int);
            }
            containers = stack_retain(&containers, x.object);
        } else {
            containers.push(x.object);
        }
        if is_hit {
            if containers.len() == 0 {
                n2 = Fx { raw: SCALE };
            } else {
                n2 = objects[containers[containers.len() - 1]].material.refractive_index;
            }
        }
        i = i + 1;
    }
    let result = ComputedIntersection {
        t,
        object,
        point,
        eye_v,
        normal_v,
        reflect_v,
        is_inside,
        over_point,
        under_point,
        n1,
        n2,
    };
    proof {
        reveal(spec_prepare);
        assert(result == spec_prepare(xs@, idx as int, *r, objects@));
    }
    Ok(result)
}

/// The Schlick reflectance of a precomputed hit: the fraction of light
/// reflected at the boundary; exactly 1.0 under total internal reflection.
#[verifier::opaque]
pub open spec fn spec_schlick(c: ComputedIntersection) -> Fx {
    let one = Fx { raw: SCALE };
    let two = Fx { raw: TWO_RAW };
    let five = Fx { raw: FIVE_RAW };
    let cos0 = spec_dot(c.eye_v, c.normal_v);
    let cos1 = if c.n1@ > c.n2@ {
        let n = fx_div(c.n1, c.n2);
        let sin2_t = fx_mul(fx_powf(n, two), fx_sub(one, fx_powf(cos0, two)));
        if sin2_t@ > SCALE as int {
            cos0
        } else {
            fx_sqrt(fx_sub(one, sin2_t))
        }
    } else {
        cos0
    };
    let tir = c.n1@ > c.n2@ && fx_mul(
        fx_powf(fx_div(c.n1, c.n2), two),
        fx_sub(one, fx_powf(cos0, two)),
    )@ > SCALE as int;
    if tir {
        one
    } else {
        let r0 = fx_powf(fx_div(fx_sub(c.n1, c.n2), fx_add(c.n1, c.n2)), two);
        fx_add(r0, fx_mul(fx_sub(one, r0), fx_powf(fx_sub(one, cos1), five)))
    }
}

impl ComputedIntersection {
    /// The Schlick reflectance at this hit.
    pub fn schlick(&self) -> (r: Fx)
        ensures
            r == spec_schlick(*self),
    {
        let one = Fx { raw: SCALE };
        let two = Fx { raw: TWO_RAW };
        let five = Fx { raw: FIVE_RAW };
        let mut cos = self.eye_v.dot(self.normal_v);
        let mut tir = false;
        if self.n1.gt(self.n2) {
            let n = self.n1.div(self.n2);
            let sin2_t = n.powf(two).mul(one.sub(cos.powf(two)));
            if sin2_t.gt(one) {
                tir = true;
            } else {
                cos = one.sub(sin2_t).sqrt();
            }
        }
        let result: Fx;
        if tir {
            result = one;
        } else {
            let r0 = self.n1.sub(self.n2).div(self.n1.add(self.n2)).powf(two);
            result = r0.add(one.sub(r0).mul(one.sub(cos).powf(five)));
        }
        proof {
            reveal(spec_schlick);
            assert(result == spec_schlick(*self));
        }
        result
    }
}

/// Under total internal reflection the Schlick reflectance is exactly 1.
pub proof fn lemma_schlick_total_internal_reflection(c: ComputedIntersection)
    requires
        c.n1@ > c.n2@,
        ({
            let one = Fx { raw: SCALE };
            let two = Fx { raw: TWO_RAW };
            let cos0 = spec_dot(c.eye_v, c.normal_v);
            fx_mul(fx_powf(fx_div(c.n1, c.n2), two), fx_sub(one, fx_powf(cos0, two)))@ > SCALE as int
        }),
    ensures
        spec_schlick(c) == (Fx { raw: SCALE }),
{
    reveal(spec_schlick);
}

} // verus!
