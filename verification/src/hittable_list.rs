//! Aggregates: many objects asked as one.
//!
//! An aggregate is asked for the closest hit of a ray within an open interval
//! of the ray parameter.  Each member answers for itself; the aggregate keeps
//! the answer with the smallest parameter that lies strictly inside the
//! interval, and of several such the one that was given first.  A hierarchy
//! of bounding volumes may spare most members the question: it names
//! candidates, and as long as no member that would answer inside the interval
//! is left out, the closest hit is the same.
use vstd::prelude::*;
use crate::hit_record::HitRecord;
use crate::bbox::{face_boxes, Aabb, BBox};
use crate::material::Material;
use crate::mesh::Mesh;
use crate::onb::{axis_vector, unit_axis};
use crate::sphere_array::{sphere_boxes, SphereArray};
use crate::ray::Ray;
use crate::rectangle::Rectangle;
use crate::rounding::{round_pack, rounded};
use crate::scalar::{Scalar, ONE_BITS};
use crate::sphere::{sphere_density, sphere_direction, sphere_hit, Sphere};
use crate::triangle::Triangle;
use crate::vec3::{Point3, Vec3};
use crate::utility::random_usize_range;

verus! {

/// Whether `t` lies strictly between `t_min` and `t_max`.
pub open spec fn in_range(t: Scalar, t_min: Scalar, t_max: Scalar) -> bool {
    t_min.below(t) && t.below(t_max)
}

/// Whether `t` lies strictly between `t_min` and `t_max`.
pub fn is_in_range(t: &Scalar, t_min: &Scalar, t_max: &Scalar) -> (r: bool)
    ensures
        r == in_range(*t, *t_min, *t_max),
{
    t.gt(t_min) && t.lt(t_max)
}

/// Whether an answer is a hit strictly inside the interval.
pub open spec fn accepted(answer: Option<HitRecord>, t_min: Scalar, t_max: Scalar) -> bool {
    answer matches Some(h) && in_range(h.t, t_min, t_max)
}

/// Whether answer `i` is the closest hit: it is accepted, no accepted answer
/// has a smaller parameter, and none before it has the same.
pub open spec fn is_closest(
    answers: Seq<Option<HitRecord>>,
    t_min: Scalar,
    t_max: Scalar,
    i: int,
) -> bool {
    &&& 0 <= i < answers.len()
    &&& accepted(answers[i], t_min, t_max)
    &&& forall|j: int|
        0 <= j < answers.len() && accepted(#[trigger] answers[j], t_min, t_max)
            ==> answers[i]->0.t.rank() <= answers[j]->0.t.rank()
    &&& forall|j: int|
        0 <= j < i && accepted(#[trigger] answers[j], t_min, t_max) ==> answers[i]->0.t.rank()
            < answers[j]->0.t.rank()
}

/// No answer is a hit inside the interval.
pub open spec fn all_miss(answers: Seq<Option<HitRecord>>, t_min: Scalar, t_max: Scalar) -> bool {
    forall|j: int| 0 <= j < answers.len() ==> !accepted(#[trigger] answers[j], t_min, t_max)
}

/// The closest hit among the first `n` answers: of the accepted ones the
/// one with the smallest parameter, and of several such the first.
pub open spec fn closest_of(answers: Seq<Option<HitRecord>>, t_min: Scalar, t_max: Scalar, n: int) -> Option<
    HitRecord,
>
    decreases n,
{
    if n <= 0 {
        None
    } else {
        let before = closest_of(answers, t_min, t_max, n - 1);
        if accepted(answers[n - 1], t_min, t_max) {
            match before {
                Some(b) => if answers[n - 1]->0.t.below(b.t) {
                    answers[n - 1]
                } else {
                    before
                },
                None => answers[n - 1],
            }
        } else {
            before
        }
    }
}

/// What `closest_of` finds is the closest hit: an answer for which
/// [`is_closest`] holds, where any answer is accepted, and nothing otherwise.
pub proof fn lemma_closest_of(answers: Seq<Option<HitRecord>>, t_min: Scalar, t_max: Scalar, n: int)
    requires
        0 <= n <= answers.len(),
    ensures
        match closest_of(answers, t_min, t_max, n) {
            Some(h) => exists|i: int|
                0 <= i < n && #[trigger] answers[i] == Some(h) && is_closest(
                    answers.subrange(0, n),
                    t_min,
                    t_max,
                    i,
                ),
            None => all_miss(answers.subrange(0, n), t_min, t_max),
        },
    decreases n,
{
    let now = answers.subrange(0, n);
    if n > 0 {
        lemma_closest_of(answers, t_min, t_max, n - 1);
        let prefix = answers.subrange(0, n - 1);
        assert forall|j: int| 0 <= j < n - 1 implies prefix[j] == now[j] by {}
        let last = answers[n - 1];
        assert(now[n - 1] == last);
        match closest_of(answers, t_min, t_max, n - 1) {
            Some(b) => {
                let i = choose|i: int|
                    0 <= i < n - 1 && #[trigger] answers[i] == Some(b) && is_closest(prefix, t_min, t_max, i);
                assert(now[i] == Some(b));
                if accepted(last, t_min, t_max) && last->0.t.below(b.t) {
                    assert(is_closest(now, t_min, t_max, n - 1)) by {
                        assert forall|j: int| 0 <= j < n && accepted(#[trigger] now[j], t_min, t_max) implies now[n
                            - 1]->0.t.rank() <= now[j]->0.t.rank() by {
                            if j < n - 1 {
                                assert(accepted(prefix[j], t_min, t_max));
                            }
                        }
                        assert forall|j: int| 0 <= j < n - 1 && accepted(#[trigger] now[j], t_min, t_max) implies now[n
                            - 1]->0.t.rank() < now[j]->0.t.rank() by {
                            assert(accepted(prefix[j], t_min, t_max));
                        }
                    }
                } else {
                    assert(is_closest(now, t_min, t_max, i)) by {
                        assert forall|j: int| 0 <= j < n && accepted(#[trigger] now[j], t_min, t_max) implies now[i]->0.t.rank()
                            <= now[j]->0.t.rank() by {
                            if j < n - 1 {
                                assert(accepted(prefix[j], t_min, t_max));
                            }
                        }
                        assert forall|j: int| 0 <= j < i && accepted(#[trigger] now[j], t_min, t_max) implies now[i]->0.t.rank()
                            < now[j]->0.t.rank() by {
                            assert(accepted(prefix[j], t_min, t_max));
                        }
                    }
                }
            },
            None => {
                if accepted(last, t_min, t_max) {
                    assert(is_closest(now, t_min, t_max, n - 1)) by {
                        assert forall|j: int| 0 <= j < n - 1 implies !accepted(#[trigger] now[j], t_min, t_max) by {
                            assert(!accepted(prefix[j], t_min, t_max));
                        }
                    }
                } else {
                    assert forall|j: int| 0 <= j < n implies !accepted(#[trigger] now[j], t_min, t_max) by {
                        if j < n - 1 {
                            assert(!accepted(prefix[j], t_min, t_max));
                        }
                    }
                }
            },
        }
    }
}

/// What chance contributes to a direction towards an object: two uniform
/// numbers of the interval from 0 to 1, and cosine and sine of a uniform
/// angle.
#[derive(Clone, Copy, Debug, PartialEq, Eq, Structural)]
pub struct LightSamples {
    pub first: Scalar,
    pub second: Scalar,
    pub cos_phi: Scalar,
    pub sin_phi: Scalar,
}

/// An object that a ray can hit, and towards which directions can be drawn.
pub trait Hittable: Sized {
    /// The hit of a ray on the object within the interval from `t_min` to
    /// `t_max`.
    spec fn answer(&self, ray: Ray, t_min: Scalar, t_max: Scalar) -> Option<HitRecord>;

    /// The place of the object's material.
    spec fn material_place(&self) -> usize;

    /// The density with which `direction` is drawn from `origin` towards
    /// the object.
    spec fn density(&self, origin: Point3, direction: Vec3) -> Scalar;

    /// The direction from `origin` towards the object that the samples
    /// stand for.
    spec fn towards(&self, origin: Point3, samples: LightSamples) -> Vec3;

    /// The hit of a ray on the object within the interval from `t_min` to
    /// `t_max`.
    fn hit(&self, ray: &Ray, t_min: Scalar, t_max: Scalar) -> (r: Option<HitRecord>)
        ensures
            r == self.answer(*ray, t_min, t_max),
    ;

    /// The place of the object's material.
    fn material(&self) -> (r: usize)
        ensures
            r == self.material_place(),
    ;

    /// The density with which `direction` is drawn from `origin` towards
    /// the object.
    fn pdf_value(&self, origin: &Point3, direction: &Vec3) -> (r: Scalar)
        ensures
            r == self.density(*origin, *direction),
    ;

    /// A direction from `origin` towards the object.
    fn random(&self, origin: &Point3, samples: &LightSamples) -> (r: Vec3)
        ensures
            r == self.towards(*origin, *samples),
    ;
}

impl Hittable for Sphere {
    open spec fn answer(&self, ray: Ray, t_min: Scalar, t_max: Scalar) -> Option<HitRecord> {
        sphere_hit(*self, ray, t_min, t_max)
    }

    open spec fn material_place(&self) -> usize {
        self.material
    }

    open spec fn density(&self, origin: Point3, direction: Vec3) -> Scalar {
        sphere_density(*self, origin)
    }

    open spec fn towards(&self, origin: Point3, samples: LightSamples) -> Vec3 {
        sphere_direction(*self, origin, samples.first, samples.cos_phi, samples.sin_phi)
    }

    fn hit(&self, ray: &Ray, t_min: Scalar, t_max: Scalar) -> (r: Option<HitRecord>) {
        Sphere::hit(self, ray, t_min, t_max)
    }

    fn material(&self) -> (r: usize) {
        self.material
    }

    fn pdf_value(&self, origin: &Point3, direction: &Vec3) -> (r: Scalar) {
        Sphere::pdf_value(self, origin)
    }

    fn random(&self, origin: &Point3, samples: &LightSamples) -> (r: Vec3) {
        Sphere::random(self, origin, samples.first, samples.cos_phi, samples.sin_phi)
    }
}

impl Hittable for Rectangle {
    open spec fn answer(&self, ray: Ray, t_min: Scalar, t_max: Scalar) -> Option<HitRecord> {
        self.flat().hit(ray, t_min, t_max)
    }

    open spec fn material_place(&self) -> usize {
        self.flat().material
    }

    open spec fn density(&self, origin: Point3, direction: Vec3) -> Scalar {
        self.flat().density(origin, direction)
    }

    open spec fn towards(&self, origin: Point3, samples: LightSamples) -> Vec3 {
        self.flat().point(samples.first, samples.second).minus(origin)
    }

    fn hit(&self, ray: &Ray, t_min: Scalar, t_max: Scalar) -> (r: Option<HitRecord>) {
        Rectangle::hit(self, ray, t_min, t_max)
    }

    fn material(&self) -> (r: usize) {
        Rectangle::material(self)
    }

    fn pdf_value(&self, origin: &Point3, direction: &Vec3) -> (r: Scalar) {
        Rectangle::pdf_value(self, origin, direction)
    }

    fn random(&self, origin: &Point3, samples: &LightSamples) -> (r: Vec3) {
        Rectangle::random(self, origin, samples.first, samples.second)
    }
}

impl Hittable for Triangle {
    open spec fn answer(&self, ray: Ray, t_min: Scalar, t_max: Scalar) -> Option<HitRecord> {
        self.struck(ray, t_min, t_max)
    }

    open spec fn material_place(&self) -> usize {
        self.material
    }

    open spec fn density(&self, origin: Point3, direction: Vec3) -> Scalar {
        Triangle::density(*self, origin)
    }

    open spec fn towards(&self, origin: Point3, samples: LightSamples) -> Vec3 {
        self.point(samples.first, samples.second).minus(origin)
    }

    fn hit(&self, ray: &Ray, t_min: Scalar, t_max: Scalar) -> (r: Option<HitRecord>) {
        Triangle::hit(self, ray, t_min, t_max)
    }

    fn material(&self) -> (r: usize) {
        self.material
    }

    fn pdf_value(&self, origin: &Point3, direction: &Vec3) -> (r: Scalar) {
        Triangle::pdf_value(self, origin)
    }

    fn random(&self, origin: &Point3, samples: &LightSamples) -> (r: Vec3) {
        Triangle::random(self, origin, samples.first, samples.second)
    }
}

/// Whether a member of an aggregate is a light: whether its material is one
/// of the table and is a light.
pub open spec fn member_emits<T: Hittable>(member: T, materials: Seq<Material>) -> bool {
    member.material_place() < materials.len() && materials[member.material_place() as int].emits()
}

/// Whether an aggregate is a light: whether one of its members is.
pub open spec fn any_emits<T: Hittable>(members: Seq<T>, materials: Seq<Material>) -> bool {
    exists|i: int| 0 <= i < members.len() && member_emits(#[trigger] members[i], materials)
}

/// Whether an aggregate is a light: whether one of its members is.
pub fn any_light<T: Hittable>(members: &Vec<T>, materials: &Vec<Material>) -> (r: bool)
    ensures
        r == any_emits(members@, materials@),
{
    let mut i: usize = 0;
    while i < members.len()
        invariant
            i <= members.len(),
            forall|j: int| 0 <= j < i ==> !member_emits(#[trigger] members@[j], materials@),
        decreases members.len() - i,
    {
        let m = members[i].material();
        if m < materials.len() && materials[m].is_light() {
            return true;
        }
        i += 1;
    }
    false
}

/// The sum of the densities of the first `n` members, each times `weight`.
pub open spec fn weighted_sum<T: Hittable>(
    members: Seq<T>,
    origin: Point3,
    direction: Vec3,
    weight: Scalar,
    n: int,
) -> Scalar
    decreases n,
{
    if n <= 0 {
        Scalar { bits: 0 }
    } else {
        weighted_sum(members, origin, direction, weight, n - 1).plus(
            members[n - 1].density(origin, direction).times(weight),
        )
    }
}

/// The density of an aggregate: the even mixture of its members',
/// `(1/N) · Σ pdf_i`.
pub open spec fn mixture<T: Hittable>(members: Seq<T>, origin: Point3, direction: Vec3) -> Scalar {
    let weight = (Scalar { bits: ONE_BITS }).over(rounded(false, members.len(), 0));
    weighted_sum(members, origin, direction, weight, members.len() as int)
}

/// The density with which `direction` is drawn from `origin` towards an
/// aggregate.
pub fn mixture_density<T: Hittable>(members: &Vec<T>, origin: &Point3, direction: &Vec3) -> (r: Scalar)
    ensures
        r == mixture(members@, *origin, *direction),
{
    let weight = Scalar::one().div(&Scalar::from_usize(members.len()));
    let mut sum = Scalar::zero();
    let mut i: usize = 0;
    while i < members.len()
        invariant
            i <= members.len(),
            sum == weighted_sum(members@, *origin, *direction, weight, i as int),
        decreases members.len() - i,
    {
        sum = sum.add(&members[i].pdf_value(origin, direction).mul(&weight));
        i += 1;
    }
    sum
}

/// A direction from `origin` towards member `member` of an aggregate; the
/// x axis where the aggregate has no such member.
pub fn direction_towards<T: Hittable>(
    members: &Vec<T>,
    member: usize,
    origin: &Point3,
    samples: &LightSamples,
) -> (r: Vec3)
    ensures
        r == if member < members@.len() {
            members@[member as int].towards(*origin, *samples)
        } else {
            unit_axis(0)
        },
{
    if member < members.len() {
        members[member].random(origin, samples)
    } else {
        axis_vector(0)
    }
}

/// What member `c` answers, and nothing where the aggregate has no such
/// member.
pub open spec fn answer_of<T: Hittable>(members: Seq<T>, c: int, ray: Ray, t_min: Scalar, t_max: Scalar) -> Option<
    HitRecord,
> {
    if 0 <= c < members.len() {
        members[c].answer(ray, t_min, t_max)
    } else {
        None
    }
}

/// The answers of the candidates that a traversal names, in its order.
pub open spec fn candidate_answers<T: Hittable>(
    members: Seq<T>,
    candidates: Seq<usize>,
    ray: Ray,
    t_min: Scalar,
    t_max: Scalar,
) -> Seq<Option<HitRecord>> {
    Seq::new(candidates.len(), |k: int| answer_of(members, candidates[k] as int, ray, t_min, t_max))
}

/// The answers of all members, in their order.
pub open spec fn all_answers<T: Hittable>(members: Seq<T>, ray: Ray, t_min: Scalar, t_max: Scalar) -> Seq<
    Option<HitRecord>,
> {
    Seq::new(members.len(), |k: int| members[k].answer(ray, t_min, t_max))
}

/// Whether a hit at `t` on the member in place `at` is kept over the best
/// hit so far: whether it is nearer, or as near and on a member that comes
/// earlier in the aggregate.
pub open spec fn kept_over(t: Scalar, at: usize, best: HitRecord, best_at: usize) -> bool {
    t.below(best.t) || (!best.t.below(t) && at < best_at)
}

/// The closest hit among the first `n` answers, which are those of the
/// members in the given places, and the place of the member that was hit:
/// of the accepted answers the one with the smallest parameter, and of
/// several such that of the member that comes first in the aggregate.
pub open spec fn closest_placed(
    answers: Seq<Option<HitRecord>>,
    places: Seq<usize>,
    t_min: Scalar,
    t_max: Scalar,
    n: int,
) -> Option<(HitRecord, usize)>
    decreases n,
{
    if n <= 0 {
        None
    } else {
        let before = closest_placed(answers, places, t_min, t_max, n - 1);
        if accepted(answers[n - 1], t_min, t_max) {
            match before {
                Some((b, at)) => if kept_over(answers[n - 1]->0.t, places[n - 1], b, at) {
                    Some((answers[n - 1]->0, places[n - 1]))
                } else {
                    before
                },
                None => Some((answers[n - 1]->0, places[n - 1])),
            }
        } else {
            before
        }
    }
}

/// The closest hit of a ray among the members that a traversal names, in
/// whatever order it names them: the hit with the smallest parameter, and
/// of several such that on the member that comes first in the aggregate.
pub open spec fn closest_candidate<T: Hittable>(
    members: Seq<T>,
    candidates: Seq<usize>,
    ray: Ray,
    t_min: Scalar,
    t_max: Scalar,
) -> Option<HitRecord> {
    match closest_placed(
        candidate_answers(members, candidates, ray, t_min, t_max),
        candidates,
        t_min,
        t_max,
        candidates.len() as int,
    ) {
        Some((h, _)) => Some(h),
        None => None,
    }
}

/// The closest hit of a ray among all members.
pub open spec fn closest_member<T: Hittable>(members: Seq<T>, ray: Ray, t_min: Scalar, t_max: Scalar) -> Option<
    HitRecord,
> {
    closest_of(all_answers(members, ray, t_min, t_max), t_min, t_max, members.len() as int)
}

/// Keeps the closer of the best hit so far and a new answer.
fn keep_closer(best: Option<HitRecord>, answer: Option<HitRecord>, t_min: Scalar, t_max: Scalar) -> (r: Option<
    HitRecord,
>)
    ensures
        r == if accepted(answer, t_min, t_max) {
            match best {
                Some(b) => if answer->0.t.below(b.t) {
                    answer
                } else {
                    best
                },
                None => answer,
            }
        } else {
            best
        },
{
    match answer {
        Some(h) => {
            if h.t.gt(&t_min) && h.t.lt(&t_max) {
                match best {
                    Some(b) => {
                        if h.t.lt(&b.t) {
                            answer
                        } else {
                            best
                        }
                    },
                    None => answer,
                }
            } else {
                best
            }
        },
        None => best,
    }
}

/// The closest hit of a ray among the members of an aggregate that a
/// traversal of its bounding-volume hierarchy names: each of them is asked,
/// and of the hits strictly inside the interval the one with the smallest
/// parameter is kept; of several such the one on the member that comes
/// first in the aggregate, in whatever order the traversal names them.  A
/// candidate that is no member is passed over.
pub fn closest_among<T: Hittable>(
    members: &Vec<T>,
    candidates: &Vec<usize>,
    ray: &Ray,
    t_min: Scalar,
    t_max: Scalar,
) -> (r: Option<HitRecord>)
    ensures
        r == closest_candidate(members@, candidates@, *ray, t_min, t_max),
{
    let mut best: Option<(HitRecord, usize)> = None;
    let mut k: usize = 0;
    let ghost answers = candidate_answers(members@, candidates@, *ray, t_min, t_max);
    while k < candidates.len()
        invariant
            k <= candidates.len(),
            answers == candidate_answers(members@, candidates@, *ray, t_min, t_max),
            best == closest_placed(answers, candidates@, t_min, t_max, k as int),
        decreases candidates.len() - k,
    {
        let c = candidates[k];
        let answer = if c < members.len() {
            members[c].hit(ray, t_min, t_max)
        } else {
            None
        };
        assert(answers[k as int] == answer);
        match answer {
            Some(h) => {
                if is_in_range(&h.t, &t_min, &t_max) {
                    best = match best {
                        Some((b, at)) => {
                            if h.t.lt(&b.t) || (!b.t.lt(&h.t) && c < at) {
                                Some((h, c))
                            } else {
                                best
                            }
                        },
                        None => Some((h, c)),
                    };
                }
            },
            None => {},
        }
        k += 1;
    }
    match best {
        Some((h, _)) => Some(h),
        None => None,
    }
}

/// The closest hit of a ray among all members of an aggregate.
pub fn closest_of_all<T: Hittable>(members: &Vec<T>, ray: &Ray, t_min: Scalar, t_max: Scalar) -> (r: Option<
    HitRecord,
>)
    ensures
        r == closest_member(members@, *ray, t_min, t_max),
{
    let mut best: Option<HitRecord> = None;
    let mut k: usize = 0;
    let ghost answers = all_answers(members@, *ray, t_min, t_max);
    while k < members.len()
        invariant
            k <= members.len(),
            answers == all_answers(members@, *ray, t_min, t_max),
            best == closest_of(answers, t_min, t_max, k as int),
        decreases members.len() - k,
    {
        let answer = members[k].hit(ray, t_min, t_max);
        assert(answers[k as int] == answer);
        best = keep_closer(best, answer, t_min, t_max);
        k += 1;
    }
    best
}

/// A traversal is complete for a ray when it leaves out no member that the
/// ray hits strictly inside the interval.
pub open spec fn complete_for<T: Hittable>(
    members: Seq<T>,
    candidates: Seq<usize>,
    ray: Ray,
    t_min: Scalar,
    t_max: Scalar,
) -> bool {
    forall|j: int|
        0 <= j < members.len() && accepted(#[trigger] members[j].answer(ray, t_min, t_max), t_min, t_max)
            ==> exists|k: int| 0 <= k < candidates.len() && #[trigger] candidates[k] == j
}

/// What `closest_placed` finds: an accepted answer among the first `n`,
/// with the place it came from, than which no accepted answer is nearer,
/// and none as near comes from an earlier place.
pub proof fn lemma_closest_placed(
    answers: Seq<Option<HitRecord>>,
    places: Seq<usize>,
    t_min: Scalar,
    t_max: Scalar,
    n: int,
)
    requires
        0 <= n <= answers.len(),
        answers.len() == places.len(),
    ensures
        match closest_placed(answers, places, t_min, t_max, n) {
            Some((h, at)) => {
                &&& in_range(h.t, t_min, t_max)
                &&& exists|k: int| 0 <= k < n && #[trigger] answers[k] == Some(h) && places[k] == at
                &&& forall|j: int|
                    0 <= j < n && accepted(#[trigger] answers[j], t_min, t_max) ==> h.t.rank()
                        < answers[j]->0.t.rank() || (h.t.rank() == answers[j]->0.t.rank() && at <= places[j])
            },
            None => forall|j: int| 0 <= j < n ==> !accepted(#[trigger] answers[j], t_min, t_max),
        },
    decreases n,
{
    if n > 0 {
        lemma_closest_placed(answers, places, t_min, t_max, n - 1);
        let last = answers[n - 1];
        match closest_placed(answers, places, t_min, t_max, n - 1) {
            Some((b, at)) => {
                let k = choose|k: int| 0 <= k < n - 1 && #[trigger] answers[k] == Some(b) && places[k] == at;
                if accepted(last, t_min, t_max) && kept_over(last->0.t, places[n - 1], b, at) {
                    assert(answers[n - 1] == Some(last->0) && places[n - 1] == places[n - 1]);
                } else {
                    assert(answers[k] == Some(b) && places[k] == at);
                }
            },
            None => {
                if accepted(last, t_min, t_max) {
                    assert(answers[n - 1] == Some(last->0) && places[n - 1] == places[n - 1]);
                }
            },
        }
    }
}

/// The hierarchy of bounding volumes loses no hit and changes none.  Asking
/// only the candidates of a complete traversal, in whatever order it names
/// them, gives what asking every member in turn gives: a hit exactly when
/// there is one, on the same member, with the same record.
pub proof fn lemma_hierarchy_complete<T: Hittable>(
    members: Seq<T>,
    candidates: Seq<usize>,
    ray: Ray,
    t_min: Scalar,
    t_max: Scalar,
)
    requires
        complete_for(members, candidates, ray, t_min, t_max),
    ensures
        closest_candidate(members, candidates, ray, t_min, t_max) == closest_member(members, ray, t_min, t_max),
{
    let all = all_answers(members, ray, t_min, t_max);
    let some = candidate_answers(members, candidates, ray, t_min, t_max);
    lemma_closest_of(all, t_min, t_max, all.len() as int);
    lemma_closest_placed(some, candidates, t_min, t_max, some.len() as int);
    assert(all.subrange(0, all.len() as int) == all);
    // every accepted answer of a candidate is the accepted answer of a member
    assert forall|k: int| 0 <= k < some.len() && accepted(#[trigger] some[k], t_min, t_max) implies 0
        <= candidates[k] < members.len() && all[candidates[k] as int] == some[k] by {}
    let placed = closest_placed(some, candidates, t_min, t_max, some.len() as int);
    match closest_member(members, ray, t_min, t_max) {
        Some(m) => {
            let i = choose|i: int|
                0 <= i < all.len() && #[trigger] all[i] == Some(m) && is_closest(all, t_min, t_max, i);
            assert(accepted(members[i].answer(ray, t_min, t_max), t_min, t_max));
            let k = choose|k: int| 0 <= k < candidates.len() && #[trigger] candidates[k] == i;
            assert(some[k] == all[i]);
            assert(accepted(some[k], t_min, t_max));
            match placed {
                Some((h, at)) => {
                    let c = choose|c: int| 0 <= c < some.len() && #[trigger] some[c] == Some(h) && candidates[c] == at;
                    assert(accepted(some[c], t_min, t_max));
                    assert(all[at as int] == Some(h));
                    assert(accepted(all[at as int], t_min, t_max));
                    // the member's answer is no nearer than the closest of all, and the
                    // closest of all is a candidate, so the two are as near
                    assert(m.t.rank() <= h.t.rank());
                    assert(h.t.rank() <= m.t.rank());
                    assert(at <= i);
                    if at < i {
                        assert(m.t.rank() < all[at as int]->0.t.rank());
                    }
                    assert(at == i);
                },
                None => {
                    assert(!accepted(some[k], t_min, t_max));
                },
            }
        },
        None => {
            match placed {
                Some((h, at)) => {
                    let c = choose|c: int| 0 <= c < some.len() && #[trigger] some[c] == Some(h) && candidates[c] == at;
                    assert(accepted(some[c], t_min, t_max));
                    assert(accepted(all[candidates[c] as int], t_min, t_max));
                },
                None => {},
            }
        },
    }
}

/// Whether every member names a material of a table of `count` materials.
pub open spec fn members_within<T: Hittable>(members: Seq<T>, count: nat) -> bool {
    forall|i: int| 0 <= i < members.len() ==> (#[trigger] members[i]).material_place() < count
}

/// Whether every member names a material of a table of `count` materials.
pub fn all_within<T: Hittable>(members: &Vec<T>, count: usize) -> (r: bool)
    ensures
        r == members_within(members@, count as nat),
{
    let mut i: usize = 0;
    while i < members.len()
        invariant
            i <= members.len(),
            forall|j: int| 0 <= j < i ==> (#[trigger] members@[j]).material_place() < count,
        decreases members.len() - i,
    {
        if members[i].material() >= count {
            return false;
        }
        i += 1;
    }
    true
}

/// The hit that an aggregate reports is the answer of one of its members,
/// whether the candidates of a traversal were asked or every member.
pub proof fn lemma_member_answers<T: Hittable>(
    members: Seq<T>,
    candidates: Seq<usize>,
    ray: Ray,
    t_min: Scalar,
    t_max: Scalar,
)
    ensures
        closest_candidate(members, candidates, ray, t_min, t_max) matches Some(h) ==> exists|i: int|
            0 <= i < members.len() && (#[trigger] members[i]).answer(ray, t_min, t_max) == Some(h),
        closest_member(members, ray, t_min, t_max) matches Some(h) ==> exists|i: int|
            0 <= i < members.len() && (#[trigger] members[i]).answer(ray, t_min, t_max) == Some(h),
{
    let all = all_answers(members, ray, t_min, t_max);
    let some = candidate_answers(members, candidates, ray, t_min, t_max);
    lemma_closest_of(all, t_min, t_max, all.len() as int);
    lemma_closest_placed(some, candidates, t_min, t_max, some.len() as int);
    match closest_placed(some, candidates, t_min, t_max, some.len() as int) {
        Some((h, at)) => {
            let k = choose|k: int| 0 <= k < some.len() && #[trigger] some[k] == Some(h) && candidates[k] == at;
            assert(answer_of(members, candidates[k] as int, ray, t_min, t_max) == Some(h));
            assert(members[candidates[k] as int].answer(ray, t_min, t_max) == Some(h));
        },
        None => {},
    }
    match closest_member(members, ray, t_min, t_max) {
        Some(h) => {
            let i = choose|i: int|
                0 <= i < all.len() && #[trigger] all[i] == Some(h) && is_closest(
                    all.subrange(0, all.len() as int),
                    t_min,
                    t_max,
                    i,
                );
            assert(members[i].answer(ray, t_min, t_max) == Some(h));
        },
        None => {},
    }
}

/// A member of an aggregate of `len` members, each as likely as another:
/// where a direction towards the aggregate is asked for, the member that is
/// to give it.  An aggregate without members gives none.
pub fn random_member(len: usize) -> (r: Option<usize>)
    ensures
        len == 0 <==> r is None,
        r matches Some(i) ==> i < len,
{
    if len == 0 {
        None
    } else {
        Some(random_usize_range(0, len))
    }
}

/// An object of the scene.
#[derive(Debug)]
pub enum Object {
    Sphere(Sphere),
    Rectangle(Rectangle),
    Triangle(Triangle),
    BBox(BBox),
    SphereArray(SphereArray),
    Mesh(Mesh),
}

/// The candidates that the traversal of an aggregate's hierarchy names for
/// a ray; `None` where no traversal was made, so that every member is asked.
pub type Traversal = Option<Vec<usize>>;

impl Object {
    /// The closest hit of a ray on the object.  An aggregate asks the
    /// candidates of the traversal, or every member where there is none.
    pub open spec fn answer(&self, ray: Ray, t_min: Scalar, t_max: Scalar, traversal: Traversal) -> Option<
        HitRecord,
    > {
        match (*self, traversal) {
            (Object::Sphere(s), _) => s.answer(ray, t_min, t_max),
            (Object::Rectangle(q), _) => q.answer(ray, t_min, t_max),
            (Object::Triangle(t), _) => t.answer(ray, t_min, t_max),
            (Object::BBox(b), Some(c)) => closest_candidate(b.faces@, c@, ray, t_min, t_max),
            (Object::BBox(b), None) => closest_member(b.faces@, ray, t_min, t_max),
            (Object::SphereArray(a), Some(c)) => closest_candidate(a.spheres@, c@, ray, t_min, t_max),
            (Object::SphereArray(a), None) => closest_member(a.spheres@, ray, t_min, t_max),
            (Object::Mesh(m), Some(c)) => closest_candidate(m.triangles@, c@, ray, t_min, t_max),
            (Object::Mesh(m), None) => closest_member(m.triangles@, ray, t_min, t_max),
        }
    }

    /// Whether the object is a light: whether its material is, or that of
    /// one of its members.
    pub open spec fn emits(&self, materials: Seq<Material>) -> bool {
        match *self {
            Object::Sphere(s) => member_emits(s, materials),
            Object::Rectangle(q) => member_emits(q, materials),
            Object::Triangle(t) => member_emits(t, materials),
            Object::BBox(b) => any_emits(b.faces@, materials),
            Object::SphereArray(a) => any_emits(a.spheres@, materials),
            Object::Mesh(m) => any_emits(m.triangles@, materials),
        }
    }

    /// How many members an aggregate has; 1 for a single object.
    pub open spec fn members(&self) -> nat {
        match *self {
            Object::BBox(b) => b.faces@.len(),
            Object::SphereArray(a) => a.spheres@.len(),
            Object::Mesh(m) => m.triangles@.len(),
            _ => 1,
        }
    }

    /// The density with which `direction` is drawn from `origin` towards
    /// the object: its own, or the even mixture of its members'.
    pub open spec fn density(&self, origin: Point3, direction: Vec3) -> Scalar {
        match *self {
            Object::Sphere(s) => s.density(origin, direction),
            Object::Rectangle(q) => q.density(origin, direction),
            Object::Triangle(t) => Hittable::density(&t, origin, direction),
            Object::BBox(b) => mixture(b.faces@, origin, direction),
            Object::SphereArray(a) => mixture(a.spheres@, origin, direction),
            Object::Mesh(m) => mixture(m.triangles@, origin, direction),
        }
    }

    /// The direction from `origin` towards the object, or towards member
    /// `member` of an aggregate, that the samples stand for; the x axis
    /// where an aggregate has no such member.
    pub open spec fn towards(&self, member: usize, origin: Point3, samples: LightSamples) -> Vec3 {
        match *self {
            Object::Sphere(s) => s.towards(origin, samples),
            Object::Rectangle(q) => q.towards(origin, samples),
            Object::Triangle(t) => t.towards(origin, samples),
            Object::BBox(b) => if member < b.faces@.len() {
                b.faces@[member as int].towards(origin, samples)
            } else {
                unit_axis(0)
            },
            Object::SphereArray(a) => if member < a.spheres@.len() {
                a.spheres@[member as int].towards(origin, samples)
            } else {
                unit_axis(0)
            },
            Object::Mesh(m) => if member < m.triangles@.len() {
                m.triangles@[member as int].towards(origin, samples)
            } else {
                unit_axis(0)
            },
        }
    }

    /// The closest hit of a ray on the object.
    pub fn hit(&self, ray: &Ray, t_min: Scalar, t_max: Scalar, traversal: &Traversal) -> (r: Option<
        HitRecord,
    >)
        ensures
            r == self.answer(*ray, t_min, t_max, *traversal),
    {
        match self {
            Object::Sphere(s) => s.hit(ray, t_min, t_max),
            Object::Rectangle(q) => q.hit(ray, t_min, t_max),
            Object::Triangle(t) => t.hit(ray, t_min, t_max),
            Object::BBox(b) => match traversal {
                Some(c) => b.hit(ray, t_min, t_max, c),
                None => b.hit_all(ray, t_min, t_max),
            },
            Object::SphereArray(a) => match traversal {
                Some(c) => a.hit(ray, t_min, t_max, c),
                None => a.hit_all(ray, t_min, t_max),
            },
            Object::Mesh(m) => match traversal {
                Some(c) => m.hit(ray, t_min, t_max, c),
                None => m.hit_all(ray, t_min, t_max),
            },
        }
    }

    /// Whether the object is a light.
    pub fn is_light(&self, materials: &Vec<Material>) -> (r: bool)
        ensures
            r == self.emits(materials@),
    {
        match self {
            Object::Sphere(s) => s.is_light(materials),
            Object::Rectangle(q) => q.is_light(materials),
            Object::Triangle(t) => t.is_light(materials),
            Object::BBox(b) => b.is_light(materials),
            Object::SphereArray(a) => a.is_light(materials),
            Object::Mesh(m) => m.is_light(materials),
        }
    }

    /// The boxes of the members of an aggregate, in their order: what a
    /// hierarchy of bounding volumes is built over.  A single object has
    /// none.
    pub open spec fn boxes(&self) -> Seq<Aabb> {
        match *self {
            Object::BBox(b) => face_boxes(b.faces@),
            Object::SphereArray(a) => sphere_boxes(a.spheres@),
            Object::Mesh(m) => Seq::new(
                m.triangles@.len(),
                |i: int|
                    Aabb {
                        min: m.triangles@[i].vertices.0.lower(m.triangles@[i].vertices.1).lower(
                            m.triangles@[i].vertices.2,
                        ),
                        max: m.triangles@[i].vertices.0.upper(m.triangles@[i].vertices.1).upper(
                            m.triangles@[i].vertices.2,
                        ),
                    },
            ),
            _ => Seq::empty(),
        }
    }

    /// The boxes of the members of an aggregate.
    pub fn member_boxes(&self) -> (r: Vec<Aabb>)
        ensures
            r@ == self.boxes(),
    {
        let mut out: Vec<Aabb> = Vec::new();
        match self {
            Object::BBox(b) => {
                let mut i: usize = 0;
                while i < b.faces.len()
                    invariant
                        i <= b.faces.len(),
                        out@.len() == i,
                        forall|j: int| 0 <= j < i ==> out@[j] == (#[trigger] b.faces@[j]).flat().bounds(),
                    decreases b.faces.len() - i,
                {
                    out.push(b.faces[i].aabb());
                    i += 1;
                }
                assert(out@ =~= face_boxes(b.faces@));
            },
            Object::SphereArray(a) => {
                let mut i: usize = 0;
                while i < a.spheres.len()
                    invariant
                        i <= a.spheres.len(),
                        out@.len() == i,
                        forall|j: int| 0 <= j < i ==> out@[j] == sphere_boxes(a.spheres@)[j],
                    decreases a.spheres.len() - i,
                {
                    out.push(a.spheres[i].aabb());
                    i += 1;
                }
                assert(out@ =~= sphere_boxes(a.spheres@));
            },
            Object::Mesh(m) => {
                let mut i: usize = 0;
                while i < m.triangles.len()
                    invariant
                        i <= m.triangles.len(),
                        out@.len() == i,
                        forall|j: int| 0 <= j < i ==> out@[j] == self.boxes()[j],
                        *self == Object::Mesh(*m),
                    decreases m.triangles.len() - i,
                {
                    out.push(m.triangles[i].aabb());
                    i += 1;
                }
                assert(out@ =~= self.boxes());
            },
            _ => {
                assert(out@ =~= self.boxes());
            },
        }
        out
    }

    /// Whether the object, and every member of an aggregate, names a
    /// material of a table of `count` materials.
    pub open spec fn within(&self, count: nat) -> bool {
        match *self {
            Object::Sphere(s) => s.material_place() < count,
            Object::Rectangle(q) => q.material_place() < count,
            Object::Triangle(t) => t.material_place() < count,
            Object::BBox(b) => members_within(b.faces@, count),
            Object::SphereArray(a) => members_within(a.spheres@, count),
            Object::Mesh(m) => members_within(m.triangles@, count),
        }
    }

    /// Whether the object names materials of a table of `count` materials
    /// only.
    pub fn materials_within(&self, count: usize) -> (r: bool)
        ensures
            r == self.within(count as nat),
    {
        match self {
            Object::Sphere(s) => s.material < count,
            Object::Rectangle(q) => q.material() < count,
            Object::Triangle(t) => t.material < count,
            Object::BBox(b) => all_within(&b.faces, count),
            Object::SphereArray(a) => all_within(&a.spheres, count),
            Object::Mesh(m) => all_within(&m.triangles, count),
        }
    }

    /// How many members an aggregate has; 1 for a single object.
    pub fn len(&self) -> (r: usize)
        ensures
            r == self.members(),
    {
        match self {
            Object::BBox(b) => b.faces.len(),
            Object::SphereArray(a) => a.spheres.len(),
            Object::Mesh(m) => m.triangles.len(),
            _ => 1,
        }
    }

    /// The density with which `direction` is drawn from `origin` towards
    /// the object.
    pub fn pdf_value(&self, origin: &Point3, direction: &Vec3) -> (r: Scalar)
        ensures
            r == self.density(*origin, *direction),
    {
        match self {
            Object::Sphere(s) => Hittable::pdf_value(s, origin, direction),
            Object::Rectangle(q) => Hittable::pdf_value(q, origin, direction),
            Object::Triangle(t) => Hittable::pdf_value(t, origin, direction),
            Object::BBox(b) => b.pdf_value(origin, direction),
            Object::SphereArray(a) => a.pdf_value(origin, direction),
            Object::Mesh(m) => m.pdf_value(origin, direction),
        }
    }

    /// A direction from `origin` towards the object, or towards member
    /// `member` of an aggregate.
    pub fn random(&self, member: usize, origin: &Point3, samples: &LightSamples) -> (r: Vec3)
        ensures
            r == self.towards(member, *origin, *samples),
    {
        match self {
            Object::Sphere(s) => Hittable::random(s, origin, samples),
            Object::Rectangle(q) => Hittable::random(q, origin, samples),
            Object::Triangle(t) => Hittable::random(t, origin, samples),
            Object::BBox(b) => b.random(member, origin, samples),
            Object::SphereArray(a) => a.random(member, origin, samples),
            Object::Mesh(m) => m.random(member, origin, samples),
        }
    }
}

/// Whether a traversal is complete for an object and a ray: whether it
/// leaves out no member of an aggregate that the ray hits.  Of a single
/// object nothing is asked.
pub open spec fn complete_traversal(object: Object, candidates: Seq<usize>, ray: Ray, t_min: Scalar, t_max: Scalar) -> bool {
    match object {
        Object::BBox(b) => complete_for(b.faces@, candidates, ray, t_min, t_max),
        Object::SphereArray(a) => complete_for(a.spheres@, candidates, ray, t_min, t_max),
        Object::Mesh(m) => complete_for(m.triangles@, candidates, ray, t_min, t_max),
        _ => true,
    }
}

/// An aggregate behind its hierarchy answers as the scan of its members
/// does: with a complete traversal, a box, a cluster of spheres and a mesh
/// report the hit that asking every face, sphere or triangle in turn
/// reports, on the same member.
pub proof fn lemma_object_traversal(object: Object, candidates: Vec<usize>, ray: Ray, t_min: Scalar, t_max: Scalar)
    requires
        complete_traversal(object, candidates@, ray, t_min, t_max),
    ensures
        object.answer(ray, t_min, t_max, Some(candidates)) == object.answer(ray, t_min, t_max, None),
{
    match object {
        Object::BBox(b) => lemma_hierarchy_complete(b.faces@, candidates@, ray, t_min, t_max),
        Object::SphereArray(a) => lemma_hierarchy_complete(a.spheres@, candidates@, ray, t_min, t_max),
        Object::Mesh(m) => lemma_hierarchy_complete(m.triangles@, candidates@, ray, t_min, t_max),
        _ => {},
    }
}

/// A hit names the material of what was hit: the record that an object
/// reports holds the place of the object's material, or of that of the
/// member that was hit, so that it is a place of the table wherever the
/// object names places of the table only.
pub proof fn lemma_object_names_material(
    object: Object,
    ray: Ray,
    t_min: Scalar,
    t_max: Scalar,
    traversal: Traversal,
    count: nat,
)
    requires
        object.within(count),
    ensures
        object.answer(ray, t_min, t_max, traversal) matches Some(h) ==> h.material < count,
{
    let candidates = match traversal {
        Some(c) => c@,
        None => Seq::<usize>::empty(),
    };
    match object {
        Object::BBox(b) => {
            lemma_member_answers(b.faces@, candidates, ray, t_min, t_max);
        },
        Object::SphereArray(a) => {
            lemma_member_answers(a.spheres@, candidates, ray, t_min, t_max);
        },
        Object::Mesh(m) => {
            lemma_member_answers(m.triangles@, candidates, ray, t_min, t_max);
        },
        _ => {},
    }
}

/// A scene, or a set of lights: a list of objects asked as one.
#[derive(Debug)]
pub struct HittableList {
    pub objects: Vec<Object>,
}

/// The traversal made for object `i`, if any.
pub open spec fn traversal_of(traversals: Seq<Traversal>, i: int) -> Traversal {
    if 0 <= i < traversals.len() {
        traversals[i]
    } else {
        None
    }
}

/// The answers of the objects of a list, each with its traversal.
pub open spec fn list_answers(
    objects: Seq<Object>,
    ray: Ray,
    t_min: Scalar,
    t_max: Scalar,
    traversals: Seq<Traversal>,
) -> Seq<Option<HitRecord>> {
    Seq::new(objects.len(), |i: int| objects[i].answer(ray, t_min, t_max, traversal_of(traversals, i)))
}

/// The sum of the densities of the first `n` objects, each times `weight`.
pub open spec fn list_sum(objects: Seq<Object>, origin: Point3, direction: Vec3, weight: Scalar, n: int) -> Scalar
    decreases n,
{
    if n <= 0 {
        Scalar { bits: 0 }
    } else {
        list_sum(objects, origin, direction, weight, n - 1).plus(
            weight.times(objects[n - 1].density(origin, direction)),
        )
    }
}

/// The places of the lights among the first `n` objects, in their order.
pub open spec fn light_places(objects: Seq<Object>, materials: Seq<Material>, n: int) -> Seq<usize>
    decreases n,
{
    if n <= 0 {
        Seq::empty()
    } else if objects[n - 1].emits(materials) {
        light_places(objects, materials, n - 1).push((n - 1) as usize)
    } else {
        light_places(objects, materials, n - 1)
    }
}

impl HittableList {
    /// The closest hit of a ray on the list within the interval from
    /// `t_min` to `t_max`, both ends left out.
    pub open spec fn answer(&self, ray: Ray, t_min: Scalar, t_max: Scalar, traversals: Seq<Traversal>) -> Option<
        HitRecord,
    > {
        closest_of(
            list_answers(self.objects@, ray, t_min, t_max, traversals),
            t_min,
            t_max,
            self.objects@.len() as int,
        )
    }

    /// The density of the list: the even mixture of its objects',
    /// `(1/N) · Σ pdf_i`.
    pub open spec fn density(&self, origin: Point3, direction: Vec3) -> Scalar {
        let weight = (Scalar { bits: ONE_BITS }).over(rounded(false, self.objects@.len(), 0));
        list_sum(self.objects@, origin, direction, weight, self.objects@.len() as int)
    }

    pub fn new() -> (r: HittableList)
        ensures
            r.objects@.len() == 0,
    {
        HittableList { objects: Vec::new() }
    }

    /// Adds an object at the end.
    pub fn push(&mut self, object: Object)
        ensures
            final(self).objects@ == old(self).objects@.push(object),
    {
        self.objects.push(object);
    }

    /// The closest hit of a ray on the list: every object is asked, an
    /// aggregate through the traversal made for it, and of the hits
    /// strictly inside the interval the one with the smallest parameter is
    /// kept, the first of several such.
    pub fn hit(&self, ray: &Ray, t_min: Scalar, t_max: Scalar, traversals: &Vec<Traversal>) -> (r: Option<
        HitRecord,
    >)
        ensures
            r == self.answer(*ray, t_min, t_max, traversals@),
            r matches Some(h) ==> in_range(h.t, t_min, t_max),
    {
        let mut best: Option<HitRecord> = None;
        let mut i: usize = 0;
        let none: Traversal = None;
        let ghost answers = list_answers(self.objects@, *ray, t_min, t_max, traversals@);
        while i < self.objects.len()
            invariant
                i <= self.objects.len(),
                none is None,
                answers == list_answers(self.objects@, *ray, t_min, t_max, traversals@),
                best == closest_of(answers, t_min, t_max, i as int),
                best matches Some(h) ==> in_range(h.t, t_min, t_max),
            decreases self.objects.len() - i,
        {
            let answer = if i < traversals.len() {
                self.objects[i].hit(ray, t_min, t_max, &traversals[i])
            } else {
                self.objects[i].hit(ray, t_min, t_max, &none)
            };
            assert(answers[i as int] == answer);
            best = keep_closer(best, answer, t_min, t_max);
            i += 1;
        }
        best
    }

    /// Whether the list holds a light.
    pub fn is_light(&self, materials: &Vec<Material>) -> (r: bool)
        ensures
            r == exists|i: int|
                0 <= i < self.objects@.len() && (#[trigger] self.objects@[i]).emits(materials@),
    {
        let mut i: usize = 0;
        while i < self.objects.len()
            invariant
                i <= self.objects.len(),
                forall|j: int| 0 <= j < i ==> !(#[trigger] self.objects@[j]).emits(materials@),
            decreases self.objects.len() - i,
        {
            if self.objects[i].is_light(materials) {
                return true;
            }
            i += 1;
        }
        false
    }

    /// The density with which `direction` is drawn from `origin` towards
    /// the list.
    pub fn pdf_value(&self, origin: &Point3, direction: &Vec3) -> (r: Scalar)
        ensures
            r == self.density(*origin, *direction),
    {
        let weight = Scalar::one().div(&Scalar::from_usize(self.objects.len()));
        let mut sum = Scalar::zero();
        let mut i: usize = 0;
        while i < self.objects.len()
            invariant
                i <= self.objects.len(),
                sum == list_sum(self.objects@, *origin, *direction, weight, i as int),
            decreases self.objects.len() - i,
        {
            sum = sum.add(&weight.mul(&self.objects[i].pdf_value(origin, direction)));
            i += 1;
        }
        sum
    }

    /// A direction from `origin` towards object `object` of the list, or
    /// towards its member `member`; the x axis where the list has no such
    /// object.
    pub fn random(&self, object: usize, member: usize, origin: &Point3, samples: &LightSamples) -> (r: Vec3)
        ensures
            r == if object < self.objects@.len() {
                self.objects@[object as int].towards(member, *origin, *samples)
            } else {
                unit_axis(0)
            },
    {
        if object < self.objects.len() {
            self.objects[object].random(member, origin, samples)
        } else {
            axis_vector(0)
        }
    }

    /// Whether every object of the list names materials of a table of
    /// `count` materials only.
    pub open spec fn within(&self, count: nat) -> bool {
        forall|i: int| 0 <= i < self.objects@.len() ==> (#[trigger] self.objects@[i]).within(count)
    }

    /// Whether the list names materials of a table of `count` materials
    /// only, so that every hit on it names a material of the table.
    pub fn materials_within(&self, count: usize) -> (r: bool)
        ensures
            r == self.within(count as nat),
    {
        let mut i: usize = 0;
        while i < self.objects.len()
            invariant
                i <= self.objects.len(),
                forall|j: int| 0 <= j < i ==> (#[trigger] self.objects@[j]).within(count as nat),
            decreases self.objects.len() - i,
        {
            if !self.objects[i].materials_within(count) {
                return false;
            }
            i += 1;
        }
        true
    }

    /// The light set of the scene: the places of the objects that are
    /// lights, in the order of the scene.
    pub fn get_lights(&self, materials: &Vec<Material>) -> (r: Vec<usize>)
        ensures
            r@ == light_places(self.objects@, materials@, self.objects@.len() as int),
    {
        let mut out: Vec<usize> = Vec::new();
        let mut i: usize = 0;
        while i < self.objects.len()
            invariant
                i <= self.objects.len(),
                out@ == light_places(self.objects@, materials@, i as int),
            decreases self.objects.len() - i,
        {
            if self.objects[i].is_light(materials) {
                out.push(i);
            }
            i += 1;
        }
        out
    }
}

/// Every hit on a list that names materials of a table only names a
/// material of the table, whatever the ray and the traversals.
pub proof fn lemma_hit_names_material(
    list: HittableList,
    ray: Ray,
    t_min: Scalar,
    t_max: Scalar,
    traversals: Seq<Traversal>,
    count: nat,
)
    requires
        list.within(count),
    ensures
        list.answer(ray, t_min, t_max, traversals) matches Some(h) ==> h.material < count,
{
    let answers = list_answers(list.objects@, ray, t_min, t_max, traversals);
    lemma_closest_of(answers, t_min, t_max, answers.len() as int);
    match list.answer(ray, t_min, t_max, traversals) {
        Some(h) => {
            let i = choose|i: int|
                0 <= i < answers.len() && #[trigger] answers[i] == Some(h) && is_closest(
                    answers.subrange(0, answers.len() as int),
                    t_min,
                    t_max,
                    i,
                );
            lemma_object_names_material(list.objects@[i], ray, t_min, t_max, traversal_of(traversals, i), count);
        },
        None => {},
    }
}

/// What a list of the places of lights holds: lights of the scene only, each
/// once, in the order of the scene, and every light.
pub proof fn lemma_light_places(objects: Seq<Object>, materials: Seq<Material>, n: int)
    requires
        0 <= n <= objects.len() <= usize::MAX,
    ensures
        forall|k: int|
            0 <= k < light_places(objects, materials, n).len() ==> {
                let place = #[trigger] light_places(objects, materials, n)[k];
                place < n && objects[place as int].emits(materials)
            },
        forall|j: int|
            0 <= j < n && objects[j].emits(materials) ==> exists|k: int|
                0 <= k < light_places(objects, materials, n).len() && #[trigger] light_places(
                    objects,
                    materials,
                    n,
                )[k] == j,
    decreases n,
{
    if n > 0 {
        lemma_light_places(objects, materials, n - 1);
        let before = light_places(objects, materials, n - 1);
        let now = light_places(objects, materials, n);
        assert forall|j: int| 0 <= j < n && objects[j].emits(materials) implies exists|k: int|
            0 <= k < now.len() && #[trigger] now[k] == j by {
            if j < n - 1 {
                let k = choose|k: int| 0 <= k < before.len() && #[trigger] before[k] == j;
                assert(now[k] == j);
            } else {
                assert(now[before.len() as int] == j);
            }
        }
        assert forall|k: int| 0 <= k < now.len() implies {
            let place = #[trigger] now[k];
            place < n && objects[place as int].emits(materials)
        } by {
            if k < before.len() {
                assert(now[k] == before[k]);
            }
        }
    }
}

/// The light set of a scene: the places of the objects of the scene that are
/// lights and, where the environment emits, the environment sphere.
#[derive(Debug)]
pub struct LightSet {
    pub places: Vec<usize>,
    pub environment: Option<Sphere>,
}

/// The sum of the densities of the first `n` lights of the scene, each times
/// `weight`; a place that the scene does not have counts for nothing.
pub open spec fn lights_sum(
    objects: Seq<Object>,
    places: Seq<usize>,
    origin: Point3,
    direction: Vec3,
    weight: Scalar,
    n: int,
) -> Scalar
    decreases n,
{
    if n <= 0 {
        Scalar { bits: 0 }
    } else {
        let before = lights_sum(objects, places, origin, direction, weight, n - 1);
        if places[n - 1] < objects.len() {
            before.plus(weight.times(objects[places[n - 1] as int].density(origin, direction)))
        } else {
            before
        }
    }
}

impl LightSet {
    /// How many lights the set holds.
    pub open spec fn count(&self) -> nat {
        self.places@.len() + if self.environment is Some { 1nat } else { 0nat }
    }

    /// The density with which `direction` is drawn from `origin` towards the
    /// light set: the even mixture of the lights' densities.
    pub open spec fn density(&self, world: HittableList, origin: Point3, direction: Vec3) -> Scalar {
        let weight = (Scalar { bits: ONE_BITS }).over(rounded(false, self.count(), 0));
        let sum = lights_sum(world.objects@, self.places@, origin, direction, weight, self.places@.len() as int);
        match self.environment {
            Some(s) => sum.plus(weight.times(sphere_density(s, origin))),
            None => sum,
        }
    }

    /// The direction from `origin` towards light `pick` of the set, or its
    /// member `member`; the environment sphere is the last light of the
    /// set.  The x axis where the set has no such light.
    pub open spec fn towards(&self, world: HittableList, pick: usize, member: usize, origin: Point3, samples: LightSamples) -> Vec3 {
        if pick < self.places@.len() {
            if self.places@[pick as int] < world.objects@.len() {
                world.objects@[self.places@[pick as int] as int].towards(member, origin, samples)
            } else {
                unit_axis(0)
            }
        } else {
            match self.environment {
                Some(s) => if pick == self.places@.len() {
                    s.towards(origin, samples)
                } else {
                    unit_axis(0)
                },
                None => unit_axis(0),
            }
        }
    }

    /// The light set of a scene: the places of its lights, and the
    /// environment sphere where one is given.
    pub fn new(world: &HittableList, materials: &Vec<Material>, environment: Option<Sphere>) -> (r: LightSet)
        ensures
            r.places@ == light_places(world.objects@, materials@, world.objects@.len() as int),
            r.environment == environment,
    {
        LightSet { places: world.get_lights(materials), environment }
    }

    /// How many lights the set holds; none where they are more than the
    /// machine counts.
    pub fn len(&self) -> (r: Option<usize>)
        ensures
            r is Some <==> self.count() <= usize::MAX,
            r matches Some(n) ==> n == self.count(),
    {
        match self.environment {
            Some(_) => if self.places.len() < usize::MAX {
                Some(self.places.len() + 1)
            } else {
                None
            },
            None => Some(self.places.len()),
        }
    }

    /// The density with which `direction` is drawn from `origin` towards
    /// the light set.
    pub fn pdf_value(&self, world: &HittableList, origin: &Point3, direction: &Vec3) -> (r: Scalar)
        ensures
            r == self.density(*world, *origin, *direction),
    {
        let count: u128 = match self.environment {
            Some(_) => self.places.len() as u128 + 1,
            None => self.places.len() as u128,
        };
        let weight = Scalar::one().div(&round_pack(false, count, 0));
        let mut sum = Scalar::zero();
        let mut i: usize = 0;
        while i < self.places.len()
            invariant
                i <= self.places.len(),
                sum == lights_sum(world.objects@, self.places@, *origin, *direction, weight, i as int),
            decreases self.places.len() - i,
        {
            let place = self.places[i];
            if place < world.objects.len() {
                sum = sum.add(&weight.mul(&world.objects[place].pdf_value(origin, direction)));
            }
            i += 1;
        }
        match &self.environment {
            Some(s) => sum.add(&weight.mul(&s.pdf_value(origin))),
            None => sum,
        }
    }

    /// How many members light `pick` of the set has to draw from: those of
    /// the object of the scene; 1 for the environment sphere and for a
    /// place that the scene does not have.
    pub open spec fn members(&self, world: HittableList, pick: usize) -> int {
        if pick < self.places@.len() && self.places@[pick as int] < world.objects@.len() {
            world.objects@[self.places@[pick as int] as int].members() as int
        } else {
            1
        }
    }

    /// Draws a light of the set, each as likely as another, and a member of
    /// that light, each as likely as another; member 0 for a light without
    /// members.  None where the set holds no light, or more than the machine
    /// counts.
    pub fn draw(&self, world: &HittableList) -> (r: Option<(usize, usize)>)
        ensures
            r is Some <==> 0 < self.count() <= usize::MAX,
            r matches Some((pick, member)) ==> {
                &&& pick < self.count()
                &&& member < self.members(*world, pick) || (member == 0 && self.members(*world, pick) == 0)
            },
    {
        let count = match self.len() {
            Some(n) => n,
            None => {
                return None;
            },
        };
        let pick = match random_member(count) {
            Some(p) => p,
            None => {
                return None;
            },
        };
        let members: usize = if pick < self.places.len() && self.places[pick] < world.objects.len() {
            world.objects[self.places[pick]].len()
        } else {
            1
        };
        let member = match random_member(members) {
            Some(m) => m,
            None => 0,
        };
        Some((pick, member))
    }

    /// A direction from `origin` towards light `pick` of the set.
    pub fn random(&self, world: &HittableList, pick: usize, member: usize, origin: &Point3, samples: &LightSamples) -> (r: Vec3)
        ensures
            r == self.towards(*world, pick, member, *origin, *samples),
    {
        if pick < self.places.len() {
            let place = self.places[pick];
            if place < world.objects.len() {
                world.objects[place].random(member, origin, samples)
            } else {
                axis_vector(0)
            }
        } else {
            match &self.environment {
                Some(s) => if pick == self.places.len() {
                    Hittable::random(s, origin, samples)
                } else {
                    axis_vector(0)
                },
                None => axis_vector(0),
            }
        }
    }
}

} // verus!
