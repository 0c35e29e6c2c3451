//! The light-transport integrator.
//!
//! A path starts at the camera and is followed from surface to surface.  The
//! integrator decides at each step what is to be done next, and in the end
//! carries the radiance back along the path.  The caller does what it is
//! told (asks the scene, shades the hit, draws a sample) and reports what
//! came of it: it is the caller who holds the scene, the hierarchies of its
//! aggregates and the random source.
//!
//! With `L(ray, depth)` the radiance along a ray, the steps are:
//!
//! 1. at `depth >= max_depth` the path ends and is black;
//! 2. a ray that misses the scene ends with the environment's emission where
//!    it meets the environment sphere, and with the sky gradient otherwise;
//! 3. on a light the path ends with the light's emission;
//! 4. on a surface that does not scatter it ends with the surface's emission;
//! 5. past `min_depth` a sample decides whether the path is cut short, and a
//!    path cut short ends with the surface's emission;
//! 6. a specular surface continues the path along its one ray:
//!    `emitted + attenuation · L(next, depth + 1)`;
//! 7. a diffuse surface continues it along a direction drawn from the
//!    surface's own distribution or, where the scene has lights, from an even
//!    mixture of that and the lights':
//!    `emitted + attenuation · scattering_pdf · L(next, depth + 1) / pdf`.
use vstd::prelude::*;
use crate::scalar::{Scalar, HALF_BITS, ONE_BITS};
use crate::utility::{blue_sky, sky_blue, EPSILON_BITS};
use crate::hit_record::HitRecord;
use crate::hittable_list::{HittableList, LightSamples, LightSet};
use crate::pdf::{cosine_direction, CosinePDF};
use crate::vec3::{Color, Point3, Vec3};

verus! {

/// The limits of a render that a path obeys.
#[derive(Clone, Copy, Debug, PartialEq, Eq, Structural)]
pub struct Limits {
    /// No path has more bounces than this.
    pub max_depth: u32,
    /// Up to this depth no path is cut short by chance.
    pub min_depth: u32,
    /// How many lights the scene's light set holds.
    pub lights: usize,
}

/// How a path ends.
#[derive(Clone, Copy, Debug, PartialEq, Eq, Structural)]
pub enum Terminal {
    /// Nothing is gathered.
    Black,
    /// The emission of the environment sphere where the ray met it.
    Environment,
    /// The sky gradient in the ray's direction.
    Sky,
    /// The emission of the surface that was hit.
    Emitted,
}

/// What the caller is to do next.
#[derive(Clone, Copy, Debug, PartialEq, Eq, Structural)]
pub enum Action {
    /// Ask the scene for the closest hit of the current ray.
    TraceScene,
    /// Ask the environment sphere for a hit of the current ray.
    TraceEnvironment,
    /// Ask the material at the hit what it emits, whether it is a light and
    /// how it scatters.
    Shade,
    /// Draw the sample that decides whether the path is cut short.
    DrawRoulette,
    /// Go on along the specular ray.
    FollowSpecular,
    /// Go on along a direction drawn from the surface's distribution, mixed
    /// evenly with that of the lights where `with_lights` holds.
    FollowDiffuse { with_lights: bool },
    /// The path has ended.
    Finish(Terminal),
}

/// How a surface scatters.
#[derive(Clone, Copy, Debug, PartialEq, Eq, Structural)]
pub struct Scatter {
    /// Whether the surface continues the path along one ray of its own.
    pub is_specular: bool,
    /// What part of the light the surface passes on, channel by channel.
    pub attenuation: Color,
}

/// What the caller reports back.
#[derive(Clone, Copy, Debug, PartialEq, Eq, Structural)]
pub enum Event {
    /// A ray is ready to be followed: the camera's, or the one that the last
    /// `Follow…` action asked for.
    Ray,
    /// Whether the scene was hit.
    Scene { hit: bool },
    /// Whether the environment sphere was hit.
    Environment { hit: bool },
    /// What the material said.
    Shaded { is_light: bool, scatter: Option<Scatter> },
    /// The sample drawn for the roulette.
    Roulette { sample: Scalar },
}

/// What a path is waiting for.
#[derive(Clone, Copy, Debug, PartialEq, Eq, Structural)]
pub enum Phase {
    Ray,
    Scene,
    Environment,
    Shade,
    Roulette { scatter: Scatter },
    Done,
}

/// A path: how many bounces lie behind it, and what it waits for.
#[derive(Clone, Copy, Debug, PartialEq, Eq, Structural)]
pub struct Walk {
    pub depth: u32,
    pub phase: Phase,
}

/// Whether the sample cuts the path short: whether it is below the largest
/// channel of the attenuation.
pub open spec fn cut_short(sample: Scalar, attenuation: Color) -> bool {
    sample.below(attenuation.largest())
}

/// The action that continues a path past a surface.
pub open spec fn follow(limits: Limits, scatter: Scatter) -> Action {
    if scatter.is_specular {
        Action::FollowSpecular
    } else {
        Action::FollowDiffuse { with_lights: limits.lights > 0 }
    }
}

impl Walk {
    /// The path that waits to end, having ended with `t`.
    pub open spec fn ended(self, t: Terminal) -> (Walk, Action) {
        (Walk { depth: self.depth, phase: Phase::Done }, Action::Finish(t))
    }

    /// The path that waits for `phase`, the caller doing `action`.
    pub open spec fn waiting(self, phase: Phase, action: Action) -> (Walk, Action) {
        (Walk { depth: self.depth, phase }, action)
    }

    /// The path one bounce on, waiting for its next ray.
    pub open spec fn bounced(self, action: Action) -> (Walk, Action) {
        (Walk { depth: (self.depth + 1) as u32, phase: Phase::Ray }, action)
    }

    /// A path keeps within the limits while it waits for its ray or has
    /// ended, at whatever depth, and while its depth is below the largest
    /// allowed once its ray has been followed.
    pub open spec fn wf(self, limits: Limits) -> bool {
        self.phase is Ray || self.phase is Done || self.depth < limits.max_depth
    }

    /// What follows on an event: the path after it and the action asked for,
    /// or nothing where the path did not wait for that event or has left
    /// the limits.  A path that waits for its ray at a depth of `max_depth`
    /// or beyond ends black, and nothing is asked of the scene.
    pub open spec fn next(self, limits: Limits, event: Event) -> Option<(Walk, Action)> {
        if self.wf(limits) {
            self.answer(limits, event)
        } else {
            None
        }
    }

    /// What follows on an event for a path within the limits.
    pub open spec fn answer(self, limits: Limits, event: Event) -> Option<(Walk, Action)> {
        match (self.phase, event) {
            (Phase::Ray, Event::Ray) => Some(
                if self.depth >= limits.max_depth {
                    self.ended(Terminal::Black)
                } else {
                    self.waiting(Phase::Scene, Action::TraceScene)
                },
            ),
            (Phase::Scene, Event::Scene { hit }) => Some(
                if hit {
                    self.waiting(Phase::Shade, Action::Shade)
                } else {
                    self.waiting(Phase::Environment, Action::TraceEnvironment)
                },
            ),
            (Phase::Environment, Event::Environment { hit }) => Some(
                if hit {
                    self.ended(Terminal::Environment)
                } else {
                    self.ended(Terminal::Sky)
                },
            ),
            (Phase::Shade, Event::Shaded { is_light, scatter }) => Some(
                if is_light {
                    self.ended(Terminal::Emitted)
                } else {
                    match scatter {
                        None => self.ended(Terminal::Emitted),
                        Some(s) => if self.depth > limits.min_depth {
                            self.waiting(Phase::Roulette { scatter: s }, Action::DrawRoulette)
                        } else {
                            self.bounced(follow(limits, s))
                        },
                    }
                },
            ),
            (Phase::Roulette { scatter }, Event::Roulette { sample }) => Some(
                if cut_short(sample, scatter.attenuation) {
                    self.ended(Terminal::Emitted)
                } else {
                    self.bounced(follow(limits, scatter))
                },
            ),
            _ => None,
        }
    }

    /// How many steps a path has left at most.
    pub open spec fn fuel(self, limits: Limits) -> int {
        (if self.depth < limits.max_depth {
            5 * (limits.max_depth - self.depth)
        } else {
            0
        }) + match self.phase {
            Phase::Ray => 5int,
            Phase::Scene => 4,
            Phase::Environment => 1,
            Phase::Shade => 3,
            Phase::Roulette { .. } => 2,
            Phase::Done => 0,
        }
    }

    /// The path of the camera's ray: no bounce behind it.
    pub open spec fn begin_at() -> Walk {
        Walk { depth: 0, phase: Phase::Ray }
    }

    /// The path of the camera's ray: no bounce behind it.
    pub fn begin() -> (r: Walk)
        ensures
            r == Walk::begin_at(),
    {
        Walk { depth: 0, phase: Phase::Ray }
    }

    /// Whether the path keeps within the limits.
    pub fn within(&self, limits: &Limits) -> (r: bool)
        ensures
            r == self.wf(*limits),
    {
        match self.phase {
            Phase::Ray => true,
            Phase::Done => true,
            _ => self.depth < limits.max_depth,
        }
    }

    /// Whether the path has ended.
    pub fn is_done(&self) -> (r: bool)
        ensures
            r == (self.phase is Done),
    {
        match self.phase {
            Phase::Done => true,
            _ => false,
        }
    }

    /// Takes the path one step on: given what the caller reports, the path
    /// after it and what the caller is to do next.  `None` where the path did
    /// not wait for that event, or has left the limits.
    pub fn step(self, limits: &Limits, event: Event) -> (r: Option<(Walk, Action)>)
        ensures
            r == self.next(*limits, event),
            r matches Some((walk, _)) ==> walk.wf(*limits) && walk.fuel(*limits) < self.fuel(*limits),
    {
        if !self.within(limits) {
            return None;
        }
        match (self.phase, event) {
            (Phase::Ray, Event::Ray) => {
                if self.depth >= limits.max_depth {
                    Some((Walk { depth: self.depth, phase: Phase::Done }, Action::Finish(Terminal::Black)))
                } else {
                    Some((Walk { depth: self.depth, phase: Phase::Scene }, Action::TraceScene))
                }
            },
            (Phase::Scene, Event::Scene { hit }) => {
                if hit {
                    Some((Walk { depth: self.depth, phase: Phase::Shade }, Action::Shade))
                } else {
                    Some(
                        (
                            Walk { depth: self.depth, phase: Phase::Environment },
                            Action::TraceEnvironment,
                        ),
                    )
                }
            },
            (Phase::Environment, Event::Environment { hit }) => {
                let t = if hit {
                    Terminal::Environment
                } else {
                    Terminal::Sky
                };
                Some((Walk { depth: self.depth, phase: Phase::Done }, Action::Finish(t)))
            },
            (Phase::Shade, Event::Shaded { is_light, scatter }) => {
                if is_light {
                    return Some(
                        (Walk { depth: self.depth, phase: Phase::Done }, Action::Finish(Terminal::Emitted)),
                    );
                }
                match scatter {
                    None => Some(
                        (Walk { depth: self.depth, phase: Phase::Done }, Action::Finish(Terminal::Emitted)),
                    ),
                    Some(s) => {
                        if self.depth > limits.min_depth {
                            Some(
                                (
                                    Walk { depth: self.depth, phase: Phase::Roulette { scatter: s } },
                                    Action::DrawRoulette,
                                ),
                            )
                        } else {
                            Some(
                                (
                                    Walk { depth: self.depth + 1, phase: Phase::Ray },
                                    continue_along(limits, &s),
                                ),
                            )
                        }
                    },
                }
            },
            (Phase::Roulette { scatter }, Event::Roulette { sample }) => {
                if roulette_cuts(&sample, &scatter.attenuation) {
                    Some(
                        (Walk { depth: self.depth, phase: Phase::Done }, Action::Finish(Terminal::Emitted)),
                    )
                } else {
                    Some(
                        (
                            Walk { depth: self.depth + 1, phase: Phase::Ray },
                            continue_along(limits, &scatter),
                        ),
                    )
                }
            },
            _ => None,
        }
    }
}

/// The action that continues a path past a surface.
pub fn continue_along(limits: &Limits, scatter: &Scatter) -> (r: Action)
    ensures
        r == follow(*limits, *scatter),
{
    if scatter.is_specular {
        Action::FollowSpecular
    } else {
        Action::FollowDiffuse { with_lights: limits.lights > 0 }
    }
}

/// Whether the roulette sample cuts the path short.
pub fn roulette_cuts(sample: &Scalar, attenuation: &Color) -> (r: bool)
    ensures
        r == cut_short(*sample, *attenuation),
{
    let largest = attenuation.max_element();
    sample.lt(&largest)
}

/// Whether a sample of the even mixture picks the surface's own
/// distribution (the lights' otherwise): whether it is below one half.
pub fn mixture_picks_surface(sample: &Scalar) -> (r: bool)
    ensures
        r == sample.below(Scalar { bits: HALF_BITS }),
{
    let half = Scalar::from_bits(HALF_BITS);
    sample.lt(&half)
}

/// A path ends within `5 · (max_depth + 1)` steps, whatever is reported:
/// each step that is taken leaves fewer steps to take, and none is left to a
/// path that has ended.
pub proof fn lemma_paths_end(limits: Limits, walk: Walk, event: Event)
    requires
        walk.wf(limits),
    ensures
        0 <= walk.fuel(limits) <= 5 * (limits.max_depth + 1),
        walk.next(limits, event) matches Some((after, action)) ==> {
            &&& after.wf(limits)
            &&& 0 <= after.fuel(limits) < walk.fuel(limits)
            &&& (action is Finish <==> after.phase is Done)
        },
        walk.phase is Done ==> walk.next(limits, event) is None,
{
}

/// At the depth `max_depth` and at every depth beyond it, a path that waits
/// for its ray ends black: it asks nothing of the scene, of the environment
/// or of a material, and no sample is drawn for it.
pub proof fn lemma_depth_limit_is_black(limits: Limits, walk: Walk)
    requires
        walk.phase is Ray,
        walk.depth >= limits.max_depth,
    ensures
        walk.next(limits, Event::Ray) == Some(
            (Walk { depth: walk.depth, phase: Phase::Done }, Action::Finish(Terminal::Black)),
        ),
{
}

/// A path that meets a light ends there, with the light's emission.
pub proof fn lemma_lights_end_paths(limits: Limits, walk: Walk, scatter: Option<Scatter>)
    requires
        walk.wf(limits),
        walk.phase is Shade,
    ensures
        walk.next(limits, Event::Shaded { is_light: true, scatter }) == Some(
            walk.ended(Terminal::Emitted),
        ),
{
}

/// What one bounce contributes to the radiance of a path: what the surface
/// emits, and how it weighs the radiance that arrives along the next ray.
#[derive(Clone, Copy, Debug, PartialEq, Eq, Structural)]
pub enum Frame {
    /// A specular bounce: `emitted + attenuation · L`.
    Specular { emitted: Color, attenuation: Color },
    /// A diffuse bounce: `emitted + attenuation · scattering_pdf · L / pdf`,
    /// where `pdf` is the density with which the next direction was drawn.
    Diffuse { emitted: Color, attenuation: Color, scattering_pdf: Scalar, pdf: Scalar },
}

impl Frame {
    /// The radiance that leaves a bounce towards the eye, given the
    /// radiance `l` that arrives along the next ray.  A diffuse bounce
    /// whose density is below 0.0001 passes nothing on.
    pub open spec fn carried(self, l: Color) -> Color {
        match self {
            Frame::Specular { emitted, attenuation } => emitted.plus(attenuation.times(l)),
            Frame::Diffuse { emitted, attenuation, scattering_pdf, pdf } => if pdf.below(
                Scalar { bits: EPSILON_BITS },
            ) {
                emitted
            } else {
                emitted.plus(attenuation.scaled(scattering_pdf).times(l).shrunk(pdf))
            },
        }
    }

    /// The radiance that leaves a bounce towards the eye.
    pub fn carry(&self, l: &Color) -> (r: Color)
        ensures
            r == self.carried(*l),
    {
        match self {
            Frame::Specular { emitted, attenuation } => emitted.add(&attenuation.mul(l)),
            Frame::Diffuse { emitted, attenuation, scattering_pdf, pdf } => {
                if pdf.lt(&Scalar::from_bits(EPSILON_BITS)) {
                    *emitted
                } else {
                    emitted.add(&attenuation.scale(scattering_pdf).mul(l).div(pdf))
                }
            },
        }
    }
}

/// The radiance of a path: that of its end, carried back through its
/// bounces from the last to the first.
pub open spec fn gathered(frames: Seq<Frame>, terminal: Color) -> Color
    decreases frames.len(),
{
    if frames.len() == 0 {
        terminal
    } else {
        frames[0].carried(gathered(frames.drop_first(), terminal))
    }
}

/// The radiance of a path whose bounces are `frames`, the first bounce
/// first, and whose end has the radiance `terminal`.
pub fn gather(frames: &Vec<Frame>, terminal: Color) -> (r: Color)
    ensures
        r == gathered(frames@, terminal),
{
    let mut l = terminal;
    let mut i: usize = frames.len();
    proof {
        assert(frames@.subrange(i as int, frames@.len() as int).len() == 0);
    }
    while i > 0
        invariant
            i <= frames.len(),
            l == gathered(frames@.subrange(i as int, frames@.len() as int), terminal),
        decreases i,
    {
        i -= 1;
        proof {
            let tail = frames@.subrange(i as int, frames@.len() as int);
            assert(tail.drop_first() == frames@.subrange(i + 1, frames@.len() as int));
            assert(tail[0] == frames@[i as int]);
        }
        l = frames[i].carry(&l);
    }
    proof {
        assert(frames@.subrange(0, frames@.len() as int) == frames@);
    }
    l
}

/// The colour of the sky in a direction: white at the nadir, the sky's blue
/// at the zenith, blended by the height of the direction at unit length.
pub open spec fn sky_color(direction: Vec3) -> Color {
    let one = Scalar { bits: ONE_BITS };
    let white = Vec3 { x: one, y: one, z: one };
    white.blended(blue_sky(), (Scalar { bits: HALF_BITS }).times(direction.unit().y.plus(one)))
}

/// The colour of the sky in a direction.
pub fn sky(direction: &Vec3) -> (r: Color)
    ensures
        r == sky_color(*direction),
{
    let one = Scalar::one();
    let white = Vec3::new(one, one, one);
    let blue = sky_blue();
    let t = Scalar::from_bits(HALF_BITS).mul(&direction.normalize().y.add(&one));
    white.lerp(&blue, &t)
}

/// The point at which the texture of the environment is asked for a hit on
/// the environment sphere: the outward normal of the hit, which is a point
/// of the unit sphere, so that the sky's gradient runs from the nadir to the
/// zenith whatever the radius of the sphere.
pub fn environment_point(rec: &HitRecord) -> (r: Point3)
    ensures
        r == rec.outward(),
{
    rec.outward_normal()
}

/// The density of the even mixture of the surface's distribution and the
/// lights': half the one plus half the other.
pub fn mixture_pdf(surface: Scalar, lights: Scalar) -> (r: Scalar)
    ensures
        r == (Scalar { bits: HALF_BITS }).times(surface).plus((Scalar { bits: HALF_BITS }).times(lights)),
{
    let half = Scalar::from_bits(HALF_BITS);
    half.mul(&surface).add(&half.mul(&lights))
}

/// The density with which a diffuse bounce drew its direction: that of the
/// even mixture of the surface's distribution and the lights' where the
/// scene has lights, and that of the surface's own otherwise.
pub open spec fn bounce_density(
    with_lights: bool,
    surface: CosinePDF,
    lights: LightSet,
    world: HittableList,
    origin: Point3,
    direction: Vec3,
) -> Scalar {
    if with_lights {
        (Scalar { bits: HALF_BITS }).times(surface.density(direction)).plus(
            (Scalar { bits: HALF_BITS }).times(lights.density(world, origin, direction)),
        )
    } else {
        surface.density(direction)
    }
}

/// The density with which a diffuse bounce drew its direction.
pub fn bounce_pdf(
    with_lights: bool,
    surface: &CosinePDF,
    lights: &LightSet,
    world: &HittableList,
    origin: &Point3,
    direction: &Vec3,
) -> (r: Scalar)
    ensures
        r == bounce_density(with_lights, *surface, *lights, *world, *origin, *direction),
{
    if with_lights {
        mixture_pdf(surface.value(direction), lights.pdf_value(world, origin, direction))
    } else {
        surface.value(direction)
    }
}

/// The direction that the surface's own distribution gives for the samples.
pub open spec fn surface_direction(surface: CosinePDF, samples: LightSamples) -> Vec3 {
    surface.uvw.local(cosine_direction(samples.first, samples.cos_phi, samples.sin_phi))
}

/// The direction of a diffuse bounce for a light and a member of it that
/// were drawn beforehand, and the light and member towards which the bounce
/// goes, if any.  Where the scene has lights, `choice`, a uniform number,
/// is not below one half, and a light was drawn, the direction is the one
/// towards that light, or its member, that the samples stand for, at unit
/// length.  Otherwise the direction is that of the surface's own
/// distribution.  Nothing here is left to chance: the same arguments give
/// the same bounce.
pub fn bounce_towards(
    with_lights: bool,
    choice: &Scalar,
    drawn: Option<(usize, usize)>,
    surface: &CosinePDF,
    lights: &LightSet,
    world: &HittableList,
    origin: &Point3,
    samples: &LightSamples,
) -> (r: (Vec3, Option<(usize, usize)>))
    ensures
        r == bounce_drawn(with_lights, *choice, drawn, *surface, *lights, *world, *origin, *samples),
{
    if with_lights && !mixture_picks_surface(choice) {
        match drawn {
            Some((pick, member)) => {
                return (lights.random(world, pick, member, origin, samples).normalize(), drawn);
            },
            None => {},
        }
    }
    (surface.generate(samples.first, samples.cos_phi, samples.sin_phi), None)
}

/// The bounce for a light and a member drawn beforehand: see
/// [`bounce_towards`].
pub open spec fn bounce_drawn(
    with_lights: bool,
    choice: Scalar,
    drawn: Option<(usize, usize)>,
    surface: CosinePDF,
    lights: LightSet,
    world: HittableList,
    origin: Point3,
    samples: LightSamples,
) -> (Vec3, Option<(usize, usize)>) {
    match drawn {
        Some((pick, member)) if with_lights && !choice.below(Scalar { bits: HALF_BITS }) => (
            lights.towards(world, pick, member, origin, samples).unit(),
            drawn,
        ),
        _ => (surface_direction(surface, samples), None),
    }
}

/// The direction of a diffuse bounce, and the light and its member towards
/// which it was drawn, if any.  Where the scene has lights and `choice`, a
/// uniform number, is not below one half, a light of the set and a member
/// of it are drawn by chance, and the bounce is that of [`bounce_towards`]
/// for them.  Otherwise, and where the set holds no light after all, the
/// direction is drawn from the surface's own distribution.
pub fn bounce_direction(
    with_lights: bool,
    choice: &Scalar,
    surface: &CosinePDF,
    lights: &LightSet,
    world: &HittableList,
    origin: &Point3,
    samples: &LightSamples,
) -> (r: (Vec3, Option<(usize, usize)>))
    ensures
        r.1 is Some <==> with_lights && !choice.below(Scalar { bits: HALF_BITS }) && 0 < lights.count()
            <= usize::MAX,
        r.1 matches Some((pick, member)) ==> {
            &&& pick < lights.count()
            &&& member < lights.members(*world, pick) || (member == 0 && lights.members(*world, pick) == 0)
        },
        r == bounce_drawn(with_lights, *choice, r.1, *surface, *lights, *world, *origin, *samples),
{
    let drawn = if with_lights && !mixture_picks_surface(choice) {
        lights.draw(world)
    } else {
        None
    };
    bounce_towards(with_lights, choice, drawn, surface, lights, world, origin, samples)
}

/// The radiance at the end of a path: nothing where it ended black, the
/// sky in the direction of its last ray where it left the scene, what the
/// last surface emits where it ended there, and what the environment emits
/// where it met the environment sphere.
pub open spec fn end_color(terminal: Terminal, direction: Vec3, emitted: Color, environment: Color) -> Color {
    match terminal {
        Terminal::Black => Vec3 { x: Scalar { bits: 0 }, y: Scalar { bits: 0 }, z: Scalar { bits: 0 } },
        Terminal::Sky => sky_color(direction),
        Terminal::Emitted => emitted,
        Terminal::Environment => environment,
    }
}

/// The radiance at the end of a path.  `direction` is that of the path's
/// last ray, `emitted` what the last surface emits and `environment` what
/// the environment emits where that ray meets it.
pub fn terminal_color(terminal: Terminal, direction: &Vec3, emitted: Color, environment: Color) -> (r: Color)
    ensures
        r == end_color(terminal, *direction, emitted, environment),
{
    match terminal {
        Terminal::Black => Vec3::new_init(),
        Terminal::Sky => sky(direction),
        Terminal::Emitted => emitted,
        Terminal::Environment => environment,
    }
}

/// The sum of a pixel with one more sample: the sample is added where all
/// its channels are finite numbers, and left out otherwise.
pub fn accumulate(pixel: Color, sample: Color) -> (r: Color)
    ensures
        r == if sample.finite() { pixel.plus(sample) } else { pixel },
{
    if sample.is_finite() {
        pixel.add(&sample)
    } else {
        pixel
    }
}

/// A path with no bounce has the radiance of its end; with `max_depth` zero
/// every path is such a path and ends black, so that the image is black.
pub proof fn lemma_depth_zero_radiance(limits: Limits, terminal: Color)
    requires
        limits.max_depth == 0,
    ensures
        (Walk { depth: 0, phase: Phase::Ray }).next(limits, Event::Ray) == Some(
            (Walk { depth: 0, phase: Phase::Done }, Action::Finish(Terminal::Black)),
        ),
        gathered(Seq::<Frame>::empty(), terminal) == terminal,
{
}

/// With `max_depth` zero every pixel is black, whatever the scene, the
/// camera and the samples.  The path of each sample ends black at its first
/// step, before anything is asked of the scene; its radiance is the black of
/// its end; and a sum of such samples is a black pixel
/// ([`crate::color::lemma_dark_pixel`]), which is stored as three zero
/// bytes.
pub proof fn lemma_depth_zero_pixel(
    limits: Limits,
    direction: Vec3,
    emitted: Color,
    environment: Color,
    pixel: Color,
    samples_per_pixel: Scalar,
)
    requires
        limits.max_depth == 0,
        crate::color::dark(pixel),
    ensures
        Walk::begin_at().next(limits, Event::Ray) == Some(Walk::begin_at().ended(Terminal::Black)),
        ({
            let sample = gathered(
                Seq::<Frame>::empty(),
                end_color(Terminal::Black, direction, emitted, environment),
            );
            &&& crate::color::dark(sample)
            &&& sample.finite()
            &&& crate::color::dark(pixel.plus(sample))
            &&& crate::color::bytes_of(crate::color::gamma(pixel.plus(sample), samples_per_pixel)) == (
                0u8,
                0u8,
                0u8,
            )
        }),
{
    let sample = gathered(Seq::<Frame>::empty(), end_color(Terminal::Black, direction, emitted, environment));
    crate::color::lemma_dark_pixel(pixel, sample, samples_per_pixel);
    crate::color::lemma_dark_pixel(pixel.plus(sample), sample, samples_per_pixel);
}

} // verus!
