//! Projectiles: the weapon modes, the trajectory each one gives its bullets,
//! and the pair of bullets that a shot consists of.

use crate::data::{Rectangle, UNIT};
use crate::gfx::DrawCall;
use crate::phi::Phi;
use vstd::prelude::*;

verus! {

/// Speed of every bullet along the x axis.
pub const BULLET_SPEED: i64 = 240;

/// Width of a bullet.
pub const BULLET_W: i64 = 8 * UNIT;

/// Height of a bullet.
pub const BULLET_H: i64 = 4 * UNIT;

/// The value that stands for one in the samples of a wave.
pub const WAVE_SCALE: i64 = 1_000_000;

/// A full turn, in millionths of a radian.
pub const TURN: i64 = 6_283_185;

/// The largest age, amplitude and time scale of a diverging bullet: beyond it
/// its path is not computed.
pub const DIVERGENT_LIMIT: i64 = 2_000_000_000;

/// The quotient of `v` by `d`, rounded towards zero.
pub open spec fn trunc_div(v: int, d: int) -> int {
    if v >= 0 {
        v / d
    } else {
        -((-v) / d)
    }
}

/// One period of a wave, sampled at equal steps of the phase. The host fills
/// it with the sine; the first sample, at phase zero, is zero, and none
/// exceeds `WAVE_SCALE` in size.
pub struct SineTable {
    samples: Vec<i64>,
}

impl View for SineTable {
    type V = Seq<i64>;

    closed spec fn view(&self) -> Seq<i64> {
        self.samples@
    }
}

/// What may serve as the samples of a wave.
pub open spec fn is_wave(samples: Seq<i64>) -> bool {
    &&& samples.len() >= 1
    &&& samples[0] == 0
    &&& forall|i: int| 0 <= i < samples.len() ==> -WAVE_SCALE <= #[trigger] samples[i] <= WAVE_SCALE
}

/// The place in a table of `len` samples that holds the wave at `phase`,
/// given in millionths of a radian.
pub open spec fn wave_index(len: int, phase: int) -> int {
    (phase % (TURN as int)) * len / (TURN as int)
}

/// The wave at `phase`, in units of `WAVE_SCALE`.
pub open spec fn wave_at(samples: Seq<i64>, phase: int) -> int {
    samples[wave_index(samples.len() as int, phase)] as int
}

/// The sideways offset of a bullet on a sine path: the wave at the angle that
/// `angular_vel`, in radians per second, has swept in the time `age`, scaled
/// by `amplitude`.
pub open spec fn sine_offset(samples: Seq<i64>, amplitude: int, angular_vel: int, age: int) -> int {
    trunc_div(amplitude * wave_at(samples, angular_vel * age), WAVE_SCALE as int)
}

/// The sideways offset of a bullet on a diverging path at the time `age`:
/// with `r` for `age / b`, it is `a * (r * r * r - r * r)`.
pub open spec fn divergent_offset(a: int, b: int, age: int) -> int {
    trunc_div(a * age * age * (age - b), b * b * b)
}

impl SineTable {
    /// The samples are those of a wave.
    pub open spec fn wf(&self) -> bool {
        is_wave(self@)
    }

    /// A table of the given samples, if they are those of a wave.
    pub fn new(samples: Vec<i64>) -> (r: Option<SineTable>)
        ensures
            r.is_some() <==> is_wave(samples@),
            r matches Some(table) ==> table@ == samples@ && table.wf(),
    {
        if samples.len() == 0 || samples[0] != 0 {
            return None;
        }
        let mut i: usize = 0;
        while i < samples.len()
            invariant
                i <= samples@.len(),
                forall|k: int| 0 <= k < i ==> -WAVE_SCALE <= #[trigger] samples@[k] <= WAVE_SCALE,
            decreases samples@.len() - i,
        {
            if samples[i] < -WAVE_SCALE || samples[i] > WAVE_SCALE {
                return None;
            }
            i += 1;
        }
        Some(SineTable { samples })
    }

    /// The wave at `phase`, given in millionths of a radian.
    pub fn sample(&self, phase: i128) -> (r: i64)
        requires
            self.wf(),
        ensures
            r == wave_at(self@, phase as int),
            -WAVE_SCALE <= r <= WAVE_SCALE,
    {
        let turn: i128 = TURN as i128;
        let rest: i128 = phase % turn;
        let within: i128 = if rest < 0 {
            rest + turn
        } else {
            rest
        };
        let len: usize = self.samples.len();
        assert(within == (phase as int) % (TURN as int));
        assert(0 <= within * len <= 6_283_184 * 0xffff_ffff_ffff_ffff) by (nonlinear_arith)
            requires
                0 <= within <= 6_283_184,
                0 <= len <= 0xffff_ffff_ffff_ffff,
        ;
        let index: i128 = within * len as i128 / turn;
        assert(0 <= index < len) by (nonlinear_arith)
            requires
                index == (within * len) / (turn as int),
                0 <= within < turn,
                turn > 0,
                len >= 1,
        ;
        self.samples[index as usize]
    }
}


/// The weapon mode: what kind of bullets a shot consists of.
#[derive(Clone, Copy, Debug, PartialEq, Eq, Structural)]
pub enum CannonType {
    /// Bullets that fly straight on.
    RectBullet,
    /// Bullets that swing about their line of flight: `amplitude` is a length,
    /// `angular_vel` is in radians per second.
    SineBullet { amplitude: i64, angular_vel: i64 },
    /// Two bullets that part from each other: `a` is a length, `b` a time.
    DivergentBullet { a: i64, b: i64 },
}

impl CannonType {
    /// The parameters of a diverging shot are within the limits of its path.
    pub open spec fn wf(self) -> bool {
        self matches CannonType::DivergentBullet { a, b } ==> -DIVERGENT_LIMIT <= a
            <= DIVERGENT_LIMIT && 0 < b <= DIVERGENT_LIMIT
    }
}

/// A projectile, with the state that its kind of path needs.
#[derive(Clone, Copy, Debug, PartialEq, Eq, Structural)]
pub enum Bullet {
    /// Flies straight on.
    Rect { rect: Rectangle },
    /// Flies on along x and swings about `origin_y`.
    Sine { pos_x: i64, origin_y: i64, amplitude: i64, angular_vel: i64, total_time: i64 },
    /// Flies on along x and leaves `origin_y` ever faster.
    Divergent { pos_x: i64, origin_y: i64, a: i64, b: i64, total_time: i64 },
}

impl Bullet {
    /// Where the bullet is along the field.
    pub open spec fn spec_x(self) -> i64 {
        match self {
            Bullet::Rect { rect } => rect.x,
            Bullet::Sine { pos_x, .. } => pos_x,
            Bullet::Divergent { pos_x, .. } => pos_x,
        }
    }

    /// The time for which the bullet has flown; a straight one keeps no count.
    pub open spec fn spec_age(self) -> i64 {
        match self {
            Bullet::Rect { .. } => 0,
            Bullet::Sine { total_time, .. } => total_time,
            Bullet::Divergent { total_time, .. } => total_time,
        }
    }

    /// Where the bullet is across the field, before any question of whether
    /// the place is representable.
    pub open spec fn spec_y(self, wave: Seq<i64>) -> int {
        match self {
            Bullet::Rect { rect } => rect.y as int,
            Bullet::Sine { origin_y, amplitude, angular_vel, total_time, .. } => origin_y
                + sine_offset(wave, amplitude as int, angular_vel as int, total_time as int),
            Bullet::Divergent { origin_y, a, b, total_time, .. } => origin_y + divergent_offset(
                a as int,
                b as int,
                total_time as int,
            ),
        }
    }

    /// Where the bullet is.
    pub open spec fn spec_pos(self, wave: Seq<i64>) -> (int, int) {
        (self.spec_x() as int, self.spec_y(wave))
    }

    /// Width and height of the bullet.
    pub open spec fn spec_size(self) -> (i64, i64) {
        match self {
            Bullet::Rect { rect } => (rect.w, rect.h),
            _ => (BULLET_W, BULLET_H),
        }
    }

    /// The state is one whose rectangle can be computed and represented.
    pub open spec fn wf(self, wave: Seq<i64>) -> bool {
        &&& self matches Bullet::Divergent { a, b, total_time, .. } ==> -DIVERGENT_LIMIT <= a
            <= DIVERGENT_LIMIT && 0 < b <= DIVERGENT_LIMIT && -DIVERGENT_LIMIT <= total_time
            <= DIVERGENT_LIMIT
        &&& i64::MIN <= self.spec_pos(wave).1
        &&& self.spec_size().0 >= 0
        &&& self.spec_size().1 >= 0
        &&& self.spec_pos(wave).0 + self.spec_size().0 <= i64::MAX
        &&& self.spec_pos(wave).1 + self.spec_size().1 <= i64::MAX
    }

    /// The rectangle that the bullet occupies.
    pub open spec fn spec_rect(self, wave: Seq<i64>) -> Rectangle {
        Rectangle {
            x: self.spec_pos(wave).0 as i64,
            y: self.spec_pos(wave).1 as i64,
            w: self.spec_size().0,
            h: self.spec_size().1,
        }
    }

    /// Place along the field and age after the time `dt`, before any question
    /// of whether they are representable.
    pub open spec fn spec_moved(self, dt: int) -> (int, int) {
        (self.spec_x() + BULLET_SPEED * dt, self.spec_age() + dt)
    }

    /// The state with the given place along x and the given age, where both
    /// are representable.
    pub open spec fn spec_with(self, x: int, age: int) -> Bullet {
        match self {
            Bullet::Rect { rect } => Bullet::Rect { rect: Rectangle { x: x as i64, ..rect } },
            Bullet::Sine { pos_x, origin_y, amplitude, angular_vel, total_time } => Bullet::Sine {
                pos_x: x as i64,
                origin_y,
                amplitude,
                angular_vel,
                total_time: age as i64,
            },
            Bullet::Divergent { pos_x, origin_y, a, b, total_time } => Bullet::Divergent {
                pos_x: x as i64,
                origin_y,
                a,
                b,
                total_time: age as i64,
            },
        }
    }

    /// Whether a bullet in this state has left the field of the given size:
    /// any bullet by passing its right edge, a diverging one by passing any
    /// edge.
    pub open spec fn spec_gone(self, wave: Seq<i64>, size: (i64, i64)) -> bool {
        let (x, y) = self.spec_pos(wave);
        match self {
            Bullet::Divergent { .. } => x > size.0 || x < 0 || y > size.1 || y < 0,
            _ => x > size.0,
        }
    }

    /// The bullet after the time `dt` on a field of the given size. It is
    /// dropped when it has left the field, and when its new state is not one
    /// whose rectangle can be computed and represented.
    pub open spec fn spec_update(self, wave: Seq<i64>, size: (i64, i64), dt: int) -> Option<Bullet> {
        let (x, age) = self.spec_moved(dt);
        if i64::MIN <= x <= i64::MAX && i64::MIN <= age <= i64::MAX {
            let next = self.spec_with(x, age);
            if next.wf(wave) && !next.spec_gone(wave, size) {
                Some(next)
            } else {
                None
            }
        } else {
            None
        }
    }
}


/// The product of two numbers, which always fits.
fn product(a: i64, b: i64) -> (r: i128)
    ensures
        r == a * b,
        -0x8000_0000_0000_0000 * 0x8000_0000_0000_0000 <= r <= 0x8000_0000_0000_0000
            * 0x8000_0000_0000_0000,
{
    assert(-0x8000_0000_0000_0000 * 0x8000_0000_0000_0000 <= a * b <= 0x8000_0000_0000_0000
        * 0x8000_0000_0000_0000) by (nonlinear_arith)
        requires
            -0x8000_0000_0000_0000 <= a <= 0x8000_0000_0000_0000,
            -0x8000_0000_0000_0000 <= b <= 0x8000_0000_0000_0000,
    ;
    a as i128 * b as i128
}

/// The quotient of `v` by `d`, rounded towards zero.
fn quotient(v: i128, d: i128) -> (r: i128)
    requires
        d > 0,
    ensures
        r == trunc_div(v as int, d as int),
        v >= 0 ==> 0 <= r <= v,
        v <= 0 ==> v <= r <= 0,
{
    proof {
        if v >= 0 {
            vstd::arithmetic::div_mod::lemma_div_pos_is_pos(v as int, d as int);
            vstd::arithmetic::div_mod::lemma_div_is_ordered_by_denominator(v as int, 1, d as int);
        } else {
            vstd::arithmetic::div_mod::lemma_div_pos_is_pos(-v as int, d as int);
            vstd::arithmetic::div_mod::lemma_div_is_ordered_by_denominator(-v as int, 1, d as int);
        }
    }
    v / d
}

/// The sideways offset on a sine path.
fn sine_offset_of(wave: &SineTable, amplitude: i64, angular_vel: i64, age: i64) -> (r: i128)
    requires
        wave.wf(),
    ensures
        r == sine_offset(wave@, amplitude as int, angular_vel as int, age as int),
        -0x8000_0000_0000_0000 * 1_000_000 <= r <= 0x8000_0000_0000_0000 * 1_000_000,
{
    let phase: i128 = product(angular_vel, age);
    let sample: i64 = wave.sample(phase);
    assert(-0x8000_0000_0000_0000 * 1_000_000 <= amplitude * sample <= 0x8000_0000_0000_0000
        * 1_000_000) by (nonlinear_arith)
        requires
            -0x8000_0000_0000_0000 <= amplitude <= 0x8000_0000_0000_0000,
            -1_000_000 <= sample <= 1_000_000,
    ;
    quotient(amplitude as i128 * sample as i128, WAVE_SCALE as i128)
}

/// The sideways offset on a diverging path.
fn divergent_offset_of(a: i64, b: i64, age: i64) -> (r: i128)
    requires
        -DIVERGENT_LIMIT <= a <= DIVERGENT_LIMIT,
        0 < b <= DIVERGENT_LIMIT,
        -DIVERGENT_LIMIT <= age <= DIVERGENT_LIMIT,
    ensures
        r == divergent_offset(a as int, b as int, age as int),
        -32_000_000_000_000_000_000_000_000_000_000_000_000 <= r
            <= 32_000_000_000_000_000_000_000_000_000_000_000_000,
{
    assert(-4_000_000_000_000_000_000 <= a * age <= 4_000_000_000_000_000_000) by (nonlinear_arith)
        requires
            -2_000_000_000 <= a <= 2_000_000_000,
            -2_000_000_000 <= age <= 2_000_000_000,
    ;
    let at: i128 = a as i128 * age as i128;
    assert(-8_000_000_000_000_000_000_000_000_000 <= at * age
        <= 8_000_000_000_000_000_000_000_000_000) by (nonlinear_arith)
        requires
            -4_000_000_000_000_000_000 <= at <= 4_000_000_000_000_000_000,
            -2_000_000_000 <= age <= 2_000_000_000,
    ;
    let att: i128 = at * age as i128;
    let past: i128 = age as i128 - b as i128;
    assert(-32_000_000_000_000_000_000_000_000_000_000_000_000 <= att * past
        <= 32_000_000_000_000_000_000_000_000_000_000_000_000) by (nonlinear_arith)
        requires
            -8_000_000_000_000_000_000_000_000_000 <= att <= 8_000_000_000_000_000_000_000_000_000,
            -4_000_000_000 <= past <= 4_000_000_000,
    ;
    let top: i128 = att * past;
    assert(0 < b * b <= 4_000_000_000_000_000_000) by (nonlinear_arith)
        requires
            0 < b <= 2_000_000_000,
    ;
    let bb: i128 = b as i128 * b as i128;
    assert(0 < bb * b <= 8_000_000_000_000_000_000_000_000_000) by (nonlinear_arith)
        requires
            0 < bb <= 4_000_000_000_000_000_000,
            0 < b <= 2_000_000_000,
    ;
    let bottom: i128 = bb * b as i128;
    quotient(top, bottom)
}

impl Bullet {
    /// The place of the bullet across the field, for a state whose path can be
    /// computed.
    fn pos_y(&self, wave: &SineTable) -> (r: i128)
        requires
            wave.wf(),
            *self matches Bullet::Divergent { a, b, total_time, .. } ==> -DIVERGENT_LIMIT <= a
                <= DIVERGENT_LIMIT && 0 < b <= DIVERGENT_LIMIT && -DIVERGENT_LIMIT <= total_time
                <= DIVERGENT_LIMIT,
        ensures
            r == self.spec_y(wave@),
            -0x2000_0000_0000_0000_0000_0000_0000_0000 <= r
                <= 0x2000_0000_0000_0000_0000_0000_0000_0000,
    {
        match *self {
            Bullet::Rect { rect } => rect.y as i128,
            Bullet::Sine { pos_x, origin_y, amplitude, angular_vel, total_time } => origin_y as i128
                + sine_offset_of(wave, amplitude, angular_vel, total_time),
            Bullet::Divergent { pos_x, origin_y, a, b, total_time } => origin_y as i128
                + divergent_offset_of(a, b, total_time),
        }
    }

    /// The place of the bullet along the field.
    fn pos_x(&self) -> (r: i64)
        ensures
            r == self.spec_x(),
    {
        match *self {
            Bullet::Rect { rect } => rect.x,
            Bullet::Sine { pos_x, .. } => pos_x,
            Bullet::Divergent { pos_x, .. } => pos_x,
        }
    }

    /// Width and height of the bullet.
    fn size(&self) -> (r: (i64, i64))
        ensures
            r == self.spec_size(),
    {
        match *self {
            Bullet::Rect { rect } => (rect.w, rect.h),
            _ => (BULLET_W, BULLET_H),
        }
    }

    /// Whether the state is one whose rectangle can be computed and
    /// represented.
    pub fn is_valid(&self, wave: &SineTable) -> (r: bool)
        requires
            wave.wf(),
        ensures
            r == self.wf(wave@),
    {
        if let Bullet::Divergent { a, b, total_time, .. } = *self {
            if a < -DIVERGENT_LIMIT || a > DIVERGENT_LIMIT || b <= 0 || b > DIVERGENT_LIMIT
                || total_time < -DIVERGENT_LIMIT || total_time > DIVERGENT_LIMIT {
                return false;
            }
        }
        let x: i64 = self.pos_x();
        let y: i128 = self.pos_y(wave);
        let (w, h) = self.size();
        w >= 0 && h >= 0 && y >= i64::MIN as i128 && x as i128 + w as i128 <= i64::MAX as i128 && y
            + h as i128 <= i64::MAX as i128
    }

    /// The rectangle that the bullet occupies.
    pub fn rect(&self, wave: &SineTable) -> (r: Rectangle)
        requires
            wave.wf(),
            self.wf(wave@),
        ensures
            r == self.spec_rect(wave@),
            r.wf(),
    {
        let x: i64 = self.pos_x();
        let y: i128 = self.pos_y(wave);
        let (w, h) = self.size();
        Rectangle { x, y: y as i64, w, h }
    }

    /// Moves the bullet on by the time `dt`. There is no bullet left when it
    /// has left the field, and when its new state is not one whose rectangle
    /// can be computed and represented.
    pub fn update(self, phi: &Phi, dt: i64, wave: &SineTable) -> (r: Option<Bullet>)
        requires
            wave.wf(),
        ensures
            r == self.spec_update(wave@, phi.renderer.spec_output_size(), dt as int),
            r matches Some(next) ==> next.wf(wave@),
    {
        let (w, h) = phi.output_size();
        let x: i128 = self.pos_x() as i128 + product(BULLET_SPEED, dt);
        if x < i64::MIN as i128 || x > i64::MAX as i128 {
            return None;
        }
        let next: Bullet = match self {
            Bullet::Rect { rect } => Bullet::Rect {
                rect: Rectangle { x: x as i64, y: rect.y, w: rect.w, h: rect.h },
            },
            Bullet::Sine { pos_x, origin_y, amplitude, angular_vel, total_time } => {
                let age: i128 = total_time as i128 + dt as i128;
                if age < i64::MIN as i128 || age > i64::MAX as i128 {
                    return None;
                }
                Bullet::Sine { pos_x: x as i64, origin_y, amplitude, angular_vel, total_time: age as i64 }
            },
            Bullet::Divergent { pos_x, origin_y, a, b, total_time } => {
                let age: i128 = total_time as i128 + dt as i128;
                if age < i64::MIN as i128 || age > i64::MAX as i128 {
                    return None;
                }
                Bullet::Divergent { pos_x: x as i64, origin_y, a, b, total_time: age as i64 }
            },
        };
        if !next.is_valid(wave) {
            return None;
        }
        let place: Rectangle = next.rect(wave);
        let gone: bool = match next {
            Bullet::Divergent { .. } => place.x > w || place.x < 0 || place.y > h || place.y < 0,
            _ => place.x > w,
        };
        if gone {
            None
        } else {
            Some(next)
        }
    }

    /// Requests that the bullet be drawn: its rectangle, filled.
    pub fn render(&self, phi: &mut Phi, wave: &SineTable)
        requires
            wave.wf(),
            self.wf(wave@),
        ensures
            final(phi).renderer@ == old(phi).renderer@.push(
                DrawCall::Fill { red: 230, green: 230, blue: 30, rect: self.spec_rect(wave@) },
            ),
            final(phi).renderer.spec_pixels() == old(phi).renderer.spec_pixels(),
            final(phi).events == old(phi).events,
    {
        let rect: Rectangle = self.rect(wave);
        phi.renderer.push(DrawCall::Fill { red: 230, green: 230, blue: 30, rect });
    }
}

/// The two bullets of a shot from cannons at `cannons_x`, one at `cannon1_y`
/// and one at `cannon2_y`, both new. Those of a diverging shot part from each
/// other: the first has `a` reversed.
pub open spec fn spec_spawn_bullets(
    cannon: CannonType,
    cannons_x: i64,
    cannon1_y: i64,
    cannon2_y: i64,
) -> Seq<Bullet> {
    match cannon {
        CannonType::RectBullet => seq![
            Bullet::Rect { rect: Rectangle { x: cannons_x, y: cannon1_y, w: BULLET_W, h: BULLET_H } },
            Bullet::Rect { rect: Rectangle { x: cannons_x, y: cannon2_y, w: BULLET_W, h: BULLET_H } },
        ],
        CannonType::SineBullet { amplitude, angular_vel } => seq![
            Bullet::Sine { pos_x: cannons_x, origin_y: cannon1_y, amplitude, angular_vel, total_time: 0 },
            Bullet::Sine { pos_x: cannons_x, origin_y: cannon2_y, amplitude, angular_vel, total_time: 0 },
        ],
        CannonType::DivergentBullet { a, b } => seq![
            Bullet::Divergent { pos_x: cannons_x, origin_y: cannon1_y, a: (-a) as i64, b, total_time: 0 },
            Bullet::Divergent { pos_x: cannons_x, origin_y: cannon2_y, a, b, total_time: 0 },
        ],
    }
}

/// The two bullets of a shot.
pub fn spawn_bullets(cannon: CannonType, cannons_x: i64, cannon1_y: i64, cannon2_y: i64) -> (r:
    Vec<Bullet>)
    requires
        cannon.wf(),
    ensures
        r@ == spec_spawn_bullets(cannon, cannons_x, cannon1_y, cannon2_y),
{
    let mut bullets: Vec<Bullet> = Vec::new();
    match cannon {
        CannonType::RectBullet => {
            bullets.push(
                Bullet::Rect {
                    rect: Rectangle { x: cannons_x, y: cannon1_y, w: BULLET_W, h: BULLET_H },
                },
            );
            bullets.push(
                Bullet::Rect {
                    rect: Rectangle { x: cannons_x, y: cannon2_y, w: BULLET_W, h: BULLET_H },
                },
            );
        },
        CannonType::SineBullet { amplitude, angular_vel } => {
            bullets.push(
                Bullet::Sine {
                    pos_x: cannons_x,
                    origin_y: cannon1_y,
                    amplitude,
                    angular_vel,
                    total_time: 0,
                },
            );
            bullets.push(
                Bullet::Sine {
                    pos_x: cannons_x,
                    origin_y: cannon2_y,
                    amplitude,
                    angular_vel,
                    total_time: 0,
                },
            );
        },
        CannonType::DivergentBullet { a, b } => {
            bullets.push(
                Bullet::Divergent { pos_x: cannons_x, origin_y: cannon1_y, a: -a, b, total_time: 0 },
            );
            bullets.push(
                Bullet::Divergent { pos_x: cannons_x, origin_y: cannon2_y, a, b, total_time: 0 },
            );
        },
    }
    assert(bullets@ =~= spec_spawn_bullets(cannon, cannons_x, cannon1_y, cannon2_y));
    bullets
}

} // verus!
