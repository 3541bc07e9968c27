//! The game view: the player, the asteroids and the explosions, and the tick
//! that advances them, lets them collide and requests the frame.

use crate::bullets::{spawn_bullets, spec_spawn_bullets, Bullet, CannonType, SineTable};
use crate::collision::{asteroids_alive, bullets_alive, collide, player_is_hit, Collisions};
use crate::data::{clamp_axis, MaybeAlive, Rectangle, UNIT};
use crate::gfx::{
    clock_after, playable, AnimatedSprite, AnimatedSpriteDescr, AnimationView, CopySprite,
    DrawCall, Layer, Sprite, SECOND,
};
use crate::phi::{is_pressed, pressed, Events, Phi, ViewAction, ViewId};
use vstd::prelude::*;

verus! {

/// Speed of the player's ship.
pub const PLAYER_SPEED: i64 = 180;

/// Width of the player's ship.
pub const PLAYER_W: i64 = 43 * UNIT;

/// Height of the player's ship.
pub const PLAYER_H: i64 = 39 * UNIT;

/// The lives that a game begins with.
pub const PLAYER_MAX_LIVES: usize = 3;

/// The frames of the player's ship, by the direction it moves in: up, level
/// or down, and at its usual pace, faster (to the right) or slower (to the
/// left).
#[derive(Clone, Copy, Debug, PartialEq, Eq, Structural)]
pub enum PlayerFrame {
    UpNorm,
    UpFast,
    UpSlow,
    MidNorm,
    MidFast,
    MidSlow,
    DownNorm,
    DownFast,
    DownSlow,
}

impl PlayerFrame {
    /// The place of the frame on the sheet, counted row by row.
    pub open spec fn spec_index(self) -> int {
        match self {
            PlayerFrame::UpNorm => 0,
            PlayerFrame::UpFast => 1,
            PlayerFrame::UpSlow => 2,
            PlayerFrame::MidNorm => 3,
            PlayerFrame::MidFast => 4,
            PlayerFrame::MidSlow => 5,
            PlayerFrame::DownNorm => 6,
            PlayerFrame::DownFast => 7,
            PlayerFrame::DownSlow => 8,
        }
    }

    /// The frame for a ship that has moved by `dx` and `dy`: the row by the
    /// sign of `dy`, the column by the sign of `dx`.
    pub open spec fn spec_for_motion(dx: int, dy: int) -> PlayerFrame {
        if dy < 0 {
            if dx == 0 {
                PlayerFrame::UpNorm
            } else if dx > 0 {
                PlayerFrame::UpFast
            } else {
                PlayerFrame::UpSlow
            }
        } else if dy == 0 {
            if dx == 0 {
                PlayerFrame::MidNorm
            } else if dx > 0 {
                PlayerFrame::MidFast
            } else {
                PlayerFrame::MidSlow
            }
        } else {
            if dx == 0 {
                PlayerFrame::DownNorm
            } else if dx > 0 {
                PlayerFrame::DownFast
            } else {
                PlayerFrame::DownSlow
            }
        }
    }

    /// The place of the frame on the sheet, counted row by row.
    pub fn index(self) -> (r: usize)
        ensures
            r == self.spec_index(),
            r < 9,
    {
        match self {
            PlayerFrame::UpNorm => 0,
            PlayerFrame::UpFast => 1,
            PlayerFrame::UpSlow => 2,
            PlayerFrame::MidNorm => 3,
            PlayerFrame::MidFast => 4,
            PlayerFrame::MidSlow => 5,
            PlayerFrame::DownNorm => 6,
            PlayerFrame::DownFast => 7,
            PlayerFrame::DownSlow => 8,
        }
    }

    /// The frame for a ship that has moved by `dx` and `dy`.
    pub fn for_motion(dx: i64, dy: i64) -> (r: PlayerFrame)
        ensures
            r == PlayerFrame::spec_for_motion(dx as int, dy as int),
    {
        if dx == 0 && dy < 0 {
            PlayerFrame::UpNorm
        } else if dx > 0 && dy < 0 {
            PlayerFrame::UpFast
        } else if dx < 0 && dy < 0 {
            PlayerFrame::UpSlow
        } else if dx == 0 && dy == 0 {
            PlayerFrame::MidNorm
        } else if dx > 0 && dy == 0 {
            PlayerFrame::MidFast
        } else if dx < 0 && dy == 0 {
            PlayerFrame::MidSlow
        } else if dx == 0 && dy > 0 {
            PlayerFrame::DownNorm
        } else if dx > 0 && dy > 0 {
            PlayerFrame::DownFast
        } else {
            PlayerFrame::DownSlow
        }
    }
}

/// `share` is the way along each axis of a diagonal move of length `way`: the
/// longest that, taken along both axes, is no longer than `way`, and of the
/// sign of `way`.
pub open spec fn is_diagonal_share(way: int, share: int) -> bool {
    if way >= 0 {
        share >= 0 && 2 * share * share <= way * way < 2 * (share + 1) * (share + 1)
    } else {
        share <= 0 && 2 * share * share <= way * way < 2 * (share - 1) * (share - 1)
    }
}

/// The way along each axis of a diagonal move of length `way`.
pub open spec fn diagonal_share(way: int) -> int {
    choose|share: int| is_diagonal_share(way, share)
}

/// A diagonal move has one share only.
pub proof fn lemma_diagonal_share_unique(way: int, first: int, second: int)
    requires
        is_diagonal_share(way, first),
        is_diagonal_share(way, second),
    ensures
        first == second,
{
    if way >= 0 {
        if first < second {
            assert(2 * (first + 1) * (first + 1) <= 2 * second * second) by (nonlinear_arith)
                requires
                    0 <= first + 1 <= second,
            ;
        }
        if second < first {
            assert(2 * (second + 1) * (second + 1) <= 2 * first * first) by (nonlinear_arith)
                requires
                    0 <= second + 1 <= first,
            ;
        }
    } else {
        if first < second {
            assert(2 * (second - 1) * (second - 1) <= 2 * first * first) by (nonlinear_arith)
                requires
                    first <= second - 1 <= 0,
            ;
        }
        if second < first {
            assert(2 * (first - 1) * (first - 1) <= 2 * second * second) by (nonlinear_arith)
                requires
                    second <= first - 1 <= 0,
            ;
        }
    }
}

/// A way that is not negative has a share that is not negative.
proof fn lemma_share_of(way: nat) -> (share: int)
    ensures
        share >= 0,
        2 * share * share <= way * way < 2 * (share + 1) * (share + 1),
    decreases way,
{
    if way == 0 {
        0
    } else {
        let s = lemma_share_of((way - 1) as nat);
        if 2 * (s + 1) * (s + 1) <= way * way {
            assert(way - 1 < 2 * (s + 1)) by (nonlinear_arith)
                requires
                    s >= 0,
                    way >= 1,
                    (way - 1) * (way - 1) < 2 * (s + 1) * (s + 1),
            ;
            assert(way * way < 2 * (s + 2) * (s + 2)) by (nonlinear_arith)
                requires
                    s >= 0,
                    way >= 1,
                    way - 1 < 2 * (s + 1),
                    (way - 1) * (way - 1) < 2 * (s + 1) * (s + 1),
            ;
            s + 1
        } else {
            assert(2 * s * s <= way * way) by (nonlinear_arith)
                requires
                    way >= 1,
                    2 * s * s <= (way - 1) * (way - 1),
            ;
            s
        }
    }
}

/// Every way has a diagonal share.
pub proof fn lemma_diagonal_share_exists(way: int)
    ensures
        is_diagonal_share(way, diagonal_share(way)),
{
    if way >= 0 {
        let s = lemma_share_of(way as nat);
        assert(is_diagonal_share(way, s));
    } else {
        let size = -way;
        let s = lemma_share_of(size as nat);
        assert(2 * (-s) * (-s) == 2 * s * s) by (nonlinear_arith);
        assert(2 * (-s - 1) * (-s - 1) == 2 * (s + 1) * (s + 1)) by (nonlinear_arith);
        assert(way * way == size * size) by (nonlinear_arith)
            requires
                size == -way,
        ;
        assert(is_diagonal_share(way, -s));
    }
}

/// The share of a way that is too long to be measured exactly is still long:
/// longer than any window is wide.
proof fn lemma_far_share(way: int)
    requires
        way >= 0x8000_0000_0000_0000 || way <= -0x8000_0000_0000_0000,
    ensures
        way > 0 ==> diagonal_share(way) > 0x4000_0000_0000_0000,
        way < 0 ==> diagonal_share(way) < -0x4000_0000_0000_0000,
{
    lemma_diagonal_share_exists(way);
    let s = diagonal_share(way);
    assert(way * way >= 0x8000_0000_0000_0000 * 0x8000_0000_0000_0000) by (nonlinear_arith)
        requires
            way >= 0x8000_0000_0000_0000 || way <= -0x8000_0000_0000_0000,
    ;
    if way > 0 && s <= 0x4000_0000_0000_0000 {
        assert(2 * (s + 1) * (s + 1) <= 2 * 0x4000_0000_0000_0001 * 0x4000_0000_0000_0001)
            by (nonlinear_arith)
            requires
                0 <= s <= 0x4000_0000_0000_0000,
        ;
    }
    if way < 0 && s >= -0x4000_0000_0000_0000 {
        assert(2 * (s - 1) * (s - 1) <= 2 * 0x4000_0000_0000_0001 * 0x4000_0000_0000_0001)
            by (nonlinear_arith)
            requires
                -0x4000_0000_0000_0000 <= s <= 0,
        ;
    }
}

/// The way along each axis of a diagonal move of length `way`.
pub fn diagonal(way: i64) -> (r: i64)
    requires
        way > i64::MIN,
    ensures
        r == diagonal_share(way as int),
        is_diagonal_share(way as int, r as int),
        way >= 0 ==> 0 <= r <= way,
        way <= 0 ==> way <= r <= 0,
{
    let size: u128 = if way >= 0 {
        way as u128
    } else {
        (-way) as u128
    };
    assert(size * size <= 0x7fff_ffff_ffff_ffff * 0x7fff_ffff_ffff_ffff) by (nonlinear_arith)
        requires
            0 <= size <= 0x7fff_ffff_ffff_ffff,
    ;
    let square: u128 = size * size;
    let mut low: u128 = 0;
    let mut high: u128 = size + 1;
    assert(2 * high * high > square) by (nonlinear_arith)
        requires
            high == size + 1,
            square == size * size,
            size >= 0,
    ;
    while high - low > 1
        invariant
            0 <= low < high <= size + 1,
            size <= 0x7fff_ffff_ffff_ffff,
            square == size * size,
            2 * low * low <= square,
            2 * high * high > square,
        decreases high - low,
    {
        let mid: u128 = low + (high - low) / 2;
        assert(2 * mid * mid <= 2 * 0x8000_0000_0000_0000 * 0x8000_0000_0000_0000) by (nonlinear_arith)
            requires
                0 <= mid <= 0x8000_0000_0000_0000,
        ;
        if 2 * mid * mid <= square {
            low = mid;
        } else {
            high = mid;
        }
    }
    let share: i64 = if way >= 0 {
        low as i64
    } else {
        -(low as i64)
    };
    proof {
        assert(high == low + 1);
        if way < 0 {
            assert((share as int) * (share as int) == low * low) by (nonlinear_arith)
                requires
                    share == -low,
            ;
            assert((share - 1) * (share - 1) == high * high) by (nonlinear_arith)
                requires
                    share == -low,
                    high == low + 1,
            ;
            assert((way as int) * (way as int) == size * size) by (nonlinear_arith)
                requires
                    way == -size,
            ;
        }
        assert(2 * low * low == 2 * (low * low)) by (nonlinear_arith);
        assert(2 * high * high == 2 * (high * high)) by (nonlinear_arith);
        assert(2 * share * share == 2 * (share * share)) by (nonlinear_arith);
        assert(2 * (share - 1) * (share - 1) == 2 * ((share - 1) * (share - 1))) by (nonlinear_arith);
        assert(is_diagonal_share(way as int, share as int));
        lemma_diagonal_share_unique(way as int, share as int, diagonal_share(way as int));
    }
    share
}


/// The largest coordinate of a window: its size in pixels is a `u32`.
pub const WINDOW_LIMIT: i64 = 4_294_967_295 * UNIT;

/// The part of a window of the given size that the player may move in: all
/// of its height, and the left seven tenths of its width. The rest is where
/// the asteroids come in.
pub open spec fn movable_region(size: (i64, i64)) -> Rectangle {
    Rectangle { x: 0, y: 0, w: (size.0 * 7 / 10) as i64, h: size.1 }
}

/// The width of the part of a window of the given width that the player may
/// move in.
pub fn movable_width(width: i64) -> (r: i64)
    requires
        0 <= width <= WINDOW_LIMIT,
    ensures
        r == movable_region((width, 0)).w,
        forall|height: i64| r == (#[trigger] movable_region((width, height))).w,
{
    ((width as i128 * 7) / 10) as i64
}

/// How the sheet of the player's ship is laid out.
pub open spec fn player_sheet() -> AnimatedSpriteDescr<'static> {
    AnimatedSpriteDescr {
        image_path: "assets/spaceship.png",
        total_frames: 9,
        frames_high: 3,
        frames_wide: 3,
        frame_w: PLAYER_W,
        frame_h: PLAYER_H,
    }
}

/// The way that a ship moves along one axis in a tick: none if both keys of
/// the axis are held or neither is, else `moved`, against the axis for the
/// first key and along it for the second.
pub open spec fn axis_motion(first: bool, second: bool, moved: int) -> int {
    if first == second {
        0
    } else if first {
        -moved
    } else {
        moved
    }
}

/// The way that the ship moves in a tick of length `elapsed` along each axis
/// on which it moves: its speed times the time, and the diagonal share of
/// that where it moves along both.
pub open spec fn ship_moved(events: Events, elapsed: int) -> int {
    let way = PLAYER_SPEED * elapsed;
    if (events.key_up != events.key_down) && (events.key_left != events.key_right) {
        diagonal_share(way)
    } else {
        way
    }
}

/// Where a ship comes to lie in a window of the given size when it moves by
/// `moved` along each axis on which the held keys move it, and is then pushed
/// into the region that it may move in.
pub open spec fn placed(rect: Rectangle, events: Events, size: (i64, i64), moved: int) -> Rectangle {
    let dx = axis_motion(events.key_left, events.key_right, moved);
    let dy = axis_motion(events.key_up, events.key_down, moved);
    let region = movable_region(size);
    Rectangle {
        x: clamp_axis(rect.x + dx, PLAYER_W as int, 0, region.w as int) as i64,
        y: clamp_axis(rect.y + dy, PLAYER_H as int, 0, region.h as int) as i64,
        w: PLAYER_W,
        h: PLAYER_H,
    }
}

/// The frame of a ship that moves by `moved` along each axis on which the
/// held keys move it.
pub open spec fn faced(events: Events, moved: int) -> PlayerFrame {
    PlayerFrame::spec_for_motion(
        axis_motion(events.key_left, events.key_right, moved),
        axis_motion(events.key_up, events.key_down, moved),
    )
}

/// The weapon after the keys that switch it: the key for the diverging shot
/// goes before the key for the sine shot, and that before the key for the
/// straight shot.
pub open spec fn cannon_after(cannon: CannonType, events: Events) -> CannonType {
    if pressed(events.now.key_3) {
        CannonType::DivergentBullet { a: 100_000_000, b: 1_200_000 }
    } else if pressed(events.now.key_2) {
        CannonType::SineBullet { amplitude: 10_000_000, angular_vel: 15 }
    } else if pressed(events.now.key_1) {
        CannonType::RectBullet
    } else {
        cannon
    }
}

/// The player's ship.
pub struct Player {
    pub rect: Rectangle,
    pub sprites: Vec<Sprite>,
    pub current: PlayerFrame,
    pub cannon: CannonType,
    pub lives: usize,
}

impl Player {
    /// The ship has its nine frames and its own size, lies within reach of a
    /// window, and its weapon is valid.
    pub open spec fn wf(&self) -> bool {
        &&& self.sprites@.len() == 9
        &&& forall|i: int| 0 <= i < 9 ==> (#[trigger] self.sprites@[i]).wf()
        &&& self.rect.w == PLAYER_W
        &&& self.rect.h == PLAYER_H
        &&& -WINDOW_LIMIT <= self.rect.x <= WINDOW_LIMIT
        &&& -WINDOW_LIMIT <= self.rect.y <= WINDOW_LIMIT
        &&& self.cannon.wf()
    }

    /// The rectangle of the ship after a tick of length `elapsed` in a window
    /// of the given size: moved as the held keys say, then pushed into the
    /// region that it may move in.
    pub open spec fn spec_moved_rect(&self, events: Events, size: (i64, i64), elapsed: int) -> Rectangle {
        placed(self.rect, events, size, ship_moved(events, elapsed))
    }

    /// The frame of the ship after a tick of length `elapsed`.
    pub open spec fn spec_moved_frame(events: Events, elapsed: int) -> PlayerFrame {
        faced(events, ship_moved(events, elapsed))
    }

    /// The bullets of a shot from the ship's two cannons.
    pub open spec fn spec_spawn_bullets(&self) -> Seq<Bullet> {
        spec_spawn_bullets(
            self.cannon,
            (self.rect.x + 30 * UNIT) as i64,
            (self.rect.y + 6 * UNIT) as i64,
            (self.rect.y + PLAYER_H - 10 * UNIT) as i64,
        )
    }

    /// The ship is as a game begins with it in a window of the given size:
    /// 64 pixels from the left edge and halfway down, with the nine frames
    /// that the sheet holds, in the level frame, with the straight shot and
    /// all its lives.
    pub open spec fn is_new(&self, size: (i64, i64), spritesheet: Sprite) -> bool {
        &&& self.rect == (Rectangle {
            x: (64 * UNIT) as i64,
            y: crate::bullets::trunc_div(size.1 - PLAYER_H, 2) as i64,
            w: PLAYER_W,
            h: PLAYER_H,
        })
        &&& self.sprites@.len() == 9
        &&& forall|k: int|
            0 <= k < 9 ==> player_sheet().frame(spritesheet, k) == Some(#[trigger] self.sprites@[k])
        &&& self.current == PlayerFrame::MidNorm
        &&& self.cannon == CannonType::RectBullet
        &&& self.lives == PLAYER_MAX_LIVES
    }

    /// A ship with all its lives and the straight shot, at the left of the
    /// window and halfway down. There is none exactly when the sheet is too
    /// small for the nine frames.
    pub fn new(phi: &Phi, spritesheet: &Sprite) -> (r: Option<Player>)
        requires
            spritesheet.wf(),
        ensures
            r.is_some() <==> player_sheet().fits(*spritesheet),
            r matches Some(player) ==> player.wf() && player.is_new(
                phi.renderer.spec_output_size(),
                *spritesheet,
            ),
    {
        let descr = AnimatedSpriteDescr {
            image_path: "assets/spaceship.png",
            total_frames: 9,
            frames_high: 3,
            frames_wide: 3,
            frame_w: PLAYER_W,
            frame_h: PLAYER_H,
        };
        match AnimatedSprite::load_frames(spritesheet, &descr) {
            None => None,
            Some(sprites) => {
                let (w, h) = phi.output_size();
                Some(
                    Player {
                        rect: Rectangle {
                            x: 64 * UNIT,
                            y: (h - PLAYER_H) / 2,
                            w: PLAYER_W,
                            h: PLAYER_H,
                        },
                        sprites,
                        current: PlayerFrame::MidNorm,
                        cannon: CannonType::RectBullet,
                        lives: PLAYER_MAX_LIVES,
                    },
                )
            },
        }
    }

    /// Switches the weapon as the keys say, moves the ship as the held keys
    /// say, keeps it within the region that it may move in, and picks the
    /// frame for the direction it has moved in.
    pub fn update(&mut self, phi: &Phi, elapsed: i64)
        requires
            old(self).wf(),
            PLAYER_W <= movable_region(phi.renderer.spec_output_size()).w,
            PLAYER_H <= movable_region(phi.renderer.spec_output_size()).h,
        ensures
            final(self).cannon == cannon_after(old(self).cannon, phi.events),
            final(self).rect == old(self).spec_moved_rect(
                phi.events,
                phi.renderer.spec_output_size(),
                elapsed as int,
            ),
            final(self).current == Player::spec_moved_frame(phi.events, elapsed as int),
            final(self).sprites == old(self).sprites,
            final(self).lives == old(self).lives,
            final(self).wf(),
            movable_region(phi.renderer.spec_output_size()).spec_contains(final(self).rect),
    {
        if is_pressed(phi.events.now.key_1) {
            self.cannon = CannonType::RectBullet;
        }
        if is_pressed(phi.events.now.key_2) {
            self.cannon = CannonType::SineBullet { amplitude: 10 * UNIT, angular_vel: 15 };
        }
        if is_pressed(phi.events.now.key_3) {
            self.cannon = CannonType::DivergentBullet { a: 100 * UNIT, b: 1_200_000 };
        }
        let (rect, frame) = steer(self.rect, &phi.events, phi.output_size(), elapsed);
        self.rect = rect;
        self.current = frame;
    }

    /// Requests that the ship be drawn where it is, in its current frame.
    pub fn render(&self, phi: &mut Phi)
        requires
            self.wf(),
        ensures
            final(phi).renderer@ == old(phi).renderer@.push(
                DrawCall::Copy {
                    sprite: self.sprites@[self.current.spec_index()],
                    dest: self.rect,
                },
            ),
            final(phi).renderer.spec_pixels() == old(phi).renderer.spec_pixels(),
            final(phi).events == old(phi).events,
    {
        phi.renderer.copy_sprite(&self.sprites[self.current.index()], self.rect);
    }

    /// The two bullets of a shot from the ship's cannons, which lie at the
    /// front of the ship, one near its upper and one near its lower edge.
    pub fn spawn_bullets(&self) -> (r: Vec<Bullet>)
        requires
            self.wf(),
        ensures
            r@ == self.spec_spawn_bullets(),
    {
        let cannons_x: i64 = self.rect.x + 30 * UNIT;
        let cannon1_y: i64 = self.rect.y + 6 * UNIT;
        let cannon2_y: i64 = self.rect.y + PLAYER_H - 10 * UNIT;
        spawn_bullets(self.cannon, cannons_x, cannon1_y, cannon2_y)
    }
}

/// Where the ship comes to lie, and the frame it shows, after a tick of
/// length `elapsed`.
fn steer(rect: Rectangle, events: &Events, size: (i64, i64), elapsed: i64) -> (r: (
    Rectangle,
    PlayerFrame,
))
    requires
        -WINDOW_LIMIT <= rect.x <= WINDOW_LIMIT,
        -WINDOW_LIMIT <= rect.y <= WINDOW_LIMIT,
        0 <= size.0 <= WINDOW_LIMIT,
        0 <= size.1 <= WINDOW_LIMIT,
        PLAYER_W <= movable_region(size).w,
        PLAYER_H <= movable_region(size).h,
    ensures
        r.0 == placed(rect, *events, size, ship_moved(*events, elapsed as int)),
        r.1 == faced(*events, ship_moved(*events, elapsed as int)),
        movable_region(size).spec_contains(r.0),
{
    let diagonal: bool = (events.key_up ^ events.key_down) && (events.key_left ^ events.key_right);
    let way: i128 = PLAYER_SPEED as i128 * elapsed as i128;
    if way > i64::MIN as i128 && way <= i64::MAX as i128 {
        let moved: i64 = if diagonal {
            self::diagonal(way as i64)
        } else {
            way as i64
        };
        steer_by(rect, events, size, moved)
    } else {
        proof {
            lemma_far_share(way as int);
        }
        let toward: i64 = if way > 0 {
            1
        } else {
            -1
        };
        let far = steer_far(rect, events, size, toward);
        assert(far.0 == placed(rect, *events, size, ship_moved(*events, elapsed as int)));
        far
    }
}

/// Where the ship comes to lie, and the frame it shows, when it moves by
/// `moved` along each axis on which the held keys move it.
fn steer_by(rect: Rectangle, events: &Events, size: (i64, i64), moved: i64) -> (r: (
    Rectangle,
    PlayerFrame,
))
    requires
        moved > i64::MIN,
        -WINDOW_LIMIT <= rect.x <= WINDOW_LIMIT,
        -WINDOW_LIMIT <= rect.y <= WINDOW_LIMIT,
        0 <= size.0 <= WINDOW_LIMIT,
        0 <= size.1 <= WINDOW_LIMIT,
        PLAYER_W <= movable_region(size).w,
        PLAYER_H <= movable_region(size).h,
    ensures
        r.0 == placed(rect, *events, size, moved as int),
        r.1 == faced(*events, moved as int),
        movable_region(size).spec_contains(r.0),
{
    let region_w: i64 = movable_width(size.0);
    let dx: i64 = along(events.key_left, events.key_right, moved);
    let dy: i64 = along(events.key_up, events.key_down, moved);
    let x: i64 = pushed(rect.x as i128 + dx as i128, PLAYER_W, region_w);
    let y: i64 = pushed(rect.y as i128 + dy as i128, PLAYER_H, size.1);
    (Rectangle { x, y, w: PLAYER_W, h: PLAYER_H }, PlayerFrame::for_motion(dx, dy))
}

/// Where the ship comes to lie, and the frame it shows, when it moves in the
/// direction `toward` by more than any window is wide along each axis on
/// which the held keys move it.
fn steer_far(rect: Rectangle, events: &Events, size: (i64, i64), toward: i64) -> (r: (
    Rectangle,
    PlayerFrame,
))
    requires
        toward == 1 || toward == -1,
        -WINDOW_LIMIT <= rect.x <= WINDOW_LIMIT,
        -WINDOW_LIMIT <= rect.y <= WINDOW_LIMIT,
        0 <= size.0 <= WINDOW_LIMIT,
        0 <= size.1 <= WINDOW_LIMIT,
        PLAYER_W <= movable_region(size).w,
        PLAYER_H <= movable_region(size).h,
    ensures
        forall|moved: int|
            (toward > 0 && moved > 0x4000_0000_0000_0000) || (toward < 0 && moved
                < -0x4000_0000_0000_0000) ==> r.0 == #[trigger] placed(rect, *events, size, moved)
                && r.1 == faced(*events, moved),
        movable_region(size).spec_contains(r.0),
{
    let region_w: i64 = movable_width(size.0);
    let dx: i64 = along(events.key_left, events.key_right, toward);
    let dy: i64 = along(events.key_up, events.key_down, toward);
    let x: i64 = thrown(rect.x, dx, PLAYER_W, region_w);
    let y: i64 = thrown(rect.y, dy, PLAYER_H, size.1);
    (Rectangle { x, y, w: PLAYER_W, h: PLAYER_H }, PlayerFrame::for_motion(dx, dy))
}

/// The way along one axis: none if both keys of the axis are held or neither
/// is, else `moved`, against the axis for the first key and along it for the
/// second.
fn along(first: bool, second: bool, moved: i64) -> (r: i64)
    requires
        moved > i64::MIN,
    ensures
        r == axis_motion(first, second, moved as int),
{
    if first == second {
        0
    } else if first {
        -moved
    } else {
        moved
    }
}

/// An interval of length `len` that starts at `pos`, moved in the direction
/// `toward` by more than any window is wide and then pushed into the interval
/// of length `span` that starts at zero: it comes to lie at the end that it
/// was moved towards.
fn thrown(pos: i64, toward: i64, len: i64, span: i64) -> (r: i64)
    requires
        0 <= len <= span <= WINDOW_LIMIT,
        -WINDOW_LIMIT <= pos <= WINDOW_LIMIT,
    ensures
        toward == 0 ==> r == clamp_axis(pos as int, len as int, 0, span as int),
        forall|by: int|
            toward > 0 && by > 0x4000_0000_0000_0000 ==> r == #[trigger] clamp_axis(
                pos + by,
                len as int,
                0,
                span as int,
            ),
        forall|by: int|
            toward < 0 && by < -0x4000_0000_0000_0000 ==> r == #[trigger] clamp_axis(
                pos + by,
                len as int,
                0,
                span as int,
            ),
        0 <= r <= span - len,
{
    if toward == 0 {
        pushed(pos as i128, len, span)
    } else if toward < 0 {
        0
    } else {
        span - len
    }
}

/// An interval of length `len` that starts at `pos`, pushed into the
/// interval of length `span` that starts at zero.
fn pushed(pos: i128, len: i64, span: i64) -> (r: i64)
    requires
        0 <= len <= span,
        -0x4000_0000_0000_0000_0000_0000_0000_0000 <= pos
            <= 0x4000_0000_0000_0000_0000_0000_0000_0000,
    ensures
        r == clamp_axis(pos as int, len as int, 0, span as int),
        0 <= r <= span - len,
{
    if pos < 0 {
        0
    } else if pos + len as i128 >= span as i128 {
        span - len
    } else {
        pos as i64
    }
}


/// Frames in a row of the asteroid sheet.
pub const ASTEROIDS_WIDE: usize = 21;

/// Rows of the asteroid sheet.
pub const ASTEROIDS_HIGH: usize = 7;

/// Frames of the asteroid sheet: its last row lacks four.
pub const ASTEROIDS_TOTAL: usize = ASTEROIDS_WIDE * ASTEROIDS_HIGH - 4;

/// Width and height of an asteroid.
pub const ASTEROID_SIDE: i64 = 96 * UNIT;

/// Frames in a row of the explosion sheet.
pub const EXPLOSIONS_WIDE: usize = 5;

/// Rows of the explosion sheet.
pub const EXPLOSIONS_HIGH: usize = 4;

/// Frames of the explosion sheet.
pub const EXPLOSIONS_TOTAL: usize = 17;

/// Width and height of an explosion.
pub const EXPLOSION_SIDE: i64 = 96 * UNIT;

/// Frames of an explosion shown in a second.
pub const EXPLOSION_FPS: i64 = 16;

/// The time that an explosion lasts: that of showing each of its frames once.
pub const EXPLOSION_DURATION: i64 = 1_062_500;

/// The longest delay between the frames of an asteroid: that of the slowest
/// rate at which one is made to spin.
pub const SLOWEST_DELAY: i64 = 100_000;

/// How the sheet of the asteroid is laid out.
pub open spec fn asteroid_sheet() -> AnimatedSpriteDescr<'static> {
    AnimatedSpriteDescr {
        image_path: "assets/asteroid.png",
        total_frames: ASTEROIDS_TOTAL,
        frames_high: ASTEROIDS_HIGH,
        frames_wide: ASTEROIDS_WIDE,
        frame_w: ASTEROID_SIDE,
        frame_h: ASTEROID_SIDE,
    }
}

/// How the sheet of the explosion is laid out.
pub open spec fn explosion_sheet() -> AnimatedSpriteDescr<'static> {
    AnimatedSpriteDescr {
        image_path: "assets/explosion.png",
        total_frames: EXPLOSIONS_TOTAL,
        frames_high: EXPLOSIONS_HIGH,
        frames_wide: EXPLOSIONS_WIDE,
        frame_w: EXPLOSION_SIDE,
        frame_h: EXPLOSION_SIDE,
    }
}

/// What an asteroid is: its animation, where it is, and how fast it drifts
/// to the left.
pub struct AsteroidView {
    pub sprite: AnimationView,
    pub rect: Rectangle,
    pub vel: int,
}

/// An asteroid.
pub struct Asteroid {
    pub sprite: AnimatedSprite,
    pub rect: Rectangle,
    pub vel: i64,
}

impl View for Asteroid {
    type V = AsteroidView;

    open spec fn view(&self) -> AsteroidView {
        AsteroidView { sprite: self.sprite@, rect: self.rect, vel: self.vel as int }
    }
}

/// The animation with its clock moved on by `dt`.
pub open spec fn animation_after(sprite: AnimationView, dt: int) -> AnimationView {
    AnimationView {
        current_time: clock_after(
            sprite.current_time,
            dt,
            sprite.frame_delay,
            sprite.frames.len() as int,
        ),
        ..sprite
    }
}

/// The asteroid after the time `dt`: it has drifted to the left, and its
/// animation has moved on. It is dropped when it has left the field by the
/// left edge, and when its new place is not representable.
pub open spec fn asteroid_after(asteroid: AsteroidView, dt: int) -> Option<AsteroidView> {
    let x = asteroid.rect.x - dt * asteroid.vel;
    if x <= -ASTEROID_SIDE || x + asteroid.rect.w > i64::MAX {
        None
    } else {
        Some(
            AsteroidView {
                sprite: animation_after(asteroid.sprite, dt),
                rect: Rectangle { x: x as i64, ..asteroid.rect },
                vel: asteroid.vel,
            },
        )
    }
}

/// An asteroid that lies wholly beyond the left edge is dropped by the next
/// update, whatever its speed, unless the update moves it back to the right.
pub proof fn lemma_off_left_is_dropped(asteroid: AsteroidView, dt: int)
    requires
        asteroid.rect.x <= -ASTEROID_SIDE,
        dt * asteroid.vel >= 0,
    ensures
        asteroid_after(asteroid, dt).is_none(),
{
}

/// The number in `0..=span` that a draw stands for; zero where `span` is
/// negative.
pub open spec fn spread(draw: u64, span: int) -> int {
    if span >= 0 {
        (draw as int) % (span + 1)
    } else {
        0
    }
}

impl Asteroid {
    /// The animation is valid, and the rectangle is that of an asteroid.
    pub open spec fn wf(&self) -> bool {
        &&& self.sprite.wf()
        &&& self.rect.wf()
        &&& self.rect.w == ASTEROID_SIDE
        &&& self.rect.h == ASTEROID_SIDE
    }

    /// The factory of asteroids that show the frames of `spritesheet`. There
    /// is none exactly when the sheet is too small for the frames.
    pub fn factory(spritesheet: &Sprite) -> (r: Option<AsteroidFactory>)
        requires
            spritesheet.wf(),
        ensures
            r.is_some() <==> asteroid_sheet().fits(*spritesheet),
            r matches Some(factory) ==> factory.wf() && factory.is_cut_from(*spritesheet),
    {
        let descr = AnimatedSpriteDescr {
            image_path: "assets/asteroid.png",
            total_frames: ASTEROIDS_TOTAL,
            frames_high: ASTEROIDS_HIGH,
            frames_wide: ASTEROIDS_WIDE,
            frame_w: ASTEROID_SIDE,
            frame_h: ASTEROID_SIDE,
        };
        match AnimatedSprite::load_frames(spritesheet, &descr) {
            None => None,
            Some(frames) => {
                assert(ASTEROIDS_WIDE * ASTEROIDS_HIGH == 147);
                Some(AsteroidFactory { sprite: AnimatedSprite::with_fps(frames, 1) })
            },
        }
    }

    /// Moves the asteroid on by the time `dt`. There is no asteroid left when
    /// it has left the field by the left edge, and when its new place is not
    /// representable.
    pub fn update(self, dt: i64) -> (r: Option<Asteroid>)
        requires
            self.wf(),
        ensures
            r matches Some(next) ==> asteroid_after(self@, dt as int) == Some(next@) && next.wf(),
            r.is_none() ==> asteroid_after(self@, dt as int).is_none(),
    {
        let mut next: Asteroid = self;
        assert(-0x8000_0000_0000_0000 * 0x8000_0000_0000_0000 <= dt * next.vel
            <= 0x8000_0000_0000_0000 * 0x8000_0000_0000_0000) by (nonlinear_arith)
            requires
                -0x8000_0000_0000_0000 <= dt <= 0x8000_0000_0000_0000,
                -0x8000_0000_0000_0000 <= next.vel <= 0x8000_0000_0000_0000,
        ;
        let x: i128 = next.rect.x as i128 - dt as i128 * next.vel as i128;
        if x <= -(ASTEROID_SIDE as i128) || x + next.rect.w as i128 > i64::MAX as i128 {
            return None;
        }
        next.rect.x = x as i64;
        next.sprite.add_time(dt);
        Some(next)
    }

    /// Requests that the asteroid be drawn where it is, in the frame that its
    /// animation shows.
    pub fn render(&self, phi: &mut Phi)
        requires
            self.wf(),
        ensures
            final(phi).renderer@ == old(phi).renderer@.push(self@.spec_draw()),
            final(phi).renderer.spec_pixels() == old(phi).renderer.spec_pixels(),
            final(phi).events == old(phi).events,
    {
        phi.renderer.copy_sprite(&self.sprite, self.rect);
    }

    /// The rectangle of the asteroid.
    pub fn rect(&self) -> (r: Rectangle)
        ensures
            r == self.rect,
    {
        self.rect
    }
}

impl AsteroidView {
    /// The request that draws the asteroid.
    pub open spec fn spec_draw(self) -> DrawCall {
        DrawCall::Copy {
            sprite: self.sprite.frames[crate::gfx::frame_at(
                self.sprite.current_time,
                self.sprite.frame_delay,
                self.sprite.frames.len() as int,
            )],
            dest: self.rect,
        }
    }
}

/// The maker of asteroids: it holds the animation that each one starts from.
pub struct AsteroidFactory {
    pub sprite: AnimatedSprite,
}

impl AsteroidFactory {
    /// The animation is that of the frames that the sheet holds, shown at one
    /// frame a second, with its clock at zero.
    pub open spec fn is_cut_from(&self, spritesheet: Sprite) -> bool {
        &&& self.sprite@.frames.len() == ASTEROIDS_TOTAL
        &&& forall|k: int|
            0 <= k < ASTEROIDS_TOTAL ==> asteroid_sheet().frame(spritesheet, k) == Some(
                #[trigger] self.sprite@.frames[k],
            )
        &&& self.sprite@.frame_delay == SECOND
        &&& self.sprite@.current_time == 0
    }

    /// The animation is valid, at every rate at which an asteroid may spin.
    pub open spec fn wf(&self) -> bool {
        &&& self.sprite.wf()
        &&& playable(self.sprite@.frames, SLOWEST_DELAY as int)
    }

    /// The asteroid that three draws stand for, in a window of the given
    /// size: it spins at 10 to 29 frames a second, begins past the right edge
    /// at a height at which it is wholly in the window, and drifts at 50 to
    /// 149 pixels a second.
    pub open spec fn spec_with_draws(
        &self,
        size: (i64, i64),
        fps_draw: u64,
        y_draw: u64,
        vel_draw: u64,
    ) -> AsteroidView {
        AsteroidView {
            sprite: AnimationView {
                frame_delay: SECOND as int / (10 + fps_draw % 20),
                ..self.sprite@
            },
            rect: Rectangle {
                x: size.0,
                y: spread(y_draw, size.1 - ASTEROID_SIDE) as i64,
                w: ASTEROID_SIDE,
                h: ASTEROID_SIDE,
            },
            vel: 50 + vel_draw % 100,
        }
    }

    /// The asteroid that three draws stand for.
    pub fn with_draws(&self, phi: &Phi, fps_draw: u64, y_draw: u64, vel_draw: u64) -> (r: Asteroid)
        requires
            self.wf(),
        ensures
            r@ == self.spec_with_draws(phi.renderer.spec_output_size(), fps_draw, y_draw, vel_draw),
            r.wf(),
    {
        let (w, h) = phi.output_size();
        let mut sprite: AnimatedSprite = self.sprite.clone();
        let fps: i64 = 10 + (fps_draw % 20) as i64;
        proof {
            let delay = SECOND as int / fps as int;
            assert(0 < delay <= SLOWEST_DELAY) by (nonlinear_arith)
                requires
                    delay == 1_000_000int / fps as int,
                    10 <= fps < 30,
                    SLOWEST_DELAY == 100_000,
            ;
            assert(sprite@.frames.len() * delay <= sprite@.frames.len() * SLOWEST_DELAY)
                by (nonlinear_arith)
                requires
                    sprite@.frames.len() >= 1,
                    0 < delay <= SLOWEST_DELAY,
            ;
        }
        sprite.set_fps(fps);
        let span: i64 = h - ASTEROID_SIDE;
        let y: i64 = if span >= 0 {
            (y_draw % (span as u64 + 1)) as i64
        } else {
            0
        };
        Asteroid {
            sprite,
            rect: Rectangle { w: ASTEROID_SIDE, h: ASTEROID_SIDE, x: w, y },
            vel: 50 + (vel_draw % 100) as i64,
        }
    }

    /// A new asteroid, made from three random draws.
    pub fn random(&self, phi: &Phi) -> (r: Asteroid)
        requires
            self.wf(),
        ensures
            exists|fps_draw: u64, y_draw: u64, vel_draw: u64|
                r@ == #[trigger] self.spec_with_draws(
                    phi.renderer.spec_output_size(),
                    fps_draw,
                    y_draw,
                    vel_draw,
                ),
            r.wf(),
    {
        let fps_draw: u64 = random_u64();
        let y_draw: u64 = random_u64();
        let vel_draw: u64 = random_u64();
        self.with_draws(phi, fps_draw, y_draw, vel_draw)
    }
}

/// A random number, from `rand::random`. Nothing is claimed of it but its
/// type: two calls may give any two numbers.
#[verifier::external_body]
fn random_u64() -> (r: u64) {
    rand::random::<u64>()
}

/// What an explosion is: its animation, where it is, and its age.
pub struct ExplosionView {
    pub sprite: AnimationView,
    pub rect: Rectangle,
    pub alive_since: int,
}

/// An explosion: what is left of an asteroid for a moment.
pub struct Explosion {
    pub sprite: AnimatedSprite,
    pub rect: Rectangle,
    pub alive_since: i64,
}

impl View for Explosion {
    type V = ExplosionView;

    open spec fn view(&self) -> ExplosionView {
        ExplosionView {
            sprite: self.sprite@,
            rect: self.rect,
            alive_since: self.alive_since as int,
        }
    }
}

/// The explosion after the time `dt`: it is older, and its animation has
/// moved on. It is dropped when its age exceeds the time that an explosion
/// lasts, and when its new age is not representable.
pub open spec fn explosion_after(explosion: ExplosionView, dt: int) -> Option<ExplosionView> {
    let age = explosion.alive_since + dt;
    if age > EXPLOSION_DURATION || age < i64::MIN {
        None
    } else {
        Some(
            ExplosionView {
                sprite: animation_after(explosion.sprite, dt),
                rect: explosion.rect,
                alive_since: age,
            },
        )
    }
}

impl ExplosionView {
    /// The request that draws the explosion.
    pub open spec fn spec_draw(self) -> DrawCall {
        DrawCall::Copy {
            sprite: self.sprite.frames[crate::gfx::frame_at(
                self.sprite.current_time,
                self.sprite.frame_delay,
                self.sprite.frames.len() as int,
            )],
            dest: self.rect,
        }
    }
}

impl Explosion {
    /// The animation and the rectangle are valid.
    pub open spec fn wf(&self) -> bool {
        &&& self.sprite.wf()
        &&& self.rect.wf()
    }

    /// The factory of explosions that show the frames of `spritesheet`. There
    /// is none exactly when the sheet is too small for the frames.
    pub fn factory(spritesheet: &Sprite) -> (r: Option<ExplosionFactory>)
        requires
            spritesheet.wf(),
        ensures
            r.is_some() <==> explosion_sheet().fits(*spritesheet),
            r matches Some(factory) ==> factory.wf() && factory.is_cut_from(*spritesheet),
    {
        let descr = AnimatedSpriteDescr {
            image_path: "assets/explosion.png",
            total_frames: EXPLOSIONS_TOTAL,
            frames_high: EXPLOSIONS_HIGH,
            frames_wide: EXPLOSIONS_WIDE,
            frame_w: EXPLOSION_SIDE,
            frame_h: EXPLOSION_SIDE,
        };
        match AnimatedSprite::load_frames(spritesheet, &descr) {
            None => None,
            Some(frames) => {
                assert(EXPLOSIONS_WIDE * EXPLOSIONS_HIGH == 20);
                Some(ExplosionFactory { sprite: AnimatedSprite::with_fps(frames, EXPLOSION_FPS) })
            },
        }
    }

    /// Moves the explosion on by the time `dt`. There is no explosion left
    /// when its age exceeds the time that an explosion lasts, and when its
    /// new age is not representable.
    pub fn update(self, dt: i64) -> (r: Option<Explosion>)
        requires
            self.wf(),
        ensures
            r matches Some(next) ==> explosion_after(self@, dt as int) == Some(next@) && next.wf(),
            r.is_none() ==> explosion_after(self@, dt as int).is_none(),
    {
        let mut next: Explosion = self;
        let age: i128 = next.alive_since as i128 + dt as i128;
        if age > EXPLOSION_DURATION as i128 || age < i64::MIN as i128 {
            return None;
        }
        next.alive_since = age as i64;
        next.sprite.add_time(dt);
        Some(next)
    }

    /// Requests that the explosion be drawn where it is, in the frame that
    /// its animation shows.
    pub fn render(&self, phi: &mut Phi)
        requires
            self.wf(),
        ensures
            final(phi).renderer@ == old(phi).renderer@.push(self@.spec_draw()),
            final(phi).renderer.spec_pixels() == old(phi).renderer.spec_pixels(),
            final(phi).events == old(phi).events,
    {
        phi.renderer.copy_sprite(&self.sprite, self.rect);
    }
}

/// The new explosion with the given animation whose center is `center`.
pub open spec fn explosion_at(template: AnimationView, center: (int, int)) -> ExplosionView {
    ExplosionView {
        sprite: template,
        rect: Rectangle {
            x: (center.0 - EXPLOSION_SIDE / 2) as i64,
            y: (center.1 - EXPLOSION_SIDE / 2) as i64,
            w: EXPLOSION_SIDE,
            h: EXPLOSION_SIDE,
        },
        alive_since: 0,
    }
}

/// The maker of explosions: it holds the animation that each one starts from.
pub struct ExplosionFactory {
    pub sprite: AnimatedSprite,
}

impl ExplosionFactory {
    /// The animation is that of the frames that the sheet holds, shown at
    /// the rate of an explosion, with its clock at zero.
    pub open spec fn is_cut_from(&self, spritesheet: Sprite) -> bool {
        &&& self.sprite@.frames.len() == EXPLOSIONS_TOTAL
        &&& forall|k: int|
            0 <= k < EXPLOSIONS_TOTAL ==> explosion_sheet().frame(spritesheet, k) == Some(
                #[trigger] self.sprite@.frames[k],
            )
        &&& self.sprite@.frame_delay == SECOND / EXPLOSION_FPS
        &&& self.sprite@.current_time == 0
    }

    /// The animation is valid.
    pub open spec fn wf(&self) -> bool {
        self.sprite.wf()
    }

    /// The new explosion whose center is `center`.
    pub open spec fn spec_at_center(&self, center: (i64, i64)) -> ExplosionView {
        explosion_at(self.sprite@, (center.0 as int, center.1 as int))
    }

    /// A new explosion whose center is `center`.
    pub fn at_center(&self, center: (i64, i64)) -> (r: Explosion)
        requires
            self.wf(),
            i64::MIN <= center.0 - EXPLOSION_SIDE / 2,
            center.0 + EXPLOSION_SIDE / 2 <= i64::MAX,
            i64::MIN <= center.1 - EXPLOSION_SIDE / 2,
            center.1 + EXPLOSION_SIDE / 2 <= i64::MAX,
        ensures
            r@ == self.spec_at_center(center),
            r.wf(),
    {
        let sprite: AnimatedSprite = self.sprite.clone();
        Explosion {
            sprite,
            rect: Rectangle::with_size(EXPLOSION_SIDE, EXPLOSION_SIDE).center_at(center),
            alive_since: 0,
        }
    }
}


/// What each of the asteroids is.
pub open spec fn asteroid_views(asteroids: Seq<Asteroid>) -> Seq<AsteroidView> {
    Seq::new(asteroids.len(), |i: int| asteroids[i]@)
}

/// What each of the explosions is.
pub open spec fn explosion_views(explosions: Seq<Explosion>) -> Seq<ExplosionView> {
    Seq::new(explosions.len(), |i: int| explosions[i]@)
}

/// The bullets after the time `dt`, in their old order and without those
/// that were dropped.
pub open spec fn bullets_after(bullets: Seq<Bullet>, wave: Seq<i64>, size: (i64, i64), dt: int) -> Seq<
    Bullet,
>
    decreases bullets.len(),
{
    if bullets.len() == 0 {
        Seq::empty()
    } else {
        let rest = bullets_after(bullets.drop_last(), wave, size, dt);
        match bullets.last().spec_update(wave, size, dt) {
            Some(next) => rest.push(next),
            None => rest,
        }
    }
}

/// The asteroids after the time `dt`, in their old order and without those
/// that were dropped.
pub open spec fn asteroids_after(asteroids: Seq<AsteroidView>, dt: int) -> Seq<AsteroidView>
    decreases asteroids.len(),
{
    if asteroids.len() == 0 {
        Seq::empty()
    } else {
        let rest = asteroids_after(asteroids.drop_last(), dt);
        match asteroid_after(asteroids.last(), dt) {
            Some(next) => rest.push(next),
            None => rest,
        }
    }
}

/// The explosions after the time `dt`, in their old order and without those
/// that were dropped.
pub open spec fn explosions_after(explosions: Seq<ExplosionView>, dt: int) -> Seq<ExplosionView>
    decreases explosions.len(),
{
    if explosions.len() == 0 {
        Seq::empty()
    } else {
        let rest = explosions_after(explosions.drop_last(), dt);
        match explosion_after(explosions.last(), dt) {
            Some(next) => rest.push(next),
            None => rest,
        }
    }
}

/// Every one of the bullets is in a valid state.
pub open spec fn bullets_wf(bullets: Seq<Bullet>, wave: Seq<i64>) -> bool {
    forall|i: int| 0 <= i < bullets.len() ==> (#[trigger] bullets[i]).wf(wave)
}

/// Every one of the asteroids is in a valid state.
pub open spec fn asteroids_wf(asteroids: Seq<Asteroid>) -> bool {
    forall|i: int| 0 <= i < asteroids.len() ==> (#[trigger] asteroids[i]).wf()
}

/// Every one of the explosions is in a valid state.
pub open spec fn explosions_wf(explosions: Seq<Explosion>) -> bool {
    forall|i: int| 0 <= i < explosions.len() ==> (#[trigger] explosions[i]).wf()
}

/// Moves every bullet on by the time `dt` and drops those that are no more.
pub fn move_bullets(bullets: &Vec<Bullet>, phi: &Phi, dt: i64, wave: &SineTable) -> (r: Vec<Bullet>)
    requires
        wave.wf(),
    ensures
        r@ == bullets_after(bullets@, wave@, phi.renderer.spec_output_size(), dt as int),
        bullets_wf(r@, wave@),
{
    let mut moved: Vec<Bullet> = Vec::new();
    let mut i: usize = 0;
    assert(bullets@.take(0) =~= Seq::empty());
    while i < bullets.len()
        invariant
            wave.wf(),
            i <= bullets@.len(),
            moved@ == bullets_after(
                bullets@.take(i as int),
                wave@,
                phi.renderer.spec_output_size(),
                dt as int,
            ),
            bullets_wf(moved@, wave@),
        decreases bullets@.len() - i,
    {
        assert(bullets@.take(i + 1).drop_last() =~= bullets@.take(i as int));
        if let Some(next) = bullets[i].update(phi, dt, wave) {
            moved.push(next);
        }
        i += 1;
    }
    assert(bullets@.take(bullets@.len() as int) =~= bullets@);
    moved
}

/// Moves every asteroid on by the time `dt` and drops those that are no more.
pub fn move_asteroids(asteroids: Vec<Asteroid>, dt: i64) -> (r: Vec<Asteroid>)
    requires
        asteroids_wf(asteroids@),
    ensures
        asteroid_views(r@) == asteroids_after(asteroid_views(asteroids@), dt as int),
        asteroids_wf(r@),
{
    let mut moved: Vec<Asteroid> = Vec::new();
    let ghost before = asteroids@;
    let ghost views = asteroid_views(before);
    assert(views.take(0) =~= Seq::empty());
    assert(asteroid_views(moved@) =~= Seq::empty());
    for asteroid in it: asteroids.into_iter()
        invariant
            it.seq() == before,
            views == asteroid_views(before),
            asteroids_wf(before),
            asteroid_views(moved@) == asteroids_after(views.take(it.index() as int), dt as int),
            asteroids_wf(moved@),
    {
        let ghost i = it.index() as int;
        let ghost old_moved = moved@;
        assert(views.take(i + 1).drop_last() =~= views.take(i));
        assert(views.take(i + 1).last() == asteroid@);
        assert(before[i].wf());
        if let Some(next) = asteroid.update(dt) {
            moved.push(next);
            assert(asteroid_views(moved@) =~= asteroid_views(old_moved).push(next@));
        }
    }
    assert(views.take(before.len() as int) =~= views);
    moved
}

/// Moves every explosion on by the time `dt` and drops those that are no
/// more.
pub fn move_explosions(explosions: Vec<Explosion>, dt: i64) -> (r: Vec<Explosion>)
    requires
        explosions_wf(explosions@),
    ensures
        explosion_views(r@) == explosions_after(explosion_views(explosions@), dt as int),
        explosions_wf(r@),
{
    let mut moved: Vec<Explosion> = Vec::new();
    let ghost before = explosions@;
    let ghost views = explosion_views(before);
    assert(views.take(0) =~= Seq::empty());
    assert(explosion_views(moved@) =~= Seq::empty());
    for explosion in it: explosions.into_iter()
        invariant
            it.seq() == before,
            views == explosion_views(before),
            explosions_wf(before),
            explosion_views(moved@) == explosions_after(views.take(it.index() as int), dt as int),
            explosions_wf(moved@),
    {
        let ghost i = it.index() as int;
        let ghost old_moved = moved@;
        assert(views.take(i + 1).drop_last() =~= views.take(i));
        assert(views.take(i + 1).last() == explosion@);
        assert(before[i].wf());
        if let Some(next) = explosion.update(dt) {
            moved.push(next);
            assert(explosion_views(moved@) =~= explosion_views(old_moved).push(next@));
        }
    }
    assert(views.take(before.len() as int) =~= views);
    moved
}


/// The rectangle of each asteroid.
pub open spec fn asteroid_rects(asteroids: Seq<AsteroidView>) -> Seq<Rectangle> {
    Seq::new(asteroids.len(), |i: int| asteroids[i].rect)
}

/// The rectangle of each bullet.
pub open spec fn bullet_rects(bullets: Seq<Bullet>, wave: Seq<i64>) -> Seq<Rectangle> {
    Seq::new(bullets.len(), |i: int| bullets[i].spec_rect(wave))
}

/// Those of `items` whose flag in `alive` is set, in their old order.
pub open spec fn kept<A>(items: Seq<A>, alive: Seq<bool>) -> Seq<A>
    decreases items.len(),
{
    if items.len() == 0 {
        Seq::empty()
    } else {
        let rest = kept(items.drop_last(), alive);
        if alive[items.len() - 1] {
            rest.push(items.last())
        } else {
            rest
        }
    }
}

/// One new explosion for each of the rectangles whose flag in `alive` is
/// not set, centered on it, in the order of the rectangles.
pub open spec fn blasts(rects: Seq<Rectangle>, alive: Seq<bool>, template: AnimationView) -> Seq<
    ExplosionView,
>
    decreases rects.len(),
{
    if rects.len() == 0 {
        Seq::empty()
    } else {
        let rest = blasts(rects.drop_last(), alive, template);
        if alive[rects.len() - 1] {
            rest
        } else {
            rest.push(explosion_at(template, rects.last().spec_center()))
        }
    }
}

/// What a collision pass leaves: the asteroids and bullets that survive, the
/// explosions with those of the asteroids that do not, and whether the player
/// was hit.
pub struct Struck {
    pub asteroids: Vec<Asteroid>,
    pub bullets: Vec<Bullet>,
    pub explosions: Vec<Explosion>,
    pub player_hit: bool,
}

/// Runs the collision pass on the asteroids, the bullets and the player's
/// rectangle, and applies its outcome: the asteroids and bullets that were
/// destroyed are dropped, and each such asteroid leaves an explosion
/// centered on it, after the explosions there were.
pub fn strike(
    asteroids: Vec<Asteroid>,
    bullets: Vec<Bullet>,
    explosions: Vec<Explosion>,
    player: Rectangle,
    wave: &SineTable,
    factory: &ExplosionFactory,
) -> (r: Struck)
    requires
        asteroids_wf(asteroids@),
        bullets_wf(bullets@, wave@),
        explosions_wf(explosions@),
        wave.wf(),
        factory.wf(),
    ensures
        asteroid_views(r.asteroids@) == kept(
            asteroid_views(asteroids@),
            asteroids_alive(
                asteroid_rects(asteroid_views(asteroids@)),
                bullet_rects(bullets@, wave@),
                player,
            ),
        ),
        r.bullets@ == kept(
            bullets@,
            bullets_alive(asteroid_rects(asteroid_views(asteroids@)), bullet_rects(bullets@, wave@)),
        ),
        explosion_views(r.explosions@) == explosion_views(explosions@) + blasts(
            asteroid_rects(asteroid_views(asteroids@)),
            asteroids_alive(
                asteroid_rects(asteroid_views(asteroids@)),
                bullet_rects(bullets@, wave@),
                player,
            ),
            factory.sprite@,
        ),
        r.player_hit == player_is_hit(asteroid_rects(asteroid_views(asteroids@)), player),
        asteroids_wf(r.asteroids@),
        bullets_wf(r.bullets@, wave@),
        explosions_wf(r.explosions@),
{
    let ghost views = asteroid_views(asteroids@);
    let ghost rects = asteroid_rects(views);
    let ghost shots = bullet_rects(bullets@, wave@);
    let mut asteroid_places: Vec<Rectangle> = Vec::new();
    let mut i: usize = 0;
    while i < asteroids.len()
        invariant
            i <= asteroids@.len(),
            rects == asteroid_rects(asteroid_views(asteroids@)),
            asteroid_places@.len() == i,
            forall|k: int| 0 <= k < i ==> #[trigger] asteroid_places@[k] == rects[k],
        decreases asteroids@.len() - i,
    {
        asteroid_places.push(asteroids[i].rect());
        i += 1;
    }
    assert(asteroid_places@ =~= rects);
    let mut bullet_places: Vec<Rectangle> = Vec::new();
    let mut j: usize = 0;
    while j < bullets.len()
        invariant
            wave.wf(),
            bullets_wf(bullets@, wave@),
            j <= bullets@.len(),
            shots == bullet_rects(bullets@, wave@),
            bullet_places@.len() == j,
            forall|k: int| 0 <= k < j ==> #[trigger] bullet_places@[k] == shots[k],
        decreases bullets@.len() - j,
    {
        bullet_places.push(bullets[j].rect(wave));
        j += 1;
    }
    assert(bullet_places@ =~= shots);
    let outcome: Collisions = collide(&asteroid_places, &bullet_places, player);
    let ghost alive = asteroids_alive(rects, shots, player);

    let mut survivors: Vec<Asteroid> = Vec::new();
    let mut explosions: Vec<Explosion> = explosions;
    let ghost before = asteroids@;
    let ghost old_explosions = explosion_views(explosions@);
    let count: usize = asteroids.len();
    let mut i: usize = 0;
    assert(views.take(0) =~= Seq::empty());
    assert(rects.take(0) =~= Seq::empty());
    assert(asteroid_views(survivors@) =~= Seq::empty());
    assert(explosion_views(explosions@) =~= old_explosions + Seq::empty());
    for asteroid in it: asteroids.into_iter()
        invariant
            it.seq() == before,
            i == it.index(),
            before.len() == count,
            views == asteroid_views(before),
            rects == asteroid_rects(views),
            asteroids_wf(before),
            factory.wf(),
            outcome.asteroids_alive@ == alive,
            alive.len() == before.len(),
            asteroid_views(survivors@) == kept(views.take(i as int), alive),
            explosion_views(explosions@) == old_explosions + blasts(
                rects.take(i as int),
                alive,
                factory.sprite@,
            ),
            asteroids_wf(survivors@),
            explosions_wf(explosions@),
    {
        let ghost old_survivors = survivors@;
        let ghost old_blown = explosions@;
        assert(views.take(i + 1).drop_last() =~= views.take(i as int));
        assert(rects.take(i + 1).drop_last() =~= rects.take(i as int));
        assert(views.take(i + 1).last() == asteroid@);
        assert(rects.take(i + 1).last() == asteroid.rect);
        assert(before[i as int].wf());
        if outcome.asteroids_alive[i] {
            survivors.push(asteroid);
            assert(asteroid_views(survivors@) =~= asteroid_views(old_survivors).push(asteroid@));
        } else {
            let center: (i64, i64) = asteroid.rect().center();
            let blast: Explosion = factory.at_center(center);
            explosions.push(blast);
            assert(explosion_views(explosions@) =~= explosion_views(old_blown).push(blast@));
            assert(explosion_views(explosions@) =~= old_explosions + blasts(
                rects.take(i + 1),
                alive,
                factory.sprite@,
            ));
        }
        i += 1;
    }
    assert(views.take(before.len() as int) =~= views);
    assert(rects.take(before.len() as int) =~= rects);

    let ghost flags = bullets_alive(rects, shots);
    let mut left: Vec<Bullet> = Vec::new();
    let mut j: usize = 0;
    assert(bullets@.take(0) =~= Seq::empty());
    while j < bullets.len()
        invariant
            j <= bullets@.len(),
            outcome.bullets_alive@ == flags,
            flags.len() == bullets@.len(),
            bullets_wf(bullets@, wave@),
            left@ == kept(bullets@.take(j as int), flags),
            bullets_wf(left@, wave@),
        decreases bullets@.len() - j,
    {
        assert(bullets@.take(j + 1).drop_last() =~= bullets@.take(j as int));
        let bullet = MaybeAlive { alive: outcome.bullets_alive[j], value: bullets[j] };
        if let Some(survivor) = bullet.as_option() {
            left.push(survivor);
        }
        j += 1;
    }
    assert(bullets@.take(bullets@.len() as int) =~= bullets@);
    Struck { asteroids: survivors, bullets: left, explosions, player_hit: outcome.player_hit }
}


/// The request that draws each bullet.
pub open spec fn bullet_draws(bullets: Seq<Bullet>, wave: Seq<i64>) -> Seq<DrawCall> {
    Seq::new(
        bullets.len(),
        |i: int| DrawCall::Fill { red: 230, green: 230, blue: 30, rect: bullets[i].spec_rect(wave) },
    )
}

/// The request that draws each asteroid.
pub open spec fn asteroid_draws(asteroids: Seq<AsteroidView>) -> Seq<DrawCall> {
    Seq::new(asteroids.len(), |i: int| asteroids[i].spec_draw())
}

/// The request that draws each explosion.
pub open spec fn explosion_draws(explosions: Seq<ExplosionView>) -> Seq<DrawCall> {
    Seq::new(explosions.len(), |i: int| explosions[i].spec_draw())
}

/// The four random draws that a tick uses: one that decides whether an
/// asteroid comes in, and three that say which.
#[derive(Clone, Copy, Debug, PartialEq, Eq, Structural)]
pub struct Draws {
    pub spawn: u64,
    pub fps: u64,
    pub y: u64,
    pub vel: u64,
}

/// The game: the player, what flies about, and what makes more of it.
pub struct GameView {
    pub player: Player,
    pub bullets: Vec<Bullet>,
    pub asteroids: Vec<Asteroid>,
    pub asteroid_factory: AsteroidFactory,
    pub explosions: Vec<Explosion>,
    pub explosion_factory: ExplosionFactory,
    pub wave: SineTable,
}

impl GameView {
    /// Every part is valid, and the player has a life left.
    pub open spec fn wf(&self) -> bool {
        &&& self.player.wf()
        &&& self.player.lives >= 1
        &&& self.wave.wf()
        &&& bullets_wf(self.bullets@, self.wave@)
        &&& asteroids_wf(self.asteroids@)
        &&& explosions_wf(self.explosions@)
        &&& self.asteroid_factory.wf()
        &&& self.explosion_factory.wf()
    }

    /// The rectangles of the asteroids that are left after the time `dt`.
    pub open spec fn spec_asteroid_rects(&self, dt: int) -> Seq<Rectangle> {
        asteroid_rects(asteroids_after(asteroid_views(self.asteroids@), dt))
    }

    /// The rectangles of the bullets that are left after the time `dt`.
    pub open spec fn spec_bullet_rects(&self, size: (i64, i64), dt: int) -> Seq<Rectangle> {
        bullet_rects(bullets_after(self.bullets@, self.wave@, size, dt), self.wave@)
    }

    /// Whether the player is hit in a tick.
    pub open spec fn spec_player_hit(&self, events: Events, size: (i64, i64), dt: int) -> bool {
        player_is_hit(self.spec_asteroid_rects(dt), self.player.spec_moved_rect(events, size, dt))
    }

    /// The lives that a tick leaves the player: one less if the player is
    /// hit, by however many asteroids.
    pub open spec fn spec_lives_left(&self, events: Events, size: (i64, i64), dt: int) -> int {
        if self.spec_player_hit(events, size, dt) {
            self.player.lives - 1
        } else {
            self.player.lives as int
        }
    }

    /// What a tick asks of the loop: to end the program if the window was
    /// closed; else to go to the menu if escape went down or the player has
    /// no life left; else to go on.
    pub open spec fn spec_action(&self, events: Events, size: (i64, i64), dt: int) -> ViewAction {
        if events.now.quit {
            ViewAction::Quit
        } else if pressed(events.now.key_escape) {
            ViewAction::ChangeView(ViewId::MainMenu)
        } else if self.spec_lives_left(events, size, dt) == 0 {
            ViewAction::ChangeView(ViewId::MainMenu)
        } else {
            ViewAction::Continue
        }
    }

    /// For each asteroid that is left after the time `dt`, whether it
    /// survives the collision pass of the tick.
    pub open spec fn spec_asteroids_alive(&self, events: Events, size: (i64, i64), dt: int) -> Seq<
        bool,
    > {
        asteroids_alive(
            self.spec_asteroid_rects(dt),
            self.spec_bullet_rects(size, dt),
            self.player.spec_moved_rect(events, size, dt),
        )
    }

    /// The asteroids that a tick leaves, before a new one comes in.
    pub open spec fn spec_asteroids_struck(&self, events: Events, size: (i64, i64), dt: int) -> Seq<
        AsteroidView,
    > {
        kept(
            asteroids_after(asteroid_views(self.asteroids@), dt),
            self.spec_asteroids_alive(events, size, dt),
        )
    }

    /// The bullets that a tick leaves, before a shot is fired.
    pub open spec fn spec_bullets_struck(&self, size: (i64, i64), dt: int) -> Seq<Bullet> {
        kept(
            bullets_after(self.bullets@, self.wave@, size, dt),
            bullets_alive(self.spec_asteroid_rects(dt), self.spec_bullet_rects(size, dt)),
        )
    }

    /// The explosions that a tick leaves: those whose age does not exceed
    /// their time, and a new one for each asteroid that was destroyed.
    pub open spec fn spec_explosions_struck(&self, events: Events, size: (i64, i64), dt: int) -> Seq<
        ExplosionView,
    > {
        explosions_after(explosion_views(self.explosions@), dt) + blasts(
            self.spec_asteroid_rects(dt),
            self.spec_asteroids_alive(events, size, dt),
            self.explosion_factory.sprite@,
        )
    }

    /// The requests that draw the game as it is, from back to front: the
    /// cleared target, the two far backgrounds, the player, the bullets, the
    /// asteroids, the explosions, and the near background.
    pub open spec fn spec_frame(&self, elapsed: i64) -> Seq<DrawCall> {
        seq![
            DrawCall::Clear,
            DrawCall::Background { layer: Layer::Back, elapsed },
            DrawCall::Background { layer: Layer::Middle, elapsed },
            DrawCall::Copy {
                sprite: self.player.sprites@[self.player.current.spec_index()],
                dest: self.player.rect,
            },
        ] + bullet_draws(self.bullets@, self.wave@) + asteroid_draws(asteroid_views(self.asteroids@))
            + explosion_draws(explosion_views(self.explosions@)) + seq![
            DrawCall::Background { layer: Layer::Front, elapsed },
        ]
    }

    /// A tick takes at most one life, and takes one exactly if an asteroid
    /// overlaps the player after both have moved, whatever else that asteroid
    /// or any other overlaps.
    pub proof fn lemma_one_life_per_tick(&self, events: Events, size: (i64, i64), dt: int)
        ensures
            self.player.lives - 1 <= self.spec_lives_left(events, size, dt) <= self.player.lives,
            self.spec_player_hit(events, size, dt) <==> self.spec_lives_left(events, size, dt)
                == self.player.lives - 1,
            self.spec_player_hit(events, size, dt) <==> exists|i: int|
                0 <= i < self.spec_asteroid_rects(dt).len() && (
                #[trigger] self.spec_asteroid_rects(dt)[i]).spec_overlaps(
                    self.player.spec_moved_rect(events, size, dt),
                ),
    {
    }

    /// A tick in which the window stays open and escape stays up leads to the
    /// menu exactly if it takes the player's last life: a hit with more than
    /// one life left takes one life and lets the game go on, a hit with one
    /// life left ends the game, and a tick without a hit lets it go on with
    /// the lives it had.
    pub proof fn lemma_menu_exactly_at_last_life(
        &self,
        events: Events,
        size: (i64, i64),
        dt: int,
    )
        requires
            !events.now.quit,
            !pressed(events.now.key_escape),
            self.player.lives >= 1,
        ensures
            self.spec_action(events, size, dt) == ViewAction::ChangeView(ViewId::MainMenu)
                <==> self.spec_lives_left(events, size, dt) == 0,
            self.spec_action(events, size, dt) == ViewAction::ChangeView(ViewId::MainMenu)
                <==> self.player.lives == 1 && self.spec_player_hit(events, size, dt),
            self.spec_action(events, size, dt) != ViewAction::ChangeView(ViewId::MainMenu)
                ==> self.spec_action(events, size, dt) == ViewAction::Continue,
            self.spec_player_hit(events, size, dt) && self.player.lives >= 2
                ==> self.spec_action(events, size, dt) == ViewAction::Continue
                && self.spec_lives_left(events, size, dt) == self.player.lives - 1,
    {
    }

    /// A new game: the player with all lives, nothing flying about, and the
    /// two factories. There is none exactly when one of the sheets is too
    /// small for its frames.
    pub fn new(
        phi: &Phi,
        player_sprites: &Sprite,
        asteroid_sprites: &Sprite,
        explosion_sprites: &Sprite,
        wave: SineTable,
    ) -> (r: Option<GameView>)
        requires
            player_sprites.wf(),
            asteroid_sprites.wf(),
            explosion_sprites.wf(),
            wave.wf(),
        ensures
            r.is_some() <==> player_sheet().fits(*player_sprites) && asteroid_sheet().fits(
                *asteroid_sprites,
            ) && explosion_sheet().fits(*explosion_sprites),
            r matches Some(game) ==> {
                &&& game.wf()
                &&& game.player.is_new(phi.renderer.spec_output_size(), *player_sprites)
                &&& game.asteroid_factory.is_cut_from(*asteroid_sprites)
                &&& game.explosion_factory.is_cut_from(*explosion_sprites)
                &&& game.bullets@.len() == 0
                &&& game.asteroids@.len() == 0
                &&& game.explosions@.len() == 0
                &&& game.wave == wave
            },
    {
        let player = match Player::new(phi, player_sprites) {
            Some(player) => player,
            None => { return None; },
        };
        let asteroid_factory = match Asteroid::factory(asteroid_sprites) {
            Some(factory) => factory,
            None => { return None; },
        };
        let explosion_factory = match Explosion::factory(explosion_sprites) {
            Some(factory) => factory,
            None => { return None; },
        };
        Some(
            GameView {
                player,
                bullets: Vec::new(),
                asteroids: Vec::new(),
                asteroid_factory,
                explosions: Vec::new(),
                explosion_factory,
                wave,
            },
        )
    }

    /// Requests the frame that shows the game as it is.
    pub fn draw(&self, phi: &mut Phi, elapsed: i64)
        requires
            self.player.wf(),
            self.wave.wf(),
            bullets_wf(self.bullets@, self.wave@),
            asteroids_wf(self.asteroids@),
            explosions_wf(self.explosions@),
        ensures
            final(phi).renderer@ == old(phi).renderer@ + self.spec_frame(elapsed),
            final(phi).renderer.spec_pixels() == old(phi).renderer.spec_pixels(),
            final(phi).events == old(phi).events,
    {
        let ghost base = phi.renderer@;
        phi.renderer.push(DrawCall::Clear);
        phi.renderer.push(DrawCall::Background { layer: Layer::Back, elapsed });
        phi.renderer.push(DrawCall::Background { layer: Layer::Middle, elapsed });
        self.player.render(phi);
        let ghost head = phi.renderer@;
        let ghost shots = bullet_draws(self.bullets@, self.wave@);
        let mut i: usize = 0;
        assert(phi.renderer@ =~= head + shots.take(0));
        while i < self.bullets.len()
            invariant
                i <= self.bullets@.len(),
                self.wave.wf(),
                bullets_wf(self.bullets@, self.wave@),
                shots == bullet_draws(self.bullets@, self.wave@),
                phi.renderer@ == head + shots.take(i as int),
                phi.renderer.spec_pixels() == old(phi).renderer.spec_pixels(),
                phi.events == old(phi).events,
            decreases self.bullets@.len() - i,
        {
            self.bullets[i].render(phi, &self.wave);
            assert(phi.renderer@ =~= head + shots.take(i + 1));
            i += 1;
        }
        assert(shots.take(shots.len() as int) =~= shots);
        let ghost mid = phi.renderer@;
        let ghost rocks = asteroid_draws(asteroid_views(self.asteroids@));
        let mut i: usize = 0;
        assert(phi.renderer@ =~= mid + rocks.take(0));
        while i < self.asteroids.len()
            invariant
                i <= self.asteroids@.len(),
                asteroids_wf(self.asteroids@),
                rocks == asteroid_draws(asteroid_views(self.asteroids@)),
                phi.renderer@ == mid + rocks.take(i as int),
                phi.renderer.spec_pixels() == old(phi).renderer.spec_pixels(),
                phi.events == old(phi).events,
            decreases self.asteroids@.len() - i,
        {
            self.asteroids[i].render(phi);
            assert(phi.renderer@ =~= mid + rocks.take(i + 1));
            i += 1;
        }
        assert(rocks.take(rocks.len() as int) =~= rocks);
        let ghost late = phi.renderer@;
        let ghost blown = explosion_draws(explosion_views(self.explosions@));
        let mut i: usize = 0;
        assert(phi.renderer@ =~= late + blown.take(0));
        while i < self.explosions.len()
            invariant
                i <= self.explosions@.len(),
                explosions_wf(self.explosions@),
                blown == explosion_draws(explosion_views(self.explosions@)),
                phi.renderer@ == late + blown.take(i as int),
                phi.renderer.spec_pixels() == old(phi).renderer.spec_pixels(),
                phi.events == old(phi).events,
            decreases self.explosions@.len() - i,
        {
            self.explosions[i].render(phi);
            assert(phi.renderer@ =~= late + blown.take(i + 1));
            i += 1;
        }
        assert(blown.take(blown.len() as int) =~= blown);
        phi.renderer.push(DrawCall::Background { layer: Layer::Front, elapsed });
        assert(phi.renderer@ =~= base + self.spec_frame(elapsed));
    }
}


impl GameView {
    /// The bullets of a shot, if space went down in a tick that goes on.
    pub open spec fn spec_shot(&self, events: Events, action: ViewAction) -> Seq<Bullet> {
        if action == ViewAction::Continue && pressed(events.now.key_space) {
            self.player.spec_spawn_bullets()
        } else {
            Seq::empty()
        }
    }

    /// The asteroid that comes in, if the draw for it is a multiple of ten in
    /// a tick that goes on.
    pub open spec fn spec_arrival(&self, size: (i64, i64), draws: Draws, action: ViewAction) -> Seq<
        AsteroidView,
    > {
        if action == ViewAction::Continue && draws.spawn % 10 == 0 {
            seq![self.asteroid_factory.spec_with_draws(size, draws.fps, draws.y, draws.vel)]
        } else {
            Seq::empty()
        }
    }

    /// The two games are alike but for the order in which each holds its
    /// asteroids, its bullets and its explosions.
    pub open spec fn spec_alike_but_for_order(&self, other: &GameView) -> bool {
        &&& self.player.rect == other.player.rect
        &&& self.player.cannon == other.player.cannon
        &&& self.player.lives == other.player.lives
        &&& self.wave@ == other.wave@
        &&& self.asteroid_factory.sprite@ == other.asteroid_factory.sprite@
        &&& self.explosion_factory.sprite@ == other.explosion_factory.sprite@
        &&& asteroid_views(self.asteroids@).to_multiset() == asteroid_views(
            other.asteroids@,
        ).to_multiset()
        &&& self.bullets@.to_multiset() == other.bullets@.to_multiset()
        &&& explosion_views(self.explosions@).to_multiset() == explosion_views(
            other.explosions@,
        ).to_multiset()
    }

    /// What a tick that advances the game asks for: a valid game, and a
    /// window in whose movable part the ship fits. A tick that ends the
    /// program or leaves for the menu on escape asks for nothing.
    pub open spec fn spec_can_advance(&self, size: (i64, i64)) -> bool {
        &&& self.wf()
        &&& PLAYER_W <= movable_region(size).w
        &&& PLAYER_H <= movable_region(size).h
    }

    /// `next` is what a tick of length `elapsed` with the given input and
    /// draws makes of `self`, where the tick neither ends the program nor
    /// leaves for the menu on escape: the player has moved and lost a life if
    /// hit; bullets, asteroids and explosions have moved on, and those that
    /// expired or were destroyed are gone; each destroyed asteroid has left
    /// an explosion; and, if the game goes on, a shot was fired if space
    /// went down, and an asteroid came in if the draw said so.
    pub open spec fn spec_ticked(
        &self,
        next: &GameView,
        events: Events,
        size: (i64, i64),
        elapsed: int,
        draws: Draws,
    ) -> bool {
        let action = self.spec_action(events, size, elapsed);
        &&& next.player.cannon == cannon_after(self.player.cannon, events)
        &&& next.player.rect == self.player.spec_moved_rect(events, size, elapsed)
        &&& next.player.current == Player::spec_moved_frame(events, elapsed)
        &&& next.player.sprites == self.player.sprites
        &&& next.player.lives == self.spec_lives_left(events, size, elapsed)
        &&& next.wave == self.wave
        &&& next.asteroid_factory == self.asteroid_factory
        &&& next.explosion_factory == self.explosion_factory
        &&& next.bullets@ == self.spec_bullets_struck(size, elapsed) + next.spec_shot(events, action)
        &&& asteroid_views(next.asteroids@) == self.spec_asteroids_struck(events, size, elapsed)
            + self.spec_arrival(size, draws, action)
        &&& explosion_views(next.explosions@) == self.spec_explosions_struck(events, size, elapsed)
    }

    /// One tick of the game, with the random draws given. If the window was
    /// closed the program is to end, and if escape went down the menu is to
    /// follow; in both cases nothing else happens. Otherwise the game is
    /// advanced as `spec_ticked` says; the menu is to follow if that took the
    /// player's last life, and else the frame is requested and the game goes
    /// on.
    pub fn render_with(&mut self, phi: &mut Phi, elapsed: i64, draws: Draws) -> (r: ViewAction)
        requires
            old(phi).events.now.quit || pressed(old(phi).events.now.key_escape) || old(
                self,
            ).spec_can_advance(old(phi).renderer.spec_output_size()),
        ensures
            r == old(self).spec_action(
                old(phi).events,
                old(phi).renderer.spec_output_size(),
                elapsed as int,
            ),
            final(phi).events == old(phi).events,
            final(phi).renderer.spec_pixels() == old(phi).renderer.spec_pixels(),
            old(phi).events.now.quit || pressed(old(phi).events.now.key_escape) ==> *final(self)
                == *old(self),
            !old(phi).events.now.quit && !pressed(old(phi).events.now.key_escape) ==> old(
                self,
            ).spec_ticked(
                final(self),
                old(phi).events,
                old(phi).renderer.spec_output_size(),
                elapsed as int,
                draws,
            ),
            r == ViewAction::Continue ==> final(self).wf() && final(phi).renderer@ == old(
                phi,
            ).renderer@ + final(self).spec_frame(elapsed),
            r != ViewAction::Continue ==> final(phi).renderer@ == old(phi).renderer@,
    {
        if phi.events.now.quit {
            return ViewAction::Quit;
        }
        if is_pressed(phi.events.now.key_escape) {
            return ViewAction::ChangeView(ViewId::MainMenu);
        }
        let ghost size = phi.renderer.spec_output_size();
        self.player.update(phi, elapsed);

        let mut old_bullets: Vec<Bullet> = Vec::new();
        std::mem::swap(&mut self.bullets, &mut old_bullets);
        let bullets: Vec<Bullet> = move_bullets(&old_bullets, phi, elapsed, &self.wave);
        let mut asteroids: Vec<Asteroid> = Vec::new();
        std::mem::swap(&mut self.asteroids, &mut asteroids);
        let asteroids: Vec<Asteroid> = move_asteroids(asteroids, elapsed);
        let mut explosions: Vec<Explosion> = Vec::new();
        std::mem::swap(&mut self.explosions, &mut explosions);
        let explosions: Vec<Explosion> = move_explosions(explosions, elapsed);

        let struck: Struck = strike(
            asteroids,
            bullets,
            explosions,
            self.player.rect,
            &self.wave,
            &self.explosion_factory,
        );
        self.asteroids = struck.asteroids;
        self.bullets = struck.bullets;
        self.explosions = struck.explosions;
        if struck.player_hit {
            self.player.lives -= 1;
        }
        if self.player.lives == 0 {
            assert(self.bullets@ =~= self.bullets@ + Seq::<Bullet>::empty());
            assert(asteroid_views(self.asteroids@) =~= asteroid_views(self.asteroids@) + Seq::<
                AsteroidView,
            >::empty());
            return ViewAction::ChangeView(ViewId::MainMenu);
        }
        let ghost struck_bullets = self.bullets@;
        let ghost struck_asteroids = self.asteroids@;
        if is_pressed(phi.events.now.key_space) {
            let mut shot: Vec<Bullet> = self.player.spawn_bullets();
            proof {
                self.player.lemma_spawned_valid(self.wave@);
            }
            self.bullets.append(&mut shot);
        } else {
            assert(self.bullets@ =~= struck_bullets + Seq::<Bullet>::empty());
        }
        if draws.spawn % 10 == 0 {
            let arrival: Asteroid = self.asteroid_factory.with_draws(
                phi,
                draws.fps,
                draws.y,
                draws.vel,
            );
            self.asteroids.push(arrival);
            assert(asteroid_views(self.asteroids@) =~= asteroid_views(struck_asteroids) + seq![
                arrival@,
            ]);
        } else {
            assert(asteroid_views(self.asteroids@) =~= asteroid_views(struck_asteroids) + Seq::<
                AsteroidView,
            >::empty());
        }
        self.draw(phi, elapsed);
        ViewAction::Continue
    }

    /// One tick of the game: `render_with`, with four random draws.
    pub fn render(&mut self, phi: &mut Phi, elapsed: i64) -> (r: ViewAction)
        requires
            old(phi).events.now.quit || pressed(old(phi).events.now.key_escape) || old(
                self,
            ).spec_can_advance(old(phi).renderer.spec_output_size()),
        ensures
            r == old(self).spec_action(
                old(phi).events,
                old(phi).renderer.spec_output_size(),
                elapsed as int,
            ),
            final(phi).events == old(phi).events,
            final(phi).renderer.spec_pixels() == old(phi).renderer.spec_pixels(),
            old(phi).events.now.quit || pressed(old(phi).events.now.key_escape) ==> *final(self)
                == *old(self),
            !old(phi).events.now.quit && !pressed(old(phi).events.now.key_escape) ==> exists|
                draws: Draws,
            |
                old(self).spec_ticked(
                    final(self),
                    old(phi).events,
                    old(phi).renderer.spec_output_size(),
                    elapsed as int,
                    draws,
                ),
            r == ViewAction::Continue ==> final(self).wf() && final(phi).renderer@ == old(
                phi,
            ).renderer@ + final(self).spec_frame(elapsed),
            r != ViewAction::Continue ==> final(phi).renderer@ == old(phi).renderer@,
    {
        let draws = Draws {
            spawn: random_u64(),
            fps: random_u64(),
            y: random_u64(),
            vel: random_u64(),
        };
        self.render_with(phi, elapsed, draws)
    }
}

impl Player {
    /// The bullets of a shot from a ship that lies within a window are in a
    /// valid state, whatever the wave.
    pub proof fn lemma_spawned_valid(&self, wave: Seq<i64>)
        requires
            self.wf(),
            crate::bullets::is_wave(wave),
        ensures
            bullets_wf(self.spec_spawn_bullets(), wave),
    {
        let shot = self.spec_spawn_bullets();
        assert forall|i: int| 0 <= i < shot.len() implies (#[trigger] shot[i]).wf(wave) by {
            match shot[i] {
                Bullet::Rect { .. } => {},
                Bullet::Sine { amplitude, angular_vel, total_time, .. } => {
                    assert(angular_vel * 0 == 0);
                    assert(0 * wave.len() == 0);
                    assert(crate::bullets::wave_index(wave.len() as int, 0) == 0);
                    assert(amplitude * 0 == 0);
                },
                Bullet::Divergent { a, b, total_time, .. } => {
                    assert(a * 0 * 0 * (0 - b) == 0) by (nonlinear_arith);
                    assert(b * b * b > 0) by (nonlinear_arith)
                        requires
                            b > 0,
                    ;
                },
            }
        }
    }
}

} // verus!
