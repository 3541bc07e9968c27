//! Sprites: regions of images, animations with a playback clock, and the draw
//! requests that a frame consists of.

use crate::data::{Rectangle, UNIT};
use std::rc::Rc;
use vstd::prelude::*;

verus! {

/// Microseconds in one second.
pub const SECOND: i64 = 1_000_000;

/// A rectangular region of an image. Several sprites may show regions of one
/// image, which they name by its handle.
#[derive(Clone, Copy, Debug, PartialEq, Eq, Structural)]
pub struct Sprite {
    /// The handle of the image that the sprite shows a region of.
    pub image: u32,
    /// The region shown, in the image's coordinates.
    pub src: Rectangle,
}

impl Sprite {
    /// The region is a valid rectangle.
    pub open spec fn wf(self) -> bool {
        self.src.wf()
    }

    /// The sub-sprite that shows `rect`, taken relative to this sprite's own
    /// region, if it lies within that region.
    pub open spec fn spec_region(self, rect: Rectangle) -> Option<Sprite> {
        let src = self.src;
        let x = rect.x + src.x;
        let y = rect.y + src.y;
        if src.x <= x <= src.x + src.w && src.x <= x + rect.w <= src.x + src.w && src.y <= y
            <= src.y + src.h && src.y <= y + rect.h <= src.y + src.h {
            Some(
                Sprite {
                    image: self.image,
                    src: Rectangle { x: x as i64, y: y as i64, w: rect.w, h: rect.h },
                },
            )
        } else {
            None
        }
    }

    /// The sprite that shows the whole of an image of the given size in pixels.
    pub fn new(image: u32, width: u32, height: u32) -> (r: Sprite)
        ensures
            r.image == image,
            r.src == (Rectangle {
                x: 0,
                y: 0,
                w: (width * UNIT) as i64,
                h: (height * UNIT) as i64,
            }),
            r.wf(),
    {
        Sprite {
            image,
            src: Rectangle { w: width as i64 * UNIT, h: height as i64 * UNIT, x: 0, y: 0 },
        }
    }

    /// The sub-sprite that shows `rect`, or nothing if `rect` reaches outside
    /// this sprite's region.
    pub fn region(&self, rect: Rectangle) -> (r: Option<Sprite>)
        requires
            self.wf(),
            rect.wf(),
        ensures
            r == self.spec_region(rect),
            r matches Some(s) ==> s.wf() && self.src.spec_contains(s.src),
    {
        let x: i128 = rect.x as i128 + self.src.x as i128;
        let y: i128 = rect.y as i128 + self.src.y as i128;
        let left: i128 = self.src.x as i128;
        let top: i128 = self.src.y as i128;
        let right: i128 = left + self.src.w as i128;
        let bottom: i128 = top + self.src.h as i128;
        if left <= x && x <= right && left <= x + rect.w as i128 && x + rect.w as i128 <= right
            && top <= y && y <= bottom && top <= y + rect.h as i128 && y + rect.h as i128
            <= bottom {
            Some(
                Sprite {
                    image: self.image,
                    src: Rectangle { x: x as i64, y: y as i64, w: rect.w, h: rect.h },
                },
            )
        } else {
            None
        }
    }

    /// Width and height of the region.
    pub fn size(&self) -> (r: (i64, i64))
        ensures
            r == (self.src.w, self.src.h),
    {
        (self.src.w, self.src.h)
    }
}


/// How a sheet of equally sized frames is laid out in an image: a grid read
/// row by row, of which the first `total_frames` cells are frames.
pub struct AnimatedSpriteDescr<'a> {
    pub image_path: &'a str,
    pub total_frames: usize,
    pub frames_high: usize,
    pub frames_wide: usize,
    pub frame_w: i64,
    pub frame_h: i64,
}

impl<'a> AnimatedSpriteDescr<'a> {
    /// The size of a frame is not negative.
    pub open spec fn wf(&self) -> bool {
        self.frame_w >= 0 && self.frame_h >= 0
    }

    /// The number of frames: `total_frames`, but no more than the grid has cells.
    pub open spec fn frame_count(&self) -> int {
        if self.total_frames <= self.frames_wide * self.frames_high {
            self.total_frames as int
        } else {
            self.frames_wide * self.frames_high
        }
    }

    /// The sprite of frame `k`, counted row by row, or nothing if its cell
    /// reaches outside the sheet.
    pub open spec fn frame(&self, sheet: Sprite, k: int) -> Option<Sprite> {
        let col = k % (self.frames_wide as int);
        let row = k / (self.frames_wide as int);
        let x = self.frame_w * col + sheet.src.x;
        let y = self.frame_h * row + sheet.src.y;
        let src = sheet.src;
        if src.x <= x <= src.x + src.w && src.x <= x + self.frame_w <= src.x + src.w && src.y
            <= y <= src.y + src.h && src.y <= y + self.frame_h <= src.y + src.h {
            Some(
                Sprite {
                    image: sheet.image,
                    src: Rectangle { x: x as i64, y: y as i64, w: self.frame_w, h: self.frame_h },
                },
            )
        } else {
            None
        }
    }

    /// Every frame lies within the sheet.
    pub open spec fn fits(&self, sheet: Sprite) -> bool {
        forall|k: int| 0 <= k < self.frame_count() ==> (#[trigger] self.frame(sheet, k)).is_some()
    }
}

/// What an animation is: its frames, the time each is shown, and its clock.
pub struct AnimationView {
    pub frames: Seq<Sprite>,
    pub frame_delay: int,
    pub current_time: int,
}

/// The index of the frame shown at time `t` when each of `count` frames is
/// shown for `delay`.
pub open spec fn frame_at(t: int, delay: int, count: int) -> int {
    (t / delay) % count
}

/// The clock after `dt` is added to it. A sum below zero is replaced by the
/// time at which the last frame begins. A sum beyond the largest time that a
/// clock can hold is taken back by whole periods of the animation, which
/// changes no frame. Any other sum is the new time: a clock that passes the
/// end of the animation runs on.
pub open spec fn clock_after(t: int, dt: int, delay: int, count: int) -> int {
    if t + dt < 0 {
        (count - 1) * delay
    } else if t + dt > i64::MAX {
        (t + dt) % (count * delay)
    } else {
        t + dt
    }
}

/// The clock after each of `dts` is added to it in turn.
pub open spec fn clock_after_all(t: int, dts: Seq<int>, delay: int, count: int) -> int
    decreases dts.len(),
{
    if dts.len() == 0 {
        t
    } else {
        clock_after(clock_after_all(t, dts.drop_last(), delay, count), dts.last(), delay, count)
    }
}

/// The frame shown repeats after `count * delay`.
pub proof fn lemma_frame_at_periodic(t: int, delay: int, count: int)
    requires
        t >= 0,
        delay > 0,
        count > 0,
    ensures
        frame_at(t + count * delay, delay, count) == frame_at(t, delay, count),
        0 <= frame_at(t, delay, count) < count,
{
    vstd::arithmetic::div_mod::lemma_hoist_over_denominator(t, count, delay as nat);
    vstd::arithmetic::div_mod::lemma_mod_add_multiples_vanish(t / delay, count);
}

/// The frame shown is the same any number of periods later.
pub proof fn lemma_frame_at_periods(t: int, delay: int, count: int, periods: nat)
    requires
        t >= 0,
        delay > 0,
        count > 0,
    ensures
        frame_at(t + periods * (count * delay), delay, count) == frame_at(t, delay, count),
    decreases periods,
{
    if periods > 0 {
        let before = t + (periods - 1) * (count * delay);
        assert(0 < count * delay) by (nonlinear_arith)
            requires
                count > 0,
                delay > 0,
        ;
        assert(0 <= (periods - 1) * (count * delay)) by (nonlinear_arith)
            requires
                periods >= 1,
                0 < count * delay,
        ;
        assert(t + periods * (count * delay) == before + count * delay) by (nonlinear_arith)
            requires
                before == t + (periods - 1) * (count * delay),
        ;
        lemma_frame_at_periods(t, delay, count, (periods - 1) as nat);
        assert(frame_at(before, delay, count) == frame_at(t, delay, count));
        lemma_frame_at_periodic(before, delay, count);
    } else {
        assert(periods * (count * delay) == 0) by (nonlinear_arith)
            requires
                periods == 0,
        ;
    }
}

/// Whatever is added to a clock, the clock is not negative afterwards; and
/// unless the sum fell below zero, the frame shown is that of the sum,
/// however far beyond the largest time that a clock can hold the sum lies.
pub proof fn lemma_clock_after(t: int, dt: int, delay: int, count: int)
    requires
        delay > 0,
        count >= 1,
    ensures
        clock_after(t, dt, delay, count) >= 0,
        t + dt >= 0 ==> frame_at(clock_after(t, dt, delay, count), delay, count) == frame_at(
            t + dt,
            delay,
            count,
        ),
        t + dt > i64::MAX ==> clock_after(t, dt, delay, count) < count * delay,
{
    let period = count * delay;
    assert(0 < period && 0 <= (count - 1) * delay) by (nonlinear_arith)
        requires
            period == count * delay,
            count >= 1,
            delay > 0,
    ;
    if t + dt > i64::MAX {
        let sum = t + dt;
        vstd::arithmetic::div_mod::lemma_fundamental_div_mod(sum, period);
        vstd::arithmetic::div_mod::lemma_div_pos_is_pos(sum, period);
        vstd::arithmetic::div_mod::lemma_mod_bound(sum, period);
        assert(sum == sum % period + (sum / period) * period) by (nonlinear_arith)
            requires
                sum == period * (sum / period) + sum % period,
        ;
        lemma_frame_at_periods(sum % period, delay, count, (sum / period) as nat);
    }
}

/// Whatever is added to a clock that is not negative, and in whatever order,
/// the clock is not negative afterwards.
pub proof fn lemma_clock_never_negative(t: int, dts: Seq<int>, delay: int, count: int)
    requires
        t >= 0,
        delay > 0,
        count >= 1,
    ensures
        clock_after_all(t, dts, delay, count) >= 0,
    decreases dts.len(),
{
    if dts.len() > 0 {
        lemma_clock_never_negative(t, dts.drop_last(), delay, count);
        lemma_clock_after(
            clock_after_all(t, dts.drop_last(), delay, count),
            dts.last(),
            delay,
            count,
        );
    }
}

/// A sequence of frames with a playback clock. The frames are shared by the
/// clones of an animation; the clock is each one's own.
pub struct AnimatedSprite {
    sprites: Rc<Vec<Sprite>>,
    frame_delay: i64,
    current_time: i64,
}

impl View for AnimatedSprite {
    type V = AnimationView;

    closed spec fn view(&self) -> AnimationView {
        AnimationView {
            frames: self.sprites@,
            frame_delay: self.frame_delay as int,
            current_time: self.current_time as int,
        }
    }
}

/// What may be built into an animation: at least one frame, each a valid
/// sprite, and a positive delay under which the time that it takes to show
/// every frame once is a representable time.
pub open spec fn playable(frames: Seq<Sprite>, frame_delay: int) -> bool {
    &&& frames.len() >= 1
    &&& frame_delay > 0
    &&& frames.len() * frame_delay <= i64::MAX
    &&& forall|i: int| 0 <= i < frames.len() ==> (#[trigger] frames[i]).wf()
}

impl AnimatedSprite {
    /// The animation is playable and its clock is not negative.
    pub open spec fn wf(&self) -> bool {
        &&& playable(self@.frames, self@.frame_delay)
        &&& 0 <= self@.current_time <= i64::MAX
    }

    /// The index of the frame shown now.
    pub open spec fn spec_current_frame(&self) -> int {
        frame_at(self@.current_time, self@.frame_delay, self@.frames.len() as int)
    }

    /// An animation of `sprites`, each shown for `frame_delay`, with its clock
    /// at zero.
    pub fn new(sprites: Vec<Sprite>, frame_delay: i64) -> (r: AnimatedSprite)
        requires
            playable(sprites@, frame_delay as int),
        ensures
            r@ == (AnimationView {
                frames: sprites@,
                frame_delay: frame_delay as int,
                current_time: 0,
            }),
            r.wf(),
    {
        AnimatedSprite { sprites: Rc::new(sprites), frame_delay, current_time: 0 }
    }

    /// Cuts the frames that `descr` lays out from `spritesheet`, row by row.
    /// There is no result exactly when one of them reaches outside the sheet.
    pub fn load_frames(spritesheet: &Sprite, descr: &AnimatedSpriteDescr) -> (r: Option<
        Vec<Sprite>,
    >)
        requires
            spritesheet.wf(),
            descr.wf(),
        ensures
            r.is_some() <==> descr.fits(*spritesheet),
            r matches Some(frames) ==> {
                &&& frames@.len() == descr.frame_count()
                &&& forall|k: int|
                    0 <= k < frames@.len() ==> descr.frame(*spritesheet, k) == Some(
                        #[trigger] frames@[k],
                    ) && frames@[k].wf()
            },
    {
        let cells: u128 = grid_cells(descr.frames_wide, descr.frames_high);
        let count: usize = if descr.total_frames as u128 <= cells {
            descr.total_frames
        } else {
            cells as usize
        };
        let mut frames: Vec<Sprite> = Vec::new();
        let mut k: usize = 0;
        while k < count
            invariant
                spritesheet.wf(),
                descr.wf(),
                count == descr.frame_count(),
                k <= count,
                frames@.len() == k,
                forall|j: int|
                    0 <= j < k ==> descr.frame(*spritesheet, j) == Some(#[trigger] frames@[j])
                        && frames@[j].wf(),
            decreases count - k,
        {
            let col: usize = k % descr.frames_wide;
            let row: usize = k / descr.frames_wide;
            let x: i128 = scaled(descr.frame_w, col) + spritesheet.src.x as i128;
            let y: i128 = scaled(descr.frame_h, row) + spritesheet.src.y as i128;
            let left: i128 = spritesheet.src.x as i128;
            let top: i128 = spritesheet.src.y as i128;
            let right: i128 = left + spritesheet.src.w as i128;
            let bottom: i128 = top + spritesheet.src.h as i128;
            let w: i128 = descr.frame_w as i128;
            let h: i128 = descr.frame_h as i128;
            if left <= x && x <= right && left <= x + w && x + w <= right && top <= y && y
                <= bottom && top <= y + h && y + h <= bottom {
                frames.push(
                    Sprite {
                        image: spritesheet.image,
                        src: Rectangle {
                            x: x as i64,
                            y: y as i64,
                            w: descr.frame_w,
                            h: descr.frame_h,
                        },
                    },
                );
            } else {
                assert(descr.frame(*spritesheet, k as int).is_none());
                return None;
            }
            k += 1;
        }
        assert forall|j: int| 0 <= j < descr.frame_count() implies (#[trigger] descr.frame(
            *spritesheet,
            j,
        )).is_some() by {
            assert(descr.frame(*spritesheet, j) == Some(frames@[j]));
        }
        Some(frames)
    }

    /// An animation of `sprites` that shows `fps` frames in a second.
    pub fn with_fps(sprites: Vec<Sprite>, fps: i64) -> (r: AnimatedSprite)
        requires
            0 < fps <= SECOND,
            playable(sprites@, SECOND as int / fps as int),
        ensures
            r@ == (AnimationView {
                frames: sprites@,
                frame_delay: SECOND as int / fps as int,
                current_time: 0,
            }),
            r.wf(),
    {
        AnimatedSprite::new(sprites, SECOND / fps)
    }

    /// The number of frames.
    pub fn frames(&self) -> (r: usize)
        ensures
            r == self@.frames.len(),
    {
        self.sprites.len()
    }

    /// The time for which each frame is shown.
    pub fn frame_delay(&self) -> (r: i64)
        ensures
            r == self@.frame_delay,
    {
        self.frame_delay
    }

    /// The time on the playback clock.
    pub fn current_time(&self) -> (r: i64)
        ensures
            r == self@.current_time,
    {
        self.current_time
    }

    /// Shows each frame for `frame_delay` from now on.
    pub fn set_frame_delay(&mut self, frame_delay: i64)
        requires
            old(self).wf(),
            playable(old(self)@.frames, frame_delay as int),
        ensures
            final(self)@ == (AnimationView { frame_delay: frame_delay as int, ..old(self)@ }),
            final(self).wf(),
    {
        self.frame_delay = frame_delay;
    }

    /// Shows `fps` frames in a second from now on.
    pub fn set_fps(&mut self, fps: i64)
        requires
            old(self).wf(),
            0 < fps <= SECOND,
            playable(old(self)@.frames, SECOND as int / fps as int),
        ensures
            final(self)@ == (AnimationView {
                frame_delay: SECOND as int / fps as int,
                ..old(self)@
            }),
            final(self).wf(),
    {
        self.set_frame_delay(SECOND / fps)
    }

    /// Adds `dt` to the clock. A clock that would fall below zero is set to
    /// the time at which the last frame begins; a clock that passes the end of
    /// the animation is left to run on. Whatever is added, the clock is not
    /// negative afterwards, and unless it fell below zero the frame shown is
    /// that of the sum.
    pub fn add_time(&mut self, dt: i64)
        requires
            old(self).wf(),
        ensures
            final(self)@ == (AnimationView {
                current_time: clock_after(
                    old(self)@.current_time,
                    dt as int,
                    old(self)@.frame_delay,
                    old(self)@.frames.len() as int,
                ),
                ..old(self)@
            }),
            final(self)@.current_time >= 0,
            old(self)@.current_time + dt >= 0 ==> final(self).spec_current_frame() == frame_at(
                old(self)@.current_time + dt,
                old(self)@.frame_delay,
                old(self)@.frames.len() as int,
            ),
            final(self).wf(),
    {
        let n: usize = self.sprites.len();
        proof {
            lemma_clock_after(
                self.current_time as int,
                dt as int,
                self.frame_delay as int,
                n as int,
            );
            assert(0 <= n - 1 <= (n - 1) * self.frame_delay <= n * self.frame_delay)
                by (nonlinear_arith)
                requires
                    n >= 1,
                    self.frame_delay > 0,
            ;
        }
        let sum: i128 = self.current_time as i128 + dt as i128;
        if sum < 0 {
            self.current_time = (n - 1) as i64 * self.frame_delay;
        } else if sum > i64::MAX as i128 {
            let period: i128 = n as i128 * self.frame_delay as i128;
            self.current_time = (sum % period) as i64;
        } else {
            self.current_time = sum as i64;
        }
    }

    /// The index of the frame shown now.
    pub fn current_frame(&self) -> (r: usize)
        requires
            self.wf(),
        ensures
            r == self.spec_current_frame(),
            r < self@.frames.len(),
    {
        let shown: u64 = (self.current_time / self.frame_delay) as u64;
        (shown % self.sprites.len() as u64) as usize
    }

    /// The sprite of the frame shown now.
    pub fn current_sprite(&self) -> (r: Sprite)
        requires
            self.wf(),
        ensures
            r == self@.frames[self.spec_current_frame()],
            r.wf(),
    {
        self.sprites[self.current_frame()]
    }
}

/// Another handle to the same frames, from `Rc::clone`, which copies the
/// handle and not what it points to: the new handle shows the frames that the
/// old one shows.
#[verifier::external_body]
fn share(frames: &Rc<Vec<Sprite>>) -> (r: Rc<Vec<Sprite>>)
    ensures
        r == *frames,
{
    Rc::clone(frames)
}

impl Clone for AnimatedSprite {
    /// A copy that shares the frames and has the same delay and clock.
    fn clone(&self) -> (r: AnimatedSprite)
        ensures
            r@ == self@,
    {
        AnimatedSprite {
            sprites: share(&self.sprites),
            frame_delay: self.frame_delay,
            current_time: self.current_time,
        }
    }
}

/// One of the three scrolling background layers, from farthest to nearest.
#[derive(Clone, Copy, Debug, PartialEq, Eq, Structural)]
pub enum Layer {
    Back,
    Middle,
    Front,
}

/// One request to the renderer.
#[derive(Clone, Copy, Debug, PartialEq, Eq, Structural)]
pub enum DrawCall {
    /// Paint the whole target black.
    Clear,
    /// Scroll a background layer on by `elapsed` and draw it.
    Background { layer: Layer, elapsed: i64 },
    /// Fill `rect` with the colour `red`, `green`, `blue`.
    Fill { red: u8, green: u8, blue: u8, rect: Rectangle },
    /// Draw the region of `sprite` into `dest`.
    Copy { sprite: Sprite, dest: Rectangle },
}

/// The render target as the simulation sees it: its size, and the requests
/// made of it so far, oldest first.
pub struct DrawList {
    width: u32,
    height: u32,
    calls: Vec<DrawCall>,
}

impl View for DrawList {
    type V = Seq<DrawCall>;

    closed spec fn view(&self) -> Seq<DrawCall> {
        self.calls@
    }
}

impl DrawList {
    /// Width and height of the target, in pixels.
    pub closed spec fn spec_pixels(&self) -> (u32, u32) {
        (self.width, self.height)
    }

    /// Width and height of the target, as lengths.
    pub open spec fn spec_output_size(&self) -> (i64, i64) {
        ((self.spec_pixels().0 * UNIT) as i64, (self.spec_pixels().1 * UNIT) as i64)
    }

    /// A target of the given size in pixels of which nothing was requested yet.
    pub fn new(width: u32, height: u32) -> (r: DrawList)
        ensures
            r@ == Seq::<DrawCall>::empty(),
            r.spec_pixels() == (width, height),
    {
        DrawList { width, height, calls: Vec::new() }
    }

    /// Width and height of the target, as lengths.
    pub fn output_size(&self) -> (r: (i64, i64))
        ensures
            r == self.spec_output_size(),
            0 <= r.0 <= u32::MAX * UNIT,
            0 <= r.1 <= u32::MAX * UNIT,
    {
        (self.width as i64 * UNIT, self.height as i64 * UNIT)
    }

    /// Adds a request.
    pub fn push(&mut self, call: DrawCall)
        ensures
            final(self)@ == old(self)@.push(call),
            final(self).spec_pixels() == old(self).spec_pixels(),
    {
        self.calls.push(call);
    }

    /// Hands out the requests made so far, oldest first, and forgets them.
    pub fn take(&mut self) -> (r: Vec<DrawCall>)
        ensures
            r@ == old(self)@,
            final(self)@ == Seq::<DrawCall>::empty(),
            final(self).spec_pixels() == old(self).spec_pixels(),
    {
        let mut calls: Vec<DrawCall> = Vec::new();
        std::mem::swap(&mut self.calls, &mut calls);
        calls
    }

    /// The number of requests made so far.
    pub fn len(&self) -> (r: usize)
        ensures
            r == self@.len(),
    {
        self.calls.len()
    }
}

/// What can be drawn into a rectangle of the target.
pub trait Renderable {
    /// Whether the value is in a state that can be drawn.
    spec fn drawable(&self) -> bool;

    /// The sprite that is drawn.
    spec fn shown(&self) -> Sprite;

    /// Requests that the value be drawn into `dest`.
    fn render(&self, renderer: &mut DrawList, dest: Rectangle)
        requires
            self.drawable(),
            dest.w >= 0,
            dest.h >= 0,
        ensures
            final(renderer)@ == old(renderer)@.push(DrawCall::Copy { sprite: self.shown(), dest }),
            final(renderer).spec_pixels() == old(renderer).spec_pixels(),
    ;
}

impl Renderable for Sprite {
    open spec fn drawable(&self) -> bool {
        self.wf()
    }

    open spec fn shown(&self) -> Sprite {
        *self
    }

    fn render(&self, renderer: &mut DrawList, dest: Rectangle) {
        renderer.push(DrawCall::Copy { sprite: *self, dest });
    }
}

impl Renderable for AnimatedSprite {
    open spec fn drawable(&self) -> bool {
        self.wf()
    }

    open spec fn shown(&self) -> Sprite {
        self@.frames[self.spec_current_frame()]
    }

    fn render(&self, renderer: &mut DrawList, dest: Rectangle) {
        let sprite: Sprite = self.current_sprite();
        sprite.render(renderer, dest);
    }
}

/// A target into which anything `Renderable` can be drawn.
pub trait CopySprite<T: Renderable> {
    /// The requests made of the target so far.
    spec fn requests(&self) -> Seq<DrawCall>;

    /// Requests that `renderable` be drawn into `dest`.
    fn copy_sprite(&mut self, renderable: &T, dest: Rectangle)
        requires
            renderable.drawable(),
            dest.w >= 0,
            dest.h >= 0,
        ensures
            final(self).requests() == old(self).requests().push(
                DrawCall::Copy { sprite: renderable.shown(), dest },
            ),
    ;
}

impl<T: Renderable> CopySprite<T> for DrawList {
    open spec fn requests(&self) -> Seq<DrawCall> {
        self@
    }

    fn copy_sprite(&mut self, renderable: &T, dest: Rectangle)
        ensures
            final(self).spec_pixels() == old(self).spec_pixels(),
    {
        renderable.render(self, dest);
    }
}

/// The number of cells in a grid.
fn grid_cells(wide: usize, high: usize) -> (r: u128)
    ensures
        r == wide * high,
{
    assert(wide * high <= 0xffff_ffff_ffff_ffff * 0xffff_ffff_ffff_ffff) by (nonlinear_arith)
        requires
            wide <= 0xffff_ffff_ffff_ffff,
            high <= 0xffff_ffff_ffff_ffff,
    ;
    wide as u128 * high as u128
}

/// A length taken `times` times.
fn scaled(len: i64, times: usize) -> (r: i128)
    requires
        len >= 0,
    ensures
        r == len * times,
        0 <= r <= 0x7fff_ffff_ffff_ffff * 0xffff_ffff_ffff_ffff,
{
    assert(0 <= len * times <= 0x7fff_ffff_ffff_ffff * 0xffff_ffff_ffff_ffff) by (nonlinear_arith)
        requires
            0 <= len <= 0x7fff_ffff_ffff_ffff,
            0 <= times <= 0xffff_ffff_ffff_ffff,
    ;
    len as i128 * times as i128
}

} // verus!
