//! The main menu: a list of actions, one of which is selected.

use crate::bullets::trunc_div;
use crate::data::{Rectangle, UNIT};
use crate::gfx::{CopySprite, DrawCall, Layer, Sprite};
use crate::phi::{is_pressed, pressed, Events, Phi, ViewAction, ViewId};
use vstd::prelude::*;

verus! {

/// Height of the line that a label stands in.
pub const LABEL_H: i64 = 50 * UNIT;

/// Width of the border round the box of labels.
pub const BORDER_WIDTH: i64 = 3 * UNIT;

/// Width of the box of labels.
pub const BOX_W: i64 = 360 * UNIT;

/// The room above the first label and below the last.
pub const MARGIN_H: i64 = 10 * UNIT;

/// The most actions that a menu can hold.
pub const MAX_ACTIONS: usize = 127;

/// What choosing an action does.
#[derive(Clone, Copy, Debug, PartialEq, Eq, Structural)]
pub enum Choice {
    /// Begins a new game.
    NewGame,
    /// Ends the program.
    Quit,
}

impl Choice {
    /// What the choice asks of the loop.
    pub open spec fn spec_run(self) -> ViewAction {
        match self {
            Choice::NewGame => ViewAction::ChangeView(ViewId::Game),
            Choice::Quit => ViewAction::Quit,
        }
    }

    /// What the choice asks of the loop.
    pub fn run(self) -> (r: ViewAction)
        ensures
            r == self.spec_run(),
    {
        match self {
            Choice::NewGame => ViewAction::ChangeView(ViewId::Game),
            Choice::Quit => ViewAction::Quit,
        }
    }
}

/// An entry of the menu: what it does, and its label as it is drawn when the
/// entry is selected and when it is not.
#[derive(Clone, Copy, Debug, PartialEq, Eq, Structural)]
pub struct Action {
    pub func: Choice,
    pub idle_sprite: Sprite,
    pub hover_sprite: Sprite,
}

impl Action {
    /// Both labels are valid sprites.
    pub open spec fn wf(self) -> bool {
        self.idle_sprite.wf() && self.hover_sprite.wf()
    }

    /// An entry that does `func` and shows the given labels.
    pub fn new(func: Choice, idle_sprite: Sprite, hover_sprite: Sprite) -> (r: Action)
        ensures
            r == (Action { func, idle_sprite, hover_sprite }),
    {
        Action { func, idle_sprite, hover_sprite }
    }
}

/// The entry selected after the keys of a tick: one up if up went down, with
/// the last entry above the first; then one down if down went down, with the
/// first entry below the last.
pub open spec fn selected_after(selected: int, count: int, events: Events) -> int {
    let raised = if pressed(events.now.key_up) {
        if selected - 1 < 0 {
            count - 1
        } else {
            selected - 1
        }
    } else {
        selected
    };
    if pressed(events.now.key_down) {
        if raised + 1 >= count {
            0
        } else {
            raised + 1
        }
    } else {
        raised
    }
}

/// The border of the box of `count` labels in a window of the given size.
pub open spec fn border_rect(size: (i64, i64), count: int) -> Rectangle {
    let box_h = count * LABEL_H;
    Rectangle {
        x: (trunc_div(size.0 - BOX_W, 2) - BORDER_WIDTH) as i64,
        y: (trunc_div(size.1 - box_h, 2) - MARGIN_H - BORDER_WIDTH) as i64,
        w: (BOX_W + BORDER_WIDTH * 2) as i64,
        h: (box_h + BORDER_WIDTH * 2 + MARGIN_H * 2) as i64,
    }
}

/// The box of `count` labels in a window of the given size.
pub open spec fn panel_rect(size: (i64, i64), count: int) -> Rectangle {
    let box_h = count * LABEL_H;
    Rectangle {
        x: trunc_div(size.0 - BOX_W, 2) as i64,
        y: (trunc_div(size.1 - box_h, 2) - MARGIN_H) as i64,
        w: BOX_W,
        h: (box_h + MARGIN_H * 2) as i64,
    }
}

/// Where the label `sprite` of entry `i` of `count` is drawn in a window of
/// the given size: centered in the window across, and in its line down.
pub open spec fn label_rect(size: (i64, i64), count: int, i: int, sprite: Sprite) -> Rectangle {
    let box_h = count * LABEL_H;
    Rectangle {
        x: trunc_div(size.0 - sprite.src.w, 2) as i64,
        y: (trunc_div(size.1 - box_h + LABEL_H - sprite.src.h, 2) + LABEL_H * i) as i64,
        w: sprite.src.w,
        h: sprite.src.h,
    }
}

/// The main menu.
pub struct MainMenuView {
    pub actions: Vec<Action>,
    pub selected: i8,
}

impl MainMenuView {
    /// There is an entry, there are no more than the menu can hold, one of
    /// them is selected, and all are valid.
    pub open spec fn wf(&self) -> bool {
        &&& 1 <= self.actions@.len() <= MAX_ACTIONS
        &&& 0 <= self.selected < self.actions@.len()
        &&& forall|i: int| 0 <= i < self.actions@.len() ==> (#[trigger] self.actions@[i]).wf()
    }

    /// What a tick asks of the loop: to end the program if the window was
    /// closed or escape went down; else what the selected entry does if space
    /// went down; else to go on.
    pub open spec fn spec_action(&self, events: Events) -> ViewAction {
        if events.now.quit || pressed(events.now.key_escape) {
            ViewAction::Quit
        } else if pressed(events.now.key_space) {
            self.actions@[self.selected as int].func.spec_run()
        } else {
            ViewAction::Continue
        }
    }

    /// The request that draws the label of entry `i`.
    pub open spec fn spec_label(&self, size: (i64, i64), i: int) -> DrawCall {
        let sprite = if self.selected == i {
            self.actions@[i].hover_sprite
        } else {
            self.actions@[i].idle_sprite
        };
        DrawCall::Copy { sprite, dest: label_rect(size, self.actions@.len() as int, i, sprite) }
    }

    /// The requests that draw the menu as it is, from back to front: the
    /// cleared target, the three backgrounds, the border, the box, and the
    /// labels from first to last.
    pub open spec fn spec_frame(&self, size: (i64, i64), elapsed: i64) -> Seq<DrawCall> {
        seq![
            DrawCall::Clear,
            DrawCall::Background { layer: Layer::Back, elapsed },
            DrawCall::Background { layer: Layer::Middle, elapsed },
            DrawCall::Background { layer: Layer::Front, elapsed },
            DrawCall::Fill {
                red: 70,
                green: 15,
                blue: 70,
                rect: border_rect(size, self.actions@.len() as int),
            },
            DrawCall::Fill {
                red: 140,
                green: 30,
                blue: 140,
                rect: panel_rect(size, self.actions@.len() as int),
            },
        ] + Seq::new(self.actions@.len(), |i: int| self.spec_label(size, i))
    }

    /// The menu of a new game and of quitting, with the first selected. Each
    /// entry is given as its label when it is not selected and when it is.
    pub fn new(new_game: (Sprite, Sprite), quit: (Sprite, Sprite)) -> (r: MainMenuView)
        requires
            new_game.0.wf(),
            new_game.1.wf(),
            quit.0.wf(),
            quit.1.wf(),
        ensures
            r.actions@ == seq![
                Action { func: Choice::NewGame, idle_sprite: new_game.0, hover_sprite: new_game.1 },
                Action { func: Choice::Quit, idle_sprite: quit.0, hover_sprite: quit.1 },
            ],
            r.selected == 0,
            r.wf(),
    {
        let mut actions: Vec<Action> = Vec::new();
        actions.push(Action::new(Choice::NewGame, new_game.0, new_game.1));
        actions.push(Action::new(Choice::Quit, quit.0, quit.1));
        assert(actions@ =~= seq![
            Action { func: Choice::NewGame, idle_sprite: new_game.0, hover_sprite: new_game.1 },
            Action { func: Choice::Quit, idle_sprite: quit.0, hover_sprite: quit.1 },
        ]);
        MainMenuView { actions, selected: 0 }
    }

    /// One tick of the menu. If the window was closed or escape went down the
    /// program is to end, and if space went down the selected entry is run;
    /// in both cases nothing else happens. Otherwise the selection follows
    /// the keys, the frame is requested and the menu goes on.
    pub fn render(&mut self, phi: &mut Phi, elapsed: i64) -> (r: ViewAction)
        requires
            old(phi).events.now.quit || pressed(old(phi).events.now.key_escape) || old(self).wf(),
        ensures
            r == old(self).spec_action(old(phi).events),
            final(self).actions == old(self).actions,
            final(self).selected == (if r == ViewAction::Continue {
                selected_after(
                    old(self).selected as int,
                    old(self).actions@.len() as int,
                    old(phi).events,
                )
            } else {
                old(self).selected as int
            }),
            old(self).wf() ==> final(self).wf(),
            final(phi).events == old(phi).events,
            final(phi).renderer.spec_pixels() == old(phi).renderer.spec_pixels(),
            final(phi).renderer@ == old(phi).renderer@ + (if r == ViewAction::Continue {
                final(self).spec_frame(old(phi).renderer.spec_output_size(), elapsed)
            } else {
                Seq::empty()
            }),
    {
        if phi.events.now.quit || is_pressed(phi.events.now.key_escape) {
            assert(phi.renderer@ =~= phi.renderer@ + Seq::<DrawCall>::empty());
            return ViewAction::Quit;
        }
        if is_pressed(phi.events.now.key_space) {
            assert(phi.renderer@ =~= phi.renderer@ + Seq::<DrawCall>::empty());
            return self.actions[self.selected as usize].func.run();
        }
        let count: i8 = self.actions.len() as i8;
        if is_pressed(phi.events.now.key_up) {
            self.selected = self.selected - 1;
            if self.selected < 0 {
                self.selected = count - 1;
            }
        }
        if is_pressed(phi.events.now.key_down) {
            self.selected = if self.selected + 1 >= count {
                0
            } else {
                self.selected + 1
            };
        }
        let ghost base = phi.renderer@;
        let ghost size = phi.renderer.spec_output_size();
        phi.renderer.push(DrawCall::Clear);
        phi.renderer.push(DrawCall::Background { layer: Layer::Back, elapsed });
        phi.renderer.push(DrawCall::Background { layer: Layer::Middle, elapsed });
        phi.renderer.push(DrawCall::Background { layer: Layer::Front, elapsed });

        let (win_w, win_h) = phi.output_size();
        let box_h: i64 = self.actions.len() as i64 * LABEL_H;
        phi.renderer.push(
            DrawCall::Fill {
                red: 70,
                green: 15,
                blue: 70,
                rect: Rectangle {
                    w: BOX_W + BORDER_WIDTH * 2,
                    h: box_h + BORDER_WIDTH * 2 + MARGIN_H * 2,
                    x: (win_w - BOX_W) / 2 - BORDER_WIDTH,
                    y: (win_h - box_h) / 2 - MARGIN_H - BORDER_WIDTH,
                },
            },
        );
        phi.renderer.push(
            DrawCall::Fill {
                red: 140,
                green: 30,
                blue: 140,
                rect: Rectangle {
                    w: BOX_W,
                    h: box_h + MARGIN_H * 2,
                    x: (win_w - BOX_W) / 2,
                    y: (win_h - box_h) / 2 - MARGIN_H,
                },
            },
        );
        let ghost head = phi.renderer@;
        let ghost labels = Seq::new(self.actions@.len(), |i: int| self.spec_label(size, i));
        let mut i: usize = 0;
        assert(phi.renderer@ =~= head + labels.take(0));
        while i < self.actions.len()
            invariant
                i <= self.actions@.len(),
                self.wf(),
                size == phi.renderer.spec_output_size(),
                (win_w, win_h) == size,
                0 <= win_w <= u32::MAX * UNIT,
                0 <= win_h <= u32::MAX * UNIT,
                box_h == self.actions@.len() * LABEL_H,
                labels == Seq::new(self.actions@.len(), |i: int| self.spec_label(size, i)),
                phi.renderer@ == head + labels.take(i as int),
                phi.renderer.spec_pixels() == old(phi).renderer.spec_pixels(),
                phi.events == old(phi).events,
            decreases self.actions@.len() - i,
        {
            let action: Action = self.actions[i];
            let sprite: Sprite = if self.selected as usize == i {
                action.hover_sprite
            } else {
                action.idle_sprite
            };
            let (w, h) = sprite.size();
            let x: i128 = (win_w as i128 - w as i128) / 2;
            let y: i128 = (win_h as i128 - box_h as i128 + LABEL_H as i128 - h as i128) / 2
                + LABEL_H as i128 * i as i128;
            phi.renderer.copy_sprite(&sprite, Rectangle { x: x as i64, y: y as i64, w, h });
            assert(phi.renderer@ =~= head + labels.take(i + 1));
            i += 1;
        }
        assert(labels.take(labels.len() as int) =~= labels);
        assert(phi.renderer@ =~= base + self.spec_frame(size, elapsed));
        ViewAction::Continue
    }
}

} // verus!
