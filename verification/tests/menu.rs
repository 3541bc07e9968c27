use arcade_sim::data::{Rectangle, UNIT};
use arcade_sim::gfx::{DrawCall, DrawList, Layer, Sprite};
use arcade_sim::main_menu::{Action, Choice, MainMenuView};
use arcade_sim::phi::{is_pressed, Events, ImmediateEvents, Phi, ViewAction, ViewId};

fn window() -> Phi {
    Phi::new(Events::new(), DrawList::new(800, 600))
}

fn label(image: u32, width: u32, height: u32) -> Sprite {
    Sprite::new(image, width, height)
}

fn menu() -> MainMenuView {
    MainMenuView::new(
        (label(10, 120, 32), label(11, 140, 38)),
        (label(12, 60, 32), label(13, 70, 38)),
    )
}

fn press(phi: &mut Phi, change: fn(&mut ImmediateEvents)) {
    phi.events.now = ImmediateEvents::new();
    change(&mut phi.events.now);
}

#[test]
fn a_key_is_pressed_only_when_it_went_down() {
    assert!(is_pressed(Some(true)));
    assert!(!is_pressed(Some(false)));
    assert!(!is_pressed(None));
}

#[test]
fn a_new_menu_offers_a_new_game_and_quitting() {
    let menu = menu();
    assert_eq!(menu.selected, 0);
    assert_eq!(
        menu.actions,
        vec![
            Action::new(Choice::NewGame, label(10, 120, 32), label(11, 140, 38)),
            Action::new(Choice::Quit, label(12, 60, 32), label(13, 70, 38)),
        ]
    );
    assert_eq!(Choice::NewGame.run(), ViewAction::ChangeView(ViewId::Game));
    assert_eq!(Choice::Quit.run(), ViewAction::Quit);
}

#[test]
fn down_and_up_move_the_selection_and_wrap() {
    let mut phi = window();
    let mut menu = menu();
    press(&mut phi, |now| now.key_down = Some(true));
    assert_eq!(menu.render(&mut phi, 0), ViewAction::Continue);
    assert_eq!(menu.selected, 1);
    assert_eq!(menu.render(&mut phi, 0), ViewAction::Continue);
    assert_eq!(menu.selected, 0);
    press(&mut phi, |now| now.key_up = Some(true));
    assert_eq!(menu.render(&mut phi, 0), ViewAction::Continue);
    assert_eq!(menu.selected, 1);
    assert_eq!(menu.render(&mut phi, 0), ViewAction::Continue);
    assert_eq!(menu.selected, 0);
    press(&mut phi, |now| {
        now.key_up = Some(true);
        now.key_down = Some(true);
    });
    assert_eq!(menu.render(&mut phi, 0), ViewAction::Continue);
    assert_eq!(menu.selected, 0);
    press(&mut phi, |now| {
        now.key_up = Some(false);
        now.key_down = Some(false);
    });
    phi.events.key_down = true;
    assert_eq!(menu.render(&mut phi, 0), ViewAction::Continue);
    assert_eq!(menu.selected, 0);
}

#[test]
fn the_selection_wraps_in_a_longer_menu() {
    let mut phi = window();
    let mut menu = menu();
    menu.actions.push(Action::new(Choice::Quit, label(14, 60, 32), label(15, 70, 38)));
    press(&mut phi, |now| now.key_up = Some(true));
    assert_eq!(menu.render(&mut phi, 0), ViewAction::Continue);
    assert_eq!(menu.selected, 2);
    assert_eq!(menu.render(&mut phi, 0), ViewAction::Continue);
    assert_eq!(menu.selected, 1);
    press(&mut phi, |now| now.key_down = Some(true));
    assert_eq!(menu.render(&mut phi, 0), ViewAction::Continue);
    assert_eq!(menu.selected, 2);
    assert_eq!(menu.render(&mut phi, 0), ViewAction::Continue);
    assert_eq!(menu.selected, 0);
}

#[test]
fn space_runs_the_selected_entry() {
    let mut phi = window();
    let mut menu = menu();
    press(&mut phi, |now| {
        now.key_space = Some(true);
        now.key_down = Some(true);
    });
    assert_eq!(menu.render(&mut phi, 0), ViewAction::ChangeView(ViewId::Game));
    assert_eq!(menu.selected, 0);
    assert_eq!(phi.renderer.len(), 0);
    menu.selected = 1;
    assert_eq!(menu.render(&mut phi, 0), ViewAction::Quit);
    assert_eq!(menu.selected, 1);
    assert_eq!(phi.renderer.len(), 0);
    press(&mut phi, |now| now.key_space = Some(false));
    assert_eq!(menu.render(&mut phi, 0), ViewAction::Continue);
    press(&mut phi, |now| now.key_enter = Some(true));
    assert_eq!(menu.render(&mut phi, 0), ViewAction::Continue);
}

#[test]
fn escape_or_closing_the_window_ends_the_program() {
    let mut phi = window();
    let mut menu = menu();
    press(&mut phi, |now| {
        now.key_escape = Some(true);
        now.key_down = Some(true);
        now.key_space = Some(true);
    });
    assert_eq!(menu.render(&mut phi, 0), ViewAction::Quit);
    assert_eq!(menu.selected, 0);
    press(&mut phi, |now| {
        now.quit = true;
        now.key_space = Some(true);
    });
    assert_eq!(menu.render(&mut phi, 0), ViewAction::Quit);
    assert_eq!(phi.renderer.len(), 0);
}

#[test]
fn the_menu_is_drawn_as_backgrounds_box_and_labels() {
    let mut phi = window();
    let mut menu = menu();
    press(&mut phi, |now| now.key_down = Some(true));
    assert_eq!(menu.render(&mut phi, 10_000), ViewAction::Continue);
    let frame = phi.renderer.take();
    let px = |x: i64, y: i64, w: i64, h: i64| Rectangle {
        x: x * UNIT,
        y: y * UNIT,
        w: w * UNIT,
        h: h * UNIT,
    };
    assert_eq!(
        frame,
        vec![
            DrawCall::Clear,
            DrawCall::Background { layer: Layer::Back, elapsed: 10_000 },
            DrawCall::Background { layer: Layer::Middle, elapsed: 10_000 },
            DrawCall::Background { layer: Layer::Front, elapsed: 10_000 },
            DrawCall::Fill { red: 70, green: 15, blue: 70, rect: px(217, 237, 366, 126) },
            DrawCall::Fill { red: 140, green: 30, blue: 140, rect: px(220, 240, 360, 120) },
            DrawCall::Copy { sprite: label(10, 120, 32), dest: px(340, 259, 120, 32) },
            DrawCall::Copy { sprite: label(13, 70, 38), dest: px(365, 306, 70, 38) },
        ]
    );
}

#[test]
fn a_label_wider_than_the_window_is_centered_all_the_same() {
    let mut phi = Phi::new(Events::new(), DrawList::new(100, 50));
    let mut menu = MainMenuView::new(
        (label(10, 120, 32), label(11, 141, 39)),
        (label(12, 60, 32), label(13, 70, 38)),
    );
    assert_eq!(menu.render(&mut phi, 0), ViewAction::Continue);
    let frame = phi.renderer.take();
    assert_eq!(
        frame[4],
        DrawCall::Fill {
            red: 70,
            green: 15,
            blue: 70,
            rect: Rectangle { x: -133 * UNIT, y: -38 * UNIT, w: 366 * UNIT, h: 126 * UNIT },
        }
    );
    assert_eq!(
        frame[6],
        DrawCall::Copy {
            sprite: label(11, 141, 39),
            dest: Rectangle { x: -20_500_000, y: -19_500_000, w: 141 * UNIT, h: 39 * UNIT },
        }
    );
    assert_eq!(
        frame[7],
        DrawCall::Copy {
            sprite: label(12, 60, 32),
            dest: Rectangle { x: 20 * UNIT, y: 34 * UNIT, w: 60 * UNIT, h: 32 * UNIT },
        }
    );
}
