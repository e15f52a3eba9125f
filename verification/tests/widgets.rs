use termdef::actions::{GameAction, InterfaceAction};
use termdef::button::{split_lines, text_style, Button};
use termdef::colors;
use termdef::colors::Rgb;
use termdef::event::{Event, MouseButton, MouseEvent, MouseEventKind};
use termdef::geometry::Rect;
use termdef::render_context::RenderContext;
use termdef::screen::{is_game_area, plan, Screen};
use termdef::utils::{choose_data_dir, get_data_dir, version};
use termdef::widget_id::WidgetId;

fn rgb(r: u8, g: u8, b: u8) -> Rgb {
    Rgb { r, g, b }
}

#[test]
fn palette_holds_the_documented_colours() {
    assert_eq!(colors::black(), rgb(0x14, 0x0C, 0x1C));
    assert_eq!(colors::dark_red(), rgb(0x44, 0x24, 0x34));
    assert_eq!(colors::dark_blue(), rgb(0x30, 0x34, 0x6D));
    assert_eq!(colors::dark_gray(), rgb(0x4E, 0x4A, 0x4F));
    assert_eq!(colors::brown(), rgb(0x85, 0x4C, 0x30));
    assert_eq!(colors::dark_green(), rgb(0x34, 0x65, 0x24));
    assert_eq!(colors::red(), rgb(0xD0, 0x46, 0x48));
    assert_eq!(colors::light_gray(), rgb(0x75, 0x71, 0x61));
    assert_eq!(colors::light_blue(), rgb(0x59, 0x7D, 0xCE));
    assert_eq!(colors::orange(), rgb(0xD2, 0x7D, 0x2C));
    assert_eq!(colors::blue_gray(), rgb(0x85, 0x95, 0xA1));
    assert_eq!(colors::light_green(), rgb(0x6D, 0xAA, 0x2C));
    assert_eq!(colors::peach(), rgb(0xD2, 0xAA, 0x99));
    assert_eq!(colors::cyan(), rgb(0x6D, 0xC2, 0xCA));
    assert_eq!(colors::yellow(), rgb(0xDA, 0xD4, 0x5E));
    assert_eq!(colors::white(), rgb(0xDE, 0xEE, 0xD6));
    assert_eq!(colors::selected(), colors::dark_gray());
}

#[test]
fn text_style_follows_hover_and_press() {
    let plain = text_style("Go", false, false);
    assert_eq!(plain.content, "Go");
    assert_eq!(plain.style.fg, colors::white());
    assert_eq!(plain.style.bg, None);
    assert!(!plain.style.underlined);

    let hovered = text_style("Go", true, false);
    assert_eq!(hovered.style.bg, Some(colors::selected()));
    assert!(!hovered.style.underlined);

    let pressed = text_style("Go", false, true);
    assert_eq!(pressed.style.bg, None);
    assert!(pressed.style.underlined);

    let both = text_style("Go", true, true);
    assert_eq!(both.style.bg, Some(colors::selected()));
    assert!(both.style.underlined);
}

#[test]
fn split_lines_cuts_at_line_feeds() {
    assert_eq!(split_lines(""), vec![String::new()]);
    assert_eq!(split_lines("Start"), vec!["Start".to_string()]);
    assert_eq!(split_lines("New\nGame"), vec!["New".to_string(), "Game".to_string()]);
    assert_eq!(split_lines("a\n"), vec!["a".to_string(), String::new()]);
    assert_eq!(split_lines("\na"), vec![String::new(), "a".to_string()]);
    assert_eq!(split_lines("\n\n"), vec![String::new(), String::new(), String::new()]);
    assert_eq!(split_lines("é\nü"), vec!["é".to_string(), "ü".to_string()]);
}

#[test]
fn button_takes_its_part_in_the_pass_and_styles_its_lines() {
    let id = WidgetId::new(5);
    let area = Rect::new(0, 0, 20, 10);
    let action = InterfaceAction::from(GameAction::Command(1));
    let mut context = RenderContext::default();

    let moved = Event::Mouse(MouseEvent { kind: MouseEventKind::Moved, column: 10, row: 5 });
    context.set_last_event(Some(moved));
    let lines = Button::new("New\nGame".to_string(), action, id).render(area, &mut context);
    assert_eq!(lines.len(), 2);
    assert_eq!(lines[0].content, "New");
    assert_eq!(lines[1].content, "Game");
    assert_eq!(lines[0].style.bg, None);
    let resolved = context.finish_render();
    assert_eq!(resolved, Some(InterfaceAction::SetHover(Some(id))));
    context.dispatch(resolved.unwrap());

    let down =
        Event::Mouse(MouseEvent { kind: MouseEventKind::Down(MouseButton::Left), column: 10, row: 5 });
    context.set_last_event(Some(down));
    let lines = Button::new("New\nGame".to_string(), action, id).render(area, &mut context);
    assert_eq!(lines[0].style.bg, Some(colors::selected()));
    assert!(!lines[0].style.underlined);
    let resolved = context.finish_render();
    assert_eq!(resolved, Some(InterfaceAction::SetMouseDown(Some(id))));
    context.dispatch(resolved.unwrap());

    let up =
        Event::Mouse(MouseEvent { kind: MouseEventKind::Up(MouseButton::Left), column: 10, row: 5 });
    context.set_last_event(Some(up));
    let lines = Button::new("New\nGame".to_string(), action, id).render(area, &mut context);
    assert!(lines[0].style.underlined);
    assert!(lines[1].style.underlined);
    assert_eq!(context.finish_render(), Some(action));
}

#[test]
fn small_viewport_gets_the_notice() {
    assert_eq!(plan(Rect::new(0, 0, 79, 24)), Screen::TooSmall { width: 79, height: 24 });
    assert_eq!(plan(Rect::new(0, 0, 80, 23)), Screen::TooSmall { width: 80, height: 23 });
    assert_eq!(plan(Rect::new(0, 0, 0, 0)), Screen::TooSmall { width: 0, height: 0 });
}

#[test]
fn viewport_without_room_for_the_outline_gets_the_game_area_alone() {
    assert_eq!(
        plan(Rect::new(0, 0, 80, 24)),
        Screen::Plain { game_area: Rect::new(0, 0, 80, 24) }
    );
    assert_eq!(
        plan(Rect::new(0, 0, 81, 30)),
        Screen::Plain { game_area: Rect::new(1, 3, 80, 24) }
    );
    assert_eq!(
        plan(Rect::new(0, 0, 100, 25)),
        Screen::Plain { game_area: Rect::new(10, 1, 80, 24) }
    );
}

#[test]
fn roomy_viewport_gets_the_outline_round_the_game_area() {
    assert_eq!(
        plan(Rect::new(0, 0, 82, 26)),
        Screen::Outlined { outline: Rect::new(0, 0, 82, 26), game_area: Rect::new(1, 1, 80, 24) }
    );
    assert_eq!(
        plan(Rect::new(0, 0, 100, 30)),
        Screen::Outlined { outline: Rect::new(9, 2, 82, 26), game_area: Rect::new(10, 3, 80, 24) }
    );
}

#[test]
fn planned_game_area_has_the_game_size() {
    for width in [80u16, 81, 82, 83, 120, 500] {
        for height in [24u16, 25, 26, 27, 60] {
            match plan(Rect::new(2, 1, width, height)) {
                Screen::TooSmall { .. } => panic!("viewport holds the game area"),
                Screen::Outlined { game_area, .. } => assert!(is_game_area(game_area)),
                Screen::Plain { game_area } => assert!(is_game_area(game_area)),
            }
        }
    }
    assert!(!is_game_area(Rect::new(0, 0, 80, 25)));
    assert!(!is_game_area(Rect::new(0, 0, 79, 24)));
}

#[test]
fn data_dir_prefers_the_override_then_the_system_then_the_fallback() {
    assert_eq!(choose_data_dir(Some("/a".to_string()), Some("/b".to_string())), "/a");
    assert_eq!(choose_data_dir(Some("/a".to_string()), None), "/a");
    assert_eq!(choose_data_dir(None, Some("/b".to_string())), "/b");
    assert_eq!(choose_data_dir(None, None), "./.data");
}

#[test]
fn get_data_dir_returns_the_override() {
    assert_eq!(get_data_dir(Some("/tmp/termdef".to_string())), "/tmp/termdef");
}

#[test]
fn get_data_dir_without_override_names_some_directory() {
    assert!(!get_data_dir(None).is_empty());
}

#[test]
fn version_lists_build_and_paths() {
    let text = version("0.1.0", "2024-05-01", "abc123", "/data/termdef.log", "/data");
    assert_eq!(
        text,
        "0.1.0\n\nBuilt: 2024-05-01\nCommit: abc123\nLog file: /data/termdef.log\nData directory: /data"
    );
}
