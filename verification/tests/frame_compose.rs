use php_docbook::render::{compose_frame, title_text, Alignment, Rect, TitleStyle};
use php_docbook::state::Screen;

#[test]
fn title_for_a_version_is_exact() {
    let title = title_text("1.2.3");
    assert_eq!(title, "PHP DocBook 1.2.3");
}

#[test]
fn frame_title_is_centered_bold_accented() {
    let area = Rect { x: 0, y: 0, width: 40, height: 12 };
    let plan = compose_frame(Screen::Home, area, "1.2.3");
    assert_eq!(plan.title, "PHP DocBook 1.2.3");
    assert_eq!(
        plan.style,
        TitleStyle { alignment: Alignment::Center, bold: true, accent: true }
    );
    assert_eq!(plan.area, area);
    assert_eq!(plan.screen, Screen::Home);
}

#[test]
fn interior_sits_inside_the_border() {
    let area = Rect { x: 0, y: 0, width: 40, height: 12 };
    let plan = compose_frame(Screen::Home, area, "0.1.0");
    assert_eq!(plan.interior, Rect { x: 1, y: 1, width: 38, height: 10 });
}

#[test]
fn composition_is_idempotent() {
    let area = Rect { x: 3, y: 2, width: 20, height: 7 };
    let first = compose_frame(Screen::Home, area, "0.3.1");
    let second = compose_frame(Screen::Home, area, "0.3.1");
    assert_eq!(first.area, second.area);
    assert_eq!(first.title, second.title);
    assert_eq!(first.style, second.style);
    assert_eq!(first.interior, second.interior);
    assert_eq!(first.screen, second.screen);
}

#[test]
fn inner_of_offset_area() {
    let area = Rect { x: 5, y: 4, width: 10, height: 6 };
    assert_eq!(area.inner(), Rect { x: 6, y: 5, width: 8, height: 4 });
}

#[test]
fn inner_of_degenerate_areas_is_empty() {
    let thin = Rect { x: 2, y: 2, width: 1, height: 9 };
    let inner = thin.inner();
    assert_eq!(inner.width, 0);
    assert_eq!(inner.x, 2);
    assert_eq!(inner.height, 7);

    let flat = Rect { x: 0, y: 0, width: 0, height: 0 };
    assert_eq!(flat.inner(), Rect { x: 0, y: 0, width: 0, height: 0 });
}

#[test]
fn inner_saturates_at_the_grid_edge() {
    let far = Rect { x: u16::MAX, y: u16::MAX, width: 3, height: 3 };
    let inner = far.inner();
    assert_eq!(inner.x, u16::MAX);
    assert_eq!(inner.y, u16::MAX);
    assert_eq!(inner.width, 1);
    assert_eq!(inner.height, 1);
}

#[test]
fn empty_version_still_titles() {
    let title = title_text("");
    assert_eq!(title, "PHP DocBook ");
}
