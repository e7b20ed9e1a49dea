use idm_tui::app::App;
use idm_tui::layout::{centered_rect, centering_constraints, middle, Constraint, Rect};
use idm_tui::ui::{
    band_constraints, render_body, render_dialog, render_footer, render_header, ui, DIALOG_HEIGHT,
    DIALOG_WIDTH,
};

fn rect(x: u16, y: u16, width: u16, height: u16) -> Rect {
    Rect { x, y, width, height }
}

fn within(outer: Rect, inner: Rect) -> bool {
    outer.x <= inner.x
        && u32::from(inner.x) + u32::from(inner.width) <= u32::from(outer.x) + u32::from(outer.width)
        && outer.y <= inner.y
        && u32::from(inner.y) + u32::from(inner.height) <= u32::from(outer.y) + u32::from(outer.height)
}

fn with_links(urls: &[&str]) -> App {
    let mut app = App::new();
    for url in urls {
        app.begin_editing();
        app.paste(url);
        app.add_to_download_list();
    }
    app
}

#[test]
fn centering_constraints_halve_what_is_left() {
    assert_eq!(
        centering_constraints(60),
        vec![Constraint::Percentage(20), Constraint::Percentage(60), Constraint::Percentage(20)]
    );
    assert_eq!(
        centering_constraints(10),
        vec![Constraint::Percentage(45), Constraint::Percentage(10), Constraint::Percentage(45)]
    );
}

#[test]
fn centering_constraints_round_the_sides_down() {
    assert_eq!(
        centering_constraints(33),
        vec![Constraint::Percentage(33), Constraint::Percentage(33), Constraint::Percentage(33)]
    );
    assert_eq!(
        centering_constraints(99),
        vec![Constraint::Percentage(0), Constraint::Percentage(99), Constraint::Percentage(0)]
    );
}

#[test]
fn centering_constraints_at_the_ends() {
    assert_eq!(
        centering_constraints(0),
        vec![Constraint::Percentage(50), Constraint::Percentage(0), Constraint::Percentage(50)]
    );
    assert_eq!(
        centering_constraints(100),
        vec![Constraint::Percentage(0), Constraint::Percentage(100), Constraint::Percentage(0)]
    );
}

#[test]
fn middle_is_the_second_of_three() {
    let pieces = vec![rect(0, 0, 1, 1), rect(1, 0, 2, 1), rect(3, 0, 4, 1)];
    assert_eq!(middle(&pieces), rect(1, 0, 2, 1));
}

#[test]
fn centered_rect_on_a_square_of_a_hundred() {
    assert_eq!(centered_rect(60, 10, rect(0, 0, 100, 100)), rect(20, 45, 60, 10));
}

#[test]
fn centered_rect_keeps_the_offset_of_the_area() {
    assert_eq!(centered_rect(50, 50, rect(10, 20, 100, 40)), rect(35, 30, 50, 20));
}

#[test]
fn centered_rect_lies_within_the_area() {
    let areas = [
        rect(0, 0, 80, 24),
        rect(3, 5, 17, 9),
        rect(0, 0, 1, 1),
        rect(0, 0, 0, 0),
        rect(65_000, 65_000, 535, 535),
        rect(0, 0, 65_535, 1),
    ];
    for area in areas {
        for (px, py) in [(60, 10), (0, 0), (100, 100), (1, 99), (33, 67)] {
            let popup = centered_rect(px, py, area);
            assert!(within(area, popup));
        }
    }
}

#[test]
fn centered_rect_lies_within_every_small_area() {
    for (x, y) in [(0, 0), (5, 7)] {
        for width in 0..30 {
            for height in 0..30 {
                let area = rect(x, y, width, height);
                for (px, py) in [(60, 10), (0, 100), (100, 0), (50, 50), (99, 1)] {
                    assert!(within(area, centered_rect(px, py, area)));
                }
            }
        }
    }
}

#[test]
fn centered_rect_at_the_far_corner() {
    let area = rect(u16::MAX, u16::MAX, u16::MAX, u16::MAX);
    assert!(within(area, centered_rect(60, 10, area)));
    let area = rect(0, 0, u16::MAX, u16::MAX);
    assert!(within(area, centered_rect(60, 10, area)));
}

#[test]
fn centered_rect_takes_the_whole_at_a_hundred_percent() {
    assert_eq!(centered_rect(100, 100, rect(4, 2, 30, 12)), rect(4, 2, 30, 12));
}

#[test]
fn band_constraints_are_three_rows_rest_three_rows() {
    assert_eq!(
        band_constraints(),
        vec![Constraint::Length(3), Constraint::Min(1), Constraint::Length(3)]
    );
}

#[test]
fn ui_cuts_the_frame_into_three_bands() {
    let app = App::new();
    let scene = ui(rect(0, 0, 80, 24), &app);
    assert_eq!(scene.header.area, rect(0, 0, 80, 3));
    assert_eq!(scene.body.area, rect(0, 3, 80, 18));
    assert_eq!(scene.footer.area, rect(0, 21, 80, 3));
}

#[test]
fn ui_bands_follow_one_another_inside_the_frame() {
    let app = App::new();
    for area in [rect(0, 0, 80, 24), rect(2, 1, 40, 7), rect(0, 0, 10, 4), rect(0, 0, 0, 0)] {
        let scene = ui(area, &app);
        for band in [scene.header.area, scene.body.area, scene.footer.area] {
            assert!(within(area, band));
            assert_eq!(band.x, area.x);
            assert_eq!(band.width, area.width);
        }
        assert!(scene.header.area.y + scene.header.area.height <= scene.body.area.y);
        assert!(scene.body.area.y + scene.body.area.height <= scene.footer.area.y);
    }
}

#[test]
fn ui_bands_on_every_small_frame() {
    let app = App::new();
    for width in 0..30 {
        for height in 0..30 {
            let area = rect(1, 2, width, height);
            let scene = ui(area, &app);
            let bands = [scene.header.area, scene.body.area, scene.footer.area];
            for band in bands {
                assert!(within(area, band));
                assert_eq!((band.x, band.width), (area.x, area.width));
            }
            assert!(bands[0].y + bands[0].height <= bands[1].y);
            assert!(bands[1].y + bands[1].height <= bands[2].y);
        }
    }
}

#[test]
fn ui_gives_the_list_what_header_and_footer_leave() {
    let app = App::new();
    for height in 7..60 {
        let scene = ui(rect(0, 0, 20, height), &app);
        assert_eq!(scene.header.area, rect(0, 0, 20, 3));
        assert_eq!(scene.body.area, rect(0, 3, 20, height - 6));
        assert_eq!(scene.footer.area, rect(0, height - 3, 20, 3));
    }
}

#[test]
fn ui_on_the_main_screen() {
    let app = with_links(&["http://a", "http://b"]);
    let scene = ui(rect(0, 0, 80, 24), &app);
    assert_eq!(scene.header.title, "IDM Clone TUI");
    assert_eq!(
        scene.body.rows,
        vec![
            vec![String::from("1 - "), String::from("http://a")],
            vec![String::from("2 - "), String::from("http://b")],
        ]
    );
    assert!(scene.dialog.is_none());
    assert_eq!(scene.footer.hints.concat(), "(Q) Quit the terminal / (A) Add new download link");
}

#[test]
fn ui_with_the_dialog_up() {
    let mut app = with_links(&["http://a"]);
    app.begin_editing();
    app.paste("http://n");
    let area = rect(0, 0, 100, 100);
    let scene = ui(area, &app);
    let dialog = scene.dialog.expect("the dialog is up");
    assert_eq!(dialog.input, "http://n");
    assert_eq!(dialog.area, rect(20, 45, 60, 10));
    assert_eq!(scene.body.rows, vec![vec![String::from("1 - "), String::from("http://a")]]);
    assert_eq!(scene.footer.hints.concat(), "(ESC) Close the dialog / (Enter) Submit");
}

#[test]
fn dialog_takes_sixty_by_ten_percent() {
    assert_eq!(DIALOG_WIDTH, 60);
    assert_eq!(DIALOG_HEIGHT, 10);
    let app = App::new();
    let dialog = render_dialog(&app, rect(0, 0, 100, 100));
    assert_eq!(dialog.area, centered_rect(60, 10, rect(0, 0, 100, 100)));
    assert_eq!(dialog.input, "");
}

#[test]
fn render_header_has_the_title() {
    let header = render_header(rect(1, 2, 3, 4));
    assert_eq!(header.area, rect(1, 2, 3, 4));
    assert_eq!(header.title, "IDM Clone TUI");
}

#[test]
fn render_body_of_an_empty_queue() {
    let body = render_body(&App::new(), rect(0, 3, 80, 18));
    assert_eq!(body.area, rect(0, 3, 80, 18));
    assert!(body.rows.is_empty());
}

#[test]
fn render_body_numbers_the_rows_in_queue_order() {
    let urls: Vec<String> = (0..12).map(|n| format!("u{}", n)).collect();
    let refs: Vec<&str> = urls.iter().map(|u| u.as_str()).collect();
    let body = render_body(&with_links(&refs), rect(0, 0, 10, 10));
    assert_eq!(body.rows.len(), 12);
    for (i, row) in body.rows.iter().enumerate() {
        assert_eq!(row, &vec![format!("{} - ", i + 1), format!("u{}", i)]);
    }
}

#[test]
fn render_footer_hints_for_each_screen() {
    let mut app = App::new();
    let footer = render_footer(rect(0, 21, 80, 3), &app);
    assert_eq!(footer.area, rect(0, 21, 80, 3));
    assert_eq!(
        footer.hints,
        vec![
            String::from("(Q) Quit the terminal"),
            String::from(" / "),
            String::from("(A) Add new download link"),
        ]
    );
    app.begin_editing();
    let footer = render_footer(rect(0, 21, 80, 3), &app);
    assert_eq!(
        footer.hints,
        vec![
            String::from("(ESC) Close the dialog"),
            String::from(" / "),
            String::from("(Enter) Submit"),
        ]
    );
}
