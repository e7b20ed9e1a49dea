//! What a frame shows: the state laid out as plain text in areas of the
//! screen, ready to be drawn.

use vstd::prelude::*;
use crate::app::{App, CurrentScreen, LinkView};
use crate::layout::{centered_rect, centres, may_split, split, Constraint, Direction, Rect};
use crate::text::texts;

verus! {

/// The title bar.
#[derive(Debug)]
pub struct Header {
    pub area: Rect,
    pub title: String,
}

/// The list of queued links, one row of cells for each.
#[derive(Debug)]
pub struct Body {
    pub area: Rect,
    pub rows: Vec<Vec<String>>,
}

/// The add-link dialog with the text entered so far.
#[derive(Debug)]
pub struct Dialog {
    pub area: Rect,
    pub input: String,
}

/// The key hints at the bottom, as the parts of one line.
#[derive(Debug)]
pub struct Footer {
    pub area: Rect,
    pub hints: Vec<String>,
}

/// One frame, top to bottom; the dialog, when there is one, lies over it.
#[derive(Debug)]
pub struct Scene {
    pub header: Header,
    pub body: Body,
    pub dialog: Option<Dialog>,
    pub footer: Footer,
}

/// The title shown in the header.
pub open spec fn title() -> Seq<char> {
    "IDM Clone TUI"@
}

/// The rows of the list: each link with its label, in queue order.
pub open spec fn rows(links: Seq<LinkView>) -> Seq<Seq<Seq<char>>> {
    Seq::new(links.len(), |i: int| links[i].to_row(i as nat))
}

/// What a list of rows holds, each cell as its characters.
pub open spec fn row_texts(rows: Seq<Vec<String>>) -> Seq<Seq<Seq<char>>> {
    rows.map_values(|row: Vec<String>| texts(row@))
}

/// The parts of the footer line for each screen.
pub open spec fn hints(screen: CurrentScreen) -> Seq<Seq<char>> {
    match screen {
        CurrentScreen::Main => seq!["(Q) Quit the terminal"@, " / "@, "(A) Add new download link"@],
        CurrentScreen::AddDialog => seq!["(ESC) Close the dialog"@, " / "@, "(Enter) Submit"@],
    }
}

/// The footer line for each screen, in one piece.
pub open spec fn footer_line(screen: CurrentScreen) -> Seq<char> {
    match screen {
        CurrentScreen::Main => "(Q) Quit the terminal / (A) Add new download link"@,
        CurrentScreen::AddDialog => "(ESC) Close the dialog / (Enter) Submit"@,
    }
}

/// The parts of the footer, put together, read as the footer line.
pub proof fn lemma_hints_make_the_footer_line(screen: CurrentScreen)
    ensures
        hints(screen)[0] + hints(screen)[1] + hints(screen)[2] == footer_line(screen),
{
    reveal_strlit(" / ");
    match screen {
        CurrentScreen::Main => {
            reveal_strlit("(Q) Quit the terminal");
            reveal_strlit("(A) Add new download link");
            reveal_strlit("(Q) Quit the terminal / (A) Add new download link");
            assert("(Q) Quit the terminal"@ + " / "@ + "(A) Add new download link"@
                =~= "(Q) Quit the terminal / (A) Add new download link"@);
        },
        CurrentScreen::AddDialog => {
            reveal_strlit("(ESC) Close the dialog");
            reveal_strlit("(Enter) Submit");
            reveal_strlit("(ESC) Close the dialog / (Enter) Submit");
            assert("(ESC) Close the dialog"@ + " / "@ + "(Enter) Submit"@
                =~= "(ESC) Close the dialog / (Enter) Submit"@);
        },
    }
}

/// The share of the frame's width that the dialog takes, in percent.
pub const DIALOG_WIDTH: u16 = 60;

/// The share of the frame's height that the dialog takes, in percent.
pub const DIALOG_HEIGHT: u16 = 10;

/// What is asked of the three bands of a frame: three rows for the header,
/// three for the footer, and the rest, one row at least, for the list.
pub open spec fn bands() -> Seq<Constraint> {
    seq![Constraint::Length(3), Constraint::Min(1), Constraint::Length(3)]
}

/// The constraints for the three bands of a frame, top to bottom.
pub fn band_constraints() -> (constraints: Vec<Constraint>)
    ensures
        constraints@ == bands(),
{
    vec![Constraint::Length(3), Constraint::Min(1), Constraint::Length(3)]
}

/// The header in `area`.
pub fn render_header(area: Rect) -> (header: Header)
    ensures
        header.area == area,
        header.title@ == title(),
{
    Header { area, title: "IDM Clone TUI".to_owned() }
}

/// The list in `area`: a row for every queued link, in order.
pub fn render_body(app: &App, area: Rect) -> (body: Body)
    ensures
        body.area == area,
        body.rows@.len() == app@.links.len(),
        row_texts(body.rows@) == rows(app@.links),
{
    let mut list: Vec<Vec<String>> = Vec::new();
    let mut index: usize = 0;
    while index < app.links.len()
        invariant
            index <= app.links.len(),
            list@.len() == index,
            forall|i: int| 0 <= i < index ==> texts(#[trigger] list@[i]@) == app@.links[i].to_row(i as nat),
        decreases app.links.len() - index,
    {
        list.push(app.links[index].to_row(index));
        index += 1;
    }
    Body { area, rows: list }
}

/// The dialog over a frame of `frame`, showing the buffer as it stands. Its
/// area is `centered_rect(DIALOG_WIDTH, DIALOG_HEIGHT, frame)`.
pub fn render_dialog(app: &App, frame: Rect) -> (dialog: Dialog)
    ensures
        exists|rows: Seq<Rect>, columns: Seq<Rect>|
            centres(DIALOG_WIDTH, DIALOG_HEIGHT, frame, rows, columns, dialog.area),
        frame.contains(dialog.area),
        dialog.input@ == app@.input,
{
    let area = centered_rect(DIALOG_WIDTH, DIALOG_HEIGHT, frame);
    let dialog = Dialog { area, input: app.input.clone() };
    proof {
        let (rows, columns) = choose|rows: Seq<Rect>, columns: Seq<Rect>|
            centres(DIALOG_WIDTH, DIALOG_HEIGHT, frame, rows, columns, area);
        assert(centres(DIALOG_WIDTH, DIALOG_HEIGHT, frame, rows, columns, dialog.area));
    }
    dialog
}

/// The footer in `area`, with the hints for the screen that is up.
pub fn render_footer(area: Rect, app: &App) -> (footer: Footer)
    ensures
        footer.area == area,
        footer.hints@.len() == 3,
        texts(footer.hints@) == hints(app@.current_screen),
{
    let parts = match app.current_screen {
        CurrentScreen::Main => vec![
            "(Q) Quit the terminal".to_owned(),
            " / ".to_owned(),
            "(A) Add new download link".to_owned(),
        ],
        CurrentScreen::AddDialog => vec![
            "(ESC) Close the dialog".to_owned(),
            " / ".to_owned(),
            "(Enter) Submit".to_owned(),
        ],
    };
    Footer { area, hints: parts }
}

/// The frame for `app` on a screen of `area`: `area` cut into header, list
/// and footer as `bands()` asks, with the dialog on top exactly while the
/// add-link screen is up.
pub fn ui(area: Rect, app: &App) -> (scene: Scene)
    ensures
        may_split(
            Direction::Vertical,
            bands(),
            area,
            seq![scene.header.area, scene.body.area, scene.footer.area],
        ),
        scene.header.title@ == title(),
        scene.body.rows@.len() == app@.links.len(),
        row_texts(scene.body.rows@) == rows(app@.links),
        scene.dialog is Some <==> app@.current_screen == CurrentScreen::AddDialog,
        scene.dialog matches Some(dialog) ==> area.contains(dialog.area) && dialog.input@ == app@.input,
        scene.dialog matches Some(dialog) ==> (exists|rows: Seq<Rect>, columns: Seq<Rect>|
            centres(DIALOG_WIDTH, DIALOG_HEIGHT, area, rows, columns, dialog.area)),
        scene.footer.hints@.len() == 3,
        texts(scene.footer.hints@) == hints(app@.current_screen),
{
    let chunks = split(Direction::Vertical, &band_constraints(), area);
    let header = render_header(chunks[0]);
    let body = render_body(app, chunks[1]);
    let dialog = if app.current_screen == CurrentScreen::AddDialog {
        Some(render_dialog(app, area))
    } else {
        None
    };
    let footer = render_footer(chunks[2], app);
    assert(seq![header.area, body.area, footer.area] =~= chunks@);
    Scene { header, body, dialog, footer }
}

} // verus!
