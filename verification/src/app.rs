//! The application state and the operations that change it.

use vstd::prelude::*;
use vstd::string::StringExecFns;
use crate::text::{decimal, push_decimal, texts};

verus! {

/// Which view is visible.
#[derive(Clone, Copy, Debug, PartialEq, Eq, Structural)]
pub enum CurrentScreen {
    Main,
    AddDialog,
}

/// Whether keys are read as commands or as text.
#[derive(Clone, Copy, Debug, PartialEq, Eq, Structural)]
pub enum InputMode {
    Normal,
    Editing,
}

/// The state of one queued download. Nothing moves a link to `Done` yet.
#[derive(Clone, Copy, Debug, PartialEq, Eq, Structural)]
pub enum DownloadStatus {
    InProgress,
    Done,
}

/// One queued download.
#[derive(Debug)]
pub struct Link {
    /// The text the user entered, taken as it is.
    pub url: String,
    pub status: DownloadStatus,
}

/// What a [`Link`] stands for in contracts.
pub struct LinkView {
    pub url: Seq<char>,
    pub status: DownloadStatus,
}

impl View for Link {
    type V = LinkView;

    open spec fn view(&self) -> LinkView {
        LinkView { url: self.url@, status: self.status }
    }
}

/// The label in front of the link at `index` of the list: its place,
/// counted from one, in decimal, then `" - "`.
pub open spec fn ordinal_label(index: nat) -> Seq<char> {
    decimal(index + 1) + " - "@
}

impl LinkView {
    /// The link that a submitted text becomes.
    pub open spec fn queued(url: Seq<char>) -> LinkView {
        LinkView { url, status: DownloadStatus::InProgress }
    }

    /// The two cells that show the link at `index` of the list.
    pub open spec fn to_row(self, index: nat) -> Seq<Seq<char>> {
        seq![ordinal_label(index), self.url]
    }
}

impl Link {
    /// A link for `link`, in progress.
    pub fn new(link: String) -> (res: Self)
        ensures
            res@ == LinkView::queued(link@),
    {
        Self { url: link, status: DownloadStatus::InProgress }
    }

    /// The cells of this link's row in the list, where it stands at `index`:
    /// the label, then the address.
    pub fn to_row(&self, index: usize) -> (cells: Vec<String>)
        requires
            index < usize::MAX,
        ensures
            texts(cells@) == self@.to_row(index as nat),
    {
        let mut label = String::new();
        push_decimal(&mut label, index + 1);
        label.append(" - ");
        vec![label, self.url.clone()]
    }
}

/// The whole of the mutable state: the queue, what is on screen, and the
/// text being entered.
#[derive(Debug)]
pub struct App {
    /// The queued links, oldest first. The order is the display order.
    pub links: Vec<Link>,
    pub current_screen: CurrentScreen,
    pub input_mode: InputMode,
    /// The text entered so far in the add-link dialog.
    pub input: String,
    /// Cursor position in `input`. Kept, but no operation reads or moves it.
    pub character_index: usize,
}

/// What an [`App`] stands for in contracts.
pub struct AppView {
    pub links: Seq<LinkView>,
    pub current_screen: CurrentScreen,
    pub input_mode: InputMode,
    pub input: Seq<char>,
    pub character_index: usize,
}

impl View for App {
    type V = AppView;

    open spec fn view(&self) -> AppView {
        AppView {
            links: self.links@.map_values(|link: Link| link@),
            current_screen: self.current_screen,
            input_mode: self.input_mode,
            input: self.input@,
            character_index: self.character_index,
        }
    }
}

impl AppView {
    /// The state at start: nothing queued, main screen, empty buffer.
    pub open spec fn initial() -> AppView {
        AppView {
            links: Seq::empty(),
            current_screen: CurrentScreen::Main,
            input_mode: InputMode::Normal,
            input: Seq::empty(),
            character_index: 0,
        }
    }

    /// The dialog is on screen exactly while text is being edited.
    pub open spec fn consistent(self) -> bool {
        self.current_screen == CurrentScreen::AddDialog <==> self.input_mode == InputMode::Editing
    }

    /// The state with `c` added at the end of the buffer.
    pub open spec fn enter_char(self, c: char) -> AppView {
        AppView { input: self.input.push(c), ..self }
    }

    /// The state with all of `s` added at the end of the buffer.
    pub open spec fn paste(self, s: Seq<char>) -> AppView {
        AppView { input: self.input + s, ..self }
    }

    /// The state without the last character of the buffer; the same state
    /// where the buffer is empty.
    pub open spec fn delete_char(self) -> AppView {
        if self.input.len() == 0 {
            self
        } else {
            AppView { input: self.input.drop_last(), ..self }
        }
    }

    /// The state back on the main screen, in normal mode, with an empty
    /// buffer. The queue stays.
    pub open spec fn reset(self) -> AppView {
        AppView {
            current_screen: CurrentScreen::Main,
            input_mode: InputMode::Normal,
            input: Seq::empty(),
            ..self
        }
    }

    /// The state after a submission. In editing mode the buffer is queued
    /// as one more link, at the end; in normal mode the queue stays as it
    /// is. Either way the state is then reset.
    pub open spec fn add_to_download_list(self) -> AppView {
        if self.input_mode == InputMode::Editing {
            AppView { links: self.links.push(LinkView::queued(self.input)), ..self }.reset()
        } else {
            self.reset()
        }
    }

    /// The state with the dialog up and the mode editing. The buffer stays.
    pub open spec fn begin_editing(self) -> AppView {
        AppView {
            current_screen: CurrentScreen::AddDialog,
            input_mode: InputMode::Editing,
            ..self
        }
    }
}

impl App {
    /// The state at start.
    pub fn new() -> (res: Self)
        ensures
            res@ == AppView::initial(),
            res@.consistent(),
    {
        let res = Self {
            links: vec![],
            current_screen: CurrentScreen::Main,
            input_mode: InputMode::Normal,
            input: String::new(),
            character_index: 0,
        };
        assert(res@.links =~= Seq::empty());
        res
    }

    /// Appends all of `s` to the buffer in one step.
    pub fn paste(&mut self, s: &str)
        ensures
            final(self)@ == old(self)@.paste(s@),
            final(self)@.consistent() == old(self)@.consistent(),
    {
        self.input.append(s)
    }

    /// Appends `new_char` to the buffer.
    pub fn enter_char(&mut self, new_char: char)
        ensures
            final(self)@ == old(self)@.enter_char(new_char),
            final(self)@.consistent() == old(self)@.consistent(),
    {
        self.input.push(new_char);
    }

    /// Removes the last character of the buffer. On an empty buffer nothing
    /// changes.
    pub fn delete_char(&mut self)
        ensures
            final(self)@ == old(self)@.delete_char(),
            old(self)@.input.len() == 0 ==> final(self)@ == old(self)@,
            final(self)@.consistent() == old(self)@.consistent(),
    {
        self.input.pop();
    }

    /// Submits the buffer. In editing mode it is queued as a new link,
    /// whatever it holds, an empty text too; in normal mode no link is made.
    /// In both the state goes back to the main screen with an empty buffer.
    /// Nothing else adds to the queue.
    pub fn add_to_download_list(&mut self)
        ensures
            final(self)@ == old(self)@.add_to_download_list(),
            final(self)@.links == (if old(self)@.input_mode == InputMode::Editing {
                old(self)@.links.push(LinkView::queued(old(self)@.input))
            } else {
                old(self)@.links
            }),
            old(self)@.input_mode == InputMode::Editing
                ==> final(self)@.links.len() == old(self)@.links.len() + 1,
            final(self)@.current_screen == CurrentScreen::Main,
            final(self)@.input_mode == InputMode::Normal,
            final(self)@.input.len() == 0,
            final(self)@.consistent(),
    {
        if self.input_mode == InputMode::Editing {
            let link = Link::new(self.input.clone());
            self.links.push(link);
            assert(self.links@.map_values(|link: Link| link@) =~= old(self)@.links.push(
                LinkView::queued(old(self)@.input),
            ));
        }
        self.reset()
    }

    /// Clears the buffer and goes back to the main screen; the way out of
    /// the dialog on submit and on cancel alike.
    pub fn reset(&mut self)
        ensures
            final(self)@ == old(self)@.reset(),
            final(self)@.consistent(),
    {
        self.input = String::new();
        self.current_screen = CurrentScreen::Main;
        self.input_mode = InputMode::Normal;
    }

    /// Opens the add-link dialog. The buffer keeps what it held.
    pub fn begin_editing(&mut self)
        ensures
            final(self)@ == old(self)@.begin_editing(),
            final(self)@.consistent(),
    {
        self.input_mode = InputMode::Editing;
        self.current_screen = CurrentScreen::AddDialog;
    }
}

/// One call of an operation of [`App`], with its argument.
pub enum Operation {
    EnterChar(char),
    Paste(Seq<char>),
    DeleteChar,
    AddToDownloadList,
    Reset,
    BeginEditing,
}

impl Operation {
    /// The operation only adds text to the buffer.
    pub open spec fn types(self) -> bool {
        self is EnterChar || self is Paste
    }

    /// The text that the operation adds to the buffer, if it adds any.
    pub open spec fn text(self) -> Seq<char> {
        match self {
            Operation::EnterChar(c) => seq![c],
            Operation::Paste(s) => s,
            _ => Seq::empty(),
        }
    }
}

/// The texts of `ops`, one after the other.
pub open spec fn typed(ops: Seq<Operation>) -> Seq<char>
    decreases ops.len(),
{
    if ops.len() == 0 {
        Seq::empty()
    } else {
        typed(ops.drop_last()) + ops.last().text()
    }
}

impl AppView {
    /// The state after one operation.
    pub open spec fn apply(self, op: Operation) -> AppView {
        match op {
            Operation::EnterChar(c) => self.enter_char(c),
            Operation::Paste(s) => self.paste(s),
            Operation::DeleteChar => self.delete_char(),
            Operation::AddToDownloadList => self.add_to_download_list(),
            Operation::Reset => self.reset(),
            Operation::BeginEditing => self.begin_editing(),
        }
    }

    /// The state after `ops`, applied in order.
    pub open spec fn apply_all(self, ops: Seq<Operation>) -> AppView
        decreases ops.len(),
    {
        if ops.len() == 0 {
            self
        } else {
            self.apply_all(ops.drop_last()).apply(ops.last())
        }
    }
}

/// How many of `ops`, applied in order from `state`, queue a link: the
/// submissions that come while the mode is editing.
pub open spec fn submissions(state: AppView, ops: Seq<Operation>) -> nat
    decreases ops.len(),
{
    if ops.len() == 0 {
        0
    } else if ops.last() is AddToDownloadList && state.apply_all(ops.drop_last()).input_mode
        == InputMode::Editing {
        submissions(state, ops.drop_last()) + 1
    } else {
        submissions(state, ops.drop_last())
    }
}

/// After any run of `enter_char` and `paste`, the buffer is what it was
/// followed by the pieces in the order they were given, and nothing else
/// has changed.
pub proof fn lemma_buffer_joins_what_was_typed(state: AppView, ops: Seq<Operation>)
    requires
        forall|i: int| 0 <= i < ops.len() ==> ops[i].types(),
    ensures
        state.apply_all(ops) == (AppView { input: state.input + typed(ops), ..state }),
    decreases ops.len(),
{
    if ops.len() == 0 {
        assert(state.input + typed(ops) =~= state.input);
    } else {
        let before = ops.drop_last();
        lemma_buffer_joins_what_was_typed(state, before);
        assert((state.input + typed(before)) + ops.last().text() =~= state.input + typed(ops));
        if let Operation::EnterChar(c) = ops.last() {
            assert((state.input + typed(before)).push(c) =~= state.input + typed(before) + seq![c]);
        }
    }
}

/// Every operation leaves a consistent state consistent: the dialog is up
/// exactly while the mode is editing.
pub proof fn lemma_consistency_is_kept(state: AppView, ops: Seq<Operation>)
    requires
        state.consistent(),
    ensures
        state.apply_all(ops).consistent(),
    decreases ops.len(),
{
    if ops.len() > 0 {
        lemma_consistency_is_kept(state, ops.drop_last());
    }
}

/// The queue only grows: whatever the operations, the links that were
/// queued stay where they were, and one link is added at the end for each
/// submission made in editing mode.
pub proof fn lemma_links_only_grow(state: AppView, ops: Seq<Operation>)
    ensures
        state.links.is_prefix_of(state.apply_all(ops).links),
        state.apply_all(ops).links.len() == state.links.len() + submissions(state, ops),
    decreases ops.len(),
{
    if ops.len() > 0 {
        lemma_links_only_grow(state, ops.drop_last());
    }
}

/// `ops` enters the text `s`: one `enter_char` for each character of `s`,
/// in order, and nothing else.
pub open spec fn enters(ops: Seq<Operation>, s: Seq<char>) -> bool {
    &&& ops.len() == s.len()
    &&& forall|i: int| 0 <= i < ops.len() ==> (#[trigger] ops[i]) is EnterChar && ops[i]->EnterChar_0 == s[i]
}

/// Pasting a text is entering its characters one by one, in order.
pub proof fn lemma_paste_is_typing_each_character(state: AppView, s: Seq<char>, ops: Seq<Operation>)
    requires
        enters(ops, s),
    ensures
        state.paste(s) == state.apply_all(ops),
    decreases ops.len(),
{
    if ops.len() == 0 {
        assert(state.input + s =~= state.input);
    } else {
        let front = s.drop_last();
        lemma_paste_is_typing_each_character(state, front, ops.drop_last());
        assert(ops.last() is EnterChar && ops.last()->EnterChar_0 == s.last());
        assert((state.input + front).push(s.last()) =~= state.input + s);
    }
}

} // verus!
