//! The text field of the forms, with its cursor, and the drafts that the
//! project and update forms fill field by field.
use vstd::prelude::*;

use crate::model::{
    copy_opt, opt_view, ProjectDraft, ProjectDraftView, ProjectStep, Update, UpdateDraft,
    UpdateDraftView, UpdateStep, UpdateView,
};
use crate::text::{
    blank, chars_of, copy_range, file_name, is_blank, opt_seq, path_file_name, string_of,
};

verus! {

/// Whether keys edit the text field.
#[derive(Debug, Clone, Copy, PartialEq, Eq, Structural)]
pub enum InputMode {
    Normal,
    Editing,
}

/// The text field and the drafts of the two forms.
///
/// `character_index` counts characters, not bytes.
#[derive(Debug)]
pub struct Input {
    pub input: String,
    pub character_index: usize,
    pub input_mode: InputMode,
    pub project: ProjectDraft,
    pub project_step: ProjectStep,
    pub update: UpdateDraft,
    pub update_step: UpdateStep,
}

pub struct InputView {
    pub text: Seq<char>,
    pub cursor: usize,
    pub mode: InputMode,
    pub project: ProjectDraftView,
    pub project_step: ProjectStep,
    pub update: UpdateDraftView,
    pub update_step: UpdateStep,
}

impl View for Input {
    type V = InputView;

    open spec fn view(&self) -> InputView {
        InputView {
            text: self.input@,
            cursor: self.character_index,
            mode: self.input_mode,
            project: self.project@,
            project_step: self.project_step,
            update: self.update@,
            update_step: self.update_step,
        }
    }
}

/// `x + 1`, staying at `usize::MAX`.
pub open spec fn inc_sat(x: usize) -> int {
    if x == usize::MAX {
        x as int
    } else {
        x + 1
    }
}

/// `x - 1`, staying at zero.
pub open spec fn dec_sat(x: usize) -> int {
    if x == 0 {
        0
    } else {
        x - 1
    }
}

/// The smaller of two integers.
pub open spec fn min_int(a: int, b: int) -> int {
    if a <= b {
        a
    } else {
        b
    }
}

/// `text` with `c` put at position `p`.
pub open spec fn insert_char(text: Seq<char>, p: int, c: char) -> Seq<char> {
    text.take(p) + seq![c] + text.skip(p)
}

/// The text that the literal `"None"` holds.
pub open spec fn none_text() -> Seq<char> {
    seq!['N', 'o', 'n', 'e']
}

/// The empty draft of a project.
pub open spec fn empty_project_draft() -> ProjectDraftView {
    ProjectDraftView { name: None, directory: None }
}

/// The empty draft of an update.
pub open spec fn empty_update_draft() -> UpdateDraftView {
    UpdateDraftView { title: None, project_id: None, body: None, next: None }
}

/// An empty field in normal mode, both forms at their first step.
pub open spec fn initial_input() -> InputView {
    InputView {
        text: Seq::empty(),
        cursor: 0,
        mode: InputMode::Normal,
        project: empty_project_draft(),
        project_step: ProjectStep::Name,
        update: empty_update_draft(),
        update_step: UpdateStep::Title,
    }
}

impl InputView {
    /// The cursor set to `pos`, kept within the text.
    pub open spec fn at(self, pos: int) -> InputView {
        InputView { cursor: min_int(pos, self.text.len() as int) as usize, ..self }
    }

    pub open spec fn moved_left(self) -> InputView {
        self.at(dec_sat(self.cursor))
    }

    pub open spec fn moved_right(self) -> InputView {
        self.at(inc_sat(self.cursor))
    }

    /// `c` typed at the cursor, which then moves past it.
    pub open spec fn entered(self, c: char) -> InputView {
        let p = min_int(self.cursor as int, self.text.len() as int);
        InputView { text: insert_char(self.text, p, c), ..self }.moved_right()
    }

    /// The character before the cursor removed, the cursor moving back onto its place.
    pub open spec fn deleted(self) -> InputView {
        if self.cursor == 0 {
            self
        } else {
            let t = self.text.take(min_int(self.cursor - 1, self.text.len() as int))
                + self.text.skip(min_int(self.cursor as int, self.text.len() as int));
            InputView { text: t, ..self }.moved_left()
        }
    }

    /// The text emptied and the cursor at its start.
    pub open spec fn cleared(self) -> InputView {
        InputView { text: Seq::empty(), cursor: 0, ..self }
    }

    /// The text, unless it is blank, kept as the project's name.
    pub open spec fn submitted_name(self) -> InputView {
        let name = if is_blank(self.text) {
            self.project.name
        } else {
            Some(self.text)
        };
        InputView { project: ProjectDraftView { name, ..self.project }, ..self }.cleared()
    }

    /// The text, unless it is blank, kept as the project's directory; a
    /// missing name taken from the directory's last component.
    pub open spec fn submitted_directory(self) -> InputView {
        let directory = if is_blank(self.text) {
            self.project.directory
        } else {
            Some(self.text)
        };
        let name = if self.project.name is None {
            file_name(self.text)
        } else {
            self.project.name
        };
        InputView { project: ProjectDraftView { name, directory }, ..self }.cleared()
    }

    /// The text, unless it is blank, kept as the update's title.
    pub open spec fn submitted_title(self) -> InputView {
        let title = if is_blank(self.text) {
            self.update.title
        } else {
            Some(self.text)
        };
        InputView { update: UpdateDraftView { title, ..self.update }, ..self }.cleared()
    }

    /// The text, unless it is blank, kept as the update's body.
    pub open spec fn submitted_body(self) -> InputView {
        let body = if is_blank(self.text) {
            self.update.body
        } else {
            Some(self.text)
        };
        InputView { update: UpdateDraftView { body, ..self.update }, ..self }.cleared()
    }

    /// The text, unless it is blank, kept as what comes next; `None` when
    /// nothing was ever given.
    pub open spec fn submitted_next(self) -> InputView {
        let next = if is_blank(self.text) {
            self.update.next
        } else {
            Some(self.text)
        };
        let next = if next is None {
            Some(none_text())
        } else {
            next
        };
        InputView { update: UpdateDraftView { next, ..self.update }, ..self }.cleared()
    }

    /// Both forms back at their first step with empty drafts and text.
    pub open spec fn reset(self) -> InputView {
        InputView {
            text: Seq::empty(),
            cursor: 0,
            project: empty_project_draft(),
            project_step: ProjectStep::Name,
            update: empty_update_draft(),
            update_step: UpdateStep::Title,
            ..self
        }
    }

    /// The draft's value for the current update step, if any, put in the text.
    pub open spec fn prefilled(self) -> InputView {
        let field = match self.update_step {
            UpdateStep::Title => self.update.title,
            UpdateStep::Body => self.update.body,
            UpdateStep::Next => self.update.next,
            UpdateStep::Confirm => None,
        };
        match field {
            Some(v) => InputView { text: v, cursor: v.len() as usize, ..self },
            None => self,
        }
    }

    /// The update form opened on a saved update.
    pub open spec fn editing(self, u: UpdateView) -> InputView {
        InputView {
            text: u.title,
            cursor: u.title.len() as usize,
            mode: InputMode::Editing,
            update: UpdateDraftView {
                title: Some(u.title),
                project_id: Some(u.project_id),
                body: Some(u.body),
                next: Some(u.next),
            },
            update_step: UpdateStep::Title,
            ..self
        }
    }

    /// The project draft saved: the form starts over.
    pub open spec fn project_saved(self) -> InputView {
        InputView { project_step: ProjectStep::Name, project: empty_project_draft(), ..self }
    }

    /// The update draft saved: the form starts over.
    pub open spec fn update_saved(self) -> InputView {
        InputView { update_step: UpdateStep::Title, update: empty_update_draft(), ..self }
    }

    /// The update draft assigned to a project.
    pub open spec fn assigned(self, project_id: Seq<char>) -> InputView {
        InputView { update: UpdateDraftView { project_id: Some(project_id), ..self.update }, ..self }
    }
}

/// `a[from..to]` appended to `dst`.
fn append_range(dst: &mut Vec<char>, a: &[char], from: usize, to: usize)
    requires
        from <= to <= a.len(),
    ensures
        final(dst)@ == old(dst)@ + a@.subrange(from as int, to as int),
{
    let mut i = from;
    while i < to
        invariant
            from <= i <= to <= a.len(),
            dst@ == old(dst)@ + a@.subrange(from as int, i as int),
        decreases to - i,
    {
        dst.push(a[i]);
        i = i + 1;
        assert(dst@ =~= old(dst)@ + a@.subrange(from as int, i as int));
    }
}

impl Input {
    /// An empty field in normal mode, both forms at their first step.
    pub fn new() -> (r: Input)
        ensures
            r@ == initial_input(),
    {
        Input {
            input: String::new(),
            character_index: 0,
            input_mode: InputMode::Normal,
            project: ProjectDraft::empty(),
            project_step: ProjectStep::Name,
            update: UpdateDraft::empty(),
            update_step: UpdateStep::Title,
        }
    }

    /// The cursor set to `pos`, kept within the text.
    fn clamp_cursor(&self, pos: usize) -> (r: usize)
        ensures
            r == min_int(pos as int, self.input@.len() as int),
    {
        let count = chars_of(self.input.as_str()).len();
        if pos < count {
            pos
        } else {
            count
        }
    }

    pub fn move_cursor_left(&mut self)
        ensures
            final(self)@ == old(self)@.moved_left(),
    {
        let moved = if self.character_index == 0 {
            0
        } else {
            self.character_index - 1
        };
        self.character_index = self.clamp_cursor(moved);
    }

    pub fn move_cursor_right(&mut self)
        ensures
            final(self)@ == old(self)@.moved_right(),
    {
        let moved = if self.character_index == usize::MAX {
            usize::MAX
        } else {
            self.character_index + 1
        };
        self.character_index = self.clamp_cursor(moved);
    }

    /// Types `new_char` at the cursor.
    pub fn enter_char(&mut self, new_char: char)
        ensures
            final(self)@ == old(self)@.entered(new_char),
            old(self)@.text.len() < usize::MAX,
    {
        let t = chars_of(self.input.as_str());
        let len = t.len();
        let p = if self.character_index < len {
            self.character_index
        } else {
            len
        };
        let mut nt = copy_range(t.as_slice(), 0, p);
        nt.push(new_char);
        append_range(&mut nt, t.as_slice(), p, len);
        assert(nt@ =~= insert_char(t@, p as int, new_char));
        let total = nt.len();
        assert(total == t@.len() + 1);
        assert(t@ == old(self)@.text);
        self.input = string_of(nt.as_slice());
        self.move_cursor_right();
    }

    /// Removes the character before the cursor.
    pub fn delete_char(&mut self)
        ensures
            final(self)@ == old(self)@.deleted(),
    {
        if self.character_index != 0 {
            let t = chars_of(self.input.as_str());
            let len = t.len();
            let before = if self.character_index - 1 < len {
                self.character_index - 1
            } else {
                len
            };
            let after = if self.character_index < len {
                self.character_index
            } else {
                len
            };
            let mut nt = copy_range(t.as_slice(), 0, before);
            append_range(&mut nt, t.as_slice(), after, len);
            assert(nt@ =~= t@.take(before as int) + t@.skip(after as int));
            self.input = string_of(nt.as_slice());
            self.move_cursor_left();
        }
    }

    pub fn reset_cursor(&mut self)
        ensures
            final(self)@ == (InputView { cursor: 0, ..old(self)@ }),
    {
        self.character_index = 0;
    }

    fn clear_text(&mut self)
        ensures
            final(self)@ == old(self)@.cleared(),
    {
        self.input = String::new();
        self.reset_cursor();
    }

    pub fn reset_project(&mut self)
        ensures
            final(self)@ == (InputView { project: empty_project_draft(), ..old(self)@ }),
    {
        self.project.name = None;
        self.project.directory = None;
    }

    pub fn reset_update(&mut self)
        ensures
            final(self)@ == (InputView { update: empty_update_draft(), ..old(self)@ }),
    {
        self.update.title = None;
        self.update.project_id = None;
        self.update.body = None;
        self.update.next = None;
    }

    /// Clears the text and both drafts and sends both forms back to their first step.
    pub fn reset_all(&mut self)
        ensures
            final(self)@ == old(self)@.reset(),
    {
        self.clear_text();
        self.reset_project();
        self.reset_update();
        self.project_step = ProjectStep::Name;
        self.update_step = UpdateStep::Title;
    }

    /// Whether the text is blank.
    fn text_is_blank(&self) -> (r: bool)
        ensures
            r == is_blank(self.input@),
    {
        let t = chars_of(self.input.as_str());
        blank(t.as_slice())
    }

    /// Takes the text as the project's name, unless it is blank.
    pub fn submit_name(&mut self)
        ensures
            final(self)@ == old(self)@.submitted_name(),
    {
        if !self.text_is_blank() {
            self.project.name = Some(self.input.clone());
        }
        self.clear_text();
    }

    /// Takes the text as the project's directory, unless it is blank, and a
    /// missing name from the directory's last component.
    pub fn submit_directory(&mut self)
        ensures
            final(self)@ == old(self)@.submitted_directory(),
    {
        if !self.text_is_blank() {
            self.project.directory = Some(self.input.clone());
        }
        if self.project.name.is_none() {
            let name = path_file_name(self.input.as_str());
            assert(opt_view(name) == opt_seq(name));
            self.project.name = name;
        }
        self.clear_text();
    }

    /// Takes the text as the update's title, unless it is blank.
    pub fn submit_title(&mut self)
        ensures
            final(self)@ == old(self)@.submitted_title(),
    {
        if !self.text_is_blank() {
            self.update.title = Some(self.input.clone());
        }
        self.clear_text();
    }

    /// Takes the text as the update's body, unless it is blank.
    pub fn submit_body(&mut self)
        ensures
            final(self)@ == old(self)@.submitted_body(),
    {
        if !self.text_is_blank() {
            self.update.body = Some(self.input.clone());
        }
        self.clear_text();
    }

    /// Takes the text as what comes next, unless it is blank; `None` when
    /// nothing was given.
    pub fn submit_next(&mut self)
        ensures
            final(self)@ == old(self)@.submitted_next(),
    {
        if !self.text_is_blank() {
            self.update.next = Some(self.input.clone());
        }
        if self.update.next.is_none() {
            let none = "None".to_owned();
            proof {
                reveal_strlit("None");
            }
            assert(none@ =~= none_text());
            self.update.next = Some(none);
        }
        self.clear_text();
    }

    /// Puts the draft's value for the current update step, if any, in the text.
    pub fn prefill_update_field(&mut self)
        ensures
            final(self)@ == old(self)@.prefilled(),
    {
        let field = match self.update_step {
            UpdateStep::Title => copy_opt(&self.update.title),
            UpdateStep::Body => copy_opt(&self.update.body),
            UpdateStep::Next => copy_opt(&self.update.next),
            UpdateStep::Confirm => None,
        };
        if let Some(v) = field {
            let count = chars_of(v.as_str()).len();
            self.input = v;
            self.character_index = count;
        }
    }

    /// Opens the update form on a saved update, its fields in the draft.
    pub fn edit_update(&mut self, update: Update)
        ensures
            final(self)@ == old(self)@.editing(update@),
    {
        let count = chars_of(update.title.as_str()).len();
        self.input = update.title.clone();
        self.character_index = count;
        self.input_mode = InputMode::Editing;
        self.update.title = Some(update.title);
        self.update.project_id = Some(update.project_id);
        self.update.body = Some(update.body);
        self.update.next = Some(update.next);
        self.update_step = UpdateStep::Title;
    }

    /// After the project draft was saved: the form starts over.
    pub fn project_saved(&mut self)
        ensures
            final(self)@ == old(self)@.project_saved(),
    {
        self.project_step = ProjectStep::Name;
        self.reset_project();
    }

    /// After the update draft was saved: the form starts over.
    pub fn update_saved(&mut self)
        ensures
            final(self)@ == old(self)@.update_saved(),
    {
        self.update_step = UpdateStep::Title;
        self.reset_update();
    }

    /// Assigns the update draft to a project and gives the draft to save.
    pub fn assign_update(&mut self, project_id: String) -> (r: UpdateDraft)
        ensures
            final(self)@ == old(self)@.assigned(project_id@),
            r@ == final(self)@.update,
    {
        self.update.project_id = Some(project_id);
        self.update.duplicate()
    }
}

} // verus!
