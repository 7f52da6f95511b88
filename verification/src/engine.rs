use crate::editor::command_step;
use crate::editor::commands_step;
use crate::editor::lemma_commands_step_snoc;
use crate::editor::EditCommand;
use crate::editor::Editor;
use crate::editor::EditorState;
use crate::keybindings::first_match_from;
use crate::keybindings::mode_default;
use crate::keybindings::mode_default_binding;
use crate::keybindings::Binding;
use crate::keybindings::EditMode;
use crate::keybindings::KeyCode;
use crate::keybindings::KeyModifiers;
use crate::keybindings::Keybindings;
use crate::text::starts_with;
use crate::text::str_starts_with;
use crate::validator::ValidationResult;
use crate::validator::Validator;
use vstd::prelude::*;

verus! {

/// The terminal outcome of one read cycle.
#[derive(Debug)]
pub enum Signal {
    /// The line was committed; here is its text.
    Success(String),
    /// The interrupt key was pressed.
    Interrupted,
    /// The end-of-input key was pressed on an empty buffer.
    EndOfInput,
}

/// One event from the terminal backend.
#[derive(Clone, Copy, Debug)]
pub enum Event {
    Key { modifiers: KeyModifiers, code: KeyCode },
    Resize { columns: u16, rows: u16 },
}

/// What the caller should do after one event has been handled.
#[derive(Debug)]
pub enum EventOutcome {
    /// Repaint and keep reading.
    Continue,
    /// Clear the whole screen, repaint and keep reading.
    ClearScreen,
    /// The read cycle is over.
    Emit(Signal),
}

/// No modifier held.
pub open spec fn no_mods() -> KeyModifiers {
    KeyModifiers { control: false, alt: false, shift: false }
}

/// Control alone.
pub open spec fn ctrl_mods() -> KeyModifiers {
    KeyModifiers { control: true, alt: false, shift: false }
}

/// Whether a character key with these modifiers falls through to plain
/// insertion (shift is part of typing; control and alt are chords).
pub open spec fn insertable(m: KeyModifiers) -> bool {
    !m.control && !m.alt
}

/// What actions a key chord resolves to: the first matching user binding,
/// else the mode profile, else plain insertion of a printable character
/// (never in Vi normal mode), else nothing.
pub open spec fn resolved(
    bindings: Seq<Binding>,
    mode: EditMode,
    m: KeyModifiers,
    c: KeyCode,
) -> Seq<EditCommand> {
    match first_match_from(bindings, m, c, 0) {
        Some(i) => bindings[i].commands@,
        None => match mode_default(mode, m, c) {
            Some(cmd) => seq![cmd],
            None => match c {
                KeyCode::Char(ch) => if insertable(m) && mode != EditMode::ViNormal {
                    seq![EditCommand::InsertChar(ch)]
                } else {
                    Seq::<EditCommand>::empty()
                },
                _ => Seq::<EditCommand>::empty(),
            },
        },
    }
}

/// What committing `t` does to the history: nothing for an empty line or a
/// repeat of the newest entry, else an append.
pub open spec fn push_history(h: Seq<Seq<char>>, t: Seq<char>) -> Seq<Seq<char>> {
    if t.len() == 0 || (h.len() > 0 && h.last() == t) {
        h
    } else {
        h.push(t)
    }
}

/// The nearest entry strictly before `from` that starts with `prefix`.
pub open spec fn prev_match(h: Seq<Seq<char>>, prefix: Seq<char>, from: nat) -> Option<int>
    decreases from,
{
    if from == 0 || from > h.len() {
        None
    } else if starts_with(h[from - 1], prefix) {
        Some(from - 1)
    } else {
        prev_match(h, prefix, (from - 1) as nat)
    }
}

/// The nearest entry strictly after `from` that starts with `prefix`.
pub open spec fn next_match(h: Seq<Seq<char>>, prefix: Seq<char>, from: nat) -> Option<int>
    decreases h.len() - from,
{
    if from + 1 >= h.len() {
        None
    } else if starts_with(h[from + 1int], prefix) {
        Some(from + 1int)
    } else {
        next_match(h, prefix, from + 1)
    }
}

/// The line editor orchestrator: the edit session, the keybinding tables,
/// the validation policy and the in-memory history with its navigation
/// cursor. Each terminal event is handled to completion; the painter and
/// the terminal backend stay outside.
pub struct LineEditor<V: Validator> {
    editor: Editor,
    keybindings: Keybindings,
    edit_mode: EditMode,
    validator: V,
    history: Vec<String>,
    history_cursor: usize,
    stash: String,
    nav_prefix: String,
}

impl<V: Validator> LineEditor<V> {
    /// The visible editor state: text and cursor.
    pub closed spec fn state(&self) -> EditorState {
        self.editor.state()
    }

    /// The buffer text.
    pub open spec fn text(&self) -> Seq<char> {
        self.state().text
    }

    /// The cursor offset.
    pub open spec fn cursor(&self) -> nat {
        self.state().cursor
    }

    /// The undo stack of the edit session.
    pub closed spec fn undo_states(&self) -> Seq<EditorState> {
        self.editor.undo_states()
    }

    /// The redo stack of the edit session.
    pub closed spec fn redo_states(&self) -> Seq<EditorState> {
        self.editor.redo_states()
    }

    /// The committed lines, oldest first.
    pub closed spec fn history(&self) -> Seq<Seq<char>> {
        self.history@.map_values(|s: String| s@)
    }

    /// The history navigation cursor; equal to `history().len()` when no
    /// navigation is under way.
    pub closed spec fn history_index(&self) -> nat {
        self.history_cursor as nat
    }

    /// The line that was being typed when navigation began.
    pub closed spec fn stash_text(&self) -> Seq<char> {
        self.stash@
    }

    /// The prefix that navigation filters the history by.
    pub closed spec fn prefix_text(&self) -> Seq<char> {
        self.nav_prefix@
    }

    /// The active mode profile.
    pub closed spec fn mode(&self) -> EditMode {
        self.edit_mode
    }

    /// The user bindings in lookup order.
    pub closed spec fn bindings(&self) -> Seq<Binding> {
        self.keybindings.bindings()
    }

    /// The validation policy.
    pub closed spec fn policy(&self) -> V {
        self.validator
    }

    /// What the validation policy decides about a candidate text.
    pub open spec fn decides(&self, t: Seq<char>) -> ValidationResult {
        self.policy().spec_validate(t)
    }

    /// The edit session is well formed and the navigation cursor lies
    /// within the history.
    pub closed spec fn wf(&self) -> bool {
        self.editor.wf() && self.history_cursor <= self.history@.len()
    }

    /// Everything but the edit-session triple is as it was.
    pub open spec fn same_surroundings(&self, other: &Self) -> bool {
        &&& self.history() == other.history()
        &&& self.mode() == other.mode()
        &&& self.bindings() == other.bindings()
        &&& self.stash_text() == other.stash_text()
        &&& self.prefix_text() == other.prefix_text()
    }

    /// Nothing at all changed.
    pub open spec fn same_state(&self, other: &Self) -> bool {
        &&& self.state() == other.state()
        &&& self.undo_states() == other.undo_states()
        &&& self.redo_states() == other.redo_states()
        &&& self.history_index() == other.history_index()
        &&& self.same_surroundings(other)
    }

    /// A fresh session in Emacs mode with an empty buffer, no bindings
    /// beyond the profile, and no history.
    pub fn new(validator: V) -> (r: LineEditor<V>)
        ensures
            r.wf(),
            r.text().len() == 0,
            r.cursor() == 0,
            r.undo_states().len() == 0,
            r.redo_states().len() == 0,
            r.history().len() == 0,
            r.history_index() == 0,
            r.mode() == EditMode::Emacs,
            r.bindings().len() == 0,
            r.policy() == validator,
    {
        let r = LineEditor {
            editor: Editor::new(),
            keybindings: Keybindings::new(),
            edit_mode: EditMode::Emacs,
            validator,
            history: Vec::new(),
            history_cursor: 0,
            stash: String::new(),
            nav_prefix: String::new(),
        };
        proof {
            assert(r.history() =~= Seq::<Seq<char>>::empty());
        }
        r
    }

    /// Swap the whole binding table.
    pub fn set_keybindings(&mut self, keybindings: Keybindings)
        ensures
            final(self).bindings() == keybindings.bindings(),
            final(self).state() == old(self).state(),
            final(self).undo_states() == old(self).undo_states(),
            final(self).redo_states() == old(self).redo_states(),
            final(self).history() == old(self).history(),
            final(self).history_index() == old(self).history_index(),
            final(self).mode() == old(self).mode(),
            final(self).wf() == old(self).wf(),
            final(self).policy() == old(self).policy(),
            final(self).stash_text() == old(self).stash_text(),
            final(self).prefix_text() == old(self).prefix_text(),
    {
        self.keybindings = keybindings;
    }

    /// Switch the mode profile wholesale.
    pub fn set_edit_mode(&mut self, mode: EditMode)
        ensures
            final(self).mode() == mode,
            final(self).state() == old(self).state(),
            final(self).undo_states() == old(self).undo_states(),
            final(self).redo_states() == old(self).redo_states(),
            final(self).history() == old(self).history(),
            final(self).history_index() == old(self).history_index(),
            final(self).bindings() == old(self).bindings(),
            final(self).wf() == old(self).wf(),
            final(self).policy() == old(self).policy(),
            final(self).stash_text() == old(self).stash_text(),
            final(self).prefix_text() == old(self).prefix_text(),
    {
        self.edit_mode = mode;
    }

    /// Add one binding on top of the current table.
    pub fn add_binding(&mut self, modifiers: KeyModifiers, code: KeyCode, commands: Vec<
        EditCommand,
    >)
        ensures
            final(self).bindings() == old(self).bindings().push(
                Binding { modifiers, code, commands },
            ),
            final(self).state() == old(self).state(),
            final(self).history() == old(self).history(),
            final(self).mode() == old(self).mode(),
            final(self).wf() == old(self).wf(),
    {
        self.keybindings.add_binding(modifiers, code, commands);
    }

    /// The buffer as it currently reads.
    pub fn current_buffer(&self) -> (r: &str)
        ensures
            r@ == self.text(),
    {
        self.editor.get_buffer()
    }

    /// The cursor offset in the buffer.
    pub fn current_insertion_point(&self) -> (r: usize)
        ensures
            r == self.cursor(),
    {
        self.editor.insertion_point()
    }

    /// How many lines the history holds.
    pub fn history_len(&self) -> (r: usize)
        ensures
            r == self.history().len(),
    {
        self.history.len()
    }

    /// The history entry at `i`, oldest first.
    pub fn history_entry(&self, i: usize) -> (r: &str)
        requires
            i < self.history().len(),
        ensures
            r@ == self.history()[i as int],
    {
        self.history[i].as_str()
    }

    fn find_prev(&self, prefix: &str, from: usize) -> (r: Option<usize>)
        requires
            from <= self.history().len(),
        ensures
            match r {
                Some(i) => prev_match(self.history(), prefix@, from as nat) == Some(i as int) && i
                    < self.history().len(),
                None => prev_match(self.history(), prefix@, from as nat) is None,
            },
    {
        let mut cur: usize = from;
        while cur > 0
            invariant
                cur <= from <= self.history().len(),
                prev_match(self.history(), prefix@, from as nat) == prev_match(
                    self.history(),
                    prefix@,
                    cur as nat,
                ),
            decreases cur,
        {
            if str_starts_with(self.history[cur - 1].as_str(), prefix) {
                return Some(cur - 1);
            }
            cur = cur - 1;
        }
        None
    }

    fn find_next(&self, prefix: &str, from: usize) -> (r: Option<usize>)
        requires
            from < self.history().len(),
        ensures
            match r {
                Some(i) => next_match(self.history(), prefix@, from as nat) == Some(i as int) && i
                    < self.history().len(),
                None => next_match(self.history(), prefix@, from as nat) is None,
            },
    {
        let n = self.history.len();
        let mut cur: usize = from;
        while cur + 1 < n
            invariant
                from <= cur < n == self.history().len(),
                next_match(self.history(), prefix@, from as nat) == next_match(
                    self.history(),
                    prefix@,
                    cur as nat,
                ),
            decreases n - cur,
        {
            if str_starts_with(self.history[cur + 1].as_str(), prefix) {
                return Some(cur + 1);
            }
            cur = cur + 1;
        }
        None
    }

    /// Handle the commit key: an incomplete line gains a newline and
    /// editing goes on; a complete line is recorded in the history, the
    /// session restarts empty, and its text is emitted.
    fn submit(&mut self) -> (r: EventOutcome)
        requires
            old(self).wf(),
        ensures
            final(self).wf(),
            final(self).mode() == old(self).mode(),
            final(self).bindings() == old(self).bindings(),
            final(self).policy() == old(self).policy(),
            final(self).stash_text() == old(self).stash_text(),
            final(self).prefix_text() == old(self).prefix_text(),
            old(self).decides(old(self).text()) is Incomplete ==> r is Continue && (
            final(self).state(),
            final(self).undo_states(),
            final(self).redo_states(),
            ) == command_step(
                old(self).state(),
                old(self).undo_states(),
                old(self).redo_states(),
                EditCommand::InsertChar('\n'),
            ) && final(self).history() == old(self).history() && final(self).history_index()
                == old(self).history().len(),
            old(self).decides(old(self).text()) is Complete ==> (r matches EventOutcome::Emit(
                Signal::Success(s),
            ) && s@ == old(self).text()) && final(self).history() == push_history(
                old(self).history(),
                old(self).text(),
            ) && final(self).text() == Seq::<char>::empty() && final(self).cursor() == 0 && final(self).undo_states() == Seq::<EditorState>::empty() && final(self).redo_states()
                == Seq::<EditorState>::empty() && final(self).history_index() == final(self).history().len(),
    {
        let text = self.editor.buffer_string();
        let decision = self.validator.validate(text.as_str());
        match decision {
            ValidationResult::Incomplete => {
                self.editor.run_edit_command(EditCommand::InsertChar('\n'));
                self.history_cursor = self.history.len();
                EventOutcome::Continue
            },
            ValidationResult::Complete => {
                let empty_line = self.editor.is_empty();
                let repeat = if self.history.len() > 0 {
                    let last_index = self.history.len() - 1;
                    crate::text::str_eq(self.history[last_index].as_str(), text.as_str())
                } else {
                    false
                };
                if !empty_line && !repeat {
                    let keep = self.editor.buffer_string();
                    self.history.push(keep);
                    proof {
                        assert(self.history() =~= old(self).history().push(old(self).text()));
                    }
                }
                self.editor.reset();
                self.history_cursor = self.history.len();
                EventOutcome::Emit(Signal::Success(text))
            },
        }
    }

    /// Move the history cursor to the previous entry that starts with the
    /// navigation prefix; entering navigation stashes the line being typed
    /// and adopts it as the prefix.
    fn history_prev(&mut self)
        requires
            old(self).wf(),
        ensures
            final(self).wf(),
            final(self).mode() == old(self).mode(),
            final(self).bindings() == old(self).bindings(),
            final(self).policy() == old(self).policy(),
            final(self).history() == old(self).history(),
            final(self).undo_states() == old(self).undo_states(),
            final(self).redo_states() == old(self).redo_states(),
            ({
                let was_browsing = old(self).history_index() < old(self).history().len();
                let prefix = if was_browsing {
                    old(self).prefix_text()
                } else {
                    old(self).text()
                };
                match prev_match(old(self).history(), prefix, old(self).history_index()) {
                    Some(i) => final(self).history_index() == i && final(self).text() == old(
                        self,
                    ).history()[i] && final(self).cursor() == old(self).history()[i].len() && (
                    if was_browsing {
                        final(self).stash_text() == old(self).stash_text() && final(self).prefix_text() == old(self).prefix_text()
                    } else {
                        final(self).stash_text() == old(self).text() && final(self).prefix_text()
                            == old(self).text()
                    }),
                    None => final(self).same_state(old(self)),
                }
            }),
    {
        let browsing = self.history_cursor < self.history.len();
        if !browsing {
            let p = self.editor.buffer_string();
            let found = self.find_prev(p.as_str(), self.history_cursor);
            match found {
                Some(i) => {
                    self.stash = self.editor.buffer_string();
                    self.nav_prefix = p;
                    let entry = self.history[i].clone();
                    self.editor.set_buffer(entry);
                    self.history_cursor = i;
                },
                None => {},
            }
        } else {
            let found = self.find_prev(self.nav_prefix.as_str(), self.history_cursor);
            match found {
                Some(i) => {
                    let entry = self.history[i].clone();
                    self.editor.set_buffer(entry);
                    self.history_cursor = i;
                },
                None => {},
            }
        }
    }

    /// Move the history cursor to the next matching entry; walking past the
    /// newest entry leaves navigation and restores the stashed line.
    fn history_next(&mut self)
        requires
            old(self).wf(),
        ensures
            final(self).wf(),
            final(self).mode() == old(self).mode(),
            final(self).bindings() == old(self).bindings(),
            final(self).policy() == old(self).policy(),
            final(self).history() == old(self).history(),
            final(self).undo_states() == old(self).undo_states(),
            final(self).redo_states() == old(self).redo_states(),
            final(self).stash_text() == old(self).stash_text(),
            final(self).prefix_text() == old(self).prefix_text(),
            old(self).history_index() == old(self).history().len() ==> final(self).same_state(
                old(self),
            ),
            old(self).history_index() < old(self).history().len() ==> match next_match(
                old(self).history(),
                old(self).prefix_text(),
                old(self).history_index(),
            ) {
                Some(i) => final(self).history_index() == i && final(self).text() == old(
                    self,
                ).history()[i] && final(self).cursor() == old(self).history()[i].len(),
                None => final(self).history_index() == old(self).history().len() && final(self).text() == old(self).stash_text() && final(self).cursor() == old(
                    self,
                ).stash_text().len(),
            },
    {
        if self.history_cursor < self.history.len() {
            let found = self.find_next(self.nav_prefix.as_str(), self.history_cursor);
            match found {
                Some(i) => {
                    let entry = self.history[i].clone();
                    self.editor.set_buffer(entry);
                    self.history_cursor = i;
                },
                None => {
                    self.history_cursor = self.history.len();
                    let entry = self.stash.clone();
                    self.editor.set_buffer(entry);
                },
            }
        }
    }

    /// Route an ordinary key chord through the fallback chain and apply the
    /// actions it resolves to; any editing leaves history navigation.
    fn run_resolved(&mut self, m: KeyModifiers, c: KeyCode)
        requires
            old(self).wf(),
        ensures
            final(self).wf(),
            final(self).mode() == old(self).mode(),
            final(self).bindings() == old(self).bindings(),
            final(self).policy() == old(self).policy(),
            final(self).history() == old(self).history(),
            final(self).stash_text() == old(self).stash_text(),
            final(self).prefix_text() == old(self).prefix_text(),
            final(self).history_index() == old(self).history().len(),
            (final(self).state(), final(self).undo_states(), final(self).redo_states())
                == commands_step(
                old(self).state(),
                old(self).undo_states(),
                old(self).redo_states(),
                resolved(old(self).bindings(), old(self).mode(), m, c),
            ),
    {
        let ghost cmds = resolved(old(self).bindings(), old(self).mode(), m, c);
        let found = self.keybindings.find_binding(m, c);
        match found {
            Some(i) => {
                proof {
                    assert(cmds == old(self).bindings()[i as int].commands@);
                }
                let n = self.keybindings.commands_len(i);
                let mut j: usize = 0;
                while j < n
                    invariant
                        j <= n,
                        self.wf(),
                        self.bindings() == old(self).bindings(),
                        self.mode() == old(self).mode(),
                        self.policy() == old(self).policy(),
                        self.history() == old(self).history(),
                        self.history_index() == old(self).history_index(),
                        self.stash_text() == old(self).stash_text(),
                        self.prefix_text() == old(self).prefix_text(),
                        i < self.bindings().len(),
                        n == self.bindings()[i as int].commands@.len(),
                        cmds == self.bindings()[i as int].commands@,
                        (self.state(), self.undo_states(), self.redo_states()) == commands_step(
                            old(self).state(),
                            old(self).undo_states(),
                            old(self).redo_states(),
                            cmds.take(j as int),
                        ),
                    decreases n - j,
                {
                    let cmd = self.keybindings.command_at(i, j);
                    proof {
                        lemma_commands_step_snoc(
                            old(self).state(),
                            old(self).undo_states(),
                            old(self).redo_states(),
                            cmds.take(j as int),
                            cmd,
                        );
                        assert(cmds.take(j + 1) =~= cmds.take(j as int).push(cmd));
                    }
                    self.editor.run_edit_command(cmd);
                    j = j + 1;
                }
                proof {
                    assert(cmds.take(n as int) =~= cmds);
                }
            },
            None => {
                let fallback = mode_default_binding(self.edit_mode, m, c);
                match fallback {
                    Some(cmd) => {
                        proof {
                            assert(cmds == seq![cmd]);
                            lemma_commands_step_snoc(
                                old(self).state(),
                                old(self).undo_states(),
                                old(self).redo_states(),
                                Seq::<EditCommand>::empty(),
                                cmd,
                            );
                            assert(Seq::<EditCommand>::empty().push(cmd) =~= cmds);
                        }
                        self.editor.run_edit_command(cmd);
                    },
                    None => {
                        match c {
                            KeyCode::Char(ch) => {
                                let normal_mode = match self.edit_mode {
                                    EditMode::ViNormal => true,
                                    _ => false,
                                };
                                if !m.control && !m.alt && !normal_mode {
                                    let cmd = EditCommand::InsertChar(ch);
                                    proof {
                                        assert(cmds == seq![cmd]);
                                        lemma_commands_step_snoc(
                                            old(self).state(),
                                            old(self).undo_states(),
                                            old(self).redo_states(),
                                            Seq::<EditCommand>::empty(),
                                            cmd,
                                        );
                                        assert(Seq::<EditCommand>::empty().push(cmd) =~= cmds);
                                    }
                                    self.editor.run_edit_command(cmd);
                                }
                            },
                            _ => {},
                        }
                    },
                }
            },
        }
        self.history_cursor = self.history.len();
    }

    /// Handle one terminal event to completion: the submit, interrupt,
    /// end-of-input, clear-screen and history keys act directly; a Vi mode
    /// change swaps the profile; anything else runs through the keybinding
    /// fallback chain; a resize changes nothing here (the painter owns the
    /// geometry).
    pub fn handle_event(&mut self, ev: Event) -> (r: EventOutcome)
        requires
            old(self).wf(),
        ensures
            final(self).wf(),
            final(self).policy() == old(self).policy(),
            ev matches Event::Resize { .. } ==> final(self).same_state(old(self)) && r is Continue,
            ev matches Event::Key { modifiers: m, code: c } ==> {
                &&& (m == no_mods() && c == KeyCode::Enter) ==> {
                    &&& old(self).decides(old(self).text()) is Incomplete ==> r is Continue && (
                    final(self).state(),
                    final(self).undo_states(),
                    final(self).redo_states(),
                    ) == command_step(
                        old(self).state(),
                        old(self).undo_states(),
                        old(self).redo_states(),
                        EditCommand::InsertChar('\n'),
                    ) && final(self).history() == old(self).history() && final(self).history_index() == old(self).history().len() && final(self).mode() == old(
                        self,
                    ).mode() && final(self).bindings() == old(self).bindings()
                    &&& old(self).decides(old(self).text()) is Complete ==> (r matches
                        EventOutcome::Emit(Signal::Success(s)) && s@ == old(self).text()) && final(self).history() == push_history(old(self).history(), old(self).text()) && final(self).text() == Seq::<char>::empty() && final(self).cursor() == 0 && final(self).undo_states() == Seq::<EditorState>::empty() && final(self).redo_states()
                        == Seq::<EditorState>::empty() && final(self).history_index() == final(self).history().len() && final(self).mode() == old(self).mode() && final(self).bindings() == old(self).bindings()
                }
                &&& (m == ctrl_mods() && c == KeyCode::Char('c')) ==> (r matches
                    EventOutcome::Emit(Signal::Interrupted)) && final(self).text()
                    == Seq::<char>::empty() && final(self).cursor() == 0 && final(self).undo_states() == Seq::<EditorState>::empty() && final(self).redo_states()
                    == Seq::<EditorState>::empty() && final(self).history() == old(self).history()
                    && final(self).history_index() == old(self).history().len() && final(self).mode() == old(self).mode() && final(self).bindings() == old(self).bindings()
                &&& (m == ctrl_mods() && c == KeyCode::Char('d')) ==> {
                    &&& old(self).text().len() == 0 ==> (r matches EventOutcome::Emit(
                        Signal::EndOfInput,
                    )) && final(self).same_state(old(self))
                    &&& old(self).text().len() > 0 ==> r is Continue && (
                    final(self).state(),
                    final(self).undo_states(),
                    final(self).redo_states(),
                    ) == command_step(
                        old(self).state(),
                        old(self).undo_states(),
                        old(self).redo_states(),
                        EditCommand::Clear,
                    ) && final(self).history() == old(self).history() && final(self).history_index() == old(self).history().len() && final(self).mode() == old(
                        self,
                    ).mode() && final(self).bindings() == old(self).bindings()
                }
                &&& (m == ctrl_mods() && c == KeyCode::Char('l')) ==> r is ClearScreen && final(self).same_state(old(self))
                &&& (m == no_mods() && c == KeyCode::Up) ==> r is Continue && final(self).history()
                    == old(self).history() && final(self).mode() == old(self).mode() && final(self).bindings() == old(self).bindings() && final(self).undo_states() == old(
                    self,
                ).undo_states() && final(self).redo_states() == old(self).redo_states() && ({
                    let was_browsing = old(self).history_index() < old(self).history().len();
                    let prefix = if was_browsing {
                        old(self).prefix_text()
                    } else {
                        old(self).text()
                    };
                    match prev_match(old(self).history(), prefix, old(self).history_index()) {
                        Some(i) => final(self).history_index() == i && final(self).text() == old(
                            self,
                        ).history()[i] && final(self).cursor() == old(self).history()[i].len() && (
                        if was_browsing {
                            final(self).stash_text() == old(self).stash_text() && final(self).prefix_text() == old(self).prefix_text()
                        } else {
                            final(self).stash_text() == old(self).text() && final(self).prefix_text() == old(self).text()
                        }),
                        None => final(self).same_state(old(self)),
                    }
                })
                &&& (m == no_mods() && c == KeyCode::Down) ==> r is Continue && final(self).history() == old(self).history() && final(self).mode() == old(self).mode()
                    && final(self).bindings() == old(self).bindings() && final(self).undo_states()
                    == old(self).undo_states() && final(self).redo_states() == old(
                    self,
                ).redo_states() && final(self).stash_text() == old(self).stash_text() && final(self).prefix_text() == old(self).prefix_text() && {
                    &&& old(self).history_index() == old(self).history().len() ==> final(self).same_state(old(self))
                    &&& old(self).history_index() < old(self).history().len() ==> match next_match(
                        old(self).history(),
                        old(self).prefix_text(),
                        old(self).history_index(),
                    ) {
                        Some(i) => final(self).history_index() == i && final(self).text() == old(
                            self,
                        ).history()[i] && final(self).cursor() == old(self).history()[i].len(),
                        None => final(self).history_index() == old(self).history().len() && final(self).text() == old(self).stash_text() && final(self).cursor() == old(
                            self,
                        ).stash_text().len(),
                    }
                }
                &&& (old(self).mode() == EditMode::ViNormal && m == no_mods() && c
                    == KeyCode::Char('i')) ==> r is Continue && final(self).mode()
                    == EditMode::ViInsert && final(self).state() == old(self).state() && final(self).undo_states() == old(self).undo_states() && final(self).redo_states() == old(
                    self,
                ).redo_states() && final(self).history() == old(self).history() && final(self).history_index() == old(self).history_index() && final(self).bindings() == old(
                    self,
                ).bindings()
                &&& (old(self).mode() == EditMode::ViInsert && m == no_mods() && c == KeyCode::Esc)
                    ==> r is Continue && final(self).mode() == EditMode::ViNormal && final(self).state() == old(self).state() && final(self).undo_states() == old(
                    self,
                ).undo_states() && final(self).redo_states() == old(self).redo_states() && final(self).history() == old(self).history() && final(self).history_index() == old(
                    self,
                ).history_index() && final(self).bindings() == old(self).bindings()
                &&& (!(m == no_mods() && c == KeyCode::Enter) && !(m == ctrl_mods() && (c
                    == KeyCode::Char('c') || c == KeyCode::Char('d') || c == KeyCode::Char('l')))
                    && !(m == no_mods() && (c == KeyCode::Up || c == KeyCode::Down)) && !(old(
                    self,
                ).mode() == EditMode::ViNormal && m == no_mods() && c == KeyCode::Char('i')) && !(
                old(self).mode() == EditMode::ViInsert && m == no_mods() && c == KeyCode::Esc))
                    ==> r is Continue && final(self).mode() == old(self).mode() && final(self).bindings() == old(self).bindings() && final(self).history() == old(self).history()
                    && final(self).history_index() == old(self).history().len() && (
                final(self).state(),
                final(self).undo_states(),
                final(self).redo_states(),
                ) == commands_step(
                    old(self).state(),
                    old(self).undo_states(),
                    old(self).redo_states(),
                    resolved(old(self).bindings(), old(self).mode(), m, c),
                )
            },
    {
        match ev {
            Event::Resize { .. } => EventOutcome::Continue,
            Event::Key { modifiers, code } => {
                let plain = KeyModifiers::none();
                let ctrl = KeyModifiers::control();
                if modifiers == plain && code == KeyCode::Enter {
                    self.submit()
                } else if modifiers == ctrl && code == KeyCode::Char('c') {
                    self.editor.reset();
                    self.history_cursor = self.history.len();
                    EventOutcome::Emit(Signal::Interrupted)
                } else if modifiers == ctrl && code == KeyCode::Char('d') {
                    if self.editor.is_empty() {
                        EventOutcome::Emit(Signal::EndOfInput)
                    } else {
                        self.editor.run_edit_command(EditCommand::Clear);
                        self.history_cursor = self.history.len();
                        EventOutcome::Continue
                    }
                } else if modifiers == ctrl && code == KeyCode::Char('l') {
                    EventOutcome::ClearScreen
                } else if modifiers == plain && code == KeyCode::Up {
                    self.history_prev();
                    EventOutcome::Continue
                } else if modifiers == plain && code == KeyCode::Down {
                    self.history_next();
                    EventOutcome::Continue
                } else {
                    let to_insert = match self.edit_mode {
                        EditMode::ViNormal => modifiers == plain && code == KeyCode::Char('i'),
                        _ => false,
                    };
                    let to_normal = match self.edit_mode {
                        EditMode::ViInsert => modifiers == plain && code == KeyCode::Esc,
                        _ => false,
                    };
                    if to_insert {
                        self.edit_mode = EditMode::ViInsert;
                        EventOutcome::Continue
                    } else if to_normal {
                        self.edit_mode = EditMode::ViNormal;
                        EventOutcome::Continue
                    } else {
                        self.run_resolved(modifiers, code);
                        EventOutcome::Continue
                    }
                }
            },
        }
    }
}

} // verus!
