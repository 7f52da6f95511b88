use crate::line_buffer::LineBuffer;
use crate::text::first_newline_from;
use crate::text::line_start_pos;
use crate::text::upper_char;
use crate::text::word_left_pos;
use crate::text::word_right_pos;
use vstd::prelude::*;

verus! {

/// One abstract editing action, as produced by the keybinding mapper.
#[derive(Clone, Copy, Debug)]
pub enum EditCommand {
    MoveToStart,
    MoveToEnd,
    MoveLeft,
    MoveRight,
    MoveWordLeft,
    MoveWordRight,
    MoveToLineStart,
    MoveToLineEnd,
    InsertChar(char),
    Backspace,
    Delete,
    BackspaceWord,
    UppercaseWord,
    Clear,
    Undo,
    Redo,
}

/// The visible state of the editor: the text and the cursor offset.
#[verifier::ext_equal]
pub struct EditorState {
    pub text: Seq<char>,
    pub cursor: nat,
}

/// Whether the command can change the text (such commands snapshot the
/// pre-mutation state; cursor movements do not).
pub open spec fn is_mutating(cmd: EditCommand) -> bool {
    match cmd {
        EditCommand::InsertChar(_) => true,
        EditCommand::Backspace => true,
        EditCommand::Delete => true,
        EditCommand::BackspaceWord => true,
        EditCommand::UppercaseWord => true,
        EditCommand::Clear => true,
        _ => false,
    }
}

/// What a single non-undo, non-redo command does to the visible state.
pub open spec fn apply_edit(st: EditorState, cmd: EditCommand) -> EditorState {
    match cmd {
        EditCommand::MoveToStart => EditorState { cursor: 0, ..st },
        EditCommand::MoveToEnd => EditorState { cursor: st.text.len(), ..st },
        EditCommand::MoveLeft => EditorState {
            cursor: if st.cursor > 0 {
                (st.cursor - 1) as nat
            } else {
                0nat
            },
            ..st
        },
        EditCommand::MoveRight => EditorState {
            cursor: if st.cursor < st.text.len() {
                st.cursor + 1
            } else {
                st.cursor
            },
            ..st
        },
        EditCommand::MoveWordLeft => EditorState { cursor: word_left_pos(st.text, st.cursor), ..st },
        EditCommand::MoveWordRight => EditorState {
            cursor: word_right_pos(st.text, st.cursor),
            ..st
        },
        EditCommand::MoveToLineStart => EditorState {
            cursor: line_start_pos(st.text, st.cursor),
            ..st
        },
        EditCommand::MoveToLineEnd => EditorState {
            cursor: first_newline_from(st.text, st.cursor as int) as nat,
            ..st
        },
        EditCommand::InsertChar(c) => EditorState {
            text: st.text.take(st.cursor as int).push(c) + st.text.skip(st.cursor as int),
            cursor: st.cursor + 1,
        },
        EditCommand::Backspace => if st.cursor > 0 {
            EditorState {
                text: st.text.take(st.cursor - 1) + st.text.skip(st.cursor as int),
                cursor: (st.cursor - 1) as nat,
            }
        } else {
            st
        },
        EditCommand::Delete => if st.cursor < st.text.len() {
            EditorState { text: st.text.take(st.cursor as int) + st.text.skip(st.cursor + 1int), ..st }
        } else {
            st
        },
        EditCommand::BackspaceWord => EditorState {
            text: st.text.take(word_left_pos(st.text, st.cursor) as int) + st.text.skip(
                st.cursor as int,
            ),
            cursor: word_left_pos(st.text, st.cursor),
        },
        EditCommand::UppercaseWord => EditorState {
            text: st.text.take(st.cursor as int) + st.text.subrange(
                st.cursor as int,
                word_right_pos(st.text, st.cursor) as int,
            ).map_values(|c: char| upper_char(c)) + st.text.skip(
                word_right_pos(st.text, st.cursor) as int,
            ),
            cursor: word_right_pos(st.text, st.cursor),
        },
        EditCommand::Clear => EditorState { text: Seq::<char>::empty(), cursor: 0 },
        EditCommand::Undo => st,
        EditCommand::Redo => st,
    }
}

/// What undo does: restore the top snapshot, saving the current state for
/// redo; with nothing to undo, leave everything alone.
pub open spec fn undo_step(st: EditorState, undo: Seq<EditorState>, redo: Seq<EditorState>) -> (
    EditorState,
    Seq<EditorState>,
    Seq<EditorState>,
) {
    if undo.len() == 0 {
        (st, undo, redo)
    } else {
        (undo.last(), undo.drop_last(), redo.push(st))
    }
}

/// What redo does: the mirror of `undo_step`.
pub open spec fn redo_step(st: EditorState, undo: Seq<EditorState>, redo: Seq<EditorState>) -> (
    EditorState,
    Seq<EditorState>,
    Seq<EditorState>,
) {
    if redo.len() == 0 {
        (st, undo, redo)
    } else {
        (redo.last(), undo.push(st), redo.drop_last())
    }
}

/// What one editing action does to the whole session: the visible state and
/// both stacks. A mutation snapshots the pre-mutation state and empties the
/// redo stack; a movement touches neither stack.
pub open spec fn command_step(
    st: EditorState,
    undo: Seq<EditorState>,
    redo: Seq<EditorState>,
    cmd: EditCommand,
) -> (EditorState, Seq<EditorState>, Seq<EditorState>) {
    match cmd {
        EditCommand::Undo => undo_step(st, undo, redo),
        EditCommand::Redo => redo_step(st, undo, redo),
        _ => if is_mutating(cmd) {
            (apply_edit(st, cmd), undo.push(st), Seq::<EditorState>::empty())
        } else {
            (apply_edit(st, cmd), undo, redo)
        },
    }
}

/// What a fixed sequence of editing actions does, first action first.
pub open spec fn commands_step(
    st: EditorState,
    undo: Seq<EditorState>,
    redo: Seq<EditorState>,
    cmds: Seq<EditCommand>,
) -> (EditorState, Seq<EditorState>, Seq<EditorState>)
    decreases cmds.len(),
{
    if cmds.len() == 0 {
        (st, undo, redo)
    } else {
        let (s1, u1, r1) = command_step(st, undo, redo, cmds[0]);
        commands_step(s1, u1, r1, cmds.drop_first())
    }
}

/// Running `cmds` and then one more action is the action applied to the
/// outcome of `cmds`.
pub proof fn lemma_commands_step_snoc(
    st: EditorState,
    undo: Seq<EditorState>,
    redo: Seq<EditorState>,
    cmds: Seq<EditCommand>,
    cmd: EditCommand,
)
    ensures
        ({
            let (s1, u1, r1) = commands_step(st, undo, redo, cmds);
            commands_step(st, undo, redo, cmds.push(cmd)) == command_step(s1, u1, r1, cmd)
        }),
    decreases cmds.len(),
{
    if cmds.len() == 0 {
        assert(cmds.push(cmd)[0] == cmd);
        assert(cmds.push(cmd).drop_first() =~= Seq::<EditCommand>::empty());
        let (s1, u1, r1) = command_step(st, undo, redo, cmd);
        assert(commands_step(s1, u1, r1, Seq::<EditCommand>::empty()) == (s1, u1, r1));
        assert(commands_step(st, undo, redo, cmds.push(cmd)) == commands_step(
            s1,
            u1,
            r1,
            cmds.push(cmd).drop_first(),
        ));
        assert(commands_step(st, undo, redo, cmds) == (st, undo, redo));
    } else {
        assert(cmds.push(cmd)[0] == cmds[0]);
        assert(cmds.push(cmd).drop_first() =~= cmds.drop_first().push(cmd));
        let (s1, u1, r1) = command_step(st, undo, redo, cmds[0]);
        lemma_commands_step_snoc(s1, u1, r1, cmds.drop_first(), cmd);
        assert(commands_step(st, undo, redo, cmds.push(cmd)) == commands_step(
            s1,
            u1,
            r1,
            cmds.drop_first().push(cmd),
        ));
        assert(commands_step(st, undo, redo, cmds) == commands_step(s1, u1, r1, cmds.drop_first()));
    }
}

/// Undo followed by redo restores the text and the cursor exactly, and the
/// two stacks as well, starting from any state a run of editing operations
/// can leave behind (every mutation empties the redo stack).
pub proof fn lemma_undo_then_redo(st: EditorState, undo: Seq<EditorState>, redo: Seq<EditorState>)
    requires
        redo.len() == 0,
    ensures
        ({
            let (st1, u1, r1) = undo_step(st, undo, redo);
            let (st2, u2, r2) = redo_step(st1, u1, r1);
            st2 == st && u2 == undo && r2 == redo
        }),
{
    if undo.len() > 0 {
        let (st1, u1, r1) = undo_step(st, undo, redo);
        let (st2, u2, r2) = redo_step(st1, u1, r1);
        assert(u2 =~= undo);
        assert(r2 =~= redo);
    }
}

struct Snapshot {
    text: String,
    cursor: usize,
}

impl Snapshot {
    spec fn state(&self) -> EditorState {
        EditorState { text: self.text@, cursor: self.cursor as nat }
    }

    spec fn wf(&self) -> bool {
        self.cursor <= self.text@.len()
    }
}

/// The edit session: the line buffer together with its undo and redo
/// history of full snapshots.
pub struct Editor {
    line_buffer: LineBuffer,
    undo_stack: Vec<Snapshot>,
    redo_stack: Vec<Snapshot>,
}

impl Editor {
    /// The visible state: text and cursor.
    pub closed spec fn state(&self) -> EditorState {
        EditorState { text: self.line_buffer.text(), cursor: self.line_buffer.cursor() }
    }

    /// The text alone.
    pub open spec fn text(&self) -> Seq<char> {
        self.state().text
    }

    /// The cursor alone.
    pub open spec fn cursor(&self) -> nat {
        self.state().cursor
    }

    /// The undo stack, oldest snapshot first.
    pub closed spec fn undo_states(&self) -> Seq<EditorState> {
        self.undo_stack@.map_values(|s: Snapshot| s.state())
    }

    /// The redo stack, oldest snapshot first.
    pub closed spec fn redo_states(&self) -> Seq<EditorState> {
        self.redo_stack@.map_values(|s: Snapshot| s.state())
    }

    /// Every cursor recorded anywhere lies inside its text.
    pub closed spec fn wf(&self) -> bool {
        &&& self.line_buffer.wf()
        &&& forall|i: int| 0 <= i < self.undo_stack@.len() ==> (#[trigger] self.undo_stack@[i]).wf()
        &&& forall|i: int| 0 <= i < self.redo_stack@.len() ==> (#[trigger] self.redo_stack@[i]).wf()
    }

    /// A fresh editor: empty buffer, empty histories.
    pub fn new() -> (r: Editor)
        ensures
            r.wf(),
            r.text() == Seq::<char>::empty(),
            r.cursor() == 0,
            r.undo_states().len() == 0,
            r.redo_states().len() == 0,
    {
        let r = Editor {
            line_buffer: LineBuffer::new(),
            undo_stack: Vec::new(),
            redo_stack: Vec::new(),
        };
        proof {
            assert(r.undo_states() =~= Seq::<EditorState>::empty());
            assert(r.redo_states() =~= Seq::<EditorState>::empty());
        }
        r
    }

    /// The current content.
    pub fn get_buffer(&self) -> (r: &str)
        ensures
            r@ == self.text(),
    {
        self.line_buffer.get_buffer()
    }

    /// A freshly allocated copy of the current content.
    pub fn buffer_string(&self) -> (r: String)
        ensures
            r@ == self.text(),
    {
        self.line_buffer.buffer_string()
    }

    /// The cursor offset.
    pub fn insertion_point(&self) -> (r: usize)
        ensures
            r == self.cursor(),
    {
        self.line_buffer.insertion_point()
    }

    /// Whether the buffer holds no text.
    pub fn is_empty(&self) -> (r: bool)
        ensures
            r == (self.text().len() == 0),
    {
        self.line_buffer.is_empty()
    }

    /// Whether the content ends in a newline.
    pub fn ends_with_newline(&self) -> (r: bool)
        ensures
            r == (self.text().len() > 0 && self.text().last() == '\n'),
    {
        self.line_buffer.ends_with_newline()
    }

    /// How many logical lines the content holds.
    pub fn num_lines(&self) -> (r: usize)
        ensures
            r == crate::text::line_count(self.text()),
    {
        self.line_buffer.num_lines()
    }

    /// Replace the whole content without recording history, as a history
    /// recall does; the cursor rests at the end.
    pub fn set_buffer(&mut self, t: String)
        requires
            old(self).wf(),
        ensures
            final(self).wf(),
            final(self).text() == t@,
            final(self).cursor() == t@.len(),
            final(self).undo_states() == old(self).undo_states(),
            final(self).redo_states() == old(self).redo_states(),
    {
        self.line_buffer.set_buffer(t);
    }

    fn push_undo_snapshot(&mut self)
        requires
            old(self).wf(),
        ensures
            final(self).wf(),
            final(self).state() == old(self).state(),
            final(self).undo_states() == old(self).undo_states().push(old(self).state()),
            final(self).redo_states() == Seq::<EditorState>::empty(),
    {
        let snap = Snapshot {
            text: self.line_buffer.buffer_string(),
            cursor: self.line_buffer.insertion_point(),
        };
        let ghost snap0 = snap;
        self.undo_stack.push(snap);
        self.redo_stack.clear();
        proof {
            assert forall|i: int| 0 <= i < self.undo_stack@.len() implies (#[trigger] self.undo_stack@[i]).wf() by {
                if i < old(self).undo_stack@.len() {
                    assert(self.undo_stack@[i] == old(self).undo_stack@[i]);
                } else {
                    assert(snap0.wf());
                    assert(self.undo_stack@[i] == snap0);
                }
            }
            assert(self.undo_states() =~= old(self).undo_states().push(old(self).state()));
            assert(self.redo_states() =~= Seq::<EditorState>::empty());
        }
    }

    /// Forget everything: the content, the cursor and both histories, as
    /// the start of a fresh read cycle does.
    pub fn reset(&mut self)
        ensures
            final(self).wf(),
            final(self).text() == Seq::<char>::empty(),
            final(self).cursor() == 0,
            final(self).undo_states() == Seq::<EditorState>::empty(),
            final(self).redo_states() == Seq::<EditorState>::empty(),
    {
        self.line_buffer.clear();
        self.undo_stack.clear();
        self.redo_stack.clear();
        proof {
            assert(self.undo_states() =~= Seq::<EditorState>::empty());
            assert(self.redo_states() =~= Seq::<EditorState>::empty());
        }
    }

    /// Restore the most recent snapshot, if any, saving the current state
    /// onto the redo stack.
    pub fn undo(&mut self)
        requires
            old(self).wf(),
        ensures
            final(self).wf(),
            (final(self).state(), final(self).undo_states(), final(self).redo_states())
                == undo_step(old(self).state(), old(self).undo_states(), old(self).redo_states()),
    {
        let popped = self.undo_stack.pop();
        match popped {
            Some(snap) => {
                proof {
                    assert(old(self).undo_stack@[old(self).undo_stack@.len() - 1].wf());
                }
                let cur = Snapshot {
                    text: self.line_buffer.buffer_string(),
                    cursor: self.line_buffer.insertion_point(),
                };
                let ghost cur0 = cur;
                self.redo_stack.push(cur);
                let cursor = snap.cursor;
                self.line_buffer.set_buffer(snap.text);
                self.line_buffer.set_insertion_point(cursor);
                proof {
                    assert forall|i: int|
                        0 <= i < self.undo_stack@.len() implies (
                    #[trigger] self.undo_stack@[i]).wf() by {
                        assert(self.undo_stack@[i] == old(self).undo_stack@[i]);
                    }
                    assert forall|i: int|
                        0 <= i < self.redo_stack@.len() implies (
                    #[trigger] self.redo_stack@[i]).wf() by {
                        if i < old(self).redo_stack@.len() {
                            assert(self.redo_stack@[i] == old(self).redo_stack@[i]);
                        } else {
                            assert(self.redo_stack@[i] == cur0);
                        }
                    }
                    assert(self.undo_states() =~= old(self).undo_states().drop_last());
                    assert(self.redo_states() =~= old(self).redo_states().push(old(self).state()));
                }
            },
            None => {
                proof {
                    assert(self.undo_states() =~= old(self).undo_states());
                    assert(self.redo_states() =~= old(self).redo_states());
                }
            },
        }
    }

    /// The mirror of `undo`.
    pub fn redo(&mut self)
        requires
            old(self).wf(),
        ensures
            final(self).wf(),
            (final(self).state(), final(self).undo_states(), final(self).redo_states())
                == redo_step(old(self).state(), old(self).undo_states(), old(self).redo_states()),
    {
        let popped = self.redo_stack.pop();
        match popped {
            Some(snap) => {
                proof {
                    assert(old(self).redo_stack@[old(self).redo_stack@.len() - 1].wf());
                }
                let cur = Snapshot {
                    text: self.line_buffer.buffer_string(),
                    cursor: self.line_buffer.insertion_point(),
                };
                let ghost cur0 = cur;
                self.undo_stack.push(cur);
                let cursor = snap.cursor;
                self.line_buffer.set_buffer(snap.text);
                self.line_buffer.set_insertion_point(cursor);
                proof {
                    assert forall|i: int|
                        0 <= i < self.redo_stack@.len() implies (
                    #[trigger] self.redo_stack@[i]).wf() by {
                        assert(self.redo_stack@[i] == old(self).redo_stack@[i]);
                    }
                    assert forall|i: int|
                        0 <= i < self.undo_stack@.len() implies (
                    #[trigger] self.undo_stack@[i]).wf() by {
                        if i < old(self).undo_stack@.len() {
                            assert(self.undo_stack@[i] == old(self).undo_stack@[i]);
                        } else {
                            assert(self.undo_stack@[i] == cur0);
                        }
                    }
                    assert(self.redo_states() =~= old(self).redo_states().drop_last());
                    assert(self.undo_states() =~= old(self).undo_states().push(old(self).state()));
                }
            },
            None => {
                proof {
                    assert(self.undo_states() =~= old(self).undo_states());
                    assert(self.redo_states() =~= old(self).redo_states());
                }
            },
        }
    }

    /// Apply one editing action. A mutating action first snapshots the
    /// current state for undo and clears the redo stack; a cursor movement
    /// touches neither stack.
    pub fn run_edit_command(&mut self, cmd: EditCommand)
        requires
            old(self).wf(),
        ensures
            final(self).wf(),
            (final(self).state(), final(self).undo_states(), final(self).redo_states())
                == command_step(
                old(self).state(),
                old(self).undo_states(),
                old(self).redo_states(),
                cmd,
            ),
    {
        match cmd {
            EditCommand::MoveToStart => self.line_buffer.move_to_start(),
            EditCommand::MoveToEnd => self.line_buffer.move_to_end(),
            EditCommand::MoveLeft => self.line_buffer.move_left(),
            EditCommand::MoveRight => self.line_buffer.move_right(),
            EditCommand::MoveWordLeft => self.line_buffer.move_word_left(),
            EditCommand::MoveWordRight => self.line_buffer.move_word_right(),
            EditCommand::MoveToLineStart => self.line_buffer.move_to_line_start(),
            EditCommand::MoveToLineEnd => self.line_buffer.move_to_line_end(),
            EditCommand::InsertChar(c) => {
                self.push_undo_snapshot();
                self.line_buffer.insert_char(c);
            },
            EditCommand::Backspace => {
                self.push_undo_snapshot();
                self.line_buffer.backspace();
            },
            EditCommand::Delete => {
                self.push_undo_snapshot();
                self.line_buffer.delete();
            },
            EditCommand::BackspaceWord => {
                self.push_undo_snapshot();
                self.line_buffer.backspace_word();
            },
            EditCommand::UppercaseWord => {
                self.push_undo_snapshot();
                self.line_buffer.uppercase_word();
                proof {
                    assert(self.state().text =~= apply_edit(old(self).state(), cmd).text);
                    assert(self.state() =~= apply_edit(old(self).state(), cmd));
                }
            },
            EditCommand::Clear => {
                self.push_undo_snapshot();
                self.line_buffer.clear();
            },
            EditCommand::Undo => self.undo(),
            EditCommand::Redo => self.redo(),
        }
    }
}

} // verus!
