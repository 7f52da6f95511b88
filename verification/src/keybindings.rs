use crate::editor::EditCommand;
use vstd::prelude::*;

verus! {

/// The modifier keys held together with a key press.
#[derive(Clone, Copy, Debug, PartialEq, Eq, Structural)]
pub struct KeyModifiers {
    pub control: bool,
    pub alt: bool,
    pub shift: bool,
}

impl KeyModifiers {
    /// No modifier held.
    pub fn none() -> (r: KeyModifiers)
        ensures
            r == (KeyModifiers { control: false, alt: false, shift: false }),
    {
        KeyModifiers { control: false, alt: false, shift: false }
    }

    /// Control alone.
    pub fn control() -> (r: KeyModifiers)
        ensures
            r == (KeyModifiers { control: true, alt: false, shift: false }),
    {
        KeyModifiers { control: true, alt: false, shift: false }
    }

    /// Alt alone.
    pub fn alt() -> (r: KeyModifiers)
        ensures
            r == (KeyModifiers { control: false, alt: true, shift: false }),
    {
        KeyModifiers { control: false, alt: true, shift: false }
    }

    /// Shift alone.
    pub fn shift() -> (r: KeyModifiers)
        ensures
            r == (KeyModifiers { control: false, alt: false, shift: true }),
    {
        KeyModifiers { control: false, alt: false, shift: true }
    }
}

/// The key itself.
#[derive(Clone, Copy, Debug, PartialEq, Eq, Structural)]
pub enum KeyCode {
    Char(char),
    Enter,
    Backspace,
    Delete,
    Left,
    Right,
    Up,
    Down,
    Home,
    End,
    Esc,
    Tab,
}

/// Which built-in profile interprets unbound keys, with the Vi profile's two
/// sub-states spelled out.
#[derive(Clone, Copy, Debug, PartialEq, Eq, Structural)]
pub enum EditMode {
    Emacs,
    ViInsert,
    ViNormal,
}

/// One user-supplied binding: a key chord mapped to a fixed sequence of
/// editing actions.
pub struct Binding {
    pub modifiers: KeyModifiers,
    pub code: KeyCode,
    pub commands: Vec<EditCommand>,
}

/// The Emacs-style profile as a mathematical mapping from key chords to
/// single editing actions.
pub open spec fn emacs_default(m: KeyModifiers, c: KeyCode) -> Option<EditCommand> {
    let plain = KeyModifiers { control: false, alt: false, shift: false };
    let ctrl = KeyModifiers { control: true, alt: false, shift: false };
    let alt = KeyModifiers { control: false, alt: true, shift: false };
    if m == ctrl {
        match c {
            KeyCode::Char('a') => Some(EditCommand::MoveToStart),
            KeyCode::Char('e') => Some(EditCommand::MoveToEnd),
            KeyCode::Char('b') => Some(EditCommand::MoveLeft),
            KeyCode::Char('f') => Some(EditCommand::MoveRight),
            KeyCode::Char('h') => Some(EditCommand::Backspace),
            KeyCode::Char('w') => Some(EditCommand::BackspaceWord),
            KeyCode::Char('u') => Some(EditCommand::Clear),
            KeyCode::Char('z') => Some(EditCommand::Undo),
            KeyCode::Char('g') => Some(EditCommand::Redo),
            KeyCode::Left => Some(EditCommand::MoveWordLeft),
            KeyCode::Right => Some(EditCommand::MoveWordRight),
            _ => None,
        }
    } else if m == alt {
        match c {
            KeyCode::Char('b') => Some(EditCommand::MoveWordLeft),
            KeyCode::Char('f') => Some(EditCommand::MoveWordRight),
            KeyCode::Char('u') => Some(EditCommand::UppercaseWord),
            KeyCode::Left => Some(EditCommand::MoveWordLeft),
            KeyCode::Right => Some(EditCommand::MoveWordRight),
            KeyCode::Backspace => Some(EditCommand::BackspaceWord),
            _ => None,
        }
    } else if m == plain {
        match c {
            KeyCode::Left => Some(EditCommand::MoveLeft),
            KeyCode::Right => Some(EditCommand::MoveRight),
            KeyCode::Home => Some(EditCommand::MoveToStart),
            KeyCode::End => Some(EditCommand::MoveToEnd),
            KeyCode::Backspace => Some(EditCommand::Backspace),
            KeyCode::Delete => Some(EditCommand::Delete),
            _ => None,
        }
    } else {
        None
    }
}

/// The Vi normal-mode profile: motions and deletions on unmodified keys.
pub open spec fn vi_normal_default(m: KeyModifiers, c: KeyCode) -> Option<EditCommand> {
    let plain = KeyModifiers { control: false, alt: false, shift: false };
    let shifted = KeyModifiers { control: false, alt: false, shift: true };
    if m == plain {
        match c {
            KeyCode::Char('h') => Some(EditCommand::MoveLeft),
            KeyCode::Char('l') => Some(EditCommand::MoveRight),
            KeyCode::Char('0') => Some(EditCommand::MoveToLineStart),
            KeyCode::Char('b') => Some(EditCommand::MoveWordLeft),
            KeyCode::Char('e') => Some(EditCommand::MoveWordRight),
            KeyCode::Char('x') => Some(EditCommand::Delete),
            KeyCode::Char('u') => Some(EditCommand::Undo),
            KeyCode::Left => Some(EditCommand::MoveLeft),
            KeyCode::Right => Some(EditCommand::MoveRight),
            _ => None,
        }
    } else if m == shifted {
        match c {
            KeyCode::Char('$') => Some(EditCommand::MoveToLineEnd),
            _ => None,
        }
    } else {
        None
    }
}

/// The Vi insert-mode profile: the same chords as the Emacs profile minus
/// the Emacs-only word commands on alt.
pub open spec fn vi_insert_default(m: KeyModifiers, c: KeyCode) -> Option<EditCommand> {
    let plain = KeyModifiers { control: false, alt: false, shift: false };
    if m == plain {
        match c {
            KeyCode::Left => Some(EditCommand::MoveLeft),
            KeyCode::Right => Some(EditCommand::MoveRight),
            KeyCode::Home => Some(EditCommand::MoveToStart),
            KeyCode::End => Some(EditCommand::MoveToEnd),
            KeyCode::Backspace => Some(EditCommand::Backspace),
            KeyCode::Delete => Some(EditCommand::Delete),
            _ => None,
        }
    } else {
        None
    }
}

/// The profile of the given mode, as one mapping.
pub open spec fn mode_default(mode: EditMode, m: KeyModifiers, c: KeyCode) -> Option<EditCommand> {
    match mode {
        EditMode::Emacs => emacs_default(m, c),
        EditMode::ViNormal => vi_normal_default(m, c),
        EditMode::ViInsert => vi_insert_default(m, c),
    }
}

/// Look the chord up in the profile of `mode`.
pub fn mode_default_binding(mode: EditMode, m: KeyModifiers, c: KeyCode) -> (r: Option<
    EditCommand,
>)
    ensures
        r == mode_default(mode, m, c),
{
    let plain = KeyModifiers::none();
    let ctrl = KeyModifiers::control();
    let alt = KeyModifiers::alt();
    let shifted = KeyModifiers::shift();
    match mode {
        EditMode::Emacs => {
            if m == ctrl {
                match c {
                    KeyCode::Char('a') => Some(EditCommand::MoveToStart),
                    KeyCode::Char('e') => Some(EditCommand::MoveToEnd),
                    KeyCode::Char('b') => Some(EditCommand::MoveLeft),
                    KeyCode::Char('f') => Some(EditCommand::MoveRight),
                    KeyCode::Char('h') => Some(EditCommand::Backspace),
                    KeyCode::Char('w') => Some(EditCommand::BackspaceWord),
                    KeyCode::Char('u') => Some(EditCommand::Clear),
                    KeyCode::Char('z') => Some(EditCommand::Undo),
                    KeyCode::Char('g') => Some(EditCommand::Redo),
                    KeyCode::Left => Some(EditCommand::MoveWordLeft),
                    KeyCode::Right => Some(EditCommand::MoveWordRight),
                    _ => None,
                }
            } else if m == alt {
                match c {
                    KeyCode::Char('b') => Some(EditCommand::MoveWordLeft),
                    KeyCode::Char('f') => Some(EditCommand::MoveWordRight),
                    KeyCode::Char('u') => Some(EditCommand::UppercaseWord),
                    KeyCode::Left => Some(EditCommand::MoveWordLeft),
                    KeyCode::Right => Some(EditCommand::MoveWordRight),
                    KeyCode::Backspace => Some(EditCommand::BackspaceWord),
                    _ => None,
                }
            } else if m == plain {
                match c {
                    KeyCode::Left => Some(EditCommand::MoveLeft),
                    KeyCode::Right => Some(EditCommand::MoveRight),
                    KeyCode::Home => Some(EditCommand::MoveToStart),
                    KeyCode::End => Some(EditCommand::MoveToEnd),
                    KeyCode::Backspace => Some(EditCommand::Backspace),
                    KeyCode::Delete => Some(EditCommand::Delete),
                    _ => None,
                }
            } else {
                None
            }
        },
        EditMode::ViNormal => {
            if m == plain {
                match c {
                    KeyCode::Char('h') => Some(EditCommand::MoveLeft),
                    KeyCode::Char('l') => Some(EditCommand::MoveRight),
                    KeyCode::Char('0') => Some(EditCommand::MoveToLineStart),
                    KeyCode::Char('b') => Some(EditCommand::MoveWordLeft),
                    KeyCode::Char('e') => Some(EditCommand::MoveWordRight),
                    KeyCode::Char('x') => Some(EditCommand::Delete),
                    KeyCode::Char('u') => Some(EditCommand::Undo),
                    KeyCode::Left => Some(EditCommand::MoveLeft),
                    KeyCode::Right => Some(EditCommand::MoveRight),
                    _ => None,
                }
            } else if m == shifted {
                match c {
                    KeyCode::Char('$') => Some(EditCommand::MoveToLineEnd),
                    _ => None,
                }
            } else {
                None
            }
        },
        EditMode::ViInsert => {
            if m == plain {
                match c {
                    KeyCode::Left => Some(EditCommand::MoveLeft),
                    KeyCode::Right => Some(EditCommand::MoveRight),
                    KeyCode::Home => Some(EditCommand::MoveToStart),
                    KeyCode::End => Some(EditCommand::MoveToEnd),
                    KeyCode::Backspace => Some(EditCommand::Backspace),
                    KeyCode::Delete => Some(EditCommand::Delete),
                    _ => None,
                }
            } else {
                None
            }
        },
    }
}

/// The first user binding at or after `i` that matches the chord.
pub open spec fn first_match_from(bs: Seq<Binding>, m: KeyModifiers, c: KeyCode, i: int) -> Option<
    int,
>
    decreases bs.len() - i,
{
    if !(0 <= i < bs.len()) {
        None
    } else if bs[i].modifiers == m && bs[i].code == c {
        Some(i)
    } else {
        first_match_from(bs, m, c, i + 1)
    }
}

/// The ordered table of user bindings: the earliest matching entry claims
/// the key, and anything unbound falls through to the mode profile.
pub struct Keybindings {
    bindings: Vec<Binding>,
}

impl Keybindings {
    /// The bindings in lookup order.
    pub closed spec fn bindings(&self) -> Seq<Binding> {
        self.bindings@
    }

    /// An empty table: every key falls through to the mode profile.
    pub fn new() -> (r: Keybindings)
        ensures
            r.bindings().len() == 0,
    {
        Keybindings { bindings: Vec::new() }
    }

    /// Append a binding; earlier bindings keep priority.
    pub fn add_binding(&mut self, modifiers: KeyModifiers, code: KeyCode, commands: Vec<
        EditCommand,
    >)
        ensures
            final(self).bindings() == old(self).bindings().push(
                Binding { modifiers, code, commands },
            ),
    {
        self.bindings.push(Binding { modifiers, code, commands });
    }

    /// The index of the first binding matching the chord, if any.
    pub fn find_binding(&self, m: KeyModifiers, c: KeyCode) -> (r: Option<usize>)
        ensures
            match r {
                Some(i) => first_match_from(self.bindings(), m, c, 0) == Some(i as int) && i
                    < self.bindings().len(),
                None => first_match_from(self.bindings(), m, c, 0) is None,
            },
    {
        let n = self.bindings.len();
        let mut i: usize = 0;
        while i < n
            invariant
                i <= n == self.bindings().len(),
                first_match_from(self.bindings(), m, c, 0) == first_match_from(
                    self.bindings(),
                    m,
                    c,
                    i as int,
                ),
            decreases n - i,
        {
            let b = &self.bindings[i];
            if b.modifiers == m && b.code == c {
                return Some(i);
            }
            i = i + 1;
        }
        None
    }

    /// How many actions the binding at `i` carries.
    pub fn commands_len(&self, i: usize) -> (r: usize)
        requires
            i < self.bindings().len(),
        ensures
            r == self.bindings()[i as int].commands@.len(),
    {
        self.bindings[i].commands.len()
    }

    /// The `j`-th action of the binding at `i`.
    pub fn command_at(&self, i: usize, j: usize) -> (r: EditCommand)
        requires
            i < self.bindings().len(),
            j < self.bindings()[i as int].commands@.len(),
        ensures
            r == self.bindings()[i as int].commands@[j as int],
    {
        self.bindings[i].commands[j]
    }
}

/// The table the Emacs mode starts from: empty, because the Emacs chords
/// live in the mode profile itself; the caller adds its own bindings on top.
pub fn default_emacs_keybindings() -> (r: Keybindings)
    ensures
        r.bindings().len() == 0,
{
    Keybindings::new()
}

} // verus!
