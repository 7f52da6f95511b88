use crate::text::line_count;
use crate::text::line_count_of;
use crate::width::buffer_rows_clamped;
use crate::width::estimated_buffer_rows;
use vstd::prelude::*;
use vstd::string::StrSliceExecFns;
use vstd::string::StringExecFns;

verus! {

/// One queued terminal draw operation, ready for the backend to perform.
#[derive(Debug)]
pub enum DrawOp {
    HideCursor,
    ShowCursor,
    ScrollUp(u16),
    MoveTo(u16, u16),
    MoveToColumn(u16),
    ClearFromCursorDown,
    ClearUntilNewline,
    SetPromptColor,
    ResetColor,
    SavePosition,
    RestorePosition,
    Print(String),
}

/// The mathematical shape of a draw operation.
pub enum DrawOpV {
    HideCursor,
    ShowCursor,
    ScrollUp(u16),
    MoveTo(u16, u16),
    MoveToColumn(u16),
    ClearFromCursorDown,
    ClearUntilNewline,
    SetPromptColor,
    ResetColor,
    SavePosition,
    RestorePosition,
    Print(Seq<char>),
}

impl View for DrawOp {
    type V = DrawOpV;

    open spec fn view(&self) -> DrawOpV {
        match self {
            DrawOp::HideCursor => DrawOpV::HideCursor,
            DrawOp::ShowCursor => DrawOpV::ShowCursor,
            DrawOp::ScrollUp(n) => DrawOpV::ScrollUp(*n),
            DrawOp::MoveTo(c, r) => DrawOpV::MoveTo(*c, *r),
            DrawOp::MoveToColumn(c) => DrawOpV::MoveToColumn(*c),
            DrawOp::ClearFromCursorDown => DrawOpV::ClearFromCursorDown,
            DrawOp::ClearUntilNewline => DrawOpV::ClearUntilNewline,
            DrawOp::SetPromptColor => DrawOpV::SetPromptColor,
            DrawOp::ResetColor => DrawOpV::ResetColor,
            DrawOp::SavePosition => DrawOpV::SavePosition,
            DrawOp::RestorePosition => DrawOpV::RestorePosition,
            DrawOp::Print(s) => DrawOpV::Print(s@),
        }
    }
}

/// The queued operations as mathematical values.
pub open spec fn ops_view(s: Seq<DrawOp>) -> Seq<DrawOpV> {
    s.map_values(|op: DrawOp| op@)
}

/// Where the prompt and the input after it begin on the screen.
pub struct PromptCoordinates {
    prompt_start: (u16, u16),
    input_start: (u16, u16),
}

impl PromptCoordinates {
    /// The prompt origin as (column, row).
    pub closed spec fn prompt_start_spec(&self) -> (u16, u16) {
        self.prompt_start
    }

    /// The input origin as (column, row).
    pub closed spec fn input_start_spec(&self) -> (u16, u16) {
        self.input_start
    }

    /// Record where the prompt begins.
    pub fn set_prompt_start(&mut self, col: u16, row: u16)
        ensures
            final(self).prompt_start_spec() == (col, row),
            final(self).input_start_spec() == old(self).input_start_spec(),
    {
        self.prompt_start = (col, row);
    }

    /// Record where the input begins.
    pub fn set_input_start(&mut self, col: u16, row: u16)
        ensures
            final(self).input_start_spec() == (col, row),
            final(self).prompt_start_spec() == old(self).prompt_start_spec(),
    {
        self.input_start = (col, row);
    }
}

/// The buffer split as the painter draws it: the text before the cursor,
/// the text after it, and the hint, each possibly spanning several lines.
pub struct PromptLines {
    before_cursor: String,
    after_cursor: String,
    hint: String,
}

/// A line count clamped to what a terminal coordinate can hold.
pub open spec fn lines_clamped(s: Seq<char>) -> u16 {
    if line_count(s) >= u16::MAX as nat {
        u16::MAX
    } else {
        line_count(s) as u16
    }
}

impl PromptLines {
    /// The text before the cursor.
    pub closed spec fn before_text(&self) -> Seq<char> {
        self.before_cursor@
    }

    /// The text after the cursor.
    pub closed spec fn after_text(&self) -> Seq<char> {
        self.after_cursor@
    }

    /// The hint text.
    pub closed spec fn hint_text(&self) -> Seq<char> {
        self.hint@
    }

    /// Splits the strings before and after the cursor as well as the hint.
    /// Their line counts decide how many rows the prompt needs.
    pub fn new(before_cursor: String, after_cursor: String, hint: String) -> (r: PromptLines)
        ensures
            r.before_text() == before_cursor@,
            r.after_text() == after_cursor@,
            r.hint_text() == hint@,
    {
        PromptLines { before_cursor, after_cursor, hint }
    }

    /// How many lines stand before the cursor.
    pub fn before_cursor_lines(&self) -> (r: u16)
        ensures
            r == lines_clamped(self.before_text()),
    {
        clamp_lines(line_count_of(self.before_cursor.as_str()))
    }

    /// How many lines stand after the cursor.
    pub fn after_cursor_lines(&self) -> (r: u16)
        ensures
            r == lines_clamped(self.after_text()),
    {
        clamp_lines(line_count_of(self.after_cursor.as_str()))
    }

    /// How many lines the hint spans.
    pub fn hint_lines(&self) -> (r: u16)
        ensures
            r == lines_clamped(self.hint_text()),
    {
        clamp_lines(line_count_of(self.hint.as_str()))
    }
}

fn clamp_lines(n: usize) -> (r: u16)
    ensures
        r as nat == (if n >= u16::MAX as nat {
            u16::MAX as nat
        } else {
            n as nat
        }),
{
    if n >= u16::MAX as usize {
        u16::MAX
    } else {
        n as u16
    }
}

/// The rows the three segments need together: the first line of the text
/// after the cursor (or of the hint, whichever is taller) shares a row with
/// the last line before the cursor, hence the minus one; never negative.
pub open spec fn required_rows(before: nat, after: nat, hint: nat) -> nat {
    let tail = if after >= hint {
        after
    } else {
        hint
    };
    if before + tail >= 1 {
        (before + tail - 1) as nat
    } else {
        0
    }
}

/// With at least one line before the cursor, the requirement is exactly
/// `before + max(after, hint) - 1`, and it is never negative.
pub proof fn lemma_required_rows(before: nat, after: nat, hint: nat)
    ensures
        required_rows(before, after, hint) >= 0,
        before >= 1 ==> required_rows(before, after, hint) + 1 == before + (if after >= hint {
            after
        } else {
            hint
        }),
{
}

/// What a resize does to the prompt origin row: shrinking past it clamps
/// it near the bottom; growing shifts it down by the growth so it stays
/// anchored to the scroll-back; otherwise it stays put.
pub open spec fn resize_prompt_row(old_row: u16, old_rows: u16, height: u16) -> int {
    if old_row >= height - 1 {
        if height >= 2 {
            height - 2
        } else {
            0
        }
    } else if old_rows < height {
        old_row + (height - old_rows)
    } else {
        old_row as int
    }
}

/// Growing the terminal by some rows moves the prompt origin down by
/// exactly that many rows, whenever the shrink clamp does not apply.
pub proof fn lemma_resize_grow(old_row: u16, old_rows: u16, height: u16)
    requires
        old_rows < height,
        old_row < height - 1,
    ensures
        resize_prompt_row(old_row, old_rows, height) == old_row + (height - old_rows),
{
}

/// Shrinking the terminal to or below the prompt origin clamps the origin
/// to the second-to-last row.
pub proof fn lemma_resize_shrink_clamp(old_row: u16, old_rows: u16, height: u16)
    requires
        height >= 2,
        old_row >= height - 1,
    ensures
        resize_prompt_row(old_row, old_rows, height) == height - 2,
{
}

/// What the repaint does to the prompt row before drawing: if the prompt
/// needs more rows than remain below it, scroll them in and shift the
/// origin up by the same amount, saturating at the top row; if exactly one
/// row remains at the cursor, scroll a single row.
pub open spec fn repaint_scroll(prompt_row: u16, rows: u16, required: u16, distance: u16) -> (
    u16,
    int,
) {
    let remaining = rows - prompt_row;
    if required > remaining {
        (required, if required <= prompt_row {
            prompt_row - required
        } else {
            0
        })
    } else if remaining - distance == 1 {
        (1, if prompt_row >= 1 {
            prompt_row - 1
        } else {
            0
        })
    } else {
        (0, prompt_row as int)
    }
}

/// The exact sequence of draw operations one full repaint queues.
pub open spec fn repaint_ops(
    scroll: u16,
    start_col: u16,
    start_row: u16,
    prompt: Seq<char>,
    indicator: Seq<char>,
    before: Seq<char>,
    hint: Seq<char>,
    after: Seq<char>,
    coloring: bool,
) -> Seq<DrawOpV> {
    let s0 = seq![DrawOpV::HideCursor];
    let s1 = if scroll > 0 {
        s0.push(DrawOpV::ScrollUp(scroll))
    } else {
        s0
    };
    let s2 = s1.push(DrawOpV::MoveTo(start_col, start_row));
    let s3 = if coloring {
        s2.push(DrawOpV::SetPromptColor)
    } else {
        s2
    };
    let s4 = s3 + seq![
        DrawOpV::MoveToColumn(0),
        DrawOpV::ClearFromCursorDown,
        DrawOpV::Print(prompt),
        DrawOpV::Print(indicator),
        DrawOpV::Print(before),
        DrawOpV::SavePosition,
        DrawOpV::Print(hint),
        DrawOpV::Print(after),
        DrawOpV::RestorePosition,
    ];
    let s5 = if coloring {
        s4.push(DrawOpV::ResetColor)
    } else {
        s4
    };
    s5.push(DrawOpV::ShowCursor)
}

/// The screen painter: it owns the prompt origin and the terminal geometry,
/// and turns buffer and prompt text into the minimal queue of draw
/// operations that keeps the screen in step.
pub struct Painter {
    prompt_coords: PromptCoordinates,
    terminal_size: (u16, u16),
}

impl Painter {
    /// The terminal size as (columns, rows).
    pub closed spec fn size(&self) -> (u16, u16) {
        self.terminal_size
    }

    /// The prompt origin as (column, row).
    pub closed spec fn prompt_start(&self) -> (u16, u16) {
        self.prompt_coords.prompt_start_spec()
    }

    /// The input origin as (column, row).
    pub closed spec fn input_start(&self) -> (u16, u16) {
        self.prompt_coords.input_start_spec()
    }

    /// The geometry is initialized and the prompt origin fits the screen.
    pub open spec fn wf(&self) -> bool {
        self.size().0 >= 1 && self.size().1 >= 1 && self.prompt_start().1 < self.size().1
    }

    /// A painter before its first size query: zero geometry, origin at the
    /// top left.
    pub fn new() -> (r: Painter)
        ensures
            r.size() == (0u16, 0u16),
            r.prompt_start() == (0u16, 0u16),
            r.input_start() == (0u16, 0u16),
    {
        Painter {
            prompt_coords: PromptCoordinates { prompt_start: (0, 0), input_start: (0, 0) },
            terminal_size: (0, 0),
        }
    }

    /// Record the terminal size measured at session start.
    pub fn init_terminal_size(&mut self, columns: u16, rows: u16)
        requires
            columns >= 1,
            rows >= 1,
            old(self).prompt_start().1 < rows,
        ensures
            final(self).wf(),
            final(self).size() == (columns, rows),
            final(self).prompt_start() == old(self).prompt_start(),
            final(self).input_start() == old(self).input_start(),
    {
        self.terminal_size = (columns, rows);
    }

    /// The width of the screen.
    pub fn terminal_columns(&self) -> (r: u16)
        ensures
            r == self.size().0,
    {
        self.terminal_size.0
    }

    /// The height of the screen.
    pub fn terminal_rows(&self) -> (r: u16)
        ensures
            r == self.size().1,
    {
        self.terminal_size.1
    }

    /// The prompt origin as the painter records it.
    pub fn get_prompt_start(&self) -> (r: (u16, u16))
        ensures
            r == self.prompt_start(),
    {
        self.prompt_coords.prompt_start
    }

    /// The input origin as the painter records it.
    pub fn get_input_start(&self) -> (r: (u16, u16))
        ensures
            r == self.input_start(),
    {
        self.prompt_coords.input_start
    }

    /// Record where the input begins, measured after the prompt was drawn.
    pub fn set_input_start(&mut self, col: u16, row: u16)
        ensures
            final(self).input_start() == (col, row),
            final(self).prompt_start() == old(self).prompt_start(),
            final(self).size() == old(self).size(),
            final(self).wf() == old(self).wf(),
    {
        self.prompt_coords.set_input_start(col, row);
    }

    /// How many rows remain at and below the prompt origin.
    pub fn remaining_lines(&self) -> (r: u16)
        requires
            self.wf(),
        ensures
            r == self.size().1 - self.prompt_start().1,
    {
        self.terminal_size.1 - self.prompt_coords.prompt_start.1
    }

    /// Calculates how many rows are required to print all the prompt lines
    /// including the hint, over the rows the cursor has already consumed
    /// below the prompt origin; both subtractions saturate at zero.
    pub fn required_lines(&self, lines: &PromptLines, cursor_row: u16) -> (r: (u16, u16))
        requires
            self.wf(),
        ensures
            r.1 == (if cursor_row >= self.prompt_start().1 {
                cursor_row - self.prompt_start().1
            } else {
                0int
            }),
            ({
                let base = required_rows(
                    line_count(lines.before_text()),
                    line_count(lines.after_text()),
                    line_count(lines.hint_text()),
                );
                let shown = if base >= r.1 {
                    base - r.1
                } else {
                    0int
                };
                r.0 as int == (if shown >= u16::MAX as int {
                    u16::MAX as int
                } else {
                    shown
                })
            }),
    {
        let before = line_count_of(lines.before_cursor.as_str());
        let after = line_count_of(lines.after_cursor.as_str());
        let hint = line_count_of(lines.hint.as_str());
        let tail = if after >= hint {
            after
        } else {
            hint
        };
        let base: u128 = if before as u128 + tail as u128 >= 1 {
            before as u128 + tail as u128 - 1
        } else {
            0
        };
        let row = self.prompt_coords.prompt_start.1;
        let distance = if cursor_row >= row {
            cursor_row - row
        } else {
            0
        };
        let shown: u128 = if base >= distance as u128 {
            base - distance as u128
        } else {
            0
        };
        let required: u16 = if shown >= u16::MAX as u128 {
            u16::MAX
        } else {
            shown as u16
        };
        (required, distance)
    }

    /// Sets the prompt origin from the measured cursor position: content
    /// already on the cursor's row is left intact by starting on the next
    /// row, and near the bottom of the screen blank rows are printed first
    /// (the returned count) so a two-line prompt is never clipped.
    pub fn initialize_prompt_position(&mut self, cursor_col: u16, cursor_row: u16) -> (pads: u16)
        requires
            old(self).wf(),
            cursor_row < old(self).size().1,
        ensures
            final(self).wf(),
            final(self).size() == old(self).size(),
            final(self).input_start() == old(self).input_start(),
            ({
                let rows = old(self).size().1;
                let target = if cursor_col > 0 {
                    cursor_row + 1
                } else {
                    cursor_row as int
                };
                if target == rows {
                    pads == 2 && final(self).prompt_start() == (0u16, (if target >= 2 {
                        (target - 2) as u16
                    } else {
                        0u16
                    }))
                } else if target == rows - 1 {
                    pads == 1 && final(self).prompt_start() == (0u16, (if target >= 1 {
                        (target - 1) as u16
                    } else {
                        0u16
                    }))
                } else {
                    pads == 0 && final(self).prompt_start() == (0u16, target as u16)
                }
            }),
    {
        let rows = self.terminal_size.1;
        let target = if cursor_col > 0 {
            cursor_row + 1
        } else {
            cursor_row
        };
        if target == rows {
            let row = if target >= 2 {
                target - 2
            } else {
                0
            };
            self.prompt_coords.set_prompt_start(0, row);
            2
        } else if target == rows - 1 {
            let row = if target >= 1 {
                target - 1
            } else {
                0
            };
            self.prompt_coords.set_prompt_start(0, row);
            1
        } else {
            self.prompt_coords.set_prompt_start(0, target);
            0
        }
    }

    /// Queue one full repaint: scroll the prompt origin if the prompt has
    /// outgrown the space below it, then hide the cursor, home to the
    /// origin, clear downwards, draw prompt, indicator and buffer, park the
    /// visible cursor at the logical cursor by saving the position before
    /// the hint and restoring it after, and show the cursor again.
    pub fn repaint_everything(
        &mut self,
        prompt_text: &str,
        indicator: &str,
        lines: &PromptLines,
        cursor_row: u16,
        use_ansi_coloring: bool,
    ) -> (ops: Vec<DrawOp>)
        requires
            old(self).wf(),
            cursor_row < old(self).size().1,
        ensures
            final(self).wf(),
            final(self).size() == old(self).size(),
            final(self).input_start() == old(self).input_start(),
            final(self).prompt_start().0 == old(self).prompt_start().0,
            ({
                let base = required_rows(
                    line_count(lines.before_text()),
                    line_count(lines.after_text()),
                    line_count(lines.hint_text()),
                );
                let distance = if cursor_row >= old(self).prompt_start().1 {
                    cursor_row - old(self).prompt_start().1
                } else {
                    0int
                };
                let shown = if base >= distance {
                    base - distance
                } else {
                    0int
                };
                let required = if shown >= u16::MAX as int {
                    u16::MAX as int
                } else {
                    shown
                };
                let (scroll, new_row) = repaint_scroll(
                    old(self).prompt_start().1,
                    old(self).size().1,
                    required as u16,
                    distance as u16,
                );
                final(self).prompt_start().1 == new_row && ops_view(ops@) == repaint_ops(
                    scroll,
                    old(self).prompt_start().0,
                    new_row as u16,
                    prompt_text@,
                    indicator@,
                    lines.before_text(),
                    lines.hint_text(),
                    lines.after_text(),
                    use_ansi_coloring,
                )
            }),
    {
        let (required, distance) = self.required_lines(lines, cursor_row);
        let remaining = self.remaining_lines();
        let row = self.prompt_coords.prompt_start.1;
        let mut scroll: u16 = 0;
        if required > remaining {
            scroll = required;
            self.prompt_coords.prompt_start.1 = if required <= row {
                row - required
            } else {
                0
            };
        } else if remaining - distance == 1 {
            scroll = 1;
            self.prompt_coords.prompt_start.1 = if row >= 1 {
                row - 1
            } else {
                0
            };
        }
        let mut ops: Vec<DrawOp> = Vec::new();
        ops.push(DrawOp::HideCursor);
        if scroll > 0 {
            ops.push(DrawOp::ScrollUp(scroll));
        }
        ops.push(
            DrawOp::MoveTo(self.prompt_coords.prompt_start.0, self.prompt_coords.prompt_start.1),
        );
        if use_ansi_coloring {
            ops.push(DrawOp::SetPromptColor);
        }
        ops.push(DrawOp::MoveToColumn(0));
        ops.push(DrawOp::ClearFromCursorDown);
        ops.push(DrawOp::Print(String::from_str(prompt_text)));
        ops.push(DrawOp::Print(String::from_str(indicator)));
        ops.push(DrawOp::Print(self.clone_string(&lines.before_cursor)));
        ops.push(DrawOp::SavePosition);
        ops.push(DrawOp::Print(self.clone_string(&lines.hint)));
        ops.push(DrawOp::Print(self.clone_string(&lines.after_cursor)));
        ops.push(DrawOp::RestorePosition);
        if use_ansi_coloring {
            ops.push(DrawOp::ResetColor);
        }
        ops.push(DrawOp::ShowCursor);
        proof {
            assert(ops_view(ops@) =~= repaint_ops(
                scroll,
                old(self).prompt_start().0,
                self.prompt_start().1,
                prompt_text@,
                indicator@,
                lines.before_text(),
                lines.hint_text(),
                lines.after_text(),
                use_ansi_coloring,
            ));
        }
        ops
    }

    fn clone_string(&self, s: &String) -> (r: String)
        ensures
            r@ == s@,
    {
        s.clone()
    }

    /// Updates prompt origin and size to handle a screen resize event.
    pub fn handle_resize(&mut self, width: u16, height: u16)
        requires
            old(self).wf(),
            width >= 1,
            height >= 1,
        ensures
            final(self).wf(),
            final(self).size() == (width, height),
            final(self).input_start() == old(self).input_start(),
            final(self).prompt_start().0 == old(self).prompt_start().0,
            final(self).prompt_start().1 == resize_prompt_row(
                old(self).prompt_start().1,
                old(self).size().1,
                height,
            ),
    {
        let prev_rows = self.terminal_size.1;
        self.terminal_size = (width, height);
        let (origin_col, origin_row) = self.prompt_coords.prompt_start;
        if origin_row >= height - 1 {
            let clamped = if height >= 2 {
                height - 2
            } else {
                0
            };
            self.prompt_coords.set_prompt_start(origin_col, clamped);
        } else if prev_rows < height {
            let shifted: u32 = origin_row as u32 + (height - prev_rows) as u32;
            assert(shifted < height as u32);
            self.prompt_coords.set_prompt_start(origin_col, shifted as u16);
        }
    }

    /// Scroll the buffer's overflow past the bottom of the screen out of
    /// the way: estimate the rows the buffer occupies (soft wrap included),
    /// and if they spill past the last row, return how many rows to scroll
    /// (one less when a trailing newline already feeds a line) and pull
    /// both origins up by the spill, each clamped at the top on its own.
    pub fn adjust_prompt_position(&mut self, buffer: &str) -> (scroll: u16)
        requires
            old(self).wf(),
        ensures
            final(self).wf(),
            final(self).size() == old(self).size(),
            final(self).prompt_start().0 == old(self).prompt_start().0,
            final(self).input_start().0 == old(self).input_start().0,
            ({
                let est = buffer_rows_clamped(buffer@, old(self).size().0 as nat) as int;
                let input_row = old(self).input_start().1;
                let prompt_row = old(self).prompt_start().1;
                let rows = old(self).size().1;
                if input_row + est > rows {
                    let spill = input_row + est - rows;
                    let ends_nl = buffer@.len() > 0 && buffer@.last() == '\n';
                    let wanted = if ends_nl {
                        spill - 1
                    } else {
                        spill
                    };
                    &&& scroll as int == (if wanted >= u16::MAX as int {
                        u16::MAX as int
                    } else {
                        wanted
                    })
                    &&& final(self).input_start().1 == (if spill <= input_row {
                        input_row - spill
                    } else {
                        0int
                    })
                    &&& final(self).prompt_start().1 == (if spill <= prompt_row {
                        prompt_row - spill
                    } else {
                        0int
                    })
                } else {
                    scroll == 0 && final(self).input_start() == old(self).input_start() && final(self).prompt_start() == old(self).prompt_start()
                }
            }),
    {
        let (input_col, input_row) = self.prompt_coords.input_start;
        let (prompt_col, prompt_row) = self.prompt_coords.prompt_start;
        let cols = self.terminal_size.0;
        let rows = self.terminal_size.1;
        let est = estimated_buffer_rows(buffer, cols);
        let occupied: u32 = input_row as u32 + est as u32;
        if occupied > rows as u32 {
            let spill: u32 = occupied - rows as u32;
            let n = buffer.unicode_len();
            let ends_nl = n > 0 && buffer.get_char(n - 1) == '\n';
            let wanted: u32 = if ends_nl {
                spill - 1
            } else {
                spill
            };
            let scroll: u16 = if wanted >= u16::MAX as u32 {
                u16::MAX
            } else {
                wanted as u16
            };
            if spill <= input_row as u32 {
                self.prompt_coords.set_input_start(input_col, input_row - spill as u16);
            } else {
                self.prompt_coords.set_input_start(input_col, 0);
            }
            if spill <= prompt_row as u32 {
                self.prompt_coords.set_prompt_start(prompt_col, prompt_row - spill as u16);
            } else {
                self.prompt_coords.set_prompt_start(prompt_col, 0);
            }
            scroll
        } else {
            0
        }
    }

    /// Queue `line` followed by a line feed and a return to the first
    /// column.
    pub fn paint_line(&self, line: &str) -> (ops: Vec<DrawOp>)
        ensures
            ops_view(ops@) == seq![
                DrawOpV::Print(line@),
                DrawOpV::Print(seq!['\n']),
                DrawOpV::MoveToColumn(0),
            ],
    {
        let mut ops: Vec<DrawOp> = Vec::new();
        ops.push(DrawOp::Print(String::from_str(line)));
        let newline = String::from_str("\n");
        proof {
            reveal_strlit("\n");
            assert(newline@ =~= seq!['\n']);
        }
        ops.push(DrawOp::Print(newline));
        ops.push(DrawOp::MoveToColumn(0));
        proof {
            assert(ops_view(ops@) =~= seq![
                DrawOpV::Print(line@),
                DrawOpV::Print(seq!['\n']),
                DrawOpV::MoveToColumn(0),
            ]);
        }
        ops
    }

    /// Queue enough line feeds to push everything on screen into the
    /// scroll-back, then home the cursor.
    pub fn clear_screen(&self) -> (ops: Vec<DrawOp>)
        requires
            self.wf(),
        ensures
            ops_view(ops@).len() == 2 * self.size().1 + 1,
            forall|i: int|
                0 <= i < 2 * self.size().1 ==> ops_view(ops@)[i] == DrawOpV::Print(seq!['\n']),
            ops_view(ops@).last() == DrawOpV::MoveTo(0u16, 0u16),
    {
        let rows = self.terminal_size.1;
        let total: u32 = 2 * rows as u32;
        let mut ops: Vec<DrawOp> = Vec::new();
        let mut i: u32 = 0;
        while i < total
            invariant
                i <= total == 2 * self.size().1,
                ops@.len() == i,
                forall|j: int| 0 <= j < i ==> (#[trigger] ops@[j])@ == DrawOpV::Print(seq!['\n']),
            decreases total - i,
        {
            let newline = String::from_str("\n");
            proof {
                reveal_strlit("\n");
                assert(newline@ =~= seq!['\n']);
            }
            let op = DrawOp::Print(newline);
            let ghost op0 = op;
            let ghost prev = ops@;
            ops.push(op);
            proof {
                assert forall|j: int| 0 <= j < i + 1 implies (#[trigger] ops@[j])@ == DrawOpV::Print(
                    seq!['\n'],
                ) by {
                    if j < i {
                        assert(ops@[j] == prev[j]);
                    } else {
                        assert(ops@[j] == op0);
                    }
                }
            }
            i = i + 1;
        }
        ops.push(DrawOp::MoveTo(0, 0));
        proof {
            assert forall|k: int| 0 <= k < 2 * self.size().1 implies ops_view(ops@)[k]
                == DrawOpV::Print(seq!['\n']) by {
                assert(ops_view(ops@)[k] == ops@[k]@);
            }
            assert(ops_view(ops@).last() == ops@[ops@.len() - 1]@);
        }
        ops
    }

    /// Queue the history-search prompt indicator at the start of the line,
    /// colored when coloring is on.
    pub fn queue_history_search_indicator(&self, indicator: &str, use_ansi_coloring: bool) -> (ops:
        Vec<DrawOp>)
        ensures
            ops_view(ops@) == seq![DrawOpV::MoveToColumn(0u16)] + (if use_ansi_coloring {
                seq![DrawOpV::SetPromptColor]
            } else {
                Seq::<DrawOpV>::empty()
            }) + seq![DrawOpV::Print(indicator@)] + (if use_ansi_coloring {
                seq![DrawOpV::ResetColor]
            } else {
                Seq::<DrawOpV>::empty()
            }),
    {
        let mut ops: Vec<DrawOp> = Vec::new();
        ops.push(DrawOp::MoveToColumn(0));
        if use_ansi_coloring {
            ops.push(DrawOp::SetPromptColor);
        }
        ops.push(DrawOp::Print(String::from_str(indicator)));
        if use_ansi_coloring {
            ops.push(DrawOp::ResetColor);
        }
        proof {
            assert(ops_view(ops@) =~= seq![DrawOpV::MoveToColumn(0u16)] + (if use_ansi_coloring {
                seq![DrawOpV::SetPromptColor]
            } else {
                Seq::<DrawOpV>::empty()
            }) + seq![DrawOpV::Print(indicator@)] + (if use_ansi_coloring {
                seq![DrawOpV::ResetColor]
            } else {
                Seq::<DrawOpV>::empty()
            }));
        }
        ops
    }

    /// Queue a matched history line so that the visible cursor rests at
    /// `offset`, clearing whatever the previous match left behind it.
    pub fn queue_history_search_result(&self, history_result: &str, offset: usize) -> (ops: Vec<
        DrawOp,
    >)
        requires
            offset <= history_result@.len(),
        ensures
            ops_view(ops@) == seq![
                DrawOpV::Print(history_result@.take(offset as int)),
                DrawOpV::SavePosition,
                DrawOpV::Print(history_result@.skip(offset as int)),
                DrawOpV::ClearUntilNewline,
                DrawOpV::RestorePosition,
            ],
    {
        let n = history_result.unicode_len();
        let head = history_result.substring_char(0, offset);
        let tail = history_result.substring_char(offset, n);
        let mut ops: Vec<DrawOp> = Vec::new();
        ops.push(DrawOp::Print(String::from_str(head)));
        ops.push(DrawOp::SavePosition);
        ops.push(DrawOp::Print(String::from_str(tail)));
        ops.push(DrawOp::ClearUntilNewline);
        ops.push(DrawOp::RestorePosition);
        proof {
            assert(history_result@.subrange(0, offset as int) =~= history_result@.take(
                offset as int,
            ));
            assert(history_result@.subrange(offset as int, n as int) =~= history_result@.skip(
                offset as int,
            ));
            assert(ops_view(ops@) =~= seq![
                DrawOpV::Print(history_result@.take(offset as int)),
                DrawOpV::SavePosition,
                DrawOpV::Print(history_result@.skip(offset as int)),
                DrawOpV::ClearUntilNewline,
                DrawOpV::RestorePosition,
            ]);
        }
        ops
    }
}

} // verus!
