use crate::text::find_newline;
use crate::text::first_newline_from;
use crate::text::lemma_first_newline_bounds;
use vstd::prelude::*;
use vstd::string::StrSliceExecFns;

verus! {

/// The number of terminal columns the text occupies, as the display-width
/// tables define it. It depends on the characters alone.
pub uninterp spec fn display_width_of(s: Seq<char>) -> usize;

/// Relies on UnicodeWidthStr::width: the displayed width of a string in
/// columns, computed from its characters alone by Unicode tables.
#[verifier::external_body]
fn str_display_width(s: &str) -> (r: usize)
    ensures
        r == display_width_of(s@),
{
    unicode_width::UnicodeWidthStr::width(s)
}

/// The logical lines starting at `from`: the segments between newlines,
/// with a trailing newline closing the last line rather than opening an
/// empty one.
pub open spec fn split_lines_from(s: Seq<char>, from: int) -> Seq<Seq<char>>
    decreases s.len() - from,
    via split_lines_from_decreases
{
    if !(0 <= from < s.len()) {
        Seq::<Seq<char>>::empty()
    } else {
        let j = first_newline_from(s, from);
        if j == s.len() {
            seq![s.subrange(from, j)]
        } else {
            seq![s.subrange(from, j)] + split_lines_from(s, j + 1)
        }
    }
}

#[via_fn]
proof fn split_lines_from_decreases(s: Seq<char>, from: int) {
    if 0 <= from < s.len() {
        lemma_first_newline_bounds(s, from);
    }
}

/// All the logical lines of the text.
pub open spec fn split_lines(s: Seq<char>) -> Seq<Seq<char>> {
    split_lines_from(s, 0)
}

/// How many terminal rows one logical line occupies when it soft-wraps at
/// `cols` columns: the ceiling of width over columns, and at least one.
pub open spec fn rows_for_line(width: nat, cols: nat) -> nat {
    if width == 0 {
        1
    } else {
        width / cols + (if width % cols == 0 {
            0nat
        } else {
            1nat
        })
    }
}

/// The rows a list of logical lines occupies in total.
pub open spec fn rows_sum(lines: Seq<Seq<char>>, cols: nat) -> nat
    decreases lines.len(),
{
    if lines.len() == 0 {
        0
    } else {
        rows_for_line(display_width_of(lines[0]) as nat, cols) + rows_sum(lines.drop_first(), cols)
    }
}

/// The rows the whole buffer is estimated to occupy, clamped to what a
/// terminal row counter can hold.
pub open spec fn buffer_rows_clamped(s: Seq<char>, cols: nat) -> u16 {
    if rows_sum(split_lines(s), cols) >= u16::MAX as nat {
        u16::MAX
    } else {
        rows_sum(split_lines(s), cols) as u16
    }
}

proof fn lemma_rows_sum_cons(lines: Seq<Seq<char>>, cols: nat)
    requires
        lines.len() > 0,
    ensures
        rows_sum(lines, cols) == rows_for_line(display_width_of(lines[0]) as nat, cols) + rows_sum(
            lines.drop_first(),
            cols,
        ),
{
}

/// Estimate how many terminal rows the buffer occupies, soft wrap
/// included: one row per logical line plus one for each full wrap of its
/// display width around the terminal edge, saturating at the largest row
/// count a terminal coordinate can hold.
pub fn estimated_buffer_rows(buffer: &str, cols: u16) -> (r: u16)
    requires
        cols >= 1,
    ensures
        r == buffer_rows_clamped(buffer@, cols as nat),
{
    let n = buffer.unicode_len();
    let mut total: u16 = 0;
    let ghost mut done: nat = 0nat;
    let mut from: usize = 0;
    while from < n
        invariant
            cols >= 1,
            from <= n == buffer@.len(),
            done + rows_sum(split_lines_from(buffer@, from as int), cols as nat) == rows_sum(
                split_lines(buffer@),
                cols as nat,
            ),
            total == (if done >= u16::MAX as nat {
                u16::MAX as nat
            } else {
                done
            }),
        decreases n - from,
    {
        let j = find_newline(buffer, from);
        let line = buffer.substring_char(from, j);
        let w = str_display_width(line);
        let cu = cols as usize;
        let ghost est: nat = rows_for_line(display_width_of(line@) as nat, cols as nat);
        let est16: u16 = if w == 0 {
            1
        } else {
            let q = w / cu;
            if q >= u16::MAX as usize {
                u16::MAX
            } else {
                (q as u16) + (if w % cu == 0 {
                    0
                } else {
                    1
                })
            }
        };
        proof {
            assert(est16 as nat == (if est >= u16::MAX as nat {
                u16::MAX as nat
            } else {
                est
            }));
        }
        let added: u32 = total as u32 + est16 as u32;
        let new_total: u16 = if added >= u16::MAX as u32 {
            u16::MAX
        } else {
            added as u16
        };
        proof {
            let lines_here = split_lines_from(buffer@, from as int);
            assert(lines_here[0] == buffer@.subrange(from as int, j as int));
            assert(lines_here[0] == line@);
            if j < n {
                assert(lines_here.drop_first() =~= split_lines_from(buffer@, j + 1));
            } else {
                assert(lines_here =~= seq![line@]);
                assert(lines_here.drop_first() =~= Seq::<Seq<char>>::empty());
            }
            lemma_rows_sum_cons(lines_here, cols as nat);
            done = done + est;
        }
        total = new_total;
        if j < n {
            from = j + 1;
        } else {
            from = n;
            proof {
                assert(split_lines_from(buffer@, n as int) =~= Seq::<Seq<char>>::empty());
            }
        }
    }
    proof {
        assert(split_lines_from(buffer@, from as int) =~= Seq::<Seq<char>>::empty());
        assert(rows_sum(Seq::<Seq<char>>::empty(), cols as nat) == 0);
    }
    total
}

} // verus!
