//! The line emitter: turns one input's lines into the output lines that the
//! configuration calls for. The non-blank counter is local to one input, so
//! rendering a new input starts the numbering afresh.
use vstd::prelude::*;
use vstd::string::StrSliceExecFns;
use vstd::string::StringExecFns;

use crate::Config;
use crate::numfmt::num_field;
use crate::numfmt::format_counter;

verus! {

/// A counter field, a tab, then the line itself.
pub open spec fn numbered_line(n: nat, line: Seq<char>) -> Seq<char> {
    num_field(n) + seq!['\t'] + line
}

/// What one line renders to. `idx` lines and `nonblank` non-blank lines of
/// the same input precede it. With `number_lines`, every line is numbered
/// by its 1-based position; with `number_nonblank_lines`, a blank line
/// passes through bare and a non-blank line is numbered by the count of
/// non-blank lines so far; with neither, the line passes through verbatim.
pub open spec fn render_line_spec(c: Config, line: Seq<char>, idx: nat, nonblank: nat) -> Seq<
    char,
> {
    if c.number_lines {
        numbered_line(idx + 1, line)
    } else if c.number_nonblank_lines {
        if line.len() == 0 {
            line
        } else {
            numbered_line(nonblank + 1, line)
        }
    } else {
        line
    }
}

/// How many of the first `k` lines are non-blank.
pub open spec fn count_nonblank(lines: Seq<Seq<char>>, k: int) -> nat
    recommends
        0 <= k <= lines.len(),
    decreases k,
{
    if k <= 0 {
        0
    } else {
        count_nonblank(lines, k - 1) + (if lines[k - 1].len() > 0 {
            1nat
        } else {
            0nat
        })
    }
}

/// What a whole input renders to: each line rendered in place, with the
/// line index and the non-blank count that precede it.
pub open spec fn render_spec(c: Config, lines: Seq<Seq<char>>) -> Seq<Seq<char>> {
    Seq::new(lines.len(), |i: int| render_line_spec(c, lines[i], i as nat, count_nonblank(lines, i)))
}

/// Render one line. `idx` is the number of lines of the current input
/// already rendered, `nonblank` the number of non-blank ones among them.
pub fn render_line(c: &Config, line: &str, idx: usize, nonblank: usize) -> (r: String)
    requires
        idx < usize::MAX,
        nonblank < usize::MAX,
    ensures
        r@ == render_line_spec(*c, line@, idx as nat, nonblank as nat),
{
    proof {
        reveal_strlit("\t");
    }
    if c.number_lines {
        let field = format_counter((idx + 1) as u64);
        let r = field.concat("\t").concat(line);
        proof {
            assert(r@ =~= numbered_line((idx + 1) as nat, line@));
        }
        r
    } else if c.number_nonblank_lines {
        if line.unicode_len() == 0 {
            String::new()
        } else {
            let field = format_counter((nonblank + 1) as u64);
            let r = field.concat("\t").concat(line);
            proof {
                assert(r@ =~= numbered_line((nonblank + 1) as nat, line@));
            }
            r
        }
    } else {
        String::from_str(line)
    }
}

/// Render a whole input: line `i` of the result is line `i` of the input,
/// numbered as the configuration calls for, with both counters starting
/// at zero for this input.
pub fn render_file(c: &Config, lines: &Vec<String>) -> (r: Vec<String>)
    ensures
        r.deep_view() == render_spec(*c, lines.deep_view()),
{
    let ghost lv: Seq<Seq<char>> = lines.deep_view();
    let mut out: Vec<String> = Vec::new();
    let mut nonblank: usize = 0;
    let mut i: usize = 0;
    while i < lines.len()
        invariant
            i <= lines.len(),
            lv == lines.deep_view(),
            lv.len() == lines@.len(),
            forall|j: int| 0 <= j < lv.len() ==> lv[j] == lines@[j]@,
            nonblank as nat == count_nonblank(lv, i as int),
            nonblank <= i,
            out@.len() == i,
            forall|j: int|
                0 <= j < i ==> out@[j]@ == render_line_spec(
                    *c,
                    lv[j],
                    j as nat,
                    count_nonblank(lv, j),
                ),
        decreases lines.len() - i,
    {
        let line: &String = &lines[i];
        out.push(render_line(c, line.as_str(), i, nonblank));
        if line.as_str().unicode_len() > 0 {
            nonblank += 1;
        }
        i += 1;
    }
    proof {
        assert(out.deep_view() =~= render_spec(*c, lv));
    }
    out
}

/// Counting non-blank lines never goes down as more lines are taken in.
proof fn lemma_count_nonblank_mono(lines: Seq<Seq<char>>, k1: int, k2: int)
    requires
        0 <= k1 <= k2,
    ensures
        count_nonblank(lines, k1) <= count_nonblank(lines, k2),
    decreases k2 - k1,
{
    if k1 < k2 {
        lemma_count_nonblank_mono(lines, k1, k2 - 1);
    }
}

/// Pass-through law: with neither numbering flag set, an input renders to
/// itself, line for line.
pub proof fn lemma_plain_passthrough(c: Config, lines: Seq<Seq<char>>)
    requires
        !c.number_lines,
        !c.number_nonblank_lines,
    ensures
        render_spec(c, lines) == lines,
{
    assert(render_spec(c, lines) =~= lines);
}

/// Idempotence law: with neither numbering flag set, rendering twice gives
/// the same output as rendering once.
pub proof fn lemma_plain_idempotent(c: Config, lines: Seq<Seq<char>>)
    requires
        !c.number_lines,
        !c.number_nonblank_lines,
    ensures
        render_spec(c, render_spec(c, lines)) == render_spec(c, lines),
{
    lemma_plain_passthrough(c, lines);
    lemma_plain_passthrough(c, render_spec(c, lines));
}

/// Number-all law: with `number_lines` set, the output has exactly one line
/// per input line, and line `k` carries the counter `k + 1` right-aligned
/// in the number field, a tab, then the input line.
pub proof fn lemma_number_all(c: Config, lines: Seq<Seq<char>>)
    requires
        c.number_lines,
    ensures
        render_spec(c, lines).len() == lines.len(),
        forall|k: int|
            0 <= k < lines.len() ==> render_spec(c, lines)[k] == num_field((k + 1) as nat) + seq![
                '\t',
            ] + lines[k],
{
}

/// Number-non-blank law: with only `number_nonblank_lines` set, the output
/// has exactly one line per input line; a blank input line renders to a
/// bare blank line; a non-blank input line is numbered by the count of
/// non-blank lines up to and including it, a counter that grows strictly
/// from one non-blank line to the next within the input.
pub proof fn lemma_number_nonblank(c: Config, lines: Seq<Seq<char>>)
    requires
        !c.number_lines,
        c.number_nonblank_lines,
    ensures
        render_spec(c, lines).len() == lines.len(),
        forall|k: int|
            0 <= k < lines.len() && lines[k].len() == 0 ==> render_spec(c, lines)[k] =~= Seq::<
                char,
            >::empty(),
        forall|k: int|
            0 <= k < lines.len() && lines[k].len() > 0 ==> render_spec(c, lines)[k]
                == numbered_line(count_nonblank(lines, k) + 1, lines[k]),
        forall|k1: int, k2: int|
            0 <= k1 < k2 < lines.len() && lines[k1].len() > 0 && lines[k2].len() > 0
                ==> count_nonblank(lines, k1) + 1 < count_nonblank(lines, k2) + 1,
{
    assert forall|k1: int, k2: int|
        0 <= k1 < k2 < lines.len() && lines[k1].len() > 0 && lines[k2].len() > 0 implies
        count_nonblank(lines, k1) + 1 < count_nonblank(lines, k2) + 1 by {
        assert(count_nonblank(lines, k1 + 1) == count_nonblank(lines, k1) + 1);
        lemma_count_nonblank_mono(lines, k1 + 1, k2);
    }
}

} // verus!
