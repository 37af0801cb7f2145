use vstd::prelude::*;
use vstd::string::StringExecFns;
use crate::config::{Config, ConfigModel};
use crate::format::{end_marker, number_prefix, push_end_marker, push_number_prefix};

verus! {

/// Whether a line, its line boundary stripped, holds any text.
pub open spec fn is_nonblank(text: Seq<char>) -> bool {
    text.len() > 0
}

/// How many of `lines` are non-blank.
pub open spec fn nonblank_count(lines: Seq<Seq<char>>) -> nat
    decreases lines.len(),
{
    if lines.len() == 0 {
        0
    } else {
        nonblank_count(lines.drop_last()) + if is_nonblank(lines.last()) { 1nat } else { 0nat }
    }
}

/// The output for one line of text under the configuration `c`, where
/// `ordinal` is its 1-based position in its source and `nonblank` the number of
/// non-blank lines of its source up to and including it.
pub open spec fn formatted_line(c: ConfigModel, ordinal: nat, nonblank: nat, text: Seq<char>) -> Seq<char> {
    let body = if c.number_lines {
        number_prefix(ordinal) + text
    } else if c.number_nonblank_lines {
        if is_nonblank(text) {
            number_prefix(nonblank) + text
        } else {
            Seq::empty()
        }
    } else {
        text
    };
    body + end_marker(c.show_ends)
}

/// The output for the line at index `i` of a source whose lines are `lines`.
pub open spec fn rendered_line(c: ConfigModel, lines: Seq<Seq<char>>, i: int) -> Seq<char> {
    formatted_line(c, (i + 1) as nat, nonblank_count(lines.take(i + 1)), lines[i])
}

/// The output lines for a whole source, one for each of its lines.
pub open spec fn rendered_source(c: ConfigModel, lines: Seq<Seq<char>>) -> Seq<Seq<char>> {
    Seq::new(lines.len(), |i: int| rendered_line(c, lines, i))
}

/// The views of a vector of strings.
pub open spec fn views(v: Seq<String>) -> Seq<Seq<char>> {
    v.map_values(|s: String| s@)
}

/// The counters of the source being read: the lines read so far and how many
/// of them were non-blank. A fresh pair starts each source.
#[derive(Clone, Copy)]
pub struct LineCounter {
    lines: u64,
    nonblank: u64,
}

/// The two counters of a `LineCounter`.
pub struct CounterModel {
    pub lines: nat,
    pub nonblank: nat,
}

impl View for LineCounter {
    type V = CounterModel;

    closed spec fn view(&self) -> CounterModel {
        CounterModel { lines: self.lines as nat, nonblank: self.nonblank as nat }
    }
}

impl LineCounter {
    #[verifier::type_invariant]
    spec fn inv(&self) -> bool {
        self.nonblank <= self.lines
    }

    /// Counters for a source of which nothing has been read.
    pub fn new() -> (r: LineCounter)
        ensures
            r@.lines == 0,
            r@.nonblank == 0,
    {
        LineCounter { lines: 0, nonblank: 0 }
    }

    /// Lines of the current source read so far.
    pub fn lines(&self) -> (r: u64)
        ensures
            r == self@.lines,
            self@.nonblank <= self@.lines,
    {
        proof {
            use_type_invariant(self);
        }
        self.lines
    }

    /// Counts `text` as the next line of the current source and returns what is
    /// written for it: its prefix, if any, its text and the end of the line.
    pub fn format_line(&mut self, config: &Config, text: &String) -> (r: String)
        requires
            old(self)@.lines < u64::MAX,
        ensures
            final(self)@.lines == old(self)@.lines + 1,
            final(self)@.nonblank == old(self)@.nonblank + if is_nonblank(text@) { 1nat } else { 0nat },
            r@ == formatted_line(config@, final(self)@.lines, final(self)@.nonblank, text@),
    {
        proof {
            use_type_invariant(&*self);
        }
        self.lines = self.lines + 1;
        let blank = text.as_str().is_empty();
        if !blank {
            self.nonblank = self.nonblank + 1;
        }
        let mut out = String::new();
        if config.number_lines() {
            push_number_prefix(&mut out, self.lines);
            out.append(text.as_str());
        } else if config.number_nonblank_lines() {
            if !blank {
                push_number_prefix(&mut out, self.nonblank);
                out.append(text.as_str());
            }
        } else {
            out.append(text.as_str());
        }
        push_end_marker(&mut out, config.show_ends());
        out
    }
}

/// The output lines for a source whose lines are `lines`, each numbered and
/// ended as `config` asks, with counters that start afresh.
pub fn render_source(config: &Config, lines: &Vec<String>) -> (r: Vec<String>)
    requires
        lines@.len() < u64::MAX,
    ensures
        views(r@) == rendered_source(config@, views(lines@)),
{
    let ghost ls = views(lines@);
    let mut counter = LineCounter::new();
    let mut out: Vec<String> = Vec::new();
    let mut i: usize = 0;
    while i < lines.len()
        invariant
            ls == views(lines@),
            lines@.len() < u64::MAX,
            i <= lines@.len(),
            counter@.lines == i,
            counter@.nonblank == nonblank_count(ls.take(i as int)),
            views(out@) =~= rendered_source(config@, ls.take(i as int)),
        decreases lines@.len() - i,
    {
        let line = counter.format_line(config, &lines[i]);
        let ghost prev = out@;
        out.push(line);
        proof {
            let next = ls.take(i + 1);
            assert(next.drop_last() =~= ls.take(i as int));
            assert(next.last() == ls[i as int]);
            assert(next.take(i + 1) =~= next);
            lemma_rendered_prefix(config@, next, i as int);
            assert(views(out@) =~= views(prev).push(line@));
            assert(rendered_source(config@, next) =~= rendered_source(config@, next).take(i as int).push(
                rendered_line(config@, next, i as int),
            ));
        }
        i = i + 1;
    }
    assert(ls.take(i as int) =~= ls);
    out
}

/// Rendering a prefix of a source gives the same lines as rendering the whole
/// source, up to that prefix's length.
proof fn lemma_rendered_prefix(c: ConfigModel, lines: Seq<Seq<char>>, k: int)
    requires
        0 <= k <= lines.len(),
    ensures
        rendered_source(c, lines.take(k)) =~= rendered_source(c, lines).take(k),
{
    assert forall|i: int| 0 <= i < k implies rendered_line(c, lines.take(k), i) == rendered_line(c, lines, i) by {
        assert(lines.take(k).take(i + 1) =~= lines.take(i + 1));
    }
}

} // verus!

verus! {

/// With neither numbering mode, each output line is the input line verbatim,
/// followed by the end of line (a `$` before the newline when ends are shown).
pub proof fn lemma_plain_output_is_verbatim(c: ConfigModel, lines: Seq<Seq<char>>)
    requires
        !c.number_lines,
        !c.number_nonblank_lines,
    ensures
        rendered_source(c, lines) == lines.map_values(|l: Seq<char>| l + end_marker(c.show_ends)),
{
    assert(rendered_source(c, lines) =~= lines.map_values(|l: Seq<char>| l + end_marker(c.show_ends)));
}

/// When every line is numbered, the line at index `i` carries the number
/// `i + 1`, blank or not.
pub proof fn lemma_number_lines_by_position(c: ConfigModel, lines: Seq<Seq<char>>, i: int)
    requires
        c.number_lines,
        0 <= i < lines.len(),
    ensures
        rendered_source(c, lines)[i] == number_prefix((i + 1) as nat) + lines[i] + end_marker(c.show_ends),
{
}

/// When non-blank lines are numbered, a blank line is written as the end of
/// line alone, and a non-blank line carries the count of non-blank lines up to
/// and including it.
pub proof fn lemma_number_nonblank_lines(c: ConfigModel, lines: Seq<Seq<char>>, i: int)
    requires
        c.wf(),
        c.number_nonblank_lines,
        0 <= i < lines.len(),
    ensures
        !is_nonblank(lines[i]) ==> rendered_source(c, lines)[i] == end_marker(c.show_ends),
        is_nonblank(lines[i]) ==> rendered_source(c, lines)[i] == number_prefix(nonblank_count(lines.take(i + 1)))
            + lines[i] + end_marker(c.show_ends),
{
    assert(Seq::<char>::empty() + end_marker(c.show_ends) =~= end_marker(c.show_ends));
}

/// The non-blank counter moves on at non-blank lines only: a non-blank line is
/// numbered one more than the non-blank lines before it, and of two non-blank
/// lines the later one has the larger number.
pub proof fn lemma_nonblank_counter_steps(lines: Seq<Seq<char>>, i: int, j: int)
    requires
        0 <= i < j < lines.len(),
        is_nonblank(lines[i]),
        is_nonblank(lines[j]),
    ensures
        nonblank_count(lines.take(i + 1)) == nonblank_count(lines.take(i)) + 1,
        nonblank_count(lines.take(i + 1)) < nonblank_count(lines.take(j + 1)),
{
    assert(lines.take(i + 1).drop_last() =~= lines.take(i));
    assert(lines.take(j + 1).drop_last() =~= lines.take(j));
    lemma_nonblank_count_monotone(lines, i + 1, j);
}

proof fn lemma_nonblank_count_monotone(lines: Seq<Seq<char>>, a: int, b: int)
    requires
        0 <= a <= b <= lines.len(),
    ensures
        nonblank_count(lines.take(a)) <= nonblank_count(lines.take(b)),
    decreases b - a,
{
    if a < b {
        assert(lines.take(b).drop_last() =~= lines.take(b - 1));
        lemma_nonblank_count_monotone(lines, a, b - 1);
    }
}

} // verus!
