//! A unit of generated Python source that keeps track of its indentation.

use crate::text::{chars_of, push_chars};
use vstd::prelude::*;

verus! {

/// Generated source text and the number of spaces that a new line starts
/// with.
pub struct Source {
    pub s: String,
    pub indent: usize,
}

pub struct SourceView {
    pub text: Seq<char>,
    pub indent: nat,
}

impl View for Source {
    type V = SourceView;

    open spec fn view(&self) -> SourceView {
        SourceView { text: self.s@, indent: self.indent as nat }
    }
}

/// `n` spaces.
pub open spec fn spaces(n: nat) -> Seq<char> {
    Seq::new(n, |i: int| ' ')
}

/// A line break followed by the indentation.
pub open spec fn line_break(indent: nat) -> Seq<char> {
    seq!['\n'] + spaces(indent)
}

/// The length of the first line of `s`: the position of its first line
/// break, or its length if it has none.
pub open spec fn line_end(s: Seq<char>) -> nat
    decreases s.len(),
{
    if s.len() == 0 || s[0] == '\n' {
        0
    } else {
        1 + line_end(s.drop_first())
    }
}

/// Whether `s` is one line: it has no line break but, possibly, at its end.
pub open spec fn single_line(s: Seq<char>) -> bool {
    line_end(s) + 1 >= s.len()
}

pub open spec fn is_blank(c: char) -> bool {
    c == ' ' || c == '\t'
}

/// The number of blanks that `line` starts with.
pub open spec fn leading_blanks(line: Seq<char>) -> nat
    decreases line.len(),
{
    if line.len() == 0 || !is_blank(line[0]) {
        0
    } else {
        1 + leading_blanks(line.drop_first())
    }
}

/// The number of blanks that the first line of `s` that is not empty starts
/// with; zero if every line is empty.
pub open spec fn trim_width(s: Seq<char>) -> nat
    decreases s.len(),
{
    if s.len() == 0 {
        0
    } else if line_end(s) > 0 {
        leading_blanks(s.take(line_end(s) as int))
    } else {
        trim_width(s.drop_first())
    }
}

/// The lines of `s`, each without its first `width` characters, with a line
/// break and the indentation in place of each line break of `s`.
pub open spec fn render_lines(s: Seq<char>, width: nat, indent: nat) -> Seq<char>
    decreases s.len(),
{
    let end = line_end(s);
    let kept = if width <= end {
        s.subrange(width as int, end as int)
    } else {
        Seq::empty()
    };
    if end >= s.len() {
        kept
    } else {
        kept + line_break(indent) + render_lines(s.skip(end as int + 1), width, indent)
    }
}

/// What `src` adds to a source with the given indentation. One line goes in
/// as it is. Of several lines each loses as many characters at its start as
/// the first line that is not empty has blanks there, so that a block of
/// text can be written indented where it is pushed.
pub open spec fn pushed_text(src: Seq<char>, indent: nat) -> Seq<char> {
    render_lines(
        src,
        if single_line(src) {
            0
        } else {
            trim_width(src)
        },
        indent,
    )
}

/// The position of the first line break of `chars` at or after `from`, or
/// the length of `chars`.
fn find_line_end(chars: &Vec<char>, from: usize) -> (end: usize)
    requires
        from <= chars@.len(),
    ensures
        from <= end <= chars@.len(),
        end - from == line_end(chars@.skip(from as int)),
{
    let mut i: usize = from;
    while i < chars.len() && chars[i] != '\n'
        invariant
            from <= i <= chars@.len(),
            line_end(chars@.skip(from as int)) == (i - from) + line_end(chars@.skip(i as int)),
        decreases chars@.len() - i,
    {
        assert(chars@.skip(i as int)[0] == chars@[i as int]);
        assert(chars@.skip(i as int).drop_first() =~= chars@.skip(i + 1));
        i += 1;
    }
    proof {
        if i < chars@.len() {
            assert(chars@.skip(i as int)[0] == chars@[i as int]);
        }
    }
    i
}

/// The number of blanks at the start of `chars[from..to]`.
fn count_blanks(chars: &Vec<char>, from: usize, to: usize) -> (n: usize)
    requires
        from <= to <= chars@.len(),
    ensures
        n == leading_blanks(chars@.subrange(from as int, to as int)),
{
    let mut i: usize = from;
    while i < to && (chars[i] == ' ' || chars[i] == '\t')
        invariant
            from <= i <= to <= chars@.len(),
            leading_blanks(chars@.subrange(from as int, to as int)) == (i - from) + leading_blanks(
                chars@.subrange(i as int, to as int),
            ),
        decreases to - i,
    {
        assert(chars@.subrange(i as int, to as int)[0] == chars@[i as int]);
        assert(chars@.subrange(i as int, to as int).drop_first() =~= chars@.subrange(
            i + 1,
            to as int,
        ));
        i += 1;
    }
    proof {
        if i < to {
            assert(chars@.subrange(i as int, to as int)[0] == chars@[i as int]);
        }
    }
    i - from
}

/// The number of blanks that the first line of `chars` that is not empty
/// starts with.
fn find_trim_width(chars: &Vec<char>) -> (w: usize)
    ensures
        w == trim_width(chars@),
{
    let mut pos: usize = 0;
    assert(chars@.skip(0) =~= chars@);
    while pos < chars.len()
        invariant
            pos <= chars@.len(),
            trim_width(chars@) == trim_width(chars@.skip(pos as int)),
        decreases chars@.len() - pos,
    {
        let end = find_line_end(chars, pos);
        if end > pos {
            assert(chars@.skip(pos as int).take((end - pos) as int) =~= chars@.subrange(
                pos as int,
                end as int,
            ));
            return count_blanks(chars, pos, end);
        }
        assert(chars@.skip(pos as int).drop_first() =~= chars@.skip(pos + 1));
        pos += 1;
    }
    0
}

impl Source {
    /// An empty source without indentation.
    pub fn new() -> (r: Source)
        ensures
            r@.text.len() == 0,
            r@.indent == 0,
    {
        Source { s: String::new(), indent: 0 }
    }

    /// The text so far.
    pub fn as_str(&self) -> (r: &str)
        ensures
            r@ == self@.text,
    {
        self.s.as_str()
    }

    /// Starts a new line at the current indentation.
    pub fn newline(&mut self)
        ensures
            final(self)@.text == old(self)@.text + line_break(old(self)@.indent),
            final(self)@.indent == old(self)@.indent,
    {
        self.s.push('\n');
        let mut i: usize = 0;
        while i < self.indent
            invariant
                i <= self.indent,
                self.indent == old(self).indent,
                self.s@ == old(self).s@ + seq!['\n'] + spaces(i as nat),
            decreases self.indent - i,
        {
            self.s.push(' ');
            i += 1;
            assert(self.s@ =~= old(self).s@ + seq!['\n'] + spaces(i as nat));
        }
        assert(self.s@ =~= old(self).s@ + line_break(old(self)@.indent));
    }

    /// Lets new lines start four spaces further in.
    pub fn indent(&mut self)
        requires
            old(self)@.indent + 4 <= usize::MAX,
        ensures
            final(self)@.text == old(self)@.text,
            final(self)@.indent == old(self)@.indent + 4,
    {
        self.indent = self.indent + 4;
    }

    /// Lets new lines start four spaces further out.
    pub fn dedent(&mut self)
        requires
            old(self)@.indent >= 4,
        ensures
            final(self)@.text == old(self)@.text,
            final(self)@.indent == old(self)@.indent - 4,
    {
        self.indent = self.indent - 4;
    }

    /// Appends `src`. A text of several lines may be written indented where
    /// it is pushed: what the first line that is not empty has of blanks at
    /// its start is taken off every line, and every line break is followed
    /// by the current indentation.
    pub fn push_str(&mut self, src: &str)
        ensures
            final(self)@.text == old(self)@.text + pushed_text(src@, old(self)@.indent),
            final(self)@.indent == old(self)@.indent,
    {
        let chars = chars_of(src);
        let n = chars.len();
        assert(chars@.skip(0) =~= chars@);
        let first = find_line_end(&chars, 0);
        let width: usize = if n - first <= 1 {
            0
        } else {
            find_trim_width(&chars)
        };
        let mut pos: usize = 0;
        loop
            invariant_except_break
                pos <= n,
                n == chars@.len(),
                self.indent == old(self).indent,
                self.s@ + render_lines(chars@.skip(pos as int), width as nat, self.indent as nat)
                    == old(self).s@ + render_lines(chars@, width as nat, self.indent as nat),
            ensures
                self.indent == old(self).indent,
                self.s@ == old(self).s@ + render_lines(chars@, width as nat, self.indent as nat),
            decreases n - pos,
        {
            let end = find_line_end(&chars, pos);
            let ghost rest = chars@.skip(pos as int);
            let ghost before = self.s@;
            if width <= end - pos {
                push_chars(&mut self.s, &chars, pos + width, end);
                assert(chars@.subrange(pos + width, end as int) =~= rest.subrange(
                    width as int,
                    (end - pos) as int,
                ));
            }
            if end >= n {
                assert(self.s@ =~= before + render_lines(rest, width as nat, self.indent as nat));
                break ;
            }
            self.newline();
            assert(rest.skip(end - pos + 1) =~= chars@.skip(end + 1));
            assert(self.s@ + render_lines(
                chars@.skip(end + 1),
                width as nat,
                self.indent as nat,
            ) =~= before + render_lines(rest, width as nat, self.indent as nat));
            pos = end + 1;
        }
        assert(width == if single_line(src@) {
            0
        } else {
            trim_width(src@)
        });
    }
}

impl Default for Source {
    fn default() -> (r: Source)
        ensures
            r@.text.len() == 0,
            r@.indent == 0,
    {
        Source::new()
    }
}

} // verus!
