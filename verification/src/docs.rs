//! The words that an interface says of its items, as the documentation
//! comments of the generated code.

use crate::options::{trimmed, trimmed_field};
use crate::text::{chars_of, push_chars};
use vstd::prelude::*;
use vstd::string::StringExecFns;

verus! {

/// The number of characters of `s` before its first line feed.
pub open spec fn line_end(s: Seq<char>) -> nat
    decreases s.len(),
{
    if s.len() == 0 || s[0] == '\n' {
        0
    } else {
        1 + line_end(s.drop_first())
    }
}

/// The line of `s` that ends at `end`: without the carriage return that
/// stands before a line feed.
pub open spec fn line_of(s: Seq<char>, end: nat) -> Seq<char> {
    if 0 < end < s.len() && s[end - 1] == '\r' {
        s.take(end - 1)
    } else {
        s.take(end as int)
    }
}

/// Every line of `s` as a line of a documentation comment. A line ends at
/// a line feed or at the end of `s`; what stands after the last line feed
/// is a line unless it is empty.
pub open spec fn comment_lines(s: Seq<char>) -> Seq<char>
    decreases s.len(),
{
    if s.len() == 0 {
        Seq::empty()
    } else {
        let end = line_end(s);
        if end >= s.len() {
            "/// "@ + line_of(s, end) + "\n"@
        } else {
            "/// "@ + line_of(s, end) + "\n"@ + comment_lines(s.skip(end as int + 1))
        }
    }
}

/// The documentation comment of an item: the lines of what is said of it,
/// without the white space around the whole. Nothing where nothing is said.
pub open spec fn doc_comment(docs: Option<String>) -> Seq<char> {
    match docs {
        Some(text) => comment_lines(trimmed(text@)),
        None => Seq::empty(),
    }
}

/// The position of the first line feed of `chars` at or after `from`, or
/// the length of `chars`.
fn find_line_end(chars: &Vec<char>, from: usize) -> (end: usize)
    requires
        from <= chars@.len(),
    ensures
        from <= end <= chars@.len(),
        end - from == line_end(chars@.skip(from as int)),
{
    let mut i: usize = from;
    while i < chars.len() && chars[i] != '\n'
        invariant
            from <= i <= chars@.len(),
            line_end(chars@.skip(from as int)) == (i - from) + line_end(chars@.skip(i as int)),
        decreases chars@.len() - i,
    {
        assert(chars@.skip(i as int)[0] == chars@[i as int]);
        assert(chars@.skip(i as int).drop_first() =~= chars@.skip(i + 1));
        i += 1;
    }
    proof {
        if i < chars@.len() {
            assert(chars@.skip(i as int)[0] == chars@[i as int]);
        }
    }
    i
}

/// The documentation comment of an item.
pub fn print_docs(docs: &Option<String>) -> (r: String)
    ensures
        r@ == doc_comment(*docs),
{
    let mut out = String::from_str("");
    proof {
        reveal_strlit("");
        assert(out@ =~= Seq::<char>::empty());
    }
    let text = match docs {
        Some(text) => text,
        None => {
            return out;
        },
    };
    let all = chars_of(text.as_str());
    assert(all@.subrange(0, all@.len() as int) =~= all@);
    let kept = trimmed_field(&all, 0, all.len());
    let chars = chars_of(kept.as_str());
    let mut i: usize = 0;
    assert(chars@.skip(0) =~= chars@);
    while i < chars.len()
        invariant
            i <= chars@.len(),
            out@ + comment_lines(chars@.skip(i as int)) == comment_lines(chars@),
        decreases chars@.len() - i,
    {
        let ghost rest = chars@.skip(i as int);
        let ghost before = out@;
        let end = find_line_end(&chars, i);
        let stop = if i < end && end < chars.len() && chars[end - 1] == '\r' {
            end - 1
        } else {
            end
        };
        assert(chars@.subrange(i as int, stop as int) =~= line_of(rest, (end - i) as nat));
        out.append("/// ");
        push_chars(&mut out, &chars, i, stop);
        out.append("\n");
        let ghost here = "/// "@ + line_of(rest, (end - i) as nat) + "\n"@;
        assert(out@ =~= before + here);
        if end < chars.len() {
            assert(rest.skip(end - i + 1) =~= chars@.skip(end + 1));
            assert(before + (here + comment_lines(chars@.skip(end + 1))) =~= (before + here)
                + comment_lines(chars@.skip(end + 1)));
            i = end + 1;
        } else {
            assert(chars@.skip(end as int).len() == 0);
            assert((before + here) + comment_lines(chars@.skip(end as int)) =~= before + here);
            i = end;
        }
    }
    assert(chars@.skip(i as int).len() == 0);
    assert(out@ + comment_lines(chars@.skip(i as int)) =~= out@);
    out
}

} // verus!
