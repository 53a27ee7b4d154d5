//! The encodings of strings that a component can ask for.

use crate::text::{chars_of, order_of, Order};
use vstd::prelude::*;
use vstd::string::StringExecFns;

verus! {

/// Supported string encoding formats.
#[derive(Debug, Copy, Clone, PartialEq, Eq, Hash, Structural)]
pub enum StringEncoding {
    /// Strings are encoded with UTF-8.
    UTF8,
    /// Strings are encoded with UTF-16.
    UTF16,
    /// Strings are encoded with compact UTF-16 (i.e. Latin1+UTF-16).
    CompactUTF16,
}

/// A name that is no string encoding.
#[derive(Debug, Clone)]
pub struct UnknownEncoding {
    pub name: String,
}

impl Default for StringEncoding {
    fn default() -> (r: StringEncoding)
        ensures
            r == StringEncoding::UTF8,
    {
        StringEncoding::UTF8
    }
}

/// The encoding that `s` names, if it names one.
pub open spec fn spec_encoding(s: Seq<char>) -> Option<StringEncoding> {
    if s == "utf8"@ {
        Some(StringEncoding::UTF8)
    } else if s == "utf16"@ {
        Some(StringEncoding::UTF16)
    } else if s == "compact-utf16"@ {
        Some(StringEncoding::CompactUTF16)
    } else {
        None
    }
}

/// Whether `a` and `b` are the same string.
pub fn same_str(a: &str, b: &str) -> (r: bool)
    ensures
        r == (a@ == b@),
{
    let x = chars_of(a);
    let y = chars_of(b);
    match order_of(&x, &y) {
        Order::Same => true,
        _ => false,
    }
}

impl StringEncoding {
    /// The encoding named `s`: one of `utf8`, `utf16` and `compact-utf16`.
    pub fn from_str(s: &str) -> (r: Result<StringEncoding, UnknownEncoding>)
        ensures
            match r {
                Ok(e) => spec_encoding(s@) == Some(e),
                Err(e) => spec_encoding(s@) is None && e.name@ == s@,
            },
    {
        if same_str(s, "utf8") {
            Ok(StringEncoding::UTF8)
        } else if same_str(s, "utf16") {
            Ok(StringEncoding::UTF16)
        } else if same_str(s, "compact-utf16") {
            Ok(StringEncoding::CompactUTF16)
        } else {
            Err(UnknownEncoding { name: String::from_str(s) })
        }
    }

    /// The name of the encoding.
    pub fn name(&self) -> (r: &'static str)
        ensures
            spec_encoding(r@) == Some(*self),
    {
        proof {
            reveal_strlit("utf8");
            reveal_strlit("utf16");
            reveal_strlit("compact-utf16");
            assert("utf8"@.len() == 4);
            assert("utf16"@.len() == 5);
            assert("compact-utf16"@.len() == 13);
        }
        match self {
            StringEncoding::UTF8 => "utf8",
            StringEncoding::UTF16 => "utf16",
            StringEncoding::CompactUTF16 => "compact-utf16",
        }
    }
}

impl UnknownEncoding {
    /// What went wrong, in words.
    pub fn message(&self) -> (r: String)
        ensures
            r@ == "unknown string encoding `"@ + self.name@ + "`"@,
    {
        let mut out = String::from_str("unknown string encoding `");
        out.append(self.name.as_str());
        out.append("`");
        out
    }
}

impl std::str::FromStr for StringEncoding {
    type Err = UnknownEncoding;

    fn from_str(s: &str) -> (r: Result<StringEncoding, UnknownEncoding>) {
        StringEncoding::from_str(s)
    }
}

} // verus!
