//! Configuration options and their textual wire form.
//!
//! The native library takes all configuration through one entry point, as a
//! string of semicolon-separated sections holding comma-separated
//! `key=value` pairs. String values are escaped by wrapping them in single
//! quotes and doubling any embedded single quote. The builders here
//! serialize to that format byte-for-byte.

mod section;

pub mod font;

use vstd::prelude::*;
use crate::textfmt::push_char;

pub use section::{Cellsize, Input, Log, LogLevel, LogMode, Output, Terminal, Window};

verus! {

/// Trait for generating configuration strings for the native library's
/// single "set configuration" entry point.
pub trait ConfigPart {
    /// The exact configuration string this value serializes to.
    spec fn config_spec(&self) -> Seq<char>;

    fn to_config_str(&self) -> (r: String)
        ensures
            r@ == self.config_spec(),
    ;
}

/// The body of an escaped string: every single quote doubled, all other
/// characters unchanged.
pub open spec fn spec_escape_inner(s: Seq<char>) -> Seq<char>
    decreases s.len(),
{
    if s.len() == 0 {
        Seq::empty()
    } else {
        spec_escape_inner(s.drop_last()) + (if s.last() == '\'' {
            seq!['\'', '\'']
        } else {
            seq![s.last()]
        })
    }
}

/// The escaped form of a string value: wrapped in single quotes, embedded
/// single quotes doubled. The empty string escapes to `''` and a lone
/// quote to `''''`.
pub open spec fn spec_escape(s: Seq<char>) -> Seq<char> {
    "'"@ + spec_escape_inner(s) + "'"@
}

/// Escapes `'`s and wraps the string with `'`s, as the native library's
/// configuration parser expects string values.
pub fn escape_config_string(cfg: &String) -> (r: String)
    ensures
        r@ == spec_escape(cfg@),
{
    let mut out = String::from_str("'");
    let n = cfg.as_str().unicode_len();
    let mut i: usize = 0;
    proof {
        assert(("'"@ + spec_escape_inner(cfg@.take(0))) =~= "'"@);
    }
    while i < n
        invariant
            n == cfg@.len(),
            i <= n,
            out@ == "'"@ + spec_escape_inner(cfg@.take(i as int)),
        decreases n - i,
    {
        let c = cfg.as_str().get_char(i);
        if c == '\'' {
            push_char(&mut out, c);
            push_char(&mut out, c);
        } else {
            push_char(&mut out, c);
        }
        proof {
            assert(cfg@.take(i as int + 1).drop_last() =~= cfg@.take(i as int));
            assert(out@ =~= "'"@ + spec_escape_inner(cfg@.take(i as int + 1)));
        }
        i += 1;
    }
    out.append("'");
    proof {
        assert(cfg@.take(n as int) =~= cfg@);
        assert(out@ =~= spec_escape(cfg@));
    }
    out
}

} // verus!
