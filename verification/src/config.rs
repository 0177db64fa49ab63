//! The tool's settings, and the shape of the text in which they are kept.

use vstd::prelude::*;
use vstd::string::*;
use crate::text::{chars_of, replace_all, replace_chars, string_of, trim_chars, trimmed};

verus! {

/// The settings of the tool. There are none to set at present.
#[derive(Debug)]
pub struct Config {}

impl Default for Config {
    fn default() -> (r: Self)
        ensures
            r == (Config {  }),
    {
        Config {  }
    }
}

/// `text` with each line ending of carriage return and line feed written as
/// a line feed, and without the white space at its two ends.
pub open spec fn normalized(text: Seq<char>) -> Seq<char> {
    trimmed(replace_all(text, "\r\n"@, "\n"@))
}

impl Config {
    /// Brings stored text into the shape in which it is read: line endings
    /// as line feeds, no white space at either end.
    pub fn normalize(content: &str) -> (r: String)
        ensures
            r@ == normalized(content@),
    {
        proof {
            reveal_strlit("\r\n");
        }
        let c = chars_of(content);
        let unix = replace_chars(&c, &chars_of("\r\n"), &chars_of("\n"));
        string_of(&trim_chars(&unix))
    }

    /// Brings text into the shape in which it is written out: normalized,
    /// and ended by one line feed.
    pub fn with_final_newline(content: &str) -> (r: String)
        ensures
            r@ == normalized(content@) + "\n"@,
    {
        Self::normalize(content).concat("\n")
    }
}

} // verus!
