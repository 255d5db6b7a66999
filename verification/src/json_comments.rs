//! Removal of comments from JSON text that allows them.

use crate::chars::chars_of;
use crate::trusted::push_char;
use vstd::prelude::*;

verus! {

/// Where the scan stands: in plain JSON, inside a string, just after a
/// backslash inside a string, inside a line comment, inside a block comment.
pub enum Scan {
    Code,
    Text,
    Escaped,
    Line,
    Block,
}

/// What is kept of `s` from position `i` on, scanning in the given state.
///
/// A string runs from one double quote to the next that no backslash
/// escapes, and is kept whole. Outside strings, `//` starts a comment that
/// runs up to the end of the line, and `/*` one that runs through the next
/// `*/`; comments are dropped, the line end after a line comment is kept.
/// A comment that is never closed runs to the end of the text.
pub open spec fn kept(s: Seq<char>, i: int, scan: Scan) -> Seq<char>
    decreases s.len() - i,
{
    if i < 0 || i >= s.len() {
        Seq::empty()
    } else {
        let c = s[i];
        let next_is = |d: char| i + 1 < s.len() && s[i + 1] == d;
        match scan {
            Scan::Code => if c == '"' {
                seq![c] + kept(s, i + 1, Scan::Text)
            } else if c == '/' && next_is('/') {
                kept(s, i + 2, Scan::Line)
            } else if c == '/' && next_is('*') {
                kept(s, i + 2, Scan::Block)
            } else {
                seq![c] + kept(s, i + 1, Scan::Code)
            },
            Scan::Text => if c == '\\' {
                seq![c] + kept(s, i + 1, Scan::Escaped)
            } else if c == '"' {
                seq![c] + kept(s, i + 1, Scan::Code)
            } else {
                seq![c] + kept(s, i + 1, Scan::Text)
            },
            Scan::Escaped => seq![c] + kept(s, i + 1, Scan::Text),
            Scan::Line => if c == '\n' {
                seq![c] + kept(s, i + 1, Scan::Code)
            } else {
                kept(s, i + 1, Scan::Line)
            },
            Scan::Block => if c == '*' && next_is('/') {
                kept(s, i + 2, Scan::Code)
            } else {
                kept(s, i + 1, Scan::Block)
            },
        }
    }
}

/// The text without its comments.
pub open spec fn without_comments(s: Seq<char>) -> Seq<char> {
    kept(s, 0, Scan::Code)
}

/// Removes `//` and `/* */` comments from JSON text, leaving strings
/// untouched.
pub fn strip_json_comments(input: &str) -> (result: String)
    ensures
        result@ == without_comments(input@),
{
    let chars = chars_of(input);
    let mut result = String::new();
    let mut scan = Scan::Code;
    let mut i: usize = 0;
    assert(result@ + kept(chars@, 0, Scan::Code) =~= without_comments(chars@));
    while i < chars.len()
        invariant
            i <= chars@.len(),
            result@ + kept(chars@, i as int, scan) == without_comments(chars@),
        decreases chars.len() - i,
    {
        let c = chars[i];
        let ghost before = result@;
        let ghost rest = kept(chars@, i as int, scan);
        let followed_by_slash = i + 1 < chars.len() && chars[i + 1] == '/';
        let followed_by_star = i + 1 < chars.len() && chars[i + 1] == '*';
        match scan {
            Scan::Code => {
                if c == '"' {
                    push_char(&mut result, c);
                    scan = Scan::Text;
                    i = i + 1;
                } else if c == '/' && followed_by_slash {
                    scan = Scan::Line;
                    i = i + 2;
                } else if c == '/' && followed_by_star {
                    scan = Scan::Block;
                    i = i + 2;
                } else {
                    push_char(&mut result, c);
                    i = i + 1;
                }
            },
            Scan::Text => {
                push_char(&mut result, c);
                if c == '\\' {
                    scan = Scan::Escaped;
                } else if c == '"' {
                    scan = Scan::Code;
                }
                i = i + 1;
            },
            Scan::Escaped => {
                push_char(&mut result, c);
                scan = Scan::Text;
                i = i + 1;
            },
            Scan::Line => {
                if c == '\n' {
                    push_char(&mut result, c);
                    scan = Scan::Code;
                }
                i = i + 1;
            },
            Scan::Block => {
                if c == '*' && followed_by_slash {
                    scan = Scan::Code;
                    i = i + 2;
                } else {
                    i = i + 1;
                }
            },
        }
        assert(result@ + kept(chars@, i as int, scan) =~= before + rest);
    }
    assert(result@ + Seq::<char>::empty() =~= result@);
    result
}

/// Text without a slash holds no comment and is kept whole.
pub proof fn lemma_no_slash_no_change(s: Seq<char>)
    requires
        forall|k: int| 0 <= k < s.len() ==> s[k] != '/',
    ensures
        without_comments(s) == s,
{
    lemma_kept_whole(s, 0, Scan::Code);
    assert(s.subrange(0, s.len() as int) =~= s);
}

proof fn lemma_kept_whole(s: Seq<char>, i: int, scan: Scan)
    requires
        0 <= i <= s.len(),
        forall|k: int| 0 <= k < s.len() ==> s[k] != '/',
        scan is Code || scan is Text || scan is Escaped,
    ensures
        kept(s, i, scan) == s.subrange(i, s.len() as int),
    decreases s.len() - i,
{
    if i < s.len() {
        let next = match scan {
            Scan::Code => if s[i] == '"' {
                Scan::Text
            } else {
                Scan::Code
            },
            Scan::Text => if s[i] == '\\' {
                Scan::Escaped
            } else if s[i] == '"' {
                Scan::Code
            } else {
                Scan::Text
            },
            _ => Scan::Text,
        };
        lemma_kept_whole(s, i + 1, next);
        assert(seq![s[i]] + s.subrange(i + 1, s.len() as int) =~= s.subrange(i, s.len() as int));
    } else {
        assert(s.subrange(i, s.len() as int) =~= Seq::<char>::empty());
    }
}

} // verus!
