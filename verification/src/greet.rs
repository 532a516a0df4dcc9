//! What the `greet` subcommand prints: the greeting text for a language,
//! and the trimming of trailing whitespace from a file's contents.

use vstd::prelude::*;

use crate::command::Language;

verus! {

/// The greeting text for a language: English unless Japanese is asked for.
pub open spec fn greeting_text(language: Option<Language>) -> Seq<char> {
    match language {
        Some(Language::Ja) => "こんにちは"@,
        _ => "Hello"@,
    }
}

/// Returns the greeting for `language`: `Hello` by default and for
/// English, `こんにちは` for Japanese.
pub fn greeting(language: Option<Language>) -> (r: String)
    ensures
        r@ == greeting_text(language),
{
    match language {
        Some(Language::Ja) => "こんにちは".to_owned(),
        _ => "Hello".to_owned(),
    }
}

/// Whether `c` counts as trailing whitespace: a space, a tab or a newline.
pub open spec fn is_trailing_whitespace(c: char) -> bool {
    c == ' ' || c == '\t' || c == '\n'
}

/// `s` with every trailing whitespace character removed, and only those.
pub open spec fn trimmed(s: Seq<char>) -> Seq<char>
    decreases s.len(),
{
    if s.len() > 0 && is_trailing_whitespace(s[s.len() - 1]) {
        trimmed(s.drop_last())
    } else {
        s
    }
}

/// Whether the character just before position `k` of `s` is trailing
/// whitespace; `false` at the very start.
fn ends_with_whitespace(s: &str, k: usize) -> (b: bool)
    requires
        k <= s@.len(),
    ensures
        b == (k > 0 && is_trailing_whitespace(s@[k - 1])),
{
    if k == 0 {
        false
    } else {
        let c = s.get_char(k - 1);
        c == ' ' || c == '\t' || c == '\n'
    }
}

/// Returns `s` with trailing spaces, tabs and newlines stripped from the
/// end only; nothing else of `s` changes.
pub fn trim_trailing_whitespace(s: &str) -> (r: String)
    ensures
        r@ == trimmed(s@),
{
    let n = s.unicode_len();
    let mut k = n;
    proof {
        assert(s@.subrange(0, n as int) =~= s@);
    }
    while ends_with_whitespace(s, k)
        invariant
            k <= n,
            n == s@.len(),
            trimmed(s@) == trimmed(s@.subrange(0, k as int)),
        decreases k,
    {
        proof {
            let pre = s@.subrange(0, k as int);
            assert(pre.len() == k);
            assert(pre[k - 1] == s@[k - 1]);
            assert(is_trailing_whitespace(pre[pre.len() - 1]));
            assert(pre.drop_last() =~= s@.subrange(0, k - 1));
        }
        k = k - 1;
    }
    proof {
        let pre = s@.subrange(0, k as int);
        if k > 0 {
            assert(pre[pre.len() - 1] == s@[k - 1]);
        }
        assert(trimmed(pre) == pre);
    }
    let r = s.substring_char(0, k).to_owned();
    r
}

} // verus!
