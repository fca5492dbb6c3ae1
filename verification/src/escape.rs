//! POSIX-shell quoting of arbitrary strings, done by the `shell-escape`
//! crate and specified here character by character.

use vstd::prelude::*;

verus! {

/// Characters that need no quoting in a POSIX shell word.
pub open spec fn shell_safe_char(c: char) -> bool {
    ||| ('a' <= c && c <= 'z')
    ||| ('A' <= c && c <= 'Z')
    ||| ('0' <= c && c <= '9')
    ||| c == '-'
    ||| c == '_'
    ||| c == '='
    ||| c == '/'
    ||| c == ','
    ||| c == '.'
    ||| c == '+'
}

/// A nonempty string of shell-safe characters needs no quoting at all.
pub open spec fn shell_safe(s: Seq<char>) -> bool {
    s.len() > 0 && forall|i: int| 0 <= i < s.len() ==> shell_safe_char(#[trigger] s[i])
}

/// How one character is written inside a single-quoted shell word: a single
/// quote or an exclamation mark is closed off, backslash-escaped and quoted
/// again; anything else stands as it is.
pub open spec fn quoted_char(c: char) -> Seq<char> {
    if c == '\'' || c == '!' {
        seq!['\'', '\\', c, '\'']
    } else {
        seq![c]
    }
}

/// The characters of `s`, each written as inside a single-quoted shell word.
pub open spec fn quoted_chars(s: Seq<char>) -> Seq<char>
    decreases s.len(),
{
    if s.len() == 0 {
        Seq::empty()
    } else {
        quoted_char(s.first()) + quoted_chars(s.drop_first())
    }
}

/// `s` quoted for a POSIX shell: unchanged when it is a nonempty safe word,
/// otherwise wrapped in single quotes with each quote and exclamation mark
/// escaped.
pub open spec fn shell_escaped(s: Seq<char>) -> Seq<char> {
    if shell_safe(s) {
        s
    } else {
        seq!['\''] + quoted_chars(s) + seq!['\'']
    }
}

/// Relies on `shell_escape::unix::escape`: a nonempty word made only of
/// ASCII alphanumerics and `-_=/,.+` is returned unchanged; any other string
/// is wrapped in single quotes, each single quote or exclamation mark closed
/// off as `'\''` or `'\!'`.
#[verifier::external_body]
pub(crate) fn shell_escape_str(s: &str) -> (r: String)
    ensures
        r@ == shell_escaped(s@),
{
    shell_escape::unix::escape(std::borrow::Cow::Borrowed(s)).into_owned()
}

} // verus!
