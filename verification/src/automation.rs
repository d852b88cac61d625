//! Focus/type automator: the computable side of the OS automation calls.
//!
//! The library reads the foreground application's name out of the focus
//! query's captured output, and composes the exact script and argument the
//! refocus and keystroke-injection commands are invoked with. Running those
//! commands is process work and happens outside the library.

use vstd::prelude::*;
use vstd::string::StrSliceExecFns;
use vstd::string::StringExecFns;
use vstd::utf8::valid_utf8;
use vstd::utf8::decode_utf8;
use crate::retrieve::decode_output;

verus! {

/// A character of the Unicode White_Space set — exactly the characters that
/// the standard library's whitespace trimming removes.
pub open spec fn spec_is_unicode_ws(c: char) -> bool {
    c == ' ' || c == '\t' || c == '\n' || c == '\u{000B}' || c == '\u{000C}' || c == '\r'
        || c == '\u{0085}' || c == '\u{00A0}' || c == '\u{1680}' || (0x2000 <= c as u32 && c
        as u32 <= 0x200A) || c == '\u{2028}' || c == '\u{2029}' || c == '\u{202F}' || c
        == '\u{205F}' || c == '\u{3000}'
}

/// Is this character Unicode whitespace?
pub fn is_unicode_ws(c: char) -> (r: bool)
    ensures
        r == spec_is_unicode_ws(c),
{
    c == ' ' || c == '\t' || c == '\n' || c == '\u{000B}' || c == '\u{000C}' || c == '\r'
        || c == '\u{0085}' || c == '\u{00A0}' || c == '\u{1680}' || (0x2000 <= c as u32 && c
        as u32 <= 0x200A) || c == '\u{2028}' || c == '\u{2029}' || c == '\u{202F}' || c
        == '\u{205F}' || c == '\u{3000}'
}

/// The text with its leading whitespace removed.
pub open spec fn trim_leading(t: Seq<char>) -> Seq<char>
    decreases t.len(),
{
    if t.len() > 0 && spec_is_unicode_ws(t[0]) {
        trim_leading(t.drop_first())
    } else {
        t
    }
}

/// The text with its trailing whitespace removed.
pub open spec fn trim_trailing(t: Seq<char>) -> Seq<char>
    decreases t.len(),
{
    if t.len() > 0 && spec_is_unicode_ws(t.last()) {
        trim_trailing(t.drop_last())
    } else {
        t
    }
}

/// The text with surrounding whitespace removed.
pub open spec fn trim_ws(t: Seq<char>) -> Seq<char> {
    trim_trailing(trim_leading(t))
}

/// [`trim_leading`] drops exactly the whitespace prefix.
proof fn lemma_trim_leading_at(t: Seq<char>, a: int)
    requires
        0 <= a <= t.len(),
        forall|k: int| 0 <= k < a ==> spec_is_unicode_ws(t[k]),
        a < t.len() ==> !spec_is_unicode_ws(t[a]),
    ensures
        trim_leading(t) =~= t.subrange(a, t.len() as int),
    decreases a,
{
    if a == 0 {
        assert(trim_leading(t) =~= t.subrange(0, t.len() as int));
    } else {
        let rest = t.drop_first();
        assert(forall|k: int| 0 <= k < a - 1 ==> rest[k] == t[k + 1]);
        lemma_trim_leading_at(rest, a - 1);
        assert(rest.subrange(a - 1, rest.len() as int) =~= t.subrange(a, t.len() as int));
    }
}

/// [`trim_trailing`] drops exactly the whitespace suffix.
proof fn lemma_trim_trailing_at(t: Seq<char>, b: int)
    requires
        0 <= b <= t.len(),
        forall|k: int| b <= k < t.len() ==> spec_is_unicode_ws(t[k]),
        b > 0 ==> !spec_is_unicode_ws(t[b - 1]),
    ensures
        trim_trailing(t) =~= t.subrange(0, b),
    decreases t.len(),
{
    if b == t.len() {
        if t.len() > 0 {
            assert(!spec_is_unicode_ws(t.last()));
        }
        assert(trim_trailing(t) =~= t.subrange(0, b));
    } else {
        assert(spec_is_unicode_ws(t.last()));
        let rest = t.drop_last();
        assert(forall|k: int| b <= k < rest.len() ==> rest[k] == t[k]);
        lemma_trim_trailing_at(rest, b);
        assert(rest.subrange(0, b) =~= t.subrange(0, b));
    }
}

/// The text with surrounding Unicode whitespace removed.
pub fn trim_whitespace(text: &str) -> (r: String)
    ensures
        r@ == trim_ws(text@),
{
    let n = text.unicode_len();
    let mut a: usize = 0;
    while a < n && is_unicode_ws(text.get_char(a))
        invariant
            0 <= a <= n,
            n == text@.len(),
            forall|k: int| 0 <= k < a ==> spec_is_unicode_ws(text@[k]),
        decreases n - a,
    {
        a += 1;
    }
    let mut b: usize = n;
    while b > a && is_unicode_ws(text.get_char(b - 1))
        invariant
            a <= b <= n,
            n == text@.len(),
            forall|k: int| b <= k < n ==> spec_is_unicode_ws(text@[k]),
        decreases b,
    {
        b -= 1;
    }
    let s = text.substring_char(a, b);
    proof {
        lemma_trim_leading_at(text@, a as int);
        let u = text@.subrange(a as int, n as int);
        assert(forall|k: int| 0 <= k < u.len() ==> u[k] == text@[a + k]);
        lemma_trim_trailing_at(u, b - a);
        assert(u.subrange(0, b - a) =~= text@.subrange(a as int, b as int));
    }
    s.to_owned()
}

/// The previous application's name in the focus query's captured output: the
/// bytes decoded as text and trimmed of surrounding whitespace; nothing when
/// the bytes are not valid text.
pub fn previous_app_from_output(stdout: Vec<u8>) -> (r: Option<String>)
    ensures
        valid_utf8(stdout@) ==> (r matches Some(s) && s@ == trim_ws(decode_utf8(stdout@))),
        !valid_utf8(stdout@) ==> r is None,
{
    match decode_output(stdout) {
        None => None,
        Some(text) => Some(trim_whitespace(text.as_str())),
    }
}

/// The script handed to the OS automation command to bring a named
/// application back to the foreground.
pub open spec fn spec_focus_script(name: Seq<char>) -> Seq<char> {
    "tell application \""@ + name + "\" to activate"@
}

/// Composes the refocus script for one application name.
pub fn focus_script(name: &str) -> (r: String)
    ensures
        r@ == spec_focus_script(name@),
{
    let mut s = "tell application \"".to_owned();
    s.append(name);
    s.append("\" to activate");
    s
}

/// The argument handed to the keystroke-injection command: its typing verb
/// followed by the literal secret text.
pub open spec fn spec_type_argument(secret: Seq<char>) -> Seq<char> {
    "t:"@ + secret
}

/// Composes the keystroke-injection argument for one secret.
pub fn type_argument(secret: &str) -> (r: String)
    ensures
        r@ == spec_type_argument(secret@),
{
    let mut s = "t:".to_owned();
    s.append(secret);
    s
}

} // verus!
