//! Normalisation of user-supplied names.
//!
//! A domain or target name is made *conforming* before it is used anywhere:
//! every whitespace character becomes an underscore and the result is
//! lower-cased. Nothing is trimmed.

use vstd::prelude::*;

verus! {

/// Whether `c` carries the Unicode property `White_Space`.
pub open spec fn is_whitespace(c: char) -> bool {
    let n = c as u32;
    ||| 0x09 <= n <= 0x0D
    ||| n == 0x20
    ||| n == 0x85
    ||| n == 0xA0
    ||| n == 0x1680
    ||| 0x2000 <= n <= 0x200A
    ||| n == 0x2028
    ||| n == 0x2029
    ||| n == 0x202F
    ||| n == 0x205F
    ||| n == 0x3000
}

/// `c` with whitespace turned into an underscore.
pub open spec fn underscore_char(c: char) -> char {
    if is_whitespace(c) {
        '_'
    } else {
        c
    }
}

/// `text` with every whitespace character replaced by an underscore.
pub open spec fn underscored(text: Seq<char>) -> Seq<char> {
    text.map_values(|c: char| underscore_char(c))
}

/// Whether every character of `text` is an ASCII character.
pub open spec fn is_ascii_text(text: Seq<char>) -> bool {
    forall|i: int| 0 <= i < text.len() ==> (#[trigger] text[i]) as u32 <= 0x7F
}

/// The ASCII lower-case form of `c`: `A` to `Z` map to `a` to `z`, every
/// other character to itself.
pub open spec fn ascii_lower_char(c: char) -> char {
    let n = c as u32;
    if 0x41 <= n <= 0x5A {
        (n + 0x20) as char
    } else {
        c
    }
}

/// `text` with each character in its ASCII lower-case form.
pub open spec fn ascii_lowercased(text: Seq<char>) -> Seq<char> {
    text.map_values(|c: char| ascii_lower_char(c))
}

/// The Unicode lower-case form of `text`, as `str::to_lowercase` computes it.
pub uninterp spec fn unicode_lowercased(text: Seq<char>) -> Seq<char>;

/// The lower-case form of `text`: spelled out for ASCII text, the Unicode
/// mapping otherwise.
pub open spec fn lowercased(text: Seq<char>) -> Seq<char> {
    if is_ascii_text(text) {
        ascii_lowercased(text)
    } else {
        unicode_lowercased(text)
    }
}

/// The conforming form of `name`.
pub open spec fn conformed(name: Seq<char>) -> Seq<char> {
    lowercased(underscored(name))
}

/// Calls `str::replace` with the pattern `char::is_whitespace` and the
/// replacement `"_"`. Trusted: the result is the input with each whitespace
/// character replaced by one underscore, all else kept in place.
#[verifier::external_body]
fn replace_whitespace(text: &str) -> (out: String)
    ensures
        out@ == underscored(text@),
{
    text.replace(char::is_whitespace, "_")
}

/// Calls `str::to_lowercase`. Trusted: the result is the Unicode lower-case
/// form of the input, which for ASCII text maps `A` to `Z` onto `a` to `z`
/// and keeps every other character.
#[verifier::external_body]
fn to_lowercase(text: &str) -> (out: String)
    ensures
        out@ == if is_ascii_text(text@) {
            ascii_lowercased(text@)
        } else {
            unicode_lowercased(text@)
        },
{
    text.to_lowercase()
}

/// Makes `name` conforming: whitespace becomes `_`, then the text is
/// lower-cased.
pub fn conform(name: &str) -> (out: String)
    ensures
        out@ == conformed(name@),
{
    let underscored = replace_whitespace(name);
    to_lowercase(underscored.as_str())
}

/// Replacing whitespace keeps ASCII text ASCII.
pub proof fn lemma_underscored_ascii(text: Seq<char>)
    requires
        is_ascii_text(text),
    ensures
        is_ascii_text(underscored(text)),
{
    assert forall|i: int| 0 <= i < underscored(text).len() implies (#[trigger] underscored(
        text,
    )[i]) as u32 <= 0x7F by {
        assert(text[i] as u32 <= 0x7F);
    }
}

/// On ASCII text the conforming form is computed character by character.
pub proof fn lemma_conformed_ascii(name: Seq<char>)
    requires
        is_ascii_text(name),
    ensures
        conformed(name) == name.map_values(|c: char| ascii_lower_char(underscore_char(c))),
        is_ascii_text(conformed(name)),
        forall|i: int| 0 <= i < conformed(name).len() ==> !is_whitespace(#[trigger] conformed(name)[i]),
{
    lemma_underscored_ascii(name);
    let out = conformed(name);
    assert(out =~= name.map_values(|c: char| ascii_lower_char(underscore_char(c))));
    assert forall|i: int| 0 <= i < out.len() implies (#[trigger] out[i]) as u32 <= 0x7F
        && !is_whitespace(out[i]) by {
        assert(name[i] as u32 <= 0x7F);
        assert(out[i] == ascii_lower_char(underscore_char(name[i])));
    }
}

/// Conforming is idempotent on ASCII names: a conforming name is left as it
/// is.
pub proof fn lemma_conform_idempotent_ascii(name: Seq<char>)
    requires
        is_ascii_text(name),
    ensures
        conformed(conformed(name)) == conformed(name),
{
    lemma_conformed_ascii(name);
    let once = conformed(name);
    lemma_conformed_ascii(once);
    assert forall|i: int| 0 <= i < once.len() implies ascii_lower_char(
        underscore_char(#[trigger] once[i]),
    ) == once[i] by {
        assert(name[i] as u32 <= 0x7F);
        assert(once[i] == ascii_lower_char(underscore_char(name[i])));
    }
    assert(conformed(once) =~= once);
}

} // verus!
