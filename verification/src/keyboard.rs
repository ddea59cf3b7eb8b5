use vstd::prelude::*;
use vstd::string::StrSliceExecFns;

verus! {

/// The character with ASCII upper-case letters turned into lower case; every
/// other character is left as it is.
pub open spec fn ascii_lower(c: char) -> char {
    if 'A' <= c && c <= 'Z' {
        ((c as u32) + 32) as char
    } else {
        c
    }
}

/// The text with [`ascii_lower`] applied to each character.
pub open spec fn ascii_lower_text(s: Seq<char>) -> Seq<char> {
    s.map_values(|c: char| ascii_lower(c))
}

/// Whether two texts are equal once ASCII letters are compared without
/// regard to case.
pub open spec fn eq_ignoring_ascii_case(a: Seq<char>, b: Seq<char>) -> bool {
    ascii_lower_text(a) == ascii_lower_text(b)
}

/// Whether a key press is the paste shortcut: the key produced the text `v`
/// in either case, the control modifier was held, and the key went down
/// (not up).
///
/// `key_text` is the text of the key when it is a character key, and `None`
/// for any named key.
pub fn is_paste_shortcut(key_text: Option<&str>, ctrl: bool, key_down: bool) -> (paste: bool)
    ensures
        paste == (key_text is Some && eq_ignoring_ascii_case(key_text->0@, seq!['v']) && ctrl
            && key_down),
{
    match key_text {
        Some(text) => {
            let is_v = text.unicode_len() == 1 && {
                let c = text.get_char(0);
                c == 'v' || c == 'V'
            };
            proof {
                if text@.len() == 1 {
                    let lowered = ascii_lower_text(text@);
                    assert(lowered.len() == 1);
                    assert(lowered[0] == ascii_lower(text@[0]));
                    if is_v {
                        assert(lowered =~= seq!['v']);
                    }
                    if lowered =~= seq!['v'] {
                        assert(ascii_lower(text@[0]) == 'v');
                    }
                }
                assert(ascii_lower_text(seq!['v']) =~= seq!['v']);
                if text@.len() != 1 {
                    assert(ascii_lower_text(text@).len() != 1);
                }
            }
            is_v && ctrl && key_down
        },
        None => false,
    }
}

} // verus!
