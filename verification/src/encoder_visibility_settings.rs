//! The captions of the encoder-visibility settings: an encoder on a split half is named by
//! its side, any other by its number.
use vstd::prelude::*;

use crate::app::{StatusArg, StatusMessage};
use crate::keyboard::Language;
use crate::text::{char_is_whitespace, is_whitespace};

verus! {

/// A layout option of the keyboard, as far as the captions depend on it: its label.
#[derive(Clone, Debug, PartialEq, Eq)]
pub struct LayoutOption {
    pub label: String,
}

/// `c` in lower case, for ASCII letters; any other character is kept.
pub open spec fn ascii_lower(c: char) -> char {
    if 'A' <= c && c <= 'Z' { ((c as u32) + 32) as char } else { c }
}

/// Whether `w` stands in `s` at `i` as a whole word: delimited by whitespace or the ends.
pub open spec fn word_at(s: Seq<char>, i: int, w: Seq<char>) -> bool {
    &&& 0 <= i && i + w.len() <= s.len()
    &&& s.subrange(i, i + w.len()) == w
    &&& (i == 0 || char_is_whitespace(s[i - 1]))
    &&& (i + w.len() == s.len() || char_is_whitespace(s[i + w.len()]))
}

/// `s` with its ASCII letters in lower case.
pub open spec fn lowered(s: Seq<char>) -> Seq<char> {
    s.map_values(|c: char| ascii_lower(c))
}

/// Whether `w` is one of the whitespace-separated words of `s`, ignoring ASCII case.
pub open spec fn has_word(s: Seq<char>, w: Seq<char>) -> bool {
    exists|i: int| #[trigger] word_at(lowered(s), i, w)
}

/// The side an encoder is on, from its layout option's label: left, right, or neither.
pub open spec fn side_of(option: Option<LayoutOption>) -> Option<bool> {
    match option {
        Some(o) => if has_word(o.label@, "left"@) {
            Some(true)
        } else if has_word(o.label@, "right"@) {
            Some(false)
        } else {
            None
        },
        None => None,
    }
}

fn lower_ascii_char(c: char) -> (l: char)
    ensures
        l == ascii_lower(c),
{
    if 'A' <= c && c <= 'Z' {
        ((c as u32) + 32) as u8 as char
    } else {
        c
    }
}

fn find_word(chars: &Vec<char>, word: &Vec<char>) -> (found: bool)
    requires
        word@.len() > 0,
    ensures
        found == exists|i: int| #[trigger] word_at(chars@, i, word@),
{
    let n = chars.len();
    let m = word.len();
    if m > n {
        assert forall|i: int| !#[trigger] word_at(chars@, i, word@) by {}
        return false;
    }
    let mut i: usize = 0;
    while i <= n - m
        invariant
            n == chars@.len(),
            m == word@.len(),
            m > 0,
            m <= n,
            i <= n - m + 1,
            forall|j: int| 0 <= j < i ==> !#[trigger] word_at(chars@, j, word@),
        decreases n - i,
    {
        let before_ok = i == 0 || is_whitespace(chars[i - 1]);
        let after_ok = i + m == n || is_whitespace(chars[i + m]);
        let mut same = true;
        let mut k: usize = 0;
        while k < m
            invariant
                n == chars@.len(),
                m == word@.len(),
                i + m <= n,
                k <= m,
                same == forall|x: int| 0 <= x < k ==> chars@[i + x] == word@[x],
            decreases m - k,
        {
            if chars[i + k] != word[k] {
                same = false;
            }
            k = k + 1;
        }
        if before_ok && after_ok && same {
            assert(chars@.subrange(i as int, i + m) =~= word@);
            assert(word_at(chars@, i as int, word@));
            return true;
        }
        proof {
            if chars@.subrange(i as int, i + m) == word@ {
                assert forall|x: int| 0 <= x < m implies chars@[i + x] == word@[x] by {
                    assert(chars@.subrange(i as int, i + m)[x] == chars@[i + x]);
                }
            }
        }
        i = i + 1;
    }
    assert forall|j: int| !#[trigger] word_at(chars@, j, word@) by {
        if 0 <= j && j + m <= n {
            assert(j < i);
        }
    }
    false
}

fn lowered_chars(s: &str) -> (chars: Vec<char>)
    ensures
        chars@ == lowered(s@),
{
    let n = s.unicode_len();
    let mut chars: Vec<char> = Vec::new();
    let mut i: usize = 0;
    while i < n
        invariant
            n == s@.len(),
            i <= n,
            chars@ == s@.subrange(0, i as int).map_values(|c: char| ascii_lower(c)),
        decreases n - i,
    {
        chars.push(lower_ascii_char(s.get_char(i)));
        i = i + 1;
        assert(chars@ =~= s@.subrange(0, i as int).map_values(|c: char| ascii_lower(c)));
    }
    assert(s@.subrange(0, n as int) =~= s@);
    assert(chars@ =~= lowered(s@));
    chars
}

fn word_chars(w: &str) -> (chars: Vec<char>)
    ensures
        chars@ == w@,
{
    let n = w.unicode_len();
    let mut chars: Vec<char> = Vec::new();
    let mut i: usize = 0;
    while i < n
        invariant
            n == w@.len(),
            i <= n,
            chars@ == w@.subrange(0, i as int),
        decreases n - i,
    {
        chars.push(w.get_char(i));
        i = i + 1;
        assert(chars@ =~= w@.subrange(0, i as int));
    }
    chars
}

/// The caption and tooltip of an encoder's visibility switch, as catalog messages: by
/// side where the encoder's layout option names one, else by the encoder's number
/// (counted from 1).
pub fn encoder_visibility_copy(
    language: Language,
    encoder_idx: usize,
    layout_option: Option<&LayoutOption>,
) -> (copy: (StatusMessage, StatusMessage))
    requires
        encoder_idx < usize::MAX,
    ensures
        ({
            let option = match layout_option {
                Some(o) => Some(*o),
                None => None,
            };
            let (label_key, tooltip_key): (&'static str, &'static str) = match side_of(option) {
                Some(true) => ("encoder_settings.left_encoder", "encoder_settings.left_encoder_tooltip"),
                Some(false) => ("encoder_settings.right_encoder", "encoder_settings.right_encoder_tooltip"),
                None => ("encoder_settings.encoder_number", "encoder_settings.encoder_number_tooltip"),
            };
            let args = seq![("number", StatusArg::Number((encoder_idx + 1) as usize))];
            copy.0.is_catalog(label_key, args) && copy.1.is_catalog(tooltip_key, args)
        }),
{
    let side: Option<bool> = match layout_option {
        Some(option) => {
            let label = lowered_chars(option.label.as_str());
            proof {
                reveal_strlit("left");
                reveal_strlit("right");
            }
            if find_word(&label, &word_chars("left")) {
                Some(true)
            } else if find_word(&label, &word_chars("right")) {
                Some(false)
            } else {
                None
            }
        },
        None => None,
    };
    let (label_key, tooltip_key): (&'static str, &'static str) = match side {
        Some(true) => ("encoder_settings.left_encoder", "encoder_settings.left_encoder_tooltip"),
        Some(false) => ("encoder_settings.right_encoder", "encoder_settings.right_encoder_tooltip"),
        None => ("encoder_settings.encoder_number", "encoder_settings.encoder_number_tooltip"),
    };
    let number = encoder_idx + 1;
    let mut label_args: Vec<(&'static str, StatusArg)> = Vec::new();
    label_args.push(("number", StatusArg::Number(number)));
    let mut tooltip_args: Vec<(&'static str, StatusArg)> = Vec::new();
    tooltip_args.push(("number", StatusArg::Number(number)));
    assert(label_args@ =~= seq![("number", StatusArg::Number(number))]);
    assert(tooltip_args@ =~= seq![("number", StatusArg::Number(number))]);
    (
        StatusMessage::Catalog { key: label_key, args: label_args },
        StatusMessage::Catalog { key: tooltip_key, args: tooltip_args },
    )
}

} // verus!
