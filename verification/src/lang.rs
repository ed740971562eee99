//! The closed set of supported languages, with the bidirectional mapping
//! between languages, their two-letter short codes and their display names.

use vstd::prelude::*;

verus! {

/// One of the supported languages. The set is fixed at build time.
#[derive(Clone, Copy, Debug, PartialEq, Eq, Structural)]
pub enum Lang {
    English,
    Arabic,
    Chinese,
    French,
    German,
    Italian,
    Portuguese,
    Russian,
    Spanish,
    Japanese,
}

/// Witness that a short code was not recognized.
#[derive(Clone, Copy, Debug, PartialEq, Eq, Structural)]
pub struct UnsupportedLanguage;

/// The language whose two-letter short code is the character pair
/// `(c0, c1)`, if any.
pub open spec fn code_of_chars(c0: char, c1: char) -> Option<Lang> {
    if c0 == 'e' && c1 == 'n' {
        Some(Lang::English)
    } else if c0 == 'a' && c1 == 'r' {
        Some(Lang::Arabic)
    } else if c0 == 'z' && c1 == 'h' {
        Some(Lang::Chinese)
    } else if c0 == 'f' && c1 == 'r' {
        Some(Lang::French)
    } else if c0 == 'd' && c1 == 'e' {
        Some(Lang::German)
    } else if c0 == 'i' && c1 == 't' {
        Some(Lang::Italian)
    } else if c0 == 'p' && c1 == 't' {
        Some(Lang::Portuguese)
    } else if c0 == 'r' && c1 == 'u' {
        Some(Lang::Russian)
    } else if c0 == 'e' && c1 == 's' {
        Some(Lang::Spanish)
    } else if c0 == 'j' && c1 == 'a' {
        Some(Lang::Japanese)
    } else {
        None
    }
}

/// The language whose short code is `s`, if any. Codes are case-sensitive
/// and exactly two characters long.
pub open spec fn code_of(s: Seq<char>) -> Option<Lang> {
    if s.len() == 2 {
        code_of_chars(s[0], s[1])
    } else {
        None
    }
}

/// The two-letter short code of `l`.
pub open spec fn short_code_of(l: Lang) -> Seq<char> {
    match l {
        Lang::English => seq!['e', 'n'],
        Lang::Arabic => seq!['a', 'r'],
        Lang::Chinese => seq!['z', 'h'],
        Lang::French => seq!['f', 'r'],
        Lang::German => seq!['d', 'e'],
        Lang::Italian => seq!['i', 't'],
        Lang::Portuguese => seq!['p', 't'],
        Lang::Russian => seq!['r', 'u'],
        Lang::Spanish => seq!['e', 's'],
        Lang::Japanese => seq!['j', 'a'],
    }
}

/// The human-readable display name of `l`.
pub open spec fn display_name_of(l: Lang) -> Seq<char> {
    match l {
        Lang::English => "English"@,
        Lang::Arabic => "Arabic"@,
        Lang::Chinese => "Chinese"@,
        Lang::French => "French"@,
        Lang::German => "German"@,
        Lang::Italian => "Italian"@,
        Lang::Portuguese => "Portuguese"@,
        Lang::Russian => "Russian"@,
        Lang::Spanish => "Spanish"@,
        Lang::Japanese => "Japanese"@,
    }
}

/// The language whose short code is the character pair `(c0, c1)`, or
/// `None` when the pair is not a supported code.
pub fn code_for_chars(c0: char, c1: char) -> (r: Option<Lang>)
    ensures
        r == code_of_chars(c0, c1),
{
    if c0 == 'e' && c1 == 'n' {
        Some(Lang::English)
    } else if c0 == 'a' && c1 == 'r' {
        Some(Lang::Arabic)
    } else if c0 == 'z' && c1 == 'h' {
        Some(Lang::Chinese)
    } else if c0 == 'f' && c1 == 'r' {
        Some(Lang::French)
    } else if c0 == 'd' && c1 == 'e' {
        Some(Lang::German)
    } else if c0 == 'i' && c1 == 't' {
        Some(Lang::Italian)
    } else if c0 == 'p' && c1 == 't' {
        Some(Lang::Portuguese)
    } else if c0 == 'r' && c1 == 'u' {
        Some(Lang::Russian)
    } else if c0 == 'e' && c1 == 's' {
        Some(Lang::Spanish)
    } else if c0 == 'j' && c1 == 'a' {
        Some(Lang::Japanese)
    } else {
        None
    }
}

/// The language whose short code is `code`, or `UnsupportedLanguage` when
/// `code` is not in the supported set.
pub fn code_for(code: &str) -> (r: Result<Lang, UnsupportedLanguage>)
    ensures
        code_of(code@) matches Some(l) ==> r == Ok::<Lang, UnsupportedLanguage>(l),
        code_of(code@) is None ==> r == Err::<Lang, UnsupportedLanguage>(UnsupportedLanguage),
{
    let n: usize = code.unicode_len();
    if n != 2 {
        Err(UnsupportedLanguage)
    } else {
        let c0: char = code.get_char(0);
        let c1: char = code.get_char(1);
        match code_for_chars(c0, c1) {
            Some(l) => Ok(l),
            None => Err(UnsupportedLanguage),
        }
    }
}

/// The two-letter short code of `l`.
pub fn short_code(l: Lang) -> (r: &'static str)
    ensures
        r@ == short_code_of(l),
{
    proof {
        reveal_strlit("en");
        reveal_strlit("ar");
        reveal_strlit("zh");
        reveal_strlit("fr");
        reveal_strlit("de");
        reveal_strlit("it");
        reveal_strlit("pt");
        reveal_strlit("ru");
        reveal_strlit("es");
        reveal_strlit("ja");
    }
    match l {
        Lang::English => "en",
        Lang::Arabic => "ar",
        Lang::Chinese => "zh",
        Lang::French => "fr",
        Lang::German => "de",
        Lang::Italian => "it",
        Lang::Portuguese => "pt",
        Lang::Russian => "ru",
        Lang::Spanish => "es",
        Lang::Japanese => "ja",
    }
}

/// The human-readable display name of `l`.
pub fn display_name(l: Lang) -> (r: &'static str)
    ensures
        r@ == display_name_of(l),
{
    match l {
        Lang::English => "English",
        Lang::Arabic => "Arabic",
        Lang::Chinese => "Chinese",
        Lang::French => "French",
        Lang::German => "German",
        Lang::Italian => "Italian",
        Lang::Portuguese => "Portuguese",
        Lang::Russian => "Russian",
        Lang::Spanish => "Spanish",
        Lang::Japanese => "Japanese",
    }
}

/// Law: looking a language's own short code back up yields that language.
/// Together with `lemma_code_of_short_code` this makes the code mapping a
/// bijection between the supported languages and their codes.
pub proof fn lemma_short_code_round_trip(l: Lang)
    ensures
        code_of(short_code_of(l)) == Some(l),
{
}

/// Law: a recognized short code is exactly the short code of the language
/// it maps to, so `code_of` and `short_code_of` are mutually inverse.
pub proof fn lemma_code_of_short_code(s: Seq<char>, l: Lang)
    requires
        code_of(s) == Some(l),
    ensures
        short_code_of(l) =~= s,
{
}

} // verus!
