//! The language of the user interface, chosen from the system locale.
use vstd::prelude::*;
use crate::text::chars_of;

verus! {

/// A language the interface is written in.
#[derive(Debug, Clone, Copy, PartialEq, Eq, Structural)]
pub enum Language {
    Ja,
    En,
}

/// The language for a locale name: Japanese for names that start with "ja"
/// ("ja", "ja-JP", ...), English for any other.
pub open spec fn language_of_locale(locale: Seq<char>) -> Language {
    if locale.len() >= 2 && locale[0] == 'j' && locale[1] == 'a' {
        Language::Ja
    } else {
        Language::En
    }
}

/// The text in `lang`, given its Japanese and English versions.
pub open spec fn in_language<'a>(lang: Language, ja: &'a str, en: &'a str) -> &'a str {
    match lang {
        Language::Ja => ja,
        Language::En => en,
    }
}

/// The most preferred locale of the system or the application, if the
/// platform reports one.
///
/// Trusted: calls `sys_locale::get_locale`. It reads the platform's settings,
/// so nothing is stated of what it returns.
#[verifier::external_body]
fn system_locale() -> (r: Option<String>) {
    sys_locale::get_locale()
}

/// The language for `locale`; a missing locale counts as "en-US".
pub fn language_from_locale(locale: Option<String>) -> (lang: Language)
    ensures
        lang == match locale {
            Some(l) => language_of_locale(l@),
            None => Language::En,
        },
{
    match locale {
        Some(l) => {
            let v = chars_of(l.as_str());
            if v.len() >= 2 && v[0] == 'j' && v[1] == 'a' {
                Language::Ja
            } else {
                Language::En
            }
        },
        None => Language::En,
    }
}

/// The language of the interface, from the system locale.
pub fn get_language() -> (lang: Language) {
    language_from_locale(system_locale())
}

/// The text in `lang`.
pub fn translate<'a>(lang: Language, ja: &'a str, en: &'a str) -> (r: &'a str)
    ensures
        r == in_language(lang, ja, en),
{
    match lang {
        Language::Ja => ja,
        Language::En => en,
    }
}

/// The text in the language of the interface: `ja` under a Japanese system
/// locale, `en` under any other.
pub fn t<'a>(ja: &'a str, en: &'a str) -> (r: &'a str)
    ensures
        r == ja || r == en,
{
    translate(get_language(), ja, en)
}

} // verus!
