//! Selection of the language code from the configured override and the
//! operating system's locale.

use vstd::prelude::*;
use crate::catalog::DEFAULT_LANG;
use crate::text::{contains, has_infix, has_prefix, starts_with};

verus! {

/// Prefix of every Chinese locale (`zh_CN`, `zh-Hans-CN`, `zh_CN_#Hans`).
pub const CHINESE_PREFIX: &'static str = "zh";

/// Region marker that selects traditional Chinese.
pub const TAIWAN_MARKER: &'static str = "tw";

/// Language code of traditional Chinese.
pub const TRADITIONAL_CHINESE: &'static str = "zh-tw";

/// Language code of simplified Chinese.
pub const SIMPLIFIED_CHINESE: &'static str = "zh-cn";

/// What `str::to_lowercase` makes of `s`.
pub uninterp spec fn lower_of(s: Seq<char>) -> Seq<char>;

/// Relies on `str::to_lowercase`: the result depends on the characters
/// alone, and each character maps to one or more characters, so only the
/// empty string gives the empty string.
#[verifier::external_body]
fn lowercase(s: &str) -> (r: String)
    ensures
        r@ == lower_of(s@),
        r@.len() == 0 <==> s@.len() == 0,
{
    s.to_lowercase()
}

/// The language code for the lowercased override `lang` and the lowercased
/// system locale `locale`: the override where it is not empty; else simplified
/// or traditional Chinese for a Chinese locale; else the default language,
/// whatever the locale.
pub open spec fn resolved_lang(lang: Seq<char>, locale: Seq<char>) -> Seq<char> {
    if lang.len() > 0 {
        lang
    } else if has_prefix(locale, CHINESE_PREFIX@) {
        if has_infix(locale, TAIWAN_MARKER@) {
            TRADITIONAL_CHINESE@
        } else {
            SIMPLIFIED_CHINESE@
        }
    } else {
        DEFAULT_LANG@
    }
}

/// Chooses the language code from the lowercased override `lang` (empty for
/// none) and the lowercased system locale `locale`.
pub fn resolve_lang(lang: &str, locale: &str) -> (r: String)
    ensures
        r@ == resolved_lang(lang@, locale@),
{
    if !lang.is_empty() {
        lang.to_owned()
    } else if starts_with(locale, CHINESE_PREFIX) {
        if contains(locale, TAIWAN_MARKER) {
            TRADITIONAL_CHINESE.to_owned()
        } else {
            SIMPLIFIED_CHINESE.to_owned()
        }
    } else {
        DEFAULT_LANG.to_owned()
    }
}

/// Chooses the language code from the configured override (empty for none)
/// and the system locale, both taken in lower case.
pub fn resolve_locale(lang_option: &str, locale: &str) -> (r: String)
    ensures
        r@ == resolved_lang(lower_of(lang_option@), lower_of(locale@)),
        lang_option@.len() > 0 ==> r@ == lower_of(lang_option@),
{
    let lang = lowercase(lang_option);
    let locale = lowercase(locale);
    resolve_lang(lang.as_str(), locale.as_str())
}

/// An override, where there is one, is the language whatever the locale; else
/// a Chinese locale gives traditional Chinese where it names the Taiwan region
/// and simplified Chinese otherwise; and every other locale, the empty one
/// included, gives the default language.
pub proof fn lemma_locale_resolution(lang: Seq<char>, locale: Seq<char>)
    ensures
        lang.len() > 0 ==> resolved_lang(lang, locale) == lang,
        lang.len() == 0 && has_prefix(locale, CHINESE_PREFIX@) && has_infix(locale, TAIWAN_MARKER@)
            ==> resolved_lang(lang, locale) == TRADITIONAL_CHINESE@,
        lang.len() == 0 && has_prefix(locale, CHINESE_PREFIX@) && !has_infix(
            locale,
            TAIWAN_MARKER@,
        ) ==> resolved_lang(lang, locale) == SIMPLIFIED_CHINESE@,
        lang.len() == 0 && !has_prefix(locale, CHINESE_PREFIX@) ==> resolved_lang(lang, locale)
            == DEFAULT_LANG@,
{
}

} // verus!
