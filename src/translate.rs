//! The resolution of a display key, step by step: extraction of its
//! bracketed value, choice of the language, lookup, substitution of the value
//! and rewriting of the brand name.

use vstd::prelude::*;
use crate::brand::{apply_brand, branded};
use crate::catalog::{looked_up, lookup, Catalogs};
use crate::locale::{lower_of, resolve_locale, resolved_lang};
use crate::placeholder::{extract_placeholder, extracted, marker};
use crate::text::{replace_all, replaced};

verus! {

/// What the application around the resolver provides: the configured
/// language override (empty for none), whether the deployment runs in
/// white-label mode, and its application name.
pub struct Settings {
    pub lang: String,
    pub white_label: bool,
    pub app_name: String,
}

/// The text shown for the display key `key` in the language `lang`.
pub open spec fn translation(
    key: Seq<char>,
    lang: Seq<char>,
    cats: Map<Seq<char>, Map<Seq<char>, Seq<char>>>,
    white_label: bool,
    app: Seq<char>,
) -> Seq<char> {
    let canonical = extracted(key).0;
    let template = looked_up(cats, canonical, lang);
    let filled = match extracted(key).1 {
        Some(v) => replaced(template, marker(), v),
        None => template,
    };
    branded(filled, key, white_label, app)
}

/// Resolves the display key `name` in the language `lang`, already chosen.
pub fn translate_with_lang(name: &str, lang: &String, settings: &Settings, catalogs: &Catalogs) -> (r:
    String)
    ensures
        r@ == translation(name@, lang@, catalogs@, settings.white_label, settings.app_name@),
{
    let (canonical, value) = extract_placeholder(name);
    let template = lookup(catalogs, &canonical, lang);
    let filled = match value {
        Some(v) => {
            proof {
                reveal_strlit("{}");
            }
            assert("{}"@ =~= marker());
            replace_all(template.as_str(), "{}", v.as_str())
        },
        None => template,
    };
    apply_brand(filled, name, settings.white_label, settings.app_name.as_str())
}

/// Resolves the display key `name` for the system locale `locale`.
pub fn translate_locale(name: String, locale: &str, settings: &Settings, catalogs: &Catalogs) -> (r:
    String)
    ensures
        r@ == translation(
            name@,
            resolved_lang(lower_of(settings.lang@), lower_of(locale@)),
            catalogs@,
            settings.white_label,
            settings.app_name@,
        ),
        settings.lang@.len() > 0 ==> r@ == translation(
            name@,
            lower_of(settings.lang@),
            catalogs@,
            settings.white_label,
            settings.app_name@,
        ),
{
    let lang = resolve_locale(settings.lang.as_str(), locale);
    translate_with_lang(name.as_str(), &lang, settings, catalogs)
}

/// Relies on `sys_locale::get_locale`: the first locale that the operating
/// system reports, if any. Nothing is known of its value.
#[verifier::external_body]
fn system_locale() -> (r: Option<String>) {
    sys_locale::get_locale()
}

/// Resolves the display key `name` for the locale that the operating system
/// reports, or for the empty locale where it reports none.
pub fn translate(name: String, settings: &Settings, catalogs: &Catalogs) -> (r: String)
    ensures
        exists|locale: Seq<char>|
            r@ == #[trigger] translation(
                name@,
                resolved_lang(lower_of(settings.lang@), lower_of(locale)),
                catalogs@,
                settings.white_label,
                settings.app_name@,
            ),
        settings.lang@.len() > 0 ==> r@ == translation(
            name@,
            lower_of(settings.lang@),
            catalogs@,
            settings.white_label,
            settings.app_name@,
        ),
{
    let locale = match system_locale() {
        Some(l) => l,
        None => String::new(),
    };
    translate_locale(name, locale.as_str(), settings, catalogs)
}

} // verus!
