use lang::{
    apply_brand, contains, extract_placeholder, lookup, replace_all, resolve_lang, resolve_locale,
    starts_with, translate, translate_locale, translate_with_lang, Catalog, Catalogs, Settings,
    DEFAULT_LANG, FALLBACK_LANG,
};

fn s(x: &str) -> String {
    x.to_string()
}

fn catalog(entries: &[(&str, &str)]) -> Catalog {
    let mut c = Catalog::new();
    for (k, v) in entries {
        c.insert(s(k), s(v));
    }
    c
}

fn store() -> Catalogs {
    let mut cats = Catalogs::new();
    cats.insert(
        s("en"),
        catalog(&[
            ("Close", "Close"),
            ("{} sessions", "{} sessions"),
            ("only_in_en", "English only"),
            ("Welcome", "Welcome to OneDesk"),
            ("upgrade_onedesk_server_pro_tip", "Upgrade to OneDesk Server Pro"),
            ("powered_by_me", "Powered by OneDesk"),
        ]),
    );
    cats.insert(
        s("ko"),
        catalog(&[("Close", "닫기"), ("{} sessions", "{} 세션"), ("empty_in_ko", "")]),
    );
    cats.insert(
        s("zh-cn"),
        catalog(&[("Close", "关闭"), ("{} sessions", "{} sessions active"), ("empty_in_ko", "")]),
    );
    cats
}

fn settings(lang: &str, white_label: bool, app_name: &str) -> Settings {
    Settings { lang: s(lang), white_label, app_name: s(app_name) }
}

#[test]
fn test_extract_placeholders() {
    let f = extract_placeholder;
    assert_eq!(f(""), ("".to_string(), None));
    assert_eq!(f("{3} sessions"), ("{} sessions".to_string(), Some("3".to_string())));
    assert_eq!(f(" } { "), (" } { ".to_string(), None));
    // Allow empty value
    assert_eq!(f("{} sessions"), ("{} sessions".to_string(), Some("".to_string())));
    // Match only the first one
    assert_eq!(
        f("{2} times {4} makes {8}"),
        ("{} times {4} makes {8}".to_string(), Some("2".to_string()))
    );
}

#[test]
fn extract_without_brackets_keeps_key() {
    assert_eq!(extract_placeholder("Close"), (s("Close"), None));
    assert_eq!(extract_placeholder("no { closing"), (s("no { closing"), None));
    assert_eq!(extract_placeholder("only } closing"), (s("only } closing"), None));
}

#[test]
fn extract_placeholder_in_the_middle() {
    assert_eq!(
        extract_placeholder("There are {24} hours in a day"),
        (s("There are {} hours in a day"), Some(s("24")))
    );
    assert_eq!(extract_placeholder("a}b{c{d}e"), (s("a}b{}e"), Some(s("c{d"))));
    assert_eq!(extract_placeholder("{한국어}"), (s("{}"), Some(s("한국어"))));
}

#[test]
fn text_helpers() {
    assert!(starts_with("zh-tw", "zh"));
    assert!(!starts_with("z", "zh"));
    assert!(starts_with("abc", ""));
    assert!(contains("zh-hans-tw", "tw"));
    assert!(!contains("zh-cn", "tw"));
    assert!(contains("", ""));
    assert_eq!(replace_all("a{}b{}", "{}", "X"), "aXbX");
    assert_eq!(replace_all("aaa", "aa", "b"), "ba");
    assert_eq!(replace_all("none here", "{}", "X"), "none here");
}

#[test]
fn catalog_insert_replaces_earlier_template() {
    let mut c = Catalog::new();
    assert_eq!(c.get(&s("k")), None);
    c.insert(s("k"), s("one"));
    c.insert(s("k"), s("two"));
    assert_eq!(c.get(&s("k")), Some(&s("two")));
}

#[test]
fn lookup_uses_selected_catalog() {
    assert_eq!(lookup(&store(), &s("Close"), &s("ko")), "닫기");
    assert_eq!(lookup(&store(), &s("Close"), &s("zh-cn")), "关闭");
}

#[test]
fn lookup_falls_back_to_fallback_language() {
    assert_eq!(lookup(&store(), &s("only_in_en"), &s("ko")), "English only");
    assert_eq!(lookup(&store(), &s("empty_in_ko"), &s("ko")), "empty_in_ko");
}

#[test]
fn lookup_empty_entry_counts_as_missing() {
    let mut cats = store();
    cats.insert(s("ja"), catalog(&[("Close", "")]));
    assert_eq!(lookup(&cats, &s("Close"), &s("ja")), "Close");
    cats.insert(s("ja"), catalog(&[("only_in_en", "")]));
    assert_eq!(lookup(&cats, &s("only_in_en"), &s("ja")), "English only");
}

#[test]
fn lookup_unknown_language_uses_default_catalog() {
    assert_eq!(DEFAULT_LANG, "ko");
    assert_eq!(lookup(&store(), &s("Close"), &s("xx")), "닫기");
    assert_eq!(lookup(&store(), &s("Close"), &s("zh-tw")), "닫기");
}

#[test]
fn lookup_in_fallback_language_echoes_key() {
    assert_eq!(FALLBACK_LANG, "en");
    let mut cats = store();
    cats.insert(s("en"), catalog(&[("Close", "")]));
    assert_eq!(lookup(&cats, &s("Close"), &s("en")), "Close");
}

#[test]
fn lookup_missing_everywhere_echoes_key() {
    assert_eq!(lookup(&store(), &s("unknown_key_xyz"), &s("ko")), "unknown_key_xyz");
    assert_eq!(lookup(&Catalogs::new(), &s("x"), &s("ko")), "x");
}

#[test]
fn brand_skipped_in_white_label_mode() {
    let r = apply_brand(s("Welcome to OneDesk"), "Welcome", true, "Acme");
    assert_eq!(r, "Welcome to OneDesk");
    let r = apply_brand(s("Welcome to OneDesk"), "Welcome", true, "OneDesk-Admin");
    assert_eq!(r, "Welcome to OneDesk");
}

#[test]
fn brand_replaced_by_plain_app_name() {
    let r = apply_brand(s("OneDesk and OneDesk"), "k", false, "Acme");
    assert_eq!(r, "Acme and Acme");
    let r = apply_brand(s("no brand"), "k", false, "Acme");
    assert_eq!(r, "no brand");
}

#[test]
fn brand_inside_app_name_is_not_duplicated() {
    let r = apply_brand(s("Welcome to OneDesk"), "Welcome", false, "OneDesk-Admin");
    assert_eq!(r, "Welcome to OneDesk-Admin");
    let r = apply_brand(s("OneDesk-Admin or OneDesk"), "k", false, "OneDesk-Admin");
    assert_eq!(r, "OneDesk-Admin or OneDesk-Admin");
}

#[test]
fn brand_skipped_when_sentinel_present() {
    let text = "OneDesk #A-P-P-N-A-M-E#";
    assert_eq!(apply_brand(s(text), "k", false, "OneDesk-Admin"), text);
    assert_eq!(apply_brand(s(text), "k", false, "Acme"), "Acme #A-P-P-N-A-M-E#");
}

#[test]
fn brand_skipped_for_reserved_keys() {
    let t = "Upgrade to OneDesk Server Pro";
    assert_eq!(apply_brand(s(t), "upgrade_onedesk_server_pro_tip", false, "Acme"), t);
    assert_eq!(apply_brand(s("Powered by OneDesk"), "powered_by_me", false, "Acme"), "Powered by OneDesk");
    assert_eq!(
        apply_brand(s("Powered by OneDesk"), "powered_by_me_too", false, "Acme"),
        "Powered by Acme"
    );
}

#[test]
fn locale_resolution() {
    assert_eq!(resolve_lang("ja", "zh-tw"), "ja");
    assert_eq!(resolve_lang("", "zh-tw-something"), "zh-tw");
    assert_eq!(resolve_lang("", "zh_cn"), "zh-cn");
    assert_eq!(resolve_lang("", "zh-hans-cn"), "zh-cn");
    assert_eq!(resolve_lang("", "en-us"), "ko");
    assert_eq!(resolve_lang("", "ja-jp"), "ko");
    assert_eq!(resolve_lang("", ""), "ko");
    assert_eq!(resolve_lang("", "tw-zh"), "ko");
}

#[test]
fn locale_resolution_lowercases_inputs() {
    assert_eq!(resolve_locale("EN", "zh-TW"), "en");
    assert_eq!(resolve_locale("", "zh-TW-something"), "zh-tw");
    assert_eq!(resolve_locale("", "ZH_CN"), "zh-cn");
    assert_eq!(resolve_locale("", "en-US"), "ko");
}

#[test]
fn end_to_end_placeholder_substitution() {
    let cfg = settings("", false, "Acme");
    assert_eq!(translate_locale(s("{3} sessions"), "zh_CN", &cfg, &store()), "3 sessions active");
    assert_eq!(translate_with_lang("{3} sessions", &s("zh-cn"), &cfg, &store()), "3 sessions active");
    assert_eq!(translate_locale(s("{} sessions"), "zh_CN", &cfg, &store()), " sessions active");
}

#[test]
fn end_to_end_unknown_key_is_echoed() {
    let cfg = settings("", false, "Acme");
    assert_eq!(translate_locale(s("unknown_key_xyz"), "en-US", &cfg, &store()), "unknown_key_xyz");
    assert_eq!(translate_locale(s("{5} unknown"), "en-US", &cfg, &store()), "5 unknown");
}

#[test]
fn end_to_end_override_and_brand() {
    let cfg = settings("EN", false, "Acme");
    assert_eq!(translate_locale(s("Welcome"), "zh_CN", &cfg, &store()), "Welcome to Acme");
    assert_eq!(translate(s("Close"), &cfg, &store()), "Close");
    let cfg = settings("ko", false, "OneDesk-Admin");
    assert_eq!(translate_locale(s("Welcome"), "", &cfg, &store()), "Welcome to OneDesk-Admin");
    assert_eq!(translate(s("Close"), &cfg, &store()), "닫기");
    let cfg = settings("ko", true, "Acme");
    assert_eq!(translate_locale(s("Welcome"), "", &cfg, &store()), "Welcome to OneDesk");
    let cfg = settings("ko", false, "Acme");
    assert_eq!(
        translate_locale(s("powered_by_me"), "", &cfg, &store()),
        "Powered by OneDesk"
    );
}
