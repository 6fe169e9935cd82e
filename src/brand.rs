//! Rewriting of the brand name in resolved text into the deployment's
//! application name.

use vstd::prelude::*;
use crate::text::{contains, has_infix, has_prefix, occurs_at, replace_all, replaced, starts_with};

verus! {

/// The brand name that templates mention.
pub const BRAND: &'static str = "OneDesk";

/// Keys with this prefix announce the upgrade to the brand's own server and
/// keep the brand name.
pub const UPGRADE_NOTICE_PREFIX: &'static str = "upgrade_onedesk_server_pro";

/// The key of the credit line, which keeps the brand name.
pub const POWERED_BY_KEY: &'static str = "powered_by_me";

/// Stands in for the application name while the brand name is rewritten; the
/// catalogs never hold it, and an application name (letters, digits and
/// hyphens) never does either.
pub const SENTINEL: &'static str = "#A-P-P-N-A-M-E#";

/// `text` as shown for the display key `key` by the application `app`.
///
/// It stays as it is in white-label mode, where it does not mention the
/// brand, and for the reserved keys. Otherwise each mention of the brand
/// becomes `app`; where `app` itself contains the brand name, mentions that
/// are already part of `app` are left alone, and where `text` holds the
/// sentinel nothing is rewritten.
pub open spec fn branded(text: Seq<char>, key: Seq<char>, white_label: bool, app: Seq<char>) -> Seq<
    char,
> {
    if white_label || !has_infix(text, BRAND@) || has_prefix(key, UPGRADE_NOTICE_PREFIX@) || key
        == POWERED_BY_KEY@ {
        text
    } else if !has_infix(app, BRAND@) {
        replaced(text, BRAND@, app)
    } else if has_infix(text, SENTINEL@) {
        text
    } else {
        replaced(replaced(replaced(text, app, SENTINEL@), BRAND@, app), SENTINEL@, app)
    }
}

/// Puts the application name `app_name` in place of the brand name in
/// `text`, the resolved text of the display key `key`.
pub fn apply_brand(text: String, key: &str, white_label: bool, app_name: &str) -> (r: String)
    ensures
        r@ == branded(text@, key@, white_label, app_name@),
{
    proof {
        reveal_strlit("OneDesk");
        reveal_strlit("#A-P-P-N-A-M-E#");
    }
    if white_label || !contains(text.as_str(), BRAND) || starts_with(key, UPGRADE_NOTICE_PREFIX)
        || key.to_owned() == POWERED_BY_KEY.to_owned() {
        return text;
    }
    if !contains(app_name, BRAND) {
        return replace_all(text.as_str(), BRAND, app_name);
    }
    if contains(text.as_str(), SENTINEL) {
        return text;
    }
    let ghost i = choose|i: int| occurs_at(app_name@, BRAND@, i);
    assert(app_name@.len() > 0);
    let frozen = replace_all(text.as_str(), app_name, SENTINEL);
    let rewritten = replace_all(frozen.as_str(), BRAND, app_name);
    replace_all(rewritten.as_str(), SENTINEL, app_name)
}

/// In white-label mode the text is never rewritten, whatever the
/// application name.
pub proof fn lemma_white_label_keeps_text(text: Seq<char>, key: Seq<char>, app: Seq<char>)
    ensures
        branded(text, key, true, app) == text,
{
}

/// The upgrade notices and the credit line keep the brand name, whatever
/// their text mentions.
pub proof fn lemma_reserved_keys_keep_text(
    text: Seq<char>,
    key: Seq<char>,
    white_label: bool,
    app: Seq<char>,
)
    requires
        has_prefix(key, UPGRADE_NOTICE_PREFIX@) || key == POWERED_BY_KEY@,
    ensures
        branded(text, key, white_label, app) == text,
{
}

} // verus!
