//! Resolution of display-string keys into localized, placeholder-filled and
//! brand-adjusted text.
//!
//! Catalogs, settings and the application identity are handed in as plain
//! values, so every step of the resolution is a function of its inputs.

pub mod brand;
pub mod catalog;
pub mod locale;
pub mod placeholder;
pub mod text;
pub mod translate;

pub use brand::{apply_brand, BRAND, POWERED_BY_KEY, SENTINEL, UPGRADE_NOTICE_PREFIX};
pub use catalog::{lookup, Catalog, Catalogs, DEFAULT_LANG, FALLBACK_LANG};
pub use locale::{resolve_lang, resolve_locale};
pub use placeholder::extract_placeholder;
pub use text::{contains, replace_all, starts_with};
pub use translate::{translate, translate_locale, translate_with_lang, Settings};
