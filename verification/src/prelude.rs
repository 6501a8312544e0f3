//! The items that most callers need.

pub use crate::args::{ArgValue, MessageArgs};
pub use crate::catalog::{MessageBundle, Rejection, TranslateError, Translation};
pub use crate::config::{I18nConfig, Locale, LocaleResource};
pub use crate::engine::{use_init_i18n, I18n, InitError};
pub use crate::tag::{LanguageTag, TagError};
