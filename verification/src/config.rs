//! The provider configuration: which adapter answers, with which template or
//! key, and whether an operator confirms each result.

use crate::json::{
    child_of, flag_of, json_of, json_parse, missing, number_of, parse_document, text_of, Json,
};
use crate::record::{slice_view, text_view};
use crate::text::{chars_of, contains, occurs, same_text};
use vstd::prelude::*;

verus! {

/// The provider variants.
#[derive(Clone, Copy, Debug, PartialEq, Eq, Structural)]
pub enum ProviderKind {
    /// A URL template of the user's own, answered in Google's shape.
    Custom,
    Google,
    Goong,
}

/// The opacity of the window where none is configured: 0.8, as float bits.
pub const DEFAULT_OPACITY: u64 = 0x3FE9_9999_9999_999A;

/// The active configuration.
#[derive(Debug, PartialEq)]
pub struct ApiConfig {
    pub provider: ProviderKind,
    /// The template of the custom provider; empty where none is set.
    pub custom_url: String,
    pub google_api_key: String,
    pub goong_api_key: String,
    /// Whether each result waits for the operator's decision.
    pub confirm_results: bool,
    /// The window's opacity, as the bit pattern of a 64-bit float. The broker
    /// carries it and never reads it.
    pub opacity: u64,
}

/// What an [`ApiConfig`] holds.
pub struct ConfigView {
    pub provider: ProviderKind,
    pub custom_url: Seq<char>,
    pub google_api_key: Seq<char>,
    pub goong_api_key: Seq<char>,
    pub confirm_results: bool,
    pub opacity: u64,
}

impl View for ApiConfig {
    type V = ConfigView;

    open spec fn view(&self) -> ConfigView {
        ConfigView {
            provider: self.provider,
            custom_url: self.custom_url@,
            google_api_key: self.google_api_key@,
            goong_api_key: self.goong_api_key@,
            confirm_results: self.confirm_results,
            opacity: self.opacity,
        }
    }
}

impl ConfigView {
    /// The configuration of a fresh installation: the custom provider without
    /// a template, no keys, no confirmation.
    pub open spec fn initial() -> ConfigView {
        ConfigView {
            provider: ProviderKind::Custom,
            custom_url: Seq::empty(),
            google_api_key: Seq::empty(),
            goong_api_key: Seq::empty(),
            confirm_results: false,
            opacity: DEFAULT_OPACITY,
        }
    }
}

impl Clone for ApiConfig {
    fn clone(&self) -> (r: Self)
        ensures
            r == *self,
    {
        ApiConfig {
            provider: self.provider,
            custom_url: self.custom_url.clone(),
            google_api_key: self.google_api_key.clone(),
            goong_api_key: self.goong_api_key.clone(),
            confirm_results: self.confirm_results,
            opacity: self.opacity,
        }
    }
}

impl Default for ApiConfig {
    fn default() -> (r: Self)
        ensures
            r@ == ConfigView::initial(),
    {
        ApiConfig {
            provider: ProviderKind::Custom,
            custom_url: String::new(),
            google_api_key: String::new(),
            goong_api_key: String::new(),
            confirm_results: false,
            opacity: DEFAULT_OPACITY,
        }
    }
}

/// The provider that a tag names.
pub open spec fn provider_of_tag(tag: Seq<char>) -> Option<ProviderKind> {
    if tag == "custom"@ {
        Some(ProviderKind::Custom)
    } else if tag == "google"@ {
        Some(ProviderKind::Google)
    } else if tag == "goong"@ {
        Some(ProviderKind::Goong)
    } else {
        None
    }
}

impl ProviderKind {
    /// The tag of this provider in a configuration document.
    pub open spec fn tag_text(self) -> Seq<char> {
        match self {
            ProviderKind::Custom => "custom"@,
            ProviderKind::Google => "google"@,
            ProviderKind::Goong => "goong"@,
        }
    }

    /// The tag of this provider in a configuration document.
    pub fn tag(self) -> (r: &'static str)
        ensures
            r@ == self.tag_text(),
    {
        match self {
            ProviderKind::Custom => "custom",
            ProviderKind::Google => "google",
            ProviderKind::Goong => "goong",
        }
    }

    /// The provider that a tag names; `None` for an unknown tag.
    pub fn from_tag(tag: &str) -> (r: Option<ProviderKind>)
        ensures
            r == provider_of_tag(tag@),
    {
        if same_text(tag, "custom") {
            Some(ProviderKind::Custom)
        } else if same_text(tag, "google") {
            Some(ProviderKind::Google)
        } else if same_text(tag, "goong") {
            Some(ProviderKind::Goong)
        } else {
            None
        }
    }
}

/// Each provider is the one that its own tag names.
pub proof fn lemma_tag_round_trip(kind: ProviderKind)
    ensures
        provider_of_tag(kind.tag_text()) == Some(kind),
{
    reveal_strlit("custom");
    reveal_strlit("google");
    reveal_strlit("goong");
    assert("custom"@[0] != "google"@[0]);
    assert("custom"@.len() != "goong"@.len());
    assert("google"@.len() != "goong"@.len());
}

/// Why a configuration is refused.
#[derive(Clone, Copy, Debug, PartialEq, Eq, Structural)]
pub enum ConfigError {
    /// The custom template has no `{lat}`.
    LatitudePlaceholderMissing,
    /// The custom template has neither `{lng}` nor `{long}`.
    LongitudePlaceholderMissing,
}

/// The fault of a configuration, if it has one. Only a custom template that
/// is set is held to anything: it must name the latitude and the longitude.
pub open spec fn config_fault(config: ConfigView) -> Option<ConfigError> {
    if config.provider != ProviderKind::Custom || config.custom_url.len() == 0 {
        None
    } else if !occurs(config.custom_url, "{lat}"@) {
        Some(ConfigError::LatitudePlaceholderMissing)
    } else if !occurs(config.custom_url, "{lng}"@) && !occurs(config.custom_url, "{long}"@) {
        Some(ConfigError::LongitudePlaceholderMissing)
    } else {
        None
    }
}

/// Checks a configuration before it becomes the active one.
pub fn validate(config: &ApiConfig) -> (r: Result<(), ConfigError>)
    ensures
        r == match config_fault(config@) {
            Some(fault) => Err::<(), ConfigError>(fault),
            None => Ok(()),
        },
{
    match config.provider {
        ProviderKind::Custom => {},
        _ => {
            return Ok(());
        },
    }
    let template = chars_of(config.custom_url.as_str());
    if template.len() == 0 {
        return Ok(());
    }
    if !contains(&template, &chars_of("{lat}")) {
        return Err(ConfigError::LatitudePlaceholderMissing);
    }
    if !contains(&template, &chars_of("{lng}")) && !contains(&template, &chars_of("{long}")) {
        return Err(ConfigError::LongitudePlaceholderMissing);
    }
    Ok(())
}

/// The text under an optional member: empty where the member is missing or
/// null, `None` where it is anything but a string.
pub open spec fn optional_text(member: Json) -> Option<Seq<char>> {
    match member {
        Json::Null => Some(Seq::empty()),
        Json::Text(t) => Some(t),
        _ => None,
    }
}

/// The provider under an optional member: the custom one where the member is
/// missing or null, `None` where it is no known tag.
pub open spec fn optional_provider(member: Json) -> Option<ProviderKind> {
    match member {
        Json::Null => Some(ProviderKind::Custom),
        Json::Text(t) => provider_of_tag(t),
        _ => None,
    }
}

/// The flag under an optional member: off where the member is missing or
/// null, `None` where it is anything but a boolean.
pub open spec fn optional_flag(member: Json) -> Option<bool> {
    match member {
        Json::Null => Some(false),
        Json::Bool(b) => Some(b),
        _ => None,
    }
}

/// The configuration that a document holds, or `None` where the document is
/// corrupt: `custom_url` and `opacity` must be there, as a string and a
/// number; `provider`, the two keys and `confirm_results` may be missing, but
/// not of the wrong type.
pub open spec fn config_of_document(doc: Json) -> Option<ConfigView> {
    let url = doc.field("custom_url"@).text();
    let opacity = doc.field("opacity"@).number();
    let provider = optional_provider(doc.field("provider"@));
    let google = optional_text(doc.field("google_api_key"@));
    let goong = optional_text(doc.field("goong_api_key"@));
    let confirm = optional_flag(doc.field("confirm_results"@));
    if url is Some && opacity is Some && provider is Some && google is Some && goong is Some
        && confirm is Some {
        Some(
            ConfigView {
                provider: provider->0,
                custom_url: url->0,
                google_api_key: google->0,
                goong_api_key: goong->0,
                confirm_results: confirm->0,
                opacity: opacity->0,
            },
        )
    } else {
        None
    }
}

/// The view of a configuration that may be missing.
pub open spec fn config_view(c: Option<ApiConfig>) -> Option<ConfigView> {
    match c {
        Some(c) => Some(c@),
        None => None,
    }
}

/// Reads an optional string member; see [`optional_text`].
fn read_optional_text(doc: &serde_json::Value, key: &str) -> (r: Option<String>)
    ensures
        text_view(r) == optional_text(json_of(*doc).field(key@)),
{
    let m = child_of(Some(doc), key);
    if missing(m) {
        Some(String::new())
    } else {
        text_of(m)
    }
}

/// Reads the configuration out of a parsed document; see
/// [`config_of_document`].
pub fn config_from_value(doc: &serde_json::Value) -> (r: Option<ApiConfig>)
    ensures
        config_view(r) == config_of_document(json_of(*doc)),
{
    let root = Some(doc);
    let custom_url = match text_of(child_of(root, "custom_url")) {
        Some(t) => t,
        None => {
            return None;
        },
    };
    let opacity = match number_of(child_of(root, "opacity")) {
        Some(bits) => bits,
        None => {
            return None;
        },
    };
    let tag = child_of(root, "provider");
    let provider = if missing(tag) {
        ProviderKind::Custom
    } else {
        match text_of(tag) {
            Some(t) => match ProviderKind::from_tag(t.as_str()) {
                Some(kind) => kind,
                None => {
                    return None;
                },
            },
            None => {
                return None;
            },
        }
    };
    let google_api_key = match read_optional_text(doc, "google_api_key") {
        Some(t) => t,
        None => {
            return None;
        },
    };
    let goong_api_key = match read_optional_text(doc, "goong_api_key") {
        Some(t) => t,
        None => {
            return None;
        },
    };
    let flag = child_of(root, "confirm_results");
    let confirm_results = if missing(flag) {
        false
    } else {
        match flag_of(flag) {
            Some(b) => b,
            None => {
                return None;
            },
        }
    };
    Some(ApiConfig { provider, custom_url, google_api_key, goong_api_key, confirm_results, opacity })
}

/// The configuration to start with, given what the configuration file held:
/// `None` where there was no file or it could not be read. A file that is no
/// JSON, or holds no configuration, counts as corrupt; a missing or corrupt
/// file gives the initial configuration.
pub open spec fn loaded_config(content: Option<Seq<char>>) -> ConfigView {
    match content {
        Some(text) => match json_parse(text) {
            Some(doc) => match config_of_document(doc) {
                Some(config) => config,
                None => ConfigView::initial(),
            },
            None => ConfigView::initial(),
        },
        None => ConfigView::initial(),
    }
}

/// Chooses the configuration to start with; see [`loaded_config`]. Never
/// fails.
pub fn load_config_from(content: Option<&str>) -> (r: ApiConfig)
    ensures
        r@ == loaded_config(slice_view(content)),
{
    match content {
        Some(text) => match parse_document(text) {
            Ok(doc) => match config_from_value(&doc) {
                Some(config) => config,
                None => ApiConfig::default(),
            },
            Err(_) => ApiConfig::default(),
        },
        None => ApiConfig::default(),
    }
}

} // verus!
