use vstd::prelude::*;

use crate::errors::RelayError;

verus! {

/// Priority tier of a notification, derived from its numeric priority
/// and the two configured thresholds.
#[derive(Clone, Copy, Debug, PartialEq, Eq, Structural)]
pub enum GotifyPriority {
    Low,
    Normal,
    High,
}

/// The tier that a priority value `p` falls in for thresholds
/// `low` and `high`: at most `low` is `Low`, at least `high` is
/// `High`, anything between is `Normal`. Both bounds are inclusive
/// on their own side.
pub open spec fn classify(p: int, low: int, high: int) -> GotifyPriority {
    if p <= low {
        GotifyPriority::Low
    } else if p >= high {
        GotifyPriority::High
    } else {
        GotifyPriority::Normal
    }
}

impl GotifyPriority {
    pub fn from_thresholds(threshold: i32, low: i32, high: i32) -> (r: GotifyPriority)
        ensures
            r == classify(threshold as int, low as int, high as int),
    {
        if threshold <= low {
            GotifyPriority::Low
        } else if threshold >= high {
            GotifyPriority::High
        } else {
            GotifyPriority::Normal
        }
    }
}

/// For valid thresholds the three tiers partition the priority values:
/// `Low` exactly on `p <= low`, `High` exactly on `p >= high`, and
/// `Normal` exactly on the open interval between them.
pub proof fn lemma_classify_partition(p: int, low: int, high: int)
    requires
        low < high,
    ensures
        (classify(p, low, high) == GotifyPriority::Low) <==> (p <= low),
        (classify(p, low, high) == GotifyPriority::High) <==> (p >= high),
        (classify(p, low, high) == GotifyPriority::Normal) <==> (low < p && p < high),
{
}

/// Destination-side settings: where to log in and which room to relay into.
pub struct Matrix {
    pub homeserver: String,
    pub username: String,
    pub password: String,
    pub room_id: String,
    pub session_dir: String,
}

/// Optional per-tier template overrides, one plain and one rich variant.
pub struct GotifyFormat {
    pub plain: Option<String>,
    pub html: Option<String>,
}

/// Source-side settings: upstream address, credentials, delete policy,
/// base templates, thresholds and per-tier template overrides.
pub struct Gotify {
    pub url: String,
    pub token: String,
    pub delete_sent: bool,
    pub plain: String,
    pub html: String,
    pub threshold_low: i32,
    pub threshold_high: i32,
    pub low: GotifyFormat,
    pub normal: GotifyFormat,
    pub high: GotifyFormat,
}

pub struct Config {
    pub matrix: Matrix,
    pub gotify: Gotify,
}

/// Thresholds are valid when they are non-negative and strictly increasing.
pub open spec fn thresholds_valid(low: int, high: int) -> bool {
    low < high && low >= 0 && high >= 0
}

impl Config {
    /// Validates the configured thresholds, failing fast at load time so
    /// that classification never runs with a degenerate tier layout.
    pub fn verify(&mut self) -> (r: Result<(), RelayError>)
        ensures
            *final(self) == *old(self),
            r is Ok <==> thresholds_valid(
                old(self).gotify.threshold_low as int,
                old(self).gotify.threshold_high as int,
            ),
            old(self).gotify.threshold_high <= old(self).gotify.threshold_low ==> r
                == Err::<(), RelayError>(RelayError::ThresholdsNotIncreasing),
            (old(self).gotify.threshold_low < old(self).gotify.threshold_high && (old(
                self,
            ).gotify.threshold_low < 0 || old(self).gotify.threshold_high < 0)) ==> r
                == Err::<(), RelayError>(RelayError::ThresholdsNegative),
    {
        if self.gotify.threshold_high <= self.gotify.threshold_low {
            return Err(RelayError::ThresholdsNotIncreasing);
        }
        if self.gotify.threshold_low < 0 || self.gotify.threshold_high < 0 {
            return Err(RelayError::ThresholdsNegative);
        }
        Ok(())
    }
}

pub fn default_session() -> (r: String)
    ensures
        r@ == "./session"@,
{
    String::from_str("./session")
}

pub fn default_plain() -> (r: String)
    ensures
        r@ == "{{app}}: {{title}}\n{{message}}"@,
{
    String::from_str("{{app}}: {{title}}\n{{message}}")
}

pub fn default_html() -> (r: String)
    ensures
        r@ == "<h4>{{app}}: {{title}}</h4>\n{{message}}"@,
{
    String::from_str("<h4>{{app}}: {{title}}</h4>\n{{message}}")
}

pub fn default_format() -> (r: GotifyFormat)
    ensures
        r.plain is None,
        r.html is None,
{
    GotifyFormat { plain: None, html: None }
}

pub fn default_threshold_low() -> (r: i32)
    ensures
        r == 3,
{
    3
}

pub fn default_threshold_high() -> (r: i32)
    ensures
        r == 8,
{
    8
}

} // verus!
