//! The credentials of the two collectors: where they come from and which values
//! are accepted.

use crate::error::{TelemetryError, TelemetryErrorView, TelemetryResult};
use crate::text::{all_whitespace, contains, has_infix, has_prefix, is_blank, starts_with};
use crate::utils::Environment;
use vstd::prelude::*;

verus! {

/// The environment variable that holds the analytics key.
pub const POSTHOG_KEY_VARIABLE: &'static str = "ANVIL_POSTHOG_KEY";

/// The environment variable that holds the error-reporting DSN.
pub const SENTRY_DSN_VARIABLE: &'static str = "ANVIL_SENTRY_DSN";

/// The credentials, each present or absent.
#[derive(Debug)]
pub struct TelemetryKeys {
    pub posthog_key: Option<String>,
    pub sentry_dsn: Option<String>,
}

/// The credentials as mathematical values.
pub struct TelemetryKeysView {
    pub posthog_key: Option<Seq<char>>,
    pub sentry_dsn: Option<Seq<char>>,
}

/// An optional text as an optional sequence of characters.
pub open spec fn text_of(value: Option<String>) -> Option<Seq<char>> {
    match value {
        Some(text) => Some(text@),
        None => None,
    }
}

/// The same for a borrowed text.
pub open spec fn str_of(value: Option<&str>) -> Option<Seq<char>> {
    match value {
        Some(text) => Some(text@),
        None => None,
    }
}

impl View for TelemetryKeys {
    type V = TelemetryKeysView;

    open spec fn view(&self) -> TelemetryKeysView {
        TelemetryKeysView {
            posthog_key: text_of(self.posthog_key),
            sentry_dsn: text_of(self.sentry_dsn),
        }
    }
}

/// An analytics key is well formed when it begins with `phc_`.
pub open spec fn valid_posthog_key(key: Seq<char>) -> bool {
    has_prefix(key, "phc_"@)
}

/// An error-reporting DSN is well formed when it begins with `http` and holds
/// `@sentry.io`.
pub open spec fn valid_sentry_dsn(dsn: Seq<char>) -> bool {
    has_prefix(dsn, "http"@) && has_infix(dsn, "@sentry.io"@)
}

/// The error that an ill-formed analytics key is rejected with.
pub open spec fn posthog_key_rejected() -> TelemetryErrorView {
    TelemetryErrorView::ConfigError("Invalid PostHog key format. Must start with 'phc_'"@)
}

/// The error that an ill-formed error-reporting DSN is rejected with.
pub open spec fn sentry_dsn_rejected() -> TelemetryErrorView {
    TelemetryErrorView::ConfigError("Invalid Sentry DSN format"@)
}

/// What the value of the key variable yields: nothing when the variable is unset or
/// blank, the key when it is well formed, else the rejection.
pub open spec fn posthog_key_from(value: Option<Seq<char>>) -> Result<
    Option<Seq<char>>,
    TelemetryErrorView,
> {
    match value {
        None => Ok(None),
        Some(text) => if all_whitespace(text) {
            Ok(None)
        } else if valid_posthog_key(text) {
            Ok(Some(text))
        } else {
            Err(posthog_key_rejected())
        },
    }
}

/// What the value of the DSN variable yields, in the same way.
pub open spec fn sentry_dsn_from(value: Option<Seq<char>>) -> Result<
    Option<Seq<char>>,
    TelemetryErrorView,
> {
    match value {
        None => Ok(None),
        Some(text) => if all_whitespace(text) {
            Ok(None)
        } else if valid_sentry_dsn(text) {
            Ok(Some(text))
        } else {
            Err(sentry_dsn_rejected())
        },
    }
}

/// The credentials that two readings yield together: the first rejection, if any,
/// else both values.
pub open spec fn keys_from(
    posthog: Result<Option<Seq<char>>, TelemetryErrorView>,
    sentry: Result<Option<Seq<char>>, TelemetryErrorView>,
) -> Result<TelemetryKeysView, TelemetryErrorView> {
    match posthog {
        Err(error) => Err(error),
        Ok(posthog_key) => match sentry {
            Err(error) => Err(error),
            Ok(sentry_dsn) => Ok(TelemetryKeysView { posthog_key, sentry_dsn }),
        },
    }
}

/// What values given by the caller yield: each one that is present must be well
/// formed, the key being looked at first.
pub open spec fn explicit_keys(
    posthog_key: Option<Seq<char>>,
    sentry_dsn: Option<Seq<char>>,
) -> Result<TelemetryKeysView, TelemetryErrorView> {
    if posthog_key matches Some(key) && !valid_posthog_key(key) {
        Err(posthog_key_rejected())
    } else if sentry_dsn matches Some(dsn) && !valid_sentry_dsn(dsn) {
        Err(sentry_dsn_rejected())
    } else {
        Ok(TelemetryKeysView { posthog_key, sentry_dsn })
    }
}

/// Decides whether an analytics key is well formed.
pub fn is_posthog_key(key: &str) -> (valid: bool)
    ensures
        valid == valid_posthog_key(key@),
{
    starts_with(key, "phc_")
}

/// Decides whether an error-reporting DSN is well formed.
pub fn is_sentry_dsn(dsn: &str) -> (valid: bool)
    ensures
        valid == valid_sentry_dsn(dsn@),
{
    starts_with(dsn, "http") && contains(dsn, "@sentry.io")
}

fn reject_posthog_key() -> (error: TelemetryError)
    ensures
        error@ == posthog_key_rejected(),
{
    TelemetryError::ConfigError(
        String::from_str("Invalid PostHog key format. Must start with 'phc_'"),
    )
}

fn reject_sentry_dsn() -> (error: TelemetryError)
    ensures
        error@ == sentry_dsn_rejected(),
{
    TelemetryError::ConfigError(String::from_str("Invalid Sentry DSN format"))
}

impl Clone for TelemetryKeys {
    fn clone(&self) -> (copy: TelemetryKeys)
        ensures
            copy == *self,
    {
        let posthog_key = match &self.posthog_key {
            Some(key) => Some(key.clone()),
            None => None,
        };
        let sentry_dsn = match &self.sentry_dsn {
            Some(dsn) => Some(dsn.clone()),
            None => None,
        };
        TelemetryKeys { posthog_key, sentry_dsn }
    }
}

impl TelemetryKeys {
    /// Reads both credentials from the environment.
    pub fn new(environment: &Environment) -> (keys: TelemetryResult<TelemetryKeys>)
        ensures
            match keys_from(
                posthog_key_from(environment.value_of(POSTHOG_KEY_VARIABLE@)),
                sentry_dsn_from(environment.value_of(SENTRY_DSN_VARIABLE@)),
            ) {
                Ok(expected) => keys matches Ok(found) && found@ == expected,
                Err(expected) => keys matches Err(error) && error@ == expected,
            },
    {
        let posthog_key = match Self::get_posthog_key(environment.variable(POSTHOG_KEY_VARIABLE)) {
            Ok(key) => key,
            Err(error) => {
                return Err(error);
            },
        };
        let sentry_dsn = match Self::get_sentry_dsn(environment.variable(SENTRY_DSN_VARIABLE)) {
            Ok(dsn) => dsn,
            Err(error) => {
                return Err(error);
            },
        };
        Ok(TelemetryKeys { posthog_key, sentry_dsn })
    }

    /// The analytics key that the value of its variable yields.
    pub fn get_posthog_key(value: Option<&str>) -> (key: TelemetryResult<Option<String>>)
        ensures
            match posthog_key_from(str_of(value)) {
                Ok(expected) => key matches Ok(found) && text_of(found) == expected,
                Err(expected) => key matches Err(error) && error@ == expected,
            },
    {
        match value {
            None => Ok(None),
            Some(text) => {
                if is_blank(text) {
                    Ok(None)
                } else if is_posthog_key(text) {
                    Ok(Some(String::from_str(text)))
                } else {
                    Err(reject_posthog_key())
                }
            },
        }
    }

    /// The error-reporting DSN that the value of its variable yields.
    pub fn get_sentry_dsn(value: Option<&str>) -> (dsn: TelemetryResult<Option<String>>)
        ensures
            match sentry_dsn_from(str_of(value)) {
                Ok(expected) => dsn matches Ok(found) && text_of(found) == expected,
                Err(expected) => dsn matches Err(error) && error@ == expected,
            },
    {
        match value {
            None => Ok(None),
            Some(text) => {
                if is_blank(text) {
                    Ok(None)
                } else if is_sentry_dsn(text) {
                    Ok(Some(String::from_str(text)))
                } else {
                    Err(reject_sentry_dsn())
                }
            },
        }
    }

    /// Takes both credentials from the caller.
    pub fn with_keys(posthog_key: Option<String>, sentry_dsn: Option<String>) -> (keys:
        TelemetryResult<TelemetryKeys>)
        ensures
            match explicit_keys(text_of(posthog_key), text_of(sentry_dsn)) {
                Ok(expected) => keys matches Ok(found) && found@ == expected,
                Err(expected) => keys matches Err(error) && error@ == expected,
            },
            keys matches Ok(found) ==> found.posthog_key == posthog_key && found.sentry_dsn
                == sentry_dsn,
    {
        if let Some(key) = &posthog_key {
            if !is_posthog_key(key.as_str()) {
                return Err(reject_posthog_key());
            }
        }
        if let Some(dsn) = &sentry_dsn {
            if !is_sentry_dsn(dsn.as_str()) {
                return Err(reject_sentry_dsn());
            }
        }
        Ok(TelemetryKeys { posthog_key, sentry_dsn })
    }
}

/// Values from the environment and values from the caller are judged alike: two
/// values that are not blank yield from the environment what they yield when the
/// caller gives them.
pub proof fn lemma_same_validation(posthog_key: Seq<char>, sentry_dsn: Seq<char>)
    requires
        !all_whitespace(posthog_key),
        !all_whitespace(sentry_dsn),
    ensures
        keys_from(posthog_key_from(Some(posthog_key)), sentry_dsn_from(Some(sentry_dsn)))
            == explicit_keys(Some(posthog_key), Some(sentry_dsn)),
{
}

/// A key that is accepted is well formed, wherever it comes from, and so is a DSN.
pub proof fn lemma_accepted_keys_are_well_formed(
    posthog_key: Option<Seq<char>>,
    sentry_dsn: Option<Seq<char>>,
)
    ensures
        posthog_key_from(posthog_key) matches Ok(Some(key)) ==> valid_posthog_key(key),
        sentry_dsn_from(sentry_dsn) matches Ok(Some(dsn)) ==> valid_sentry_dsn(dsn),
        explicit_keys(posthog_key, sentry_dsn) matches Ok(keys) ==> {
            &&& keys.posthog_key matches Some(key) ==> valid_posthog_key(key)
            &&& keys.sentry_dsn matches Some(dsn) ==> valid_sentry_dsn(dsn)
        },
{
}

} // verus!
