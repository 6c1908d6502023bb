//! Typed coercion of field values: URL parsing through the `url` crate and
//! calendar-date parsing through the `chrono` crate. Whether a given string
//! parses depends on the string alone, so each outcome is named by an
//! uninterpreted predicate, and every contract upstream is exact over it.

use vstd::prelude::*;

use crate::document::spec_get;
use crate::{OsRelease, OsReleaseEntry};

verus! {

/// Declares url::Url, a parsed absolute URL, carried through opaquely.
#[verifier::external_type_specification]
#[verifier::external_body]
pub struct ExUrl(url::Url);

/// Declares url::ParseError, the error of url::Url::parse.
#[verifier::external_type_specification]
#[verifier::external_body]
pub struct ExUrlParseError(url::ParseError);

/// Declares chrono::NaiveDate, a calendar date, carried through opaquely.
#[verifier::external_type_specification]
#[verifier::external_body]
pub struct ExNaiveDate(chrono::NaiveDate);

/// Declares chrono::ParseError, the error of chrono's string parsing.
#[verifier::external_type_specification]
#[verifier::external_body]
pub struct ExChronoParseError(chrono::ParseError);

/// Whether a string parses as an absolute URL.
pub uninterp spec fn url_ok(s: Seq<char>) -> bool;

/// Whether a string parses as a calendar date under a format string.
pub uninterp spec fn date_ok(s: Seq<char>, fmt: Seq<char>) -> bool;

/// Relies on url::Url::parse: parsing is a function of the input string
/// alone, and fails exactly when the input is no absolute URL.
#[verifier::external_body]
fn url_parse(s: &str) -> (r: Result<url::Url, url::ParseError>)
    ensures
        r is Ok <==> url_ok(s@),
{
    url::Url::parse(s)
}

/// Relies on chrono::NaiveDate::parse_from_str: parsing is a function of the
/// input and format strings alone, and fails exactly when the input does not
/// match the format as a consistent date.
#[verifier::external_body]
fn date_parse(s: &str, fmt: &str) -> (r: Result<chrono::NaiveDate, chrono::ParseError>)
    ensures
        r is Ok <==> date_ok(s@, fmt@),
{
    chrono::NaiveDate::parse_from_str(s, fmt)
}

/// A present field value that fails to parse under the type asked of it.
#[derive(Debug, Clone, Copy, PartialEq, Eq, Structural)]
pub enum CoercionError {
    /// The value is no absolute URL.
    InvalidUrl,
    /// The value is no calendar date in the expected format.
    InvalidDate,
}

impl OsReleaseEntry {
    /// Returns the value of the entry as a URL.
    pub fn value_as_url(&self) -> (r: Result<url::Url, CoercionError>)
        ensures
            r is Ok <==> url_ok(self@.1),
            r is Err ==> r == Err::<url::Url, CoercionError>(CoercionError::InvalidUrl),
    {
        match url_parse(self.value()) {
            Ok(u) => Ok(u),
            Err(_) => Err(CoercionError::InvalidUrl),
        }
    }

    /// Returns the value of the entry as a calendar date in the format
    /// `YYYY-MM-DD`.
    pub fn value_as_date(&self) -> (r: Result<chrono::NaiveDate, CoercionError>)
        ensures
            r is Ok <==> date_ok(self@.1, "%Y-%m-%d"@),
            r is Err ==> r == Err::<chrono::NaiveDate, CoercionError>(CoercionError::InvalidDate),
    {
        match date_parse(self.value(), "%Y-%m-%d") {
            Ok(d) => Ok(d),
            Err(_) => Err(CoercionError::InvalidDate),
        }
    }
}

impl OsRelease {
    /// Returns the value of a field in the os-release as a URL: absent if the
    /// key is missing, an error if the value is present and malformed.
    pub fn get_value_as_url(&self, key: &str) -> (r: Result<Option<url::Url>, CoercionError>)
        ensures
            match spec_get(self@, key@) {
                None => r == Ok::<Option<url::Url>, CoercionError>(None),
                Some(v) => if url_ok(v) {
                    r matches Ok(u) && u is Some
                } else {
                    r == Err::<Option<url::Url>, CoercionError>(CoercionError::InvalidUrl)
                },
            },
    {
        match self.get_value(key) {
            None => Ok(None),
            Some(v) => match url_parse(v) {
                Ok(u) => Ok(Some(u)),
                Err(_) => Err(CoercionError::InvalidUrl),
            },
        }
    }

    /// Returns the value of a field in the os-release as a calendar date in
    /// the format `YYYY-MM-DD`: absent if the key is missing, an error if the
    /// value is present and malformed.
    pub fn get_value_as_date(&self, key: &str) -> (r: Result<
        Option<chrono::NaiveDate>,
        CoercionError,
    >)
        ensures
            match spec_get(self@, key@) {
                None => r == Ok::<Option<chrono::NaiveDate>, CoercionError>(None),
                Some(v) => if date_ok(v, "%Y-%m-%d"@) {
                    r matches Ok(d) && d is Some
                } else {
                    r == Err::<Option<chrono::NaiveDate>, CoercionError>(
                        CoercionError::InvalidDate,
                    )
                },
            },
    {
        match self.get_value(key) {
            None => Ok(None),
            Some(v) => match date_parse(v, "%Y-%m-%d") {
                Ok(d) => Ok(Some(d)),
                Err(_) => Err(CoercionError::InvalidDate),
            },
        }
    }

    /// Returns the URL of the homepage of the operating system.
    pub fn home_url(&self) -> (r: Result<Option<url::Url>, CoercionError>)
        ensures
            match spec_get(self@, "HOME_URL"@) {
                None => r == Ok::<Option<url::Url>, CoercionError>(None),
                Some(v) => if url_ok(v) {
                    r matches Ok(u) && u is Some
                } else {
                    r == Err::<Option<url::Url>, CoercionError>(CoercionError::InvalidUrl)
                },
            },
    {
        self.get_value_as_url("HOME_URL")
    }

    /// Returns the URL of the main documentation page of the operating
    /// system.
    pub fn documentation_url(&self) -> (r: Result<Option<url::Url>, CoercionError>)
        ensures
            match spec_get(self@, "DOCUMENTATION_URL"@) {
                None => r == Ok::<Option<url::Url>, CoercionError>(None),
                Some(v) => if url_ok(v) {
                    r matches Ok(u) && u is Some
                } else {
                    r == Err::<Option<url::Url>, CoercionError>(CoercionError::InvalidUrl)
                },
            },
    {
        self.get_value_as_url("DOCUMENTATION_URL")
    }

    /// Returns the URL of the main support page for the operating system.
    pub fn support_url(&self) -> (r: Result<Option<url::Url>, CoercionError>)
        ensures
            match spec_get(self@, "SUPPORT_URL"@) {
                None => r == Ok::<Option<url::Url>, CoercionError>(None),
                Some(v) => if url_ok(v) {
                    r matches Ok(u) && u is Some
                } else {
                    r == Err::<Option<url::Url>, CoercionError>(CoercionError::InvalidUrl)
                },
            },
    {
        self.get_value_as_url("SUPPORT_URL")
    }

    /// Returns the URL of the main bug reporting page for the operating
    /// system.
    pub fn bug_report_url(&self) -> (r: Result<Option<url::Url>, CoercionError>)
        ensures
            match spec_get(self@, "BUG_REPORT_URL"@) {
                None => r == Ok::<Option<url::Url>, CoercionError>(None),
                Some(v) => if url_ok(v) {
                    r matches Ok(u) && u is Some
                } else {
                    r == Err::<Option<url::Url>, CoercionError>(CoercionError::InvalidUrl)
                },
            },
    {
        self.get_value_as_url("BUG_REPORT_URL")
    }

    /// Returns the URL of the main privacy policy page for the operating
    /// system.
    pub fn privacy_policy_url(&self) -> (r: Result<Option<url::Url>, CoercionError>)
        ensures
            match spec_get(self@, "PRIVACY_POLICY_URL"@) {
                None => r == Ok::<Option<url::Url>, CoercionError>(None),
                Some(v) => if url_ok(v) {
                    r matches Ok(u) && u is Some
                } else {
                    r == Err::<Option<url::Url>, CoercionError>(CoercionError::InvalidUrl)
                },
            },
    {
        self.get_value_as_url("PRIVACY_POLICY_URL")
    }

    /// Returns the homepage of the OS vendor.
    pub fn vendor_url(&self) -> (r: Result<Option<url::Url>, CoercionError>)
        ensures
            match spec_get(self@, "VENDOR_URL"@) {
                None => r == Ok::<Option<url::Url>, CoercionError>(None),
                Some(v) => if url_ok(v) {
                    r matches Ok(u) && u is Some
                } else {
                    r == Err::<Option<url::Url>, CoercionError>(CoercionError::InvalidUrl)
                },
            },
    {
        self.get_value_as_url("VENDOR_URL")
    }

    /// Returns the date at which support for this version of the operating
    /// system ends.
    pub fn support_end(&self) -> (r: Result<Option<chrono::NaiveDate>, CoercionError>)
        ensures
            match spec_get(self@, "SUPPORT_END"@) {
                None => r == Ok::<Option<chrono::NaiveDate>, CoercionError>(None),
                Some(v) => if date_ok(v, "%Y-%m-%d"@) {
                    r matches Ok(d) && d is Some
                } else {
                    r == Err::<Option<chrono::NaiveDate>, CoercionError>(
                        CoercionError::InvalidDate,
                    )
                },
            },
    {
        self.get_value_as_date("SUPPORT_END")
    }
}

} // verus!
