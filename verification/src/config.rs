//! What a run is configured with: the date range and the credential.

use crate::target::{Satellite, Target};
use vstd::prelude::*;
use vstd::string::StringExecFns;

verus! {

/// Why a run cannot be configured.
#[derive(Debug, Clone, Copy, PartialEq, Eq, Structural)]
pub enum ConfigError {
    /// No credential for the catalog was provided.
    MissingCredential,
}

impl ConfigError {
    /// The message shown to the user.
    pub fn message(&self) -> (r: String)
        ensures
            r@ == "Provide SATNOGS_API_TOKEN env var"@,
    {
        String::from_str("Provide SATNOGS_API_TOKEN env var")
    }
}

/// The name of the environment variable that holds the credential.
pub fn credential_variable() -> (r: &'static str)
    ensures
        r@ == "SATNOGS_API_TOKEN"@,
{
    "SATNOGS_API_TOKEN"
}

/// The configuration of a run. It is built once and handed to whatever
/// needs it.
#[derive(Debug, PartialEq, Eq)]
pub struct Config {
    /// First day of the date range, as `YYYY-MM-DD`.
    pub start_date: String,
    /// Last day of the date range, as `YYYY-MM-DD`.
    pub end_date: String,
    /// The credential that the catalog asks for.
    pub api_token: String,
}

/// The mathematical value of a [`Config`].
pub struct Settings {
    pub start_date: Seq<char>,
    pub end_date: Seq<char>,
    pub api_token: Seq<char>,
}

impl View for Config {
    type V = Settings;

    open spec fn view(&self) -> Settings {
        Settings {
            start_date: self.start_date@,
            end_date: self.end_date@,
            api_token: self.api_token@,
        }
    }
}

/// The first day of the date range where the user names none.
pub open spec fn default_start_date() -> Seq<char> {
    "2024-08-16"@
}

/// The chosen text, or the fallback where none was chosen.
pub open spec fn chosen_or(chosen: Option<String>, fallback: Seq<char>) -> Seq<char> {
    match chosen {
        Some(text) => text@,
        None => fallback,
    }
}

impl Settings {
    /// The address of the first page of a satellite's observations: those
    /// in the date range whose status is good, as JSON.
    pub open spec fn query_url(self, target: Target) -> Seq<char> {
        "https://network.satnogs.org/api/observations/?"@ + "start="@ + self.start_date + "&end="@
            + self.end_date + "&satellite__norad_cat_id="@ + target.id
            + "&status=good&format=json"@
    }

    /// The value of the `Authorization` header that the catalog expects.
    /// The colon behind `Bearer` is the catalog's convention.
    pub open spec fn authorization(self) -> Seq<char> {
        "Bearer: "@ + self.api_token
    }
}

impl Config {
    /// Configures a run from what the user chose and what the environment
    /// holds. A date that the user did not choose falls back: the start to
    /// [`default_start_date`], the end to `default_end_date`. Without a
    /// credential there is no configuration.
    pub fn new(
        start_date: Option<String>,
        end_date: Option<String>,
        default_end_date: String,
        api_token: Option<String>,
    ) -> (r: Result<Config, ConfigError>)
        ensures
            match r {
                Ok(config) => api_token matches Some(token) && config@ == (Settings {
                    start_date: chosen_or(start_date, default_start_date()),
                    end_date: chosen_or(end_date, default_end_date@),
                    api_token: token@,
                }),
                Err(e) => api_token is None && e == ConfigError::MissingCredential,
            },
    {
        match api_token {
            None => Err(ConfigError::MissingCredential),
            Some(token) => {
                let start = match start_date {
                    Some(date) => date,
                    None => String::from_str("2024-08-16"),
                };
                let end = match end_date {
                    Some(date) => date,
                    None => default_end_date,
                };
                Ok(Config { start_date: start, end_date: end, api_token: token })
            },
        }
    }

    /// The address of the first page of a satellite's observations.
    pub fn query_url(&self, sat: &Satellite) -> (r: String)
        ensures
            r@ == self@.query_url(sat@),
    {
        let mut url = String::from_str("https://network.satnogs.org/api/observations/?");
        url.append("start=");
        url.append(self.start_date.as_str());
        url.append("&end=");
        url.append(self.end_date.as_str());
        url.append("&satellite__norad_cat_id=");
        url.append(sat.id);
        url.append("&status=good&format=json");
        url
    }

    /// The value of the `Authorization` header that the catalog expects.
    pub fn authorization(&self) -> (r: String)
        ensures
            r@ == self@.authorization(),
    {
        String::from_str("Bearer: ").concat(self.api_token.as_str())
    }
}

} // verus!
