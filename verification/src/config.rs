//! The pipeline's configuration: URLs, the CSV-link selector and the
//! site-code patterns.
//!
//! All six options are required; a missing key or a pattern that does not
//! compile is a fatal configuration error at construction, not at first
//! use. The keys match the configuration mapping the pipeline has always
//! been driven by.

use vstd::prelude::*;
use crate::error::PipelineError;
use crate::page::{selector_compiles, selector_ok};
use crate::pattern::{regex_compiles, regex_ok};
use crate::record::{field_lookup, lookup_field};

verus! {

/// A validated configuration: every option present, every pattern
/// compiled at least once.
#[derive(Debug)]
pub struct Config {
    /// The base URL of the site.
    pub domain: String,
    /// The path and query string of the bulk listing page.
    pub metadata_query: String,
    /// The path template of a station's page, taking the station
    /// identifier as a suffix.
    pub site_info_urn: String,
    /// The selector identifying the bulk CSV download anchor.
    pub csv_link_selector: String,
    /// The pattern identifying anchors that carry a site code.
    pub site_id_marker: String,
    /// The pattern extracting the trailing site-code token.
    pub site_id_token: String,
}

/// What a validated configuration promises: each field is the value of
/// its key in the pair sequence, and the patterns compile.
pub open spec fn config_valid(p: Seq<(Seq<char>, Seq<char>)>, c: Config) -> bool {
    &&& field_lookup(p, "Domain"@) == Some(c.domain@)
    &&& field_lookup(p, "Site Info URN"@) == Some(c.site_info_urn@)
    &&& field_lookup(p, "Regex CSV Link"@) == Some(c.csv_link_selector@)
    &&& field_lookup(p, "Regex Site ID Link"@) == Some(c.site_id_marker@)
    &&& field_lookup(p, "Regex Site ID Code"@) == Some(c.site_id_token@)
    &&& field_lookup(p, "Metadata Query"@) == Some(c.metadata_query@)
    &&& regex_ok(c.site_id_marker@)
    &&& regex_ok(c.site_id_token@)
    &&& selector_ok(c.csv_link_selector@)
}

/// Which configuration failure a pair sequence yields: the first missing
/// key, in lookup order, else the first pattern that does not compile.
pub open spec fn config_failure(p: Seq<(Seq<char>, Seq<char>)>, e: PipelineError) -> bool {
    match e {
        PipelineError::MissingKey(k) => {
            ||| (k@ == "Domain"@ && field_lookup(p, "Domain"@) is None)
            ||| (k@ == "Site Info URN"@ && field_lookup(p, "Domain"@) is Some && field_lookup(
                p,
                "Site Info URN"@,
            ) is None)
            ||| (k@ == "Regex CSV Link"@ && field_lookup(p, "Domain"@) is Some && field_lookup(
                p,
                "Site Info URN"@,
            ) is Some && field_lookup(p, "Regex CSV Link"@) is None)
            ||| (k@ == "Regex Site ID Link"@ && field_lookup(p, "Domain"@) is Some && field_lookup(
                p,
                "Site Info URN"@,
            ) is Some && field_lookup(p, "Regex CSV Link"@) is Some && field_lookup(
                p,
                "Regex Site ID Link"@,
            ) is None)
            ||| (k@ == "Regex Site ID Code"@ && field_lookup(p, "Domain"@) is Some && field_lookup(
                p,
                "Site Info URN"@,
            ) is Some && field_lookup(p, "Regex CSV Link"@) is Some && field_lookup(
                p,
                "Regex Site ID Link"@,
            ) is Some && field_lookup(p, "Regex Site ID Code"@) is None)
            ||| (k@ == "Metadata Query"@ && field_lookup(p, "Domain"@) is Some && field_lookup(
                p,
                "Site Info URN"@,
            ) is Some && field_lookup(p, "Regex CSV Link"@) is Some && field_lookup(
                p,
                "Regex Site ID Link"@,
            ) is Some && field_lookup(p, "Regex Site ID Code"@) is Some && field_lookup(
                p,
                "Metadata Query"@,
            ) is None)
        },
        PipelineError::BadPattern(pat) => {
            &&& field_lookup(p, "Domain"@) is Some
            &&& field_lookup(p, "Site Info URN"@) is Some
            &&& field_lookup(p, "Regex CSV Link"@) is Some
            &&& field_lookup(p, "Regex Site ID Link"@) is Some
            &&& field_lookup(p, "Regex Site ID Code"@) is Some
            &&& field_lookup(p, "Metadata Query"@) is Some
            &&& {
                ||| (pat@ == field_lookup(p, "Regex Site ID Link"@).unwrap() && !regex_ok(pat@))
                ||| (regex_ok(field_lookup(p, "Regex Site ID Link"@).unwrap()) && pat@
                    == field_lookup(p, "Regex Site ID Code"@).unwrap() && !regex_ok(pat@))
            }
        },
        PipelineError::BadSelector(s) => {
            &&& field_lookup(p, "Domain"@) is Some
            &&& field_lookup(p, "Site Info URN"@) is Some
            &&& field_lookup(p, "Regex CSV Link"@) is Some
            &&& field_lookup(p, "Regex Site ID Link"@) is Some
            &&& field_lookup(p, "Regex Site ID Code"@) is Some
            &&& field_lookup(p, "Metadata Query"@) is Some
            &&& regex_ok(field_lookup(p, "Regex Site ID Link"@).unwrap())
            &&& regex_ok(field_lookup(p, "Regex Site ID Code"@).unwrap())
            &&& s@ == field_lookup(p, "Regex CSV Link"@).unwrap()
            &&& !selector_ok(s@)
        },
        _ => false,
    }
}

impl Config {
    /// Validates a configuration given as (key, value) pairs: looks the
    /// six required options up, then compiles the two patterns and the
    /// selector, failing on the first option that is absent or does not
    /// compile.
    pub fn from_pairs(pairs: &Vec<(String, String)>) -> (r: Result<Config, PipelineError>)
        ensures
            match r {
                Ok(c) => config_valid(pairs.deep_view(), c),
                Err(e) => config_failure(pairs.deep_view(), e),
            },
    {
        let domain = match lookup_field(pairs, &String::from_str("Domain")) {
            Some(v) => v.clone(),
            None => {
                return Err(PipelineError::MissingKey(String::from_str("Domain")));
            },
        };
        let site_info_urn = match lookup_field(pairs, &String::from_str("Site Info URN")) {
            Some(v) => v.clone(),
            None => {
                return Err(PipelineError::MissingKey(String::from_str("Site Info URN")));
            },
        };
        let csv_link_selector = match lookup_field(pairs, &String::from_str("Regex CSV Link")) {
            Some(v) => v.clone(),
            None => {
                return Err(PipelineError::MissingKey(String::from_str("Regex CSV Link")));
            },
        };
        let site_id_marker = match lookup_field(pairs, &String::from_str("Regex Site ID Link")) {
            Some(v) => v.clone(),
            None => {
                return Err(PipelineError::MissingKey(String::from_str("Regex Site ID Link")));
            },
        };
        let site_id_token = match lookup_field(pairs, &String::from_str("Regex Site ID Code")) {
            Some(v) => v.clone(),
            None => {
                return Err(PipelineError::MissingKey(String::from_str("Regex Site ID Code")));
            },
        };
        let metadata_query = match lookup_field(pairs, &String::from_str("Metadata Query")) {
            Some(v) => v.clone(),
            None => {
                return Err(PipelineError::MissingKey(String::from_str("Metadata Query")));
            },
        };
        if !regex_compiles(&site_id_marker) {
            return Err(PipelineError::BadPattern(site_id_marker));
        }
        if !regex_compiles(&site_id_token) {
            return Err(PipelineError::BadPattern(site_id_token));
        }
        if !selector_compiles(&csv_link_selector) {
            return Err(PipelineError::BadSelector(csv_link_selector));
        }
        Ok(
            Config {
                domain,
                metadata_query,
                site_info_urn,
                csv_link_selector,
                site_id_marker,
                site_id_token,
            },
        )
    }

    /// The URL of the bulk listing page: the domain followed by the
    /// metadata query.
    pub fn metadata_url(&self) -> (r: String)
        ensures
            r@ == self.domain@ + self.metadata_query@,
    {
        self.domain.clone().concat(self.metadata_query.as_str())
    }

    /// The URL of one station's page: the domain, the station-page path
    /// and the station identifier.
    pub fn site_url(&self, station_id: &String) -> (r: String)
        ensures
            r@ == self.domain@ + self.site_info_urn@ + station_id@,
    {
        self.domain.clone().concat(self.site_info_urn.as_str()).concat(station_id.as_str())
    }
}

} // verus!
