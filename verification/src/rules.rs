//! The download of the two rule files, one after the other.

use vstd::prelude::*;

verus! {

/// One of the two rule files.
#[derive(Clone, Copy, Debug, PartialEq, Eq, Structural)]
pub enum RuleFile {
    /// The address ranges, `geoip.dat`.
    GeoIp,
    /// The domain lists, `geosite.dat`.
    GeoSite,
}

/// What the download of the rule files is waiting for.
#[derive(Clone, Copy, Debug, PartialEq, Eq, Structural)]
pub enum RulesState {
    /// The download of this file.
    Downloading(RuleFile),
    /// Nothing: both files are there.
    Finished,
    /// Nothing: this file could not be downloaded.
    Failed(RuleFile),
}

/// The state that follows `state` when the download of its file has
/// succeeded or failed: the address ranges come first, the domain lists
/// second, and the first failure ends the course.
pub open spec fn rules_next(state: RulesState, downloaded: bool) -> RulesState {
    match state {
        RulesState::Downloading(file) => if !downloaded {
            RulesState::Failed(file)
        } else if file == RuleFile::GeoIp {
            RulesState::Downloading(RuleFile::GeoSite)
        } else {
            RulesState::Finished
        },
        _ => state,
    }
}

/// The address of a rule file.
pub open spec fn rule_url_of(file: RuleFile, ip_url: Seq<char>, domain_url: Seq<char>) -> Seq<
    char,
> {
    match file {
        RuleFile::GeoIp => ip_url,
        RuleFile::GeoSite => domain_url,
    }
}

impl RulesState {
    /// The state in which the download of the rule files begins.
    pub fn start() -> (s: RulesState)
        ensures
            s == RulesState::Downloading(RuleFile::GeoIp),
    {
        RulesState::Downloading(RuleFile::GeoIp)
    }
}

/// Takes in whether the download of the current rule file succeeded and gives
/// the state that follows.
pub fn download_rules(state: RulesState, downloaded: bool) -> (next: RulesState)
    ensures
        next == rules_next(state, downloaded),
{
    match state {
        RulesState::Downloading(file) => {
            if !downloaded {
                RulesState::Failed(file)
            } else {
                match file {
                    RuleFile::GeoIp => RulesState::Downloading(RuleFile::GeoSite),
                    RuleFile::GeoSite => RulesState::Finished,
                }
            }
        },
        _ => state,
    }
}

/// The address to download `file` from.
pub fn rule_url<'a>(file: RuleFile, ip_url: &'a str, domain_url: &'a str) -> (url: &'a str)
    ensures
        url@ == rule_url_of(file, ip_url@, domain_url@),
{
    match file {
        RuleFile::GeoIp => ip_url,
        RuleFile::GeoSite => domain_url,
    }
}

} // verus!
