//! Three-component versions: their order, and how they are read from text.

use vstd::prelude::*;

verus! {

/// A semantic version reduced to its three numeric components.
///
/// `0.0.0` stands for "not installed".
#[derive(Clone, Copy, Debug, PartialEq, Eq, Structural)]
pub struct ProxyVersion {
    pub major: u64,
    pub minor: u64,
    pub patch: u64,
}

impl ProxyVersion {
    /// `self` comes strictly before `other`: by major, then minor, then patch.
    pub open spec fn precedes(self, other: ProxyVersion) -> bool {
        self.major < other.major || (self.major == other.major && (self.minor < other.minor || (
        self.minor == other.minor && self.patch < other.patch)))
    }

    /// `self` is `other` or comes after it.
    pub open spec fn at_least(self, other: ProxyVersion) -> bool {
        !self.precedes(other)
    }

    pub fn new(major: u64, minor: u64, patch: u64) -> (v: ProxyVersion)
        ensures
            v == (ProxyVersion { major, minor, patch }),
    {
        ProxyVersion { major, minor, patch }
    }

    /// The version that stands for a daemon that is not installed.
    pub fn not_installed() -> (v: ProxyVersion)
        ensures
            v == (ProxyVersion { major: 0, minor: 0, patch: 0 }),
    {
        ProxyVersion { major: 0, minor: 0, patch: 0 }
    }

    pub fn is_before(&self, other: &ProxyVersion) -> (b: bool)
        ensures
            b == self.precedes(*other),
    {
        if self.major != other.major {
            self.major < other.major
        } else if self.minor != other.minor {
            self.minor < other.minor
        } else {
            self.patch < other.patch
        }
    }

    pub fn is_at_least(&self, other: &ProxyVersion) -> (b: bool)
        ensures
            b == self.at_least(*other),
    {
        !self.is_before(other)
    }
}

/// Every version is at least itself.
pub proof fn lemma_at_least_reflexive(a: ProxyVersion)
    ensures
        a.at_least(a),
{
}

/// Two versions that are each at least the other are the same version.
pub proof fn lemma_at_least_antisymmetric(a: ProxyVersion, b: ProxyVersion)
    requires
        a.at_least(b),
        b.at_least(a),
    ensures
        a == b,
{
}

/// If `a` is at least `b` and `b` is at least `c`, then `a` is at least `c`.
pub proof fn lemma_at_least_transitive(a: ProxyVersion, b: ProxyVersion, c: ProxyVersion)
    requires
        a.at_least(b),
        b.at_least(c),
    ensures
        a.at_least(c),
{
}

/// Of two versions, one is at least the other; and exactly one of "before",
/// "equal", "after" holds.
pub proof fn lemma_order_total(a: ProxyVersion, b: ProxyVersion)
    ensures
        a.at_least(b) || b.at_least(a),
        a.precedes(b) || a == b || b.precedes(a),
        !(a.precedes(b) && b.precedes(a)),
        !a.precedes(a),
{
}

/// "Before" is transitive.
pub proof fn lemma_precedes_transitive(a: ProxyVersion, b: ProxyVersion, c: ProxyVersion)
    requires
        a.precedes(b),
        b.precedes(c),
    ensures
        a.precedes(c),
{
}

/// The three components that `semver::Version::parse` reads from `text`, or
/// `None` where it rejects the text.
pub uninterp spec fn semver_parse(text: Seq<char>) -> Option<(u64, u64, u64)>;

/// Calls `semver::Version::parse` and hands out the major, minor and patch
/// numbers of what it returns; pre-release and build parts are left behind.
///
/// Not proved: that the result is the same for the same text, which is all
/// that the contract claims by naming it.
#[verifier::external_body]
pub(crate) fn parse_semver(text: &str) -> (r: Option<(u64, u64, u64)>)
    ensures
        r == semver_parse(text@),
{
    match semver::Version::parse(text) {
        Ok(v) => Some((v.major, v.minor, v.patch)),
        Err(_) => None,
    }
}

/// What a search of `haystack` with the regular expression `pattern` gives for
/// capture group `group` of the leftmost match: `None` where the pattern does
/// not compile, `Some(None)` where nothing matches or the group took no part,
/// else the text of the group.
pub uninterp spec fn regex_capture(pattern: Seq<char>, haystack: Seq<char>, group: usize) -> Option<
    Option<Seq<char>>,
>;

/// The views of the strings in a capture result.
pub open spec fn capture_view(capture: Option<Option<String>>) -> Option<Option<Seq<char>>> {
    match capture {
        None => None,
        Some(None) => Some(None),
        Some(Some(s)) => Some(Some(s@)),
    }
}

/// Compiles `pattern` with `regex::Regex::new`, searches `haystack` with
/// `Regex::captures` and copies out the text of group `group` of the match
/// (`Captures::get`).
///
/// Not proved: that the result depends on the three arguments alone, which is
/// all that the contract claims by naming it.
#[verifier::external_body]
fn capture_group(pattern: &str, haystack: &str, group: usize) -> (r: Option<Option<String>>)
    ensures
        capture_view(r) == regex_capture(pattern@, haystack@, group),
{
    let re = match regex::Regex::new(pattern) {
        Ok(re) => re,
        Err(_) => return None,
    };
    let found = match re.captures(haystack) {
        Some(captures) => captures.get(group),
        None => None,
    };
    match found {
        Some(m) => Some(Some(m.as_str().to_string())),
        None => Some(None),
    }
}

/// Calls `String::from_utf8`: the bytes become a string exactly when they are
/// valid UTF-8, and the string then holds the characters that they encode.
#[verifier::external_body]
fn utf8_to_string(bytes: Vec<u8>) -> (r: Option<String>)
    ensures
        r is Some <==> vstd::utf8::valid_utf8(bytes@),
        r matches Some(s) ==> s@ == vstd::utf8::decode_utf8(bytes@),
{
    match String::from_utf8(bytes) {
        Ok(s) => Some(s),
        Err(_) => None,
    }
}

/// Why the installed version could not be told.
#[derive(Clone, Debug, PartialEq, Eq)]
pub enum VersionError {
    /// The executable exists but could not be run; the text says why.
    Spawn(String),
    /// The executable printed bytes that are not UTF-8.
    NotUtf8,
    /// The search pattern was rejected.
    Pattern,
    /// The output holds nothing that looks like a version.
    NoVersion,
    /// The output holds a version-like text that is no valid version.
    Unparsable(String),
}

pub enum VersionErrorView {
    Spawn(Seq<char>),
    NotUtf8,
    Pattern,
    NoVersion,
    Unparsable(Seq<char>),
}

impl View for VersionError {
    type V = VersionErrorView;

    open spec fn view(&self) -> VersionErrorView {
        match self {
            VersionError::Spawn(reason) => VersionErrorView::Spawn(reason@),
            VersionError::NotUtf8 => VersionErrorView::NotUtf8,
            VersionError::Pattern => VersionErrorView::Pattern,
            VersionError::NoVersion => VersionErrorView::NoVersion,
            VersionError::Unparsable(text) => VersionErrorView::Unparsable(text@),
        }
    }
}

/// What came of running the daemon's executable with its "report version"
/// argument.
#[derive(Clone, Debug, PartialEq, Eq)]
pub enum VersionProbe {
    /// No such executable on this system.
    NotFound,
    /// The executable could not be started for another reason.
    SpawnFailed(String),
    /// The executable ran and wrote these bytes to its standard output.
    Output(Vec<u8>),
}

pub enum VersionProbeView {
    NotFound,
    SpawnFailed(Seq<char>),
    Output(Seq<u8>),
}

impl View for VersionProbe {
    type V = VersionProbeView;

    open spec fn view(&self) -> VersionProbeView {
        match self {
            VersionProbe::NotFound => VersionProbeView::NotFound,
            VersionProbe::SpawnFailed(reason) => VersionProbeView::SpawnFailed(reason@),
            VersionProbe::Output(bytes) => VersionProbeView::Output(bytes@),
        }
    }
}

/// The pattern of a version inside the executable's output: three runs of
/// digits with dots between them, as capture group 1.
pub const VERSION_PATTERN: &'static str = "(\\d+\\.\\d+\\.\\d+)";

/// The view of a detection result.
pub open spec fn detection_view(r: Result<ProxyVersion, VersionError>) -> Result<
    ProxyVersion,
    VersionErrorView,
> {
    match r {
        Ok(v) => Ok(v),
        Err(e) => Err(e@),
    }
}

/// The version that `parsed` stands for, where `parsed` is what the parser
/// made of `text`.
pub open spec fn version_of_parsed(text: Seq<char>, parsed: Option<(u64, u64, u64)>) -> Result<
    ProxyVersion,
    VersionErrorView,
> {
    match parsed {
        Some((major, minor, patch)) => Ok(ProxyVersion { major, minor, patch }),
        None => Err(VersionErrorView::Unparsable(text)),
    }
}

/// The version that a capture result stands for: the captured text, parsed.
pub open spec fn version_of_capture(capture: Option<Option<Seq<char>>>) -> Result<
    ProxyVersion,
    VersionErrorView,
> {
    match capture {
        None => Err(VersionErrorView::Pattern),
        Some(None) => Err(VersionErrorView::NoVersion),
        Some(Some(text)) => version_of_parsed(text, semver_parse(text)),
    }
}

/// The version that the executable's output announces.
pub open spec fn version_of_output(output: Seq<char>) -> Result<ProxyVersion, VersionErrorView> {
    version_of_capture(regex_capture(VERSION_PATTERN@, output, 1))
}

/// The installed version that a probe of the executable shows.
pub open spec fn version_of_probe(probe: VersionProbeView) -> Result<
    ProxyVersion,
    VersionErrorView,
> {
    match probe {
        VersionProbeView::NotFound => Ok(ProxyVersion { major: 0, minor: 0, patch: 0 }),
        VersionProbeView::SpawnFailed(reason) => Err(VersionErrorView::Spawn(reason)),
        VersionProbeView::Output(bytes) => if vstd::utf8::valid_utf8(bytes) {
            version_of_output(vstd::utf8::decode_utf8(bytes))
        } else {
            Err(VersionErrorView::NotUtf8)
        },
    }
}

impl ProxyVersion {
    /// Turns what the parser made of `text` into a version, or into the error
    /// that names the text.
    pub fn from_parsed(text: String, parsed: Option<(u64, u64, u64)>) -> (r: Result<
        ProxyVersion,
        VersionError,
    >)
        ensures
            detection_view(r) == version_of_parsed(text@, parsed),
    {
        match parsed {
            Some((major, minor, patch)) => Ok(ProxyVersion { major, minor, patch }),
            None => Err(VersionError::Unparsable(text)),
        }
    }

    /// Turns the outcome of the search for a version-like text into a
    /// version: a rejected pattern and a missing match are errors, and a
    /// captured text must parse.
    pub fn from_capture(capture: Option<Option<String>>) -> (r: Result<ProxyVersion, VersionError>)
        ensures
            detection_view(r) == version_of_capture(capture_view(capture)),
    {
        match capture {
            None => Err(VersionError::Pattern),
            Some(None) => Err(VersionError::NoVersion),
            Some(Some(text)) => {
                let parsed = parse_semver(text.as_str());
                ProxyVersion::from_parsed(text, parsed)
            },
        }
    }

    /// Reads the version that the executable's output announces: the first
    /// text of the form digits, dot, digits, dot, digits, parsed as a version.
    pub fn from_output(output: &str) -> (r: Result<ProxyVersion, VersionError>)
        ensures
            detection_view(r) == version_of_output(output@),
    {
        ProxyVersion::from_capture(capture_group(VERSION_PATTERN, output, 1))
    }

    /// Tells the installed version from a probe of the executable. A missing
    /// executable counts as version `0.0.0` and is no error.
    pub fn from_probe(probe: VersionProbe) -> (r: Result<ProxyVersion, VersionError>)
        ensures
            detection_view(r) == version_of_probe(probe@),
    {
        match probe {
            VersionProbe::NotFound => Ok(ProxyVersion::not_installed()),
            VersionProbe::SpawnFailed(reason) => Err(VersionError::Spawn(reason)),
            VersionProbe::Output(bytes) => match utf8_to_string(bytes) {
                Some(text) => ProxyVersion::from_output(text.as_str()),
                None => Err(VersionError::NotUtf8),
            },
        }
    }
}

} // verus!
