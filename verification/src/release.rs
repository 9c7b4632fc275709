//! Release descriptors: the tag, the assets, and what an upgrade reads from
//! them.

use crate::version::{parse_semver, semver_parse, ProxyVersion};
use vstd::prelude::*;
use vstd::string::{StrSliceExecFns, StringExecFns};

verus! {

/// A named downloadable file attached to a release.
#[derive(Clone, Debug, PartialEq, Eq)]
pub struct Asset {
    pub name: String,
    pub browser_download_url: String,
}

/// A published release: its tag and its assets in the order in which the
/// releases service lists them.
#[derive(Clone, Debug, PartialEq, Eq)]
pub struct Release {
    pub tag_name: String,
    pub assets: Vec<Asset>,
}

/// The tag of a release is no version; `tag` is the tag as it was published.
#[derive(Clone, Debug, PartialEq, Eq)]
pub struct VersionParseError {
    pub tag: String,
}

/// The release has no asset of the name that was asked for.
#[derive(Clone, Debug, PartialEq, Eq)]
pub struct AssetNotFound {
    pub name: String,
}

/// The tag without one leading `v`, if it has one.
pub open spec fn strip_v(tag: Seq<char>) -> Seq<char> {
    if tag.len() > 0 && tag[0] == 'v' {
        tag.subrange(1, tag.len() as int)
    } else {
        tag
    }
}

/// The version that a tag stands for, where `parsed` is what the parser made
/// of the tag without its leading `v`; the error is the whole tag.
pub open spec fn version_of_tag(tag: Seq<char>, parsed: Option<(u64, u64, u64)>) -> Result<
    ProxyVersion,
    Seq<char>,
> {
    match parsed {
        Some((major, minor, patch)) => Ok(ProxyVersion { major, minor, patch }),
        None => Err(tag),
    }
}

/// The view of the result of reading a release's version.
pub open spec fn tag_result_view(r: Result<ProxyVersion, VersionParseError>) -> Result<
    ProxyVersion,
    Seq<char>,
> {
    match r {
        Ok(v) => Ok(v),
        Err(e) => Err(e.tag@),
    }
}

/// Drops one leading `v` from a tag.
pub fn strip_leading_v(tag: &str) -> (rest: &str)
    ensures
        rest@ == strip_v(tag@),
{
    let n: usize = tag.unicode_len();
    if n > 0 && tag.get_char(0) == 'v' {
        tag.substring_char(1, n)
    } else {
        tag
    }
}

pub struct AssetView {
    pub name: Seq<char>,
    pub url: Seq<char>,
}

impl View for Asset {
    type V = AssetView;

    open spec fn view(&self) -> AssetView {
        AssetView { name: self.name@, url: self.browser_download_url@ }
    }
}

pub struct ReleaseView {
    pub tag_name: Seq<char>,
    pub assets: Seq<AssetView>,
}

impl View for Release {
    type V = ReleaseView;

    open spec fn view(&self) -> ReleaseView {
        ReleaseView { tag_name: self.tag_name@, assets: self.assets@.map_values(|a: Asset| a@) }
    }
}

impl ReleaseView {
    /// The asset at position `i` is the first one named `name`.
    pub open spec fn first_named(self, name: Seq<char>, i: int) -> bool {
        &&& 0 <= i < self.assets.len()
        &&& self.assets[i].name == name
        &&& forall|j: int| 0 <= j < i ==> self.assets[j].name != name
    }

    /// Some asset of the release is named `name`.
    pub open spec fn has_asset(self, name: Seq<char>) -> bool {
        exists|i: int| 0 <= i < self.assets.len() && self.assets[i].name == name
    }

    /// The download address of the first asset named `name`, if there is one.
    pub open spec fn asset_url(self, name: Seq<char>) -> Option<Seq<char>> {
        if exists|i: int| self.first_named(name, i) {
            Some(self.assets[choose|i: int| self.first_named(name, i)].url)
        } else {
            None
        }
    }

    /// The version of the release, as far as the tag decides it: the tag
    /// without one leading `v`, parsed; the error is the whole tag.
    pub open spec fn version(self) -> Result<ProxyVersion, Seq<char>> {
        version_of_tag(self.tag_name, semver_parse(strip_v(self.tag_name)))
    }
}

/// Two positions that are both the first of a name are the same position.
pub proof fn lemma_first_named_unique(release: ReleaseView, name: Seq<char>, i: int, j: int)
    requires
        release.first_named(name, i),
        release.first_named(name, j),
    ensures
        i == j,
{
}

/// A release has an asset of a name exactly when it has a first one; and
/// `asset_url` answers with the address of whichever position is the first.
pub proof fn lemma_asset_url(release: ReleaseView, name: Seq<char>)
    ensures
        release.has_asset(name) <==> release.asset_url(name) is Some,
        forall|i: int| release.first_named(name, i) ==> release.asset_url(name) == Some(
            release.assets[i].url,
        ),
{
    if release.has_asset(name) {
        let k = choose|i: int| 0 <= i < release.assets.len() && release.assets[i].name == name;
        lemma_least_named(release, name, k);
    }
    assert forall|i: int| release.first_named(name, i) implies release.asset_url(name) == Some(
        release.assets[i].url,
    ) by {
        let c = choose|c: int| release.first_named(name, c);
        lemma_first_named_unique(release, name, i, c);
    }
}

/// Below any position that holds the name there is a first such position.
proof fn lemma_least_named(release: ReleaseView, name: Seq<char>, k: int)
    requires
        0 <= k < release.assets.len(),
        release.assets[k].name == name,
    ensures
        exists|i: int| release.first_named(name, i),
    decreases k,
{
    if forall|j: int| 0 <= j < k ==> release.assets[j].name != name {
        assert(release.first_named(name, k));
    } else {
        let j = choose|j: int| 0 <= j < k && release.assets[j].name == name;
        lemma_least_named(release, name, j);
    }
}

/// The headers that a request for the latest release carries: the media type
/// that the releases service is asked for, and the name of this client.
pub open spec fn request_headers_of() -> Seq<(Seq<char>, Seq<char>)> {
    seq![
        ("Accept"@, "application/vnd.github.v3+json"@),
        ("User-Agent"@, "Xray-Proxy-Updater"@),
    ]
}

/// The headers to send with a request for the latest release, as pairs of
/// name and value.
pub fn request_headers() -> (headers: Vec<(String, String)>)
    ensures
        headers@.map_values(|h: (String, String)| (h.0@, h.1@)) == request_headers_of(),
{
    let mut headers: Vec<(String, String)> = Vec::new();
    headers.push((String::from_str("Accept"), String::from_str("application/vnd.github.v3+json")));
    headers.push((String::from_str("User-Agent"), String::from_str("Xray-Proxy-Updater")));
    assert(headers@.map_values(|h: (String, String)| (h.0@, h.1@)) =~= request_headers_of());
    headers
}

/// The view of the result of an asset lookup: the address, or nothing.
pub open spec fn lookup_view(r: Result<String, AssetNotFound>) -> Option<Seq<char>> {
    match r {
        Ok(url) => Some(url@),
        Err(_) => None,
    }
}

impl Release {
    /// Turns what the parser made of the tag without its leading `v` into the
    /// release's version, or into the error that holds the whole tag.
    pub fn version_from(&self, parsed: Option<(u64, u64, u64)>) -> (r: Result<
        ProxyVersion,
        VersionParseError,
    >)
        ensures
            tag_result_view(r) == version_of_tag(self@.tag_name, parsed),
    {
        match parsed {
            Some((major, minor, patch)) => Ok(ProxyVersion::new(major, minor, patch)),
            None => Err(VersionParseError { tag: self.tag_name.clone() }),
        }
    }

    /// The version that the tag announces: the tag without one leading `v`,
    /// parsed as a version.
    pub fn version(&self) -> (r: Result<ProxyVersion, VersionParseError>)
        ensures
            tag_result_view(r) == self@.version(),
    {
        let parsed = parse_semver(strip_leading_v(self.tag_name.as_str()));
        self.version_from(parsed)
    }

    /// The download address of the first asset named `asset_name`, or the
    /// error that holds the name where the release has no such asset.
    pub fn asset_url(&self, asset_name: &str) -> (r: Result<String, AssetNotFound>)
        ensures
            lookup_view(r) == self@.asset_url(asset_name@),
            r is Ok <==> self@.has_asset(asset_name@),
            r matches Ok(url) ==> exists|i: int|
                self@.first_named(asset_name@, i) && url@ == self@.assets[i].url,
            r matches Err(e) ==> e.name@ == asset_name@,
    {
        let wanted = String::from_str(asset_name);
        let mut i: usize = 0;
        proof {
            lemma_asset_url(self@, asset_name@);
        }
        while i < self.assets.len()
            invariant
                i <= self.assets@.len(),
                wanted@ == asset_name@,
                forall|j: int| 0 <= j < i ==> self@.assets[j].name != asset_name@,
            decreases self.assets@.len() - i,
        {
            if self.assets[i].name == wanted {
                assert(self@.first_named(asset_name@, i as int));
                return Ok(self.assets[i].browser_download_url.clone());
            }
            i += 1;
        }
        Err(AssetNotFound { name: wanted })
    }
}

} // verus!
