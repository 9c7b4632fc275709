//! The upgrade of the daemon: which steps it takes, in which order, and what
//! it comes to.

use crate::download::{DownloadError, DownloadErrorView};
use crate::proxy::{Xray, XrayView};
use crate::release::{lemma_asset_url, AssetNotFound, Release, ReleaseView};
use crate::version::{
    version_of_probe, ProxyVersion, VersionError, VersionErrorView, VersionProbe,
    VersionProbeView,
};
use vstd::prelude::*;

verus! {

/// What an upgrade does once the installed and the latest version are known.
#[derive(Clone, Debug, PartialEq, Eq)]
pub enum UpgradeDecision {
    /// Nothing: the installed version is at least the latest.
    UpToDate,
    /// Download the release asset from this address.
    Download(String),
}

pub enum UpgradeDecisionView {
    UpToDate,
    Download(Seq<char>),
}

impl View for UpgradeDecision {
    type V = UpgradeDecisionView;

    open spec fn view(&self) -> UpgradeDecisionView {
        match self {
            UpgradeDecision::UpToDate => UpgradeDecisionView::UpToDate,
            UpgradeDecision::Download(url) => UpgradeDecisionView::Download(url@),
        }
    }
}

/// How a finished upgrade ended.
#[derive(Clone, Copy, Debug, PartialEq, Eq, Structural)]
pub enum UpgradeOutcome {
    /// The installed version was already at least the latest one.
    UpToDate { current: ProxyVersion, latest: ProxyVersion },
    /// The latest version was downloaded and unpacked.
    Upgraded { latest: ProxyVersion },
}

/// Why an upgrade failed.
#[derive(Clone, Debug, PartialEq, Eq)]
pub enum UpgradeError {
    /// The installed version could not be told.
    Version(VersionError),
    /// The latest release could not be fetched or read; the text says why.
    ReleaseFetch(String),
    /// The tag of the latest release is no version; the text is the tag.
    ReleaseTag(String),
    /// The latest release has no asset of this name.
    AssetNotFound(String),
    /// The asset could not be downloaded.
    Download(DownloadError),
    /// The archive could not be unpacked; the text says why.
    Extract(String),
}

pub enum UpgradeErrorView {
    Version(VersionErrorView),
    ReleaseFetch(Seq<char>),
    ReleaseTag(Seq<char>),
    AssetNotFound(Seq<char>),
    Download(DownloadErrorView),
    Extract(Seq<char>),
}

impl View for UpgradeError {
    type V = UpgradeErrorView;

    open spec fn view(&self) -> UpgradeErrorView {
        match self {
            UpgradeError::Version(e) => UpgradeErrorView::Version(e@),
            UpgradeError::ReleaseFetch(reason) => UpgradeErrorView::ReleaseFetch(reason@),
            UpgradeError::ReleaseTag(tag) => UpgradeErrorView::ReleaseTag(tag@),
            UpgradeError::AssetNotFound(name) => UpgradeErrorView::AssetNotFound(name@),
            UpgradeError::Download(e) => UpgradeErrorView::Download(e@),
            UpgradeError::Extract(reason) => UpgradeErrorView::Extract(reason@),
        }
    }
}

/// What an upgrade is waiting for.
#[derive(Clone, Debug, PartialEq, Eq)]
pub enum UpgradeState {
    /// The probe of the installed executable.
    Probing,
    /// The latest release.
    Fetching { current: ProxyVersion },
    /// The download of the release asset from `url`.
    Downloading { latest: ProxyVersion, url: String },
    /// The unpacking of the downloaded archive.
    Extracting { latest: ProxyVersion, archive: String },
    /// Nothing: the upgrade has ended well.
    Finished(UpgradeOutcome),
    /// Nothing: the upgrade has failed.
    Failed(UpgradeError),
}

pub enum UpgradeStateView {
    Probing,
    Fetching { current: ProxyVersion },
    Downloading { latest: ProxyVersion, url: Seq<char> },
    Extracting { latest: ProxyVersion, archive: Seq<char> },
    Finished(UpgradeOutcome),
    Failed(UpgradeErrorView),
}

impl View for UpgradeState {
    type V = UpgradeStateView;

    open spec fn view(&self) -> UpgradeStateView {
        match self {
            UpgradeState::Probing => UpgradeStateView::Probing,
            UpgradeState::Fetching { current } => UpgradeStateView::Fetching { current: *current },
            UpgradeState::Downloading { latest, url } => UpgradeStateView::Downloading {
                latest: *latest,
                url: url@,
            },
            UpgradeState::Extracting { latest, archive } => UpgradeStateView::Extracting {
                latest: *latest,
                archive: archive@,
            },
            UpgradeState::Finished(outcome) => UpgradeStateView::Finished(*outcome),
            UpgradeState::Failed(e) => UpgradeStateView::Failed(e@),
        }
    }
}

/// What came of the step that a state asked for.
#[derive(Clone, Debug, PartialEq, Eq)]
pub enum UpgradeEvent {
    /// The executable was probed for its version.
    Probed(VersionProbe),
    /// The latest release arrived.
    Fetched(Release),
    /// The latest release could not be fetched or read.
    FetchFailed(String),
    /// The asset was downloaded to the local file of this path.
    Downloaded(String),
    /// The download failed.
    DownloadFailed(DownloadError),
    /// The archive was unpacked into the install directory.
    Extracted,
    /// The archive could not be unpacked.
    ExtractFailed(String),
}

pub enum UpgradeEventView {
    Probed(VersionProbeView),
    Fetched(ReleaseView),
    FetchFailed(Seq<char>),
    Downloaded(Seq<char>),
    DownloadFailed(DownloadErrorView),
    Extracted,
    ExtractFailed(Seq<char>),
}

impl View for UpgradeEvent {
    type V = UpgradeEventView;

    open spec fn view(&self) -> UpgradeEventView {
        match self {
            UpgradeEvent::Probed(probe) => UpgradeEventView::Probed(probe@),
            UpgradeEvent::Fetched(release) => UpgradeEventView::Fetched(release@),
            UpgradeEvent::FetchFailed(reason) => UpgradeEventView::FetchFailed(reason@),
            UpgradeEvent::Downloaded(path) => UpgradeEventView::Downloaded(path@),
            UpgradeEvent::DownloadFailed(e) => UpgradeEventView::DownloadFailed(e@),
            UpgradeEvent::Extracted => UpgradeEventView::Extracted,
            UpgradeEvent::ExtractFailed(reason) => UpgradeEventView::ExtractFailed(reason@),
        }
    }
}

/// The step that a state asks the caller for.
#[derive(Clone, Copy, Debug, PartialEq, Eq, Structural)]
pub enum UpgradeStep {
    /// Run the version command of the proxy and hand back the probe.
    Probe,
    /// Fetch the latest release from the releases address of the proxy.
    Fetch,
    /// Download the address in the state into the install directory.
    Download,
    /// Unpack the archive in the state into the install directory.
    Extract,
    /// Report success.
    Finish,
    /// Report the error.
    Abort,
}

/// What an upgrade does when `current` is installed and `release`, of
/// version `latest`, is the latest: nothing where `current` is at least
/// `latest`; else it downloads the asset named `asset_name`, and fails with
/// that name where the release has none.
pub open spec fn decision_of(
    asset_name: Seq<char>,
    current: ProxyVersion,
    latest: ProxyVersion,
    release: ReleaseView,
) -> Result<UpgradeDecisionView, Seq<char>> {
    if current.at_least(latest) {
        Ok(UpgradeDecisionView::UpToDate)
    } else {
        match release.asset_url(asset_name) {
            Some(url) => Ok(UpgradeDecisionView::Download(url)),
            None => Err(asset_name),
        }
    }
}

/// The view of a decision or of the error in its place.
pub open spec fn decision_view(r: Result<UpgradeDecision, AssetNotFound>) -> Result<
    UpgradeDecisionView,
    Seq<char>,
> {
    match r {
        Ok(d) => Ok(d@),
        Err(e) => Err(e.name@),
    }
}

/// The state that follows `state` when `event` arrives. An event that does
/// not answer what the state is waiting for leaves the state as it is.
pub open spec fn upgrade_next(x: XrayView, state: UpgradeStateView, event: UpgradeEventView)
    -> UpgradeStateView {
    match (state, event) {
        (UpgradeStateView::Probing, UpgradeEventView::Probed(probe)) => match version_of_probe(
            probe,
        ) {
            Ok(current) => UpgradeStateView::Fetching { current },
            Err(e) => UpgradeStateView::Failed(UpgradeErrorView::Version(e)),
        },
        (UpgradeStateView::Fetching { current }, UpgradeEventView::Fetched(release)) => {
            match release.version() {
                Err(tag) => UpgradeStateView::Failed(UpgradeErrorView::ReleaseTag(tag)),
                Ok(latest) => match decision_of(x.asset_name, current, latest, release) {
                    Ok(UpgradeDecisionView::UpToDate) => UpgradeStateView::Finished(
                        UpgradeOutcome::UpToDate { current, latest },
                    ),
                    Ok(UpgradeDecisionView::Download(url)) => UpgradeStateView::Downloading {
                        latest,
                        url,
                    },
                    Err(name) => UpgradeStateView::Failed(UpgradeErrorView::AssetNotFound(name)),
                },
            }
        },
        (UpgradeStateView::Fetching { .. }, UpgradeEventView::FetchFailed(reason)) => {
            UpgradeStateView::Failed(UpgradeErrorView::ReleaseFetch(reason))
        },
        (UpgradeStateView::Downloading { latest, .. }, UpgradeEventView::Downloaded(path)) => {
            UpgradeStateView::Extracting { latest, archive: path }
        },
        (UpgradeStateView::Downloading { .. }, UpgradeEventView::DownloadFailed(e)) => {
            UpgradeStateView::Failed(UpgradeErrorView::Download(e))
        },
        (UpgradeStateView::Extracting { latest, .. }, UpgradeEventView::Extracted) => {
            UpgradeStateView::Finished(UpgradeOutcome::Upgraded { latest })
        },
        (UpgradeStateView::Extracting { .. }, UpgradeEventView::ExtractFailed(reason)) => {
            UpgradeStateView::Failed(UpgradeErrorView::Extract(reason))
        },
        _ => state,
    }
}

/// The step that `state` asks the caller for.
pub open spec fn step_of(state: UpgradeStateView) -> UpgradeStep {
    match state {
        UpgradeStateView::Probing => UpgradeStep::Probe,
        UpgradeStateView::Fetching { .. } => UpgradeStep::Fetch,
        UpgradeStateView::Downloading { .. } => UpgradeStep::Download,
        UpgradeStateView::Extracting { .. } => UpgradeStep::Extract,
        UpgradeStateView::Finished(_) => UpgradeStep::Finish,
        UpgradeStateView::Failed(_) => UpgradeStep::Abort,
    }
}

impl UpgradeState {
    /// The state in which every upgrade begins.
    pub fn start() -> (s: UpgradeState)
        ensures
            s@ == UpgradeStateView::Probing,
    {
        UpgradeState::Probing
    }

    /// The step that this state asks the caller for.
    pub fn step(&self) -> (s: UpgradeStep)
        ensures
            s == step_of(self@),
    {
        match self {
            UpgradeState::Probing => UpgradeStep::Probe,
            UpgradeState::Fetching { .. } => UpgradeStep::Fetch,
            UpgradeState::Downloading { .. } => UpgradeStep::Download,
            UpgradeState::Extracting { .. } => UpgradeStep::Extract,
            UpgradeState::Finished(_) => UpgradeStep::Finish,
            UpgradeState::Failed(_) => UpgradeStep::Abort,
        }
    }
}

impl Xray {
    /// Decides what an upgrade does when `current` is installed and
    /// `release`, of version `latest`, is the latest release.
    pub fn decide(&self, current: ProxyVersion, latest: ProxyVersion, release: &Release) -> (r:
        Result<UpgradeDecision, AssetNotFound>)
        ensures
            decision_view(r) == decision_of(self@.asset_name, current, latest, release@),
    {
        if current.is_at_least(&latest) {
            Ok(UpgradeDecision::UpToDate)
        } else {
            match release.asset_url(self.asset_name()) {
                Ok(url) => Ok(UpgradeDecision::Download(url)),
                Err(e) => Err(e),
            }
        }
    }
}

/// The state that an upgrade is in after `events` have arrived one after
/// another, beginning in `state`.
pub open spec fn upgrade_run(x: XrayView, state: UpgradeStateView, events: Seq<UpgradeEventView>)
    -> UpgradeStateView
    decreases events.len(),
{
    if events.len() == 0 {
        state
    } else {
        upgrade_next(x, upgrade_run(x, state, events.drop_last()), events.last())
    }
}

/// The steps that one call of the upgrade asks for while `events` arrive: the
/// step of the first state, and the step of the state after each event.
pub open spec fn steps_of(x: XrayView, events: Seq<UpgradeEventView>) -> Seq<UpgradeStep> {
    Seq::new(
        events.len() + 1,
        |k: int| step_of(upgrade_run(x, UpgradeStateView::Probing, events.take(k))),
    )
}

/// The state has nothing left to wait for.
pub open spec fn is_terminal(state: UpgradeStateView) -> bool {
    state is Finished || state is Failed
}

/// The version that is installed once a call of the upgrade has ended in
/// `state`, if `current` was installed before and the unpacked executable
/// reports the version of its release.
pub open spec fn installed_after(current: ProxyVersion, state: UpgradeStateView) -> ProxyVersion {
    match state {
        UpgradeStateView::Finished(UpgradeOutcome::Upgraded { latest }) => latest,
        _ => current,
    }
}

/// One more event takes the run one state further.
pub proof fn lemma_upgrade_run_push(
    x: XrayView,
    state: UpgradeStateView,
    events: Seq<UpgradeEventView>,
    event: UpgradeEventView,
)
    ensures
        upgrade_run(x, state, events.push(event)) == upgrade_next(
            x,
            upgrade_run(x, state, events),
            event,
        ),
{
    assert(events.push(event).drop_last() == events);
}

/// An upgrade that has finished or failed stays as it is, whatever arrives.
pub proof fn lemma_terminal_absorbs(
    x: XrayView,
    state: UpgradeStateView,
    events: Seq<UpgradeEventView>,
)
    requires
        is_terminal(state),
    ensures
        upgrade_run(x, state, events) == state,
    decreases events.len(),
{
    if events.len() > 0 {
        lemma_terminal_absorbs(x, state, events.drop_last());
    }
}

/// Where the installed version is at least the latest one, a call of the
/// upgrade probes, fetches once and ends well: it asks for no download and no
/// unpacking.
pub proof fn lemma_up_to_date_is_noop(
    x: XrayView,
    probe: VersionProbeView,
    release: ReleaseView,
    current: ProxyVersion,
    latest: ProxyVersion,
)
    requires
        version_of_probe(probe) == Ok::<ProxyVersion, VersionErrorView>(current),
        release.version() == Ok::<ProxyVersion, Seq<char>>(latest),
        current.at_least(latest),
    ensures
        steps_of(x, seq![UpgradeEventView::Probed(probe), UpgradeEventView::Fetched(release)])
            == seq![UpgradeStep::Probe, UpgradeStep::Fetch, UpgradeStep::Finish],
        upgrade_run(
            x,
            UpgradeStateView::Probing,
            seq![UpgradeEventView::Probed(probe), UpgradeEventView::Fetched(release)],
        ) == UpgradeStateView::Finished(UpgradeOutcome::UpToDate { current, latest }),
{
    let e1 = UpgradeEventView::Probed(probe);
    let e2 = UpgradeEventView::Fetched(release);
    let events = seq![e1, e2];
    let start = UpgradeStateView::Probing;
    assert(events.take(0) == Seq::<UpgradeEventView>::empty());
    assert(events.take(1) == Seq::<UpgradeEventView>::empty().push(e1));
    assert(events.take(2) == events);
    assert(events == Seq::<UpgradeEventView>::empty().push(e1).push(e2));
    lemma_upgrade_run_push(x, start, Seq::empty(), e1);
    lemma_upgrade_run_push(x, start, Seq::empty().push(e1), e2);
    assert(steps_of(x, events) =~= seq![
        UpgradeStep::Probe,
        UpgradeStep::Fetch,
        UpgradeStep::Finish,
    ]);
}

/// Where the installed version is before the latest one and the release has
/// the asset, a call of the upgrade probes, fetches once, downloads the
/// asset's address, unpacks what was downloaded and ends well.
pub proof fn lemma_upgrade_installs_latest(
    x: XrayView,
    probe: VersionProbeView,
    release: ReleaseView,
    current: ProxyVersion,
    latest: ProxyVersion,
    url: Seq<char>,
    path: Seq<char>,
)
    requires
        version_of_probe(probe) == Ok::<ProxyVersion, VersionErrorView>(current),
        release.version() == Ok::<ProxyVersion, Seq<char>>(latest),
        current.precedes(latest),
        release.asset_url(x.asset_name) == Some(url),
    ensures
        steps_of(
            x,
            seq![
                UpgradeEventView::Probed(probe),
                UpgradeEventView::Fetched(release),
                UpgradeEventView::Downloaded(path),
                UpgradeEventView::Extracted,
            ],
        ) == seq![
            UpgradeStep::Probe,
            UpgradeStep::Fetch,
            UpgradeStep::Download,
            UpgradeStep::Extract,
            UpgradeStep::Finish,
        ],
        upgrade_run(
            x,
            UpgradeStateView::Probing,
            seq![UpgradeEventView::Probed(probe), UpgradeEventView::Fetched(release)],
        ) == (UpgradeStateView::Downloading { latest, url }),
        upgrade_run(
            x,
            UpgradeStateView::Probing,
            seq![
                UpgradeEventView::Probed(probe),
                UpgradeEventView::Fetched(release),
                UpgradeEventView::Downloaded(path),
                UpgradeEventView::Extracted,
            ],
        ) == UpgradeStateView::Finished(UpgradeOutcome::Upgraded { latest }),
{
    let e1 = UpgradeEventView::Probed(probe);
    let e2 = UpgradeEventView::Fetched(release);
    let e3 = UpgradeEventView::Downloaded(path);
    let e4 = UpgradeEventView::Extracted;
    let events = seq![e1, e2, e3, e4];
    let start = UpgradeStateView::Probing;
    let none = Seq::<UpgradeEventView>::empty();
    assert(events.take(0) == none);
    assert(events.take(1) == none.push(e1));
    assert(events.take(2) == none.push(e1).push(e2));
    assert(events.take(3) == none.push(e1).push(e2).push(e3));
    assert(events.take(4) == events);
    assert(events == none.push(e1).push(e2).push(e3).push(e4));
    assert(seq![e1, e2] == none.push(e1).push(e2));
    lemma_upgrade_run_push(x, start, none, e1);
    lemma_upgrade_run_push(x, start, none.push(e1), e2);
    lemma_upgrade_run_push(x, start, none.push(e1).push(e2), e3);
    lemma_upgrade_run_push(x, start, none.push(e1).push(e2).push(e3), e4);
    assert(steps_of(x, events) =~= seq![
        UpgradeStep::Probe,
        UpgradeStep::Fetch,
        UpgradeStep::Download,
        UpgradeStep::Extract,
        UpgradeStep::Finish,
    ]);
}

/// A second call of the upgrade, made after a call that ended well and with
/// the same release still the latest, fetches once, asks for no download and
/// no unpacking, and ends well. `first` is the state in which the first call
/// ended; the second probe reads the version that is installed after it.
pub proof fn lemma_upgrade_idempotent(
    x: XrayView,
    release: ReleaseView,
    latest: ProxyVersion,
    current: ProxyVersion,
    first: UpgradeStateView,
    second_probe: VersionProbeView,
)
    requires
        release.version() == Ok::<ProxyVersion, Seq<char>>(latest),
        first == UpgradeStateView::Finished(UpgradeOutcome::UpToDate { current, latest })
            || first == UpgradeStateView::Finished(UpgradeOutcome::Upgraded { latest }),
        first is Finished && first->Finished_0 is UpToDate ==> current.at_least(latest),
        version_of_probe(second_probe) == Ok::<ProxyVersion, VersionErrorView>(
            installed_after(current, first),
        ),
    ensures
        steps_of(
            x,
            seq![UpgradeEventView::Probed(second_probe), UpgradeEventView::Fetched(release)],
        ) == seq![UpgradeStep::Probe, UpgradeStep::Fetch, UpgradeStep::Finish],
        upgrade_run(
            x,
            UpgradeStateView::Probing,
            seq![UpgradeEventView::Probed(second_probe), UpgradeEventView::Fetched(release)],
        ) == UpgradeStateView::Finished(
            UpgradeOutcome::UpToDate { current: installed_after(current, first), latest },
        ),
{
    lemma_up_to_date_is_noop(x, second_probe, release, installed_after(current, first), latest);
}

/// Where the installed version is before the latest one and the release has
/// no asset of the configured name, the upgrade fails with that name as soon
/// as the release arrives, and asks for no download whatever arrives later.
pub proof fn lemma_missing_asset_aborts(
    x: XrayView,
    release: ReleaseView,
    current: ProxyVersion,
    latest: ProxyVersion,
    later: Seq<UpgradeEventView>,
)
    requires
        release.version() == Ok::<ProxyVersion, Seq<char>>(latest),
        current.precedes(latest),
        !release.has_asset(x.asset_name),
    ensures
        upgrade_next(
            x,
            UpgradeStateView::Fetching { current },
            UpgradeEventView::Fetched(release),
        ) == UpgradeStateView::Failed(UpgradeErrorView::AssetNotFound(x.asset_name)),
        step_of(
            upgrade_run(
                x,
                upgrade_next(
                    x,
                    UpgradeStateView::Fetching { current },
                    UpgradeEventView::Fetched(release),
                ),
                later,
            ),
        ) == UpgradeStep::Abort,
{
    lemma_asset_url(release, x.asset_name);
    lemma_terminal_absorbs(
        x,
        UpgradeStateView::Failed(UpgradeErrorView::AssetNotFound(x.asset_name)),
        later,
    );
}

} // verus!
