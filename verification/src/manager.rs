//! What every managed proxy can do, and how the Xray proxy does it.

use crate::proxy::Xray;
use crate::restart::{restart_next, CommandResult, RestartState};
use crate::upgrade::{
    upgrade_next, UpgradeDecision, UpgradeError, UpgradeEvent, UpgradeOutcome, UpgradeState,
};
use crate::version::{
    detection_view, version_of_probe, ProxyVersion, VersionError, VersionProbe,
};
use vstd::prelude::*;

verus! {

/// A proxy whose version can be told, that can be restarted and that can be
/// upgraded. Each method decides; the caller does the outside work that a
/// state asks for and hands back what came of it.
pub trait Proxy {
    /// Tells the installed version from a probe of the executable.
    fn version(&self, probe: VersionProbe) -> Result<ProxyVersion, VersionError>;

    /// Takes in what came of the last command of a restart and gives the
    /// state that follows: kill, then start, and only a failed start is
    /// fatal.
    fn restart(&self, state: RestartState, result: CommandResult) -> (next: RestartState)
        ensures
            next == restart_next(state, result),
    ;

    /// Takes in what came of the last step of an upgrade and gives the state
    /// that follows.
    fn upgrade(&self, state: UpgradeState, event: UpgradeEvent) -> UpgradeState;
}

impl Proxy for Xray {
    /// A missing executable counts as version `0.0.0`; otherwise the version
    /// is read from what the executable printed.
    fn version(&self, probe: VersionProbe) -> (r: Result<ProxyVersion, VersionError>)
        ensures
            detection_view(r) == version_of_probe(probe@),
    {
        ProxyVersion::from_probe(probe)
    }

    fn restart(&self, state: RestartState, result: CommandResult) -> (next: RestartState) {
        state.step(result)
    }

    /// Probe, fetch, compare, and only where the installed version is before
    /// the latest one: look up the asset, download it, unpack it.
    fn upgrade(&self, state: UpgradeState, event: UpgradeEvent) -> (next: UpgradeState)
        ensures
            next@ == upgrade_next(self@, state@, event@),
    {
        match state {
            UpgradeState::Probing => match event {
                UpgradeEvent::Probed(probe) => match ProxyVersion::from_probe(probe) {
                    Ok(current) => UpgradeState::Fetching { current },
                    Err(e) => UpgradeState::Failed(UpgradeError::Version(e)),
                },
                _ => UpgradeState::Probing,
            },
            UpgradeState::Fetching { current } => match event {
                UpgradeEvent::Fetched(release) => match release.version() {
                    Err(e) => UpgradeState::Failed(UpgradeError::ReleaseTag(e.tag)),
                    Ok(latest) => match self.decide(current, latest, &release) {
                        Ok(UpgradeDecision::UpToDate) => UpgradeState::Finished(
                            UpgradeOutcome::UpToDate { current, latest },
                        ),
                        Ok(UpgradeDecision::Download(url)) => UpgradeState::Downloading {
                            latest,
                            url,
                        },
                        Err(e) => UpgradeState::Failed(UpgradeError::AssetNotFound(e.name)),
                    },
                },
                UpgradeEvent::FetchFailed(reason) => UpgradeState::Failed(
                    UpgradeError::ReleaseFetch(reason),
                ),
                _ => UpgradeState::Fetching { current },
            },
            UpgradeState::Downloading { latest, url } => match event {
                UpgradeEvent::Downloaded(path) => UpgradeState::Extracting {
                    latest,
                    archive: path,
                },
                UpgradeEvent::DownloadFailed(e) => UpgradeState::Failed(UpgradeError::Download(e)),
                _ => UpgradeState::Downloading { latest, url },
            },
            UpgradeState::Extracting { latest, archive } => match event {
                UpgradeEvent::Extracted => UpgradeState::Finished(
                    UpgradeOutcome::Upgraded { latest },
                ),
                UpgradeEvent::ExtractFailed(reason) => UpgradeState::Failed(
                    UpgradeError::Extract(reason),
                ),
                _ => UpgradeState::Extracting { latest, archive },
            },
            UpgradeState::Finished(outcome) => UpgradeState::Finished(outcome),
            UpgradeState::Failed(e) => UpgradeState::Failed(e),
        }
    }
}

} // verus!
