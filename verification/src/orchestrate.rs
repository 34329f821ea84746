use vstd::prelude::*;
use crate::errors::CloneError;
use crate::resolve::{PackageSummary, select_latest};
use crate::version::{SemVer, valid_version, version_repr, parse_version, version_lt};

verus! {

/// Which kind of package source an identity names.  Only registry
/// sources are functional; the other kinds are recognized and refused
/// explicitly rather than silently ignored.
#[derive(Clone, Copy, Debug, PartialEq, Eq, Structural)]
pub enum SourceKind {
    Registry,
    Path,
    VersionControl,
}

/// Identifies a package source: its kind and its location.
pub struct SourceIdentity {
    pub kind: SourceKind,
    pub location: String,
}

impl SourceIdentity {
    /// An equal identity: same kind, same location.
    pub fn duplicate(&self) -> (r: SourceIdentity)
        ensures
            r.kind == self.kind,
            r.location@ == self.location@,
    {
        SourceIdentity { kind: self.kind, location: self.location.clone() }
    }
}

/// The resolved (name, exact version, source) triple; the version is
/// concrete, never a range.
pub struct PackageIdentity {
    pub name: String,
    pub version: SemVer,
    pub source: SourceIdentity,
}

/// Stage the orchestration has reached.
#[derive(Clone, Copy, Debug, PartialEq, Eq, Structural)]
pub enum Phase {
    Refreshing,
    Querying,
    Downloading,
    CheckingDestination,
    Materializing,
    Done,
    Failed,
}

/// The next outside step the caller must perform on the machine's
/// behalf.  The machine itself touches neither network nor filesystem.
pub enum StepAction {
    /// Update the source's local index.
    Refresh,
    /// Ask the source for every published version of the package.
    Query,
    /// Fetch and extract the artifact of exactly this identity.
    Download(PackageIdentity),
    /// Join this artifact name to the destination prefix and report
    /// whether that directory already exists.
    CheckDestination(String),
    /// Copy the artifact tree to the destination under the copy plan.
    Materialize,
    /// Nothing is left to do.
    Finished,
}

/// The outcome of one outside step, fed back into the machine.
pub enum StepEvent {
    /// Whether the index refresh succeeded.
    Refreshed { ok: bool },
    /// The summaries the query returned for the package name.
    Queried { summaries: Vec<PackageSummary> },
    /// The query itself failed.
    QueryFailed,
    /// The artifact was downloaded and fully extracted; its package name.
    Downloaded { artifact_name: String },
    /// The download failed; whether because the exact version no longer
    /// exists at the source.
    DownloadFailed { not_found: bool },
    /// Whether the destination directory already exists.
    DestinationChecked { present: bool },
    /// Whether the copy of the artifact tree completed.
    Materialized { ok: bool },
}

/// Which events can answer which phase.
pub open spec fn event_matches(p: Phase, e: StepEvent) -> bool {
    match e {
        StepEvent::Refreshed { .. } => p is Refreshing,
        StepEvent::Queried { .. } => p is Querying,
        StepEvent::QueryFailed => p is Querying,
        StepEvent::Downloaded { .. } => p is Downloading,
        StepEvent::DownloadFailed { .. } => p is Downloading,
        StepEvent::DestinationChecked { .. } => p is CheckingDestination,
        StepEvent::Materialized { .. } => p is Materializing,
    }
}

/// A failed or finished run accepts no further event: the first failure
/// aborts the whole operation, and no later stage can ever be driven.
pub proof fn lemma_failure_is_final(e: StepEvent)
    ensures
        !event_matches(Phase::Failed, e),
        !event_matches(Phase::Done, e),
{
}

/// Sequences resolution, download and materialization.  It owns no
/// network or filesystem handle: it hands the caller one `StepAction` at
/// a time and consumes the outcome as a `StepEvent`.
pub struct Orchestrator {
    /// The requested package name; never empty.
    pub name: String,
    /// The source the package comes from; always a registry.
    pub source: SourceIdentity,
    /// The explicit version string, when one was supplied.
    pub requested: Option<String>,
    /// The resolved concrete version, once resolution has happened.
    pub resolved: Option<SemVer>,
    /// Stage reached.
    pub phase: Phase,
}

impl Orchestrator {
    /// Internal consistency: the machine exists only for a named package
    /// on a registry source; a version is resolved from the downloading
    /// stage on; a query is only ever pending when no explicit version
    /// was requested; an explicit version resolves to its own reading.
    pub open spec fn inv(self) -> bool {
        &&& self.name@.len() > 0
        &&& self.source.kind is Registry
        &&& (self.phase is Downloading || self.phase is CheckingDestination || self.phase
            is Materializing || self.phase is Done ==> self.resolved is Some)
        &&& (self.phase is Querying ==> self.requested is None)
        &&& (self.requested matches Some(s) ==> (self.resolved matches Some(v) ==> version_repr(
            s@,
            v,
        )))
    }

    /// Begin one invocation.  An absent or empty package name and a
    /// non-registry source are refused here, before any network step is
    /// handed out; otherwise the machine starts by asking for a refresh.
    pub fn start(name: Option<String>, source: SourceIdentity, requested: Option<String>) -> (r:
        Result<Orchestrator, CloneError>)
        ensures
            r is Ok <==> (name matches Some(n) && n@.len() > 0 && source.kind is Registry),
            name is None || (name matches Some(n) && n@.len() == 0) ==> (r matches Err(e) && e
                == CloneError::MissingPackageName),
            name matches Some(n) && n@.len() > 0 && !(source.kind is Registry) ==> (r matches Err(
                e,
            ) && e == CloneError::UnsupportedSourceKind),
            r matches Ok(m) ==> {
                &&& m.inv()
                &&& (name matches Some(n) && m.name == n)
                &&& m.source == source
                &&& m.requested == requested
                &&& m.resolved is None
                &&& m.phase is Refreshing
            },
    {
        let name = match name {
            None => {
                return Err(CloneError::MissingPackageName);
            },
            Some(n) => n,
        };
        if name.as_str().is_empty() {
            return Err(CloneError::MissingPackageName);
        }
        match source.kind {
            SourceKind::Registry => {},
            _ => {
                return Err(CloneError::UnsupportedSourceKind);
            },
        }
        Ok(Orchestrator { name, source, requested, resolved: None, phase: Phase::Refreshing })
    }

    /// Consume the outcome of the pending outside step and hand out the
    /// next one.  The first failure moves the machine to `Failed`, where
    /// no event is accepted any more: later stages are never attempted.
    ///
    /// Resolution happens here: an explicit version string is parsed and,
    /// when valid, goes straight to download -- the source is never
    /// queried for other versions -- while the absence of one turns into
    /// a query whose answer is resolved to its greatest version.
    pub fn step(&mut self, e: StepEvent) -> (r: Result<StepAction, CloneError>)
        requires
            old(self).inv(),
            event_matches(old(self).phase, e),
            // the query's answer is already filtered to the requested
            // package name; the resolver states this as a precondition
            // rather than assuming it
            e matches StepEvent::Queried { summaries } ==> forall|k: int|
                0 <= k < summaries@.len() ==> (#[trigger] summaries@[k]).name@ == old(
                    self,
                ).name@,
        ensures
            final(self).inv(),
            final(self).name@ == old(self).name@,
            final(self).source == old(self).source,
            final(self).requested == old(self).requested,
            r is Err <==> final(self).phase is Failed,
            e matches StepEvent::Refreshed { ok } && !ok ==> (r matches Err(err) && err
                == CloneError::SourceUnavailable),
            e matches StepEvent::Refreshed { ok } && ok && old(self).requested is None ==> (r
                matches Ok(a) && a is Query && final(self).phase is Querying),
            e matches StepEvent::Refreshed { ok } && ok ==> (old(self).requested matches Some(s)
                ==> {
                &&& valid_version(s@) ==> (r matches Ok(a) && a matches StepAction::Download(id)
                    && id.name@ == old(self).name@ && version_repr(s@, id.version)
                    && id.source.kind == old(self).source.kind && id.source.location@ == old(
                    self,
                ).source.location@ && final(self).phase is Downloading && final(self).resolved
                    == Some(id.version))
                &&& !valid_version(s@) ==> (r matches Err(err) && err == CloneError::InvalidVersion)
            }),
            e matches StepEvent::QueryFailed ==> (r matches Err(err) && err
                == CloneError::SourceUnavailable),
            e matches StepEvent::Queried { summaries } ==> {
                &&& summaries@.len() == 0 ==> (r matches Err(err) && err
                    == CloneError::PackageNotFound)
                &&& summaries@.len() > 0 ==> (r matches Ok(a) && a matches StepAction::Download(id)
                    && id.name@ == old(self).name@ && id.source.kind == old(self).source.kind
                    && id.source.location@ == old(self).source.location@ && final(self).phase
                    is Downloading && final(self).resolved == Some(id.version) && (exists|k0: int|
                    {
                        &&& 0 <= k0 < summaries@.len()
                        &&& id.version == #[trigger] summaries@[k0].version
                        &&& forall|k: int|
                            0 <= k < k0 ==> version_lt(
                                #[trigger] summaries@[k].version,
                                id.version,
                            )
                    }) && (forall|k: int|
                    0 <= k < summaries@.len() ==> !version_lt(
                        id.version,
                        #[trigger] summaries@[k].version,
                    )))
            },
            e matches StepEvent::Downloaded { artifact_name } ==> (r matches Ok(a) && a matches
                StepAction::CheckDestination(nm) && nm@ == artifact_name@ && final(self).phase
                is CheckingDestination),
            e matches StepEvent::DownloadFailed { not_found } ==> (r matches Err(err) && (not_found
                ==> err == CloneError::PackageNotFound) && (!not_found ==> err
                == CloneError::DownloadFailed)),
            e matches StepEvent::DestinationChecked { present } ==> {
                &&& present ==> (r matches Err(err) && err == CloneError::DestinationExists)
                &&& !present ==> (r matches Ok(a) && a is Materialize && final(self).phase
                    is Materializing)
            },
            e matches StepEvent::Materialized { ok } ==> {
                &&& ok ==> (r matches Ok(a) && a is Finished && final(self).phase is Done)
                &&& !ok ==> (r matches Err(err) && err == CloneError::CopyFailed)
            },
    {
        match e {
            StepEvent::Refreshed { ok } => {
                if !ok {
                    self.phase = Phase::Failed;
                    return Err(CloneError::SourceUnavailable);
                }
                let parsed: Option<Result<SemVer, CloneError>> = match &self.requested {
                    None => None,
                    Some(s) => Some(parse_version(s.as_str())),
                };
                match parsed {
                    None => {
                        self.phase = Phase::Querying;
                        Ok(StepAction::Query)
                    },
                    Some(Ok(v)) => {
                        self.resolved = Some(v);
                        self.phase = Phase::Downloading;
                        Ok(StepAction::Download(PackageIdentity {
                            name: self.name.clone(),
                            version: v,
                            source: self.source.duplicate(),
                        }))
                    },
                    Some(Err(_)) => {
                        self.phase = Phase::Failed;
                        Err(CloneError::InvalidVersion)
                    },
                }
            },
            StepEvent::QueryFailed => {
                self.phase = Phase::Failed;
                Err(CloneError::SourceUnavailable)
            },
            StepEvent::Queried { summaries } => {
                match select_latest(&summaries) {
                    None => {
                        self.phase = Phase::Failed;
                        Err(CloneError::PackageNotFound)
                    },
                    Some(idx) => {
                        let v: SemVer = summaries[idx].version;
                        self.resolved = Some(v);
                        self.phase = Phase::Downloading;
                        Ok(StepAction::Download(PackageIdentity {
                            name: self.name.clone(),
                            version: v,
                            source: self.source.duplicate(),
                        }))
                    },
                }
            },
            StepEvent::Downloaded { artifact_name } => {
                self.phase = Phase::CheckingDestination;
                Ok(StepAction::CheckDestination(artifact_name))
            },
            StepEvent::DownloadFailed { not_found } => {
                self.phase = Phase::Failed;
                if not_found {
                    Err(CloneError::PackageNotFound)
                } else {
                    Err(CloneError::DownloadFailed)
                }
            },
            StepEvent::DestinationChecked { present } => {
                if present {
                    self.phase = Phase::Failed;
                    Err(CloneError::DestinationExists)
                } else {
                    self.phase = Phase::Materializing;
                    Ok(StepAction::Materialize)
                }
            },
            StepEvent::Materialized { ok } => {
                if ok {
                    self.phase = Phase::Done;
                    Ok(StepAction::Finished)
                } else {
                    self.phase = Phase::Failed;
                    Err(CloneError::CopyFailed)
                }
            },
        }
    }
}

} // verus!
