//! Resolving a version to its document and client jar: what is read from
//! the cache, what is fetched, and in which order.

use vstd::prelude::*;
use crate::fetch::{FetchItem, FetchItemView, FileCheck, FileCheckView};
use crate::layout::{
    version_jar_path, version_jar_path_spec, version_spec_path, version_spec_path_spec,
};
use crate::manifest::{MinecraftVersion, MinecraftVersionView};
use crate::version::{VersionSpec, VersionSpecView};

verus! {

/// The kinds of failure that end a resolution; each is reported as what it
/// is.
#[derive(Clone, Copy, Debug, PartialEq, Eq, Structural)]
pub enum FailureKind {
    /// A document is not well-formed.
    Parse,
    /// A host could not be reached, or refused.
    Network,
    /// The file system refused a read or a write.
    Io,
}

/// Where a resolution stands.
#[derive(Clone, Copy, Debug, PartialEq, Eq, Structural)]
pub enum ResolverState {
    /// It is not yet known whether the document is cached.
    Probing,
    /// No document is cached; it is being fetched and stored.
    NotCached,
    /// A cached document is being read. Its presence makes it valid.
    CachedValid,
    /// The client jar of a cached document is being checked.
    CheckingJar,
    /// The client jar is being fetched: `stale` where a cached jar was found
    /// invalid, not where the version was new.
    FetchingJar { stale: bool },
    /// The document is parsed and the client jar is in place; `refetched`
    /// where the jar had to be fetched again.
    Ready { refetched: bool },
    /// The resolution has failed.
    Failed(FailureKind),
}

/// What the outside world reports to a resolution.
#[derive(Clone, Copy, Debug, PartialEq, Eq, Structural)]
pub enum ResolverEvent {
    /// No document is cached for the version.
    SpecMissing,
    /// A document is cached for the version.
    SpecPresent,
    /// The document has been obtained and parsed.
    SpecParsed,
    /// The integrity check of the client jar has been made.
    JarChecked { valid: bool },
    /// The client jar has been fetched and stored.
    JarStored,
    /// Something failed.
    Failure(FailureKind),
}

/// What a resolution asks the outside world to do next.
#[derive(Clone, Copy, Debug, PartialEq, Eq, Structural)]
pub enum ResolverAction {
    /// Create the version's directory, fetch the document, store it as it
    /// came, and parse it.
    FetchSpec,
    /// Read the cached document and parse it.
    ReadSpec,
    /// Check the client jar against the document's descriptor.
    CheckJar,
    /// Fetch the client jar and store it.
    FetchJar,
    /// Hand the document on.
    Finish,
    /// Give up with the failure.
    Abort(FailureKind),
}

/// Whether a resolution has come to an end.
pub open spec fn is_final(state: ResolverState) -> bool {
    state is Ready || state is Failed
}

/// The transition of a resolution: the next state and what to do, or
/// nothing where the event does not fit the state. A missing document is
/// fetched and its jar after it, unchecked. A cached document is read and
/// its jar checked; only an invalid jar is fetched again, the document
/// never. A failure ends any resolution that has not ended.
pub open spec fn transition(state: ResolverState, event: ResolverEvent) -> Option<
    (ResolverState, ResolverAction),
> {
    match (state, event) {
        (ResolverState::Probing, ResolverEvent::SpecMissing) => Some(
            (ResolverState::NotCached, ResolverAction::FetchSpec),
        ),
        (ResolverState::Probing, ResolverEvent::SpecPresent) => Some(
            (ResolverState::CachedValid, ResolverAction::ReadSpec),
        ),
        (ResolverState::NotCached, ResolverEvent::SpecParsed) => Some(
            (ResolverState::FetchingJar { stale: false }, ResolverAction::FetchJar),
        ),
        (ResolverState::CachedValid, ResolverEvent::SpecParsed) => Some(
            (ResolverState::CheckingJar, ResolverAction::CheckJar),
        ),
        (ResolverState::CheckingJar, ResolverEvent::JarChecked { valid }) => if valid {
            Some((ResolverState::Ready { refetched: false }, ResolverAction::Finish))
        } else {
            Some((ResolverState::FetchingJar { stale: true }, ResolverAction::FetchJar))
        },
        (ResolverState::FetchingJar { stale }, ResolverEvent::JarStored) => Some(
            (ResolverState::Ready { refetched: stale }, ResolverAction::Finish),
        ),
        (_, ResolverEvent::Failure(kind)) => if is_final(state) {
            None
        } else {
            Some((ResolverState::Failed(kind), ResolverAction::Abort(kind)))
        },
        _ => None,
    }
}

/// Takes one step of a resolution.
pub fn resolver_step(state: ResolverState, event: ResolverEvent) -> (next: Option<
    (ResolverState, ResolverAction),
>)
    ensures
        next == transition(state, event),
{
    match event {
        ResolverEvent::Failure(kind) => match state {
            ResolverState::Ready { refetched: _ } => None,
            ResolverState::Failed(_) => None,
            _ => Some((ResolverState::Failed(kind), ResolverAction::Abort(kind))),
        },
        ResolverEvent::SpecMissing => match state {
            ResolverState::Probing => Some((ResolverState::NotCached, ResolverAction::FetchSpec)),
            _ => None,
        },
        ResolverEvent::SpecPresent => match state {
            ResolverState::Probing => Some((ResolverState::CachedValid, ResolverAction::ReadSpec)),
            _ => None,
        },
        ResolverEvent::SpecParsed => match state {
            ResolverState::NotCached => Some(
                (ResolverState::FetchingJar { stale: false }, ResolverAction::FetchJar),
            ),
            ResolverState::CachedValid => Some(
                (ResolverState::CheckingJar, ResolverAction::CheckJar),
            ),
            _ => None,
        },
        ResolverEvent::JarChecked { valid } => match state {
            ResolverState::CheckingJar => if valid {
                Some((ResolverState::Ready { refetched: false }, ResolverAction::Finish))
            } else {
                Some((ResolverState::FetchingJar { stale: true }, ResolverAction::FetchJar))
            },
            _ => None,
        },
        ResolverEvent::JarStored => match state {
            ResolverState::FetchingJar { stale } => Some(
                (ResolverState::Ready { refetched: stale }, ResolverAction::Finish),
            ),
            _ => None,
        },
    }
}

/// The document is fetched only where none is cached: a cached document is
/// never fetched again, whatever becomes of its jar.
pub proof fn lemma_cached_document_is_kept(state: ResolverState, event: ResolverEvent)
    ensures
        (transition(state, event) matches Some(next) && next.1 == ResolverAction::FetchSpec) <==> (
        state == ResolverState::Probing && event == ResolverEvent::SpecMissing),
{
}

/// The client jar is fetched in two cases only: the document was just
/// fetched, or the jar of a cached document failed its check.
pub proof fn lemma_jar_fetched_when_new_or_invalid(state: ResolverState, event: ResolverEvent)
    ensures
        (transition(state, event) matches Some(next) && next.1 == ResolverAction::FetchJar) <==> ((
        state == ResolverState::NotCached && event == ResolverEvent::SpecParsed) || (state
            == ResolverState::CheckingJar && event == ResolverEvent::JarChecked { valid: false })),
{
}

/// A failure ends every resolution that has not ended, and is handed on as
/// the kind it is.
pub proof fn lemma_failures_stay_distinct(state: ResolverState, kind: FailureKind)
    requires
        !is_final(state),
    ensures
        transition(state, ResolverEvent::Failure(kind)) == Some(
            (ResolverState::Failed(kind), ResolverAction::Abort(kind)),
        ),
{
}

/// No step leads out of a state in which the resolution has ended.
pub proof fn lemma_final_states_stay(state: ResolverState, event: ResolverEvent)
    requires
        is_final(state),
    ensures
        transition(state, event) is None,
{
}

/// How many steps a resolution in the given state has before it at most.
pub open spec fn steps_left(state: ResolverState) -> nat {
    match state {
        ResolverState::Probing => 4,
        ResolverState::NotCached => 2,
        ResolverState::CachedValid => 3,
        ResolverState::CheckingJar => 2,
        ResolverState::FetchingJar { stale: _ } => 1,
        ResolverState::Ready { refetched: _ } => 0,
        ResolverState::Failed(_) => 0,
    }
}

/// Every step brings a resolution nearer to its end: no resolution takes
/// more than four steps, and none goes round in circles.
pub proof fn lemma_resolution_ends(state: ResolverState, event: ResolverEvent)
    ensures
        transition(state, event) matches Some(next) ==> steps_left(next.0) < steps_left(state),
        steps_left(state) == 0 <==> is_final(state),
{
}

/// The download of a version's document into the cache.
pub open spec fn document_fetch_spec(root: Seq<char>, version: MinecraftVersionView)
    -> FetchItemView {
    FetchItemView {
        destination: version_spec_path_spec(root, version.id),
        url: version.url,
        label: version.id,
    }
}

/// The check of a version's client jar.
pub open spec fn client_jar_check_spec(root: Seq<char>, version: VersionSpecView)
    -> FileCheckView {
    FileCheckView {
        path: version_jar_path_spec(root, version.id),
        sha1: version.downloads.client.sha1,
        size: version.downloads.client.size,
        url: version.downloads.client.url,
        label: version.id,
    }
}

/// The download of a version's document: from the address the manifest
/// gives, into the version's directory.
pub fn document_fetch(minecraft_path: &str, version: &MinecraftVersion) -> (item:
    FetchItem)
    ensures
        item@ == document_fetch_spec(minecraft_path@, version@),
{
    FetchItem {
        destination: version_spec_path(minecraft_path, version.id.as_str()),
        url: version.url.clone(),
        label: version.id.clone(),
    }
}

/// The check of a version's client jar: in the version's directory, with
/// the size and digest of the document's client download. Its download is
/// the one that brings the jar.
pub fn client_jar_check(minecraft_path: &str, version: &VersionSpec) -> (check: FileCheck)
    ensures
        check@ == client_jar_check_spec(minecraft_path@, version@),
{
    FileCheck {
        path: version_jar_path(minecraft_path, version.id.as_str()),
        sha1: version.downloads.client.sha1.clone(),
        size: version.downloads.client.size,
        url: version.downloads.client.url.clone(),
        label: version.id.clone(),
    }
}

} // verus!
