//! The guarantees the provisioning machine gives across its steps,
//! stated and proved against the transition relation [`step_post`].

use vstd::prelude::*;

use crate::platform::{spec_archive_kind, spec_asset_index, supported};
use crate::provision::{
    resolves_binary, step_post, Action, Event, Provisioner, State,
};

verus! {

/// When the stored marker content equals the fetched version, the step
/// emits neither a marker write nor a download: the machine goes
/// straight to marking the platform's binary executable.
pub proof fn lemma_up_to_date_skips_update(
    pre: Provisioner,
    content: String,
    post: Provisioner,
    action: Option<Action>,
)
    requires
        pre.state matches State::ReadingMarker { version, .. } && content@ == version@,
        step_post(pre, Event::MarkerRead { content }, post, action),
    ensures
        resolves_binary(pre.os, pre.arch, post.state, action),
        !(action matches Some(Action::WriteMarker { .. })),
        !(action matches Some(Action::Download { .. })),
{
}

/// Once the machine has moved past the update phase — it is marking
/// the binary executable, finished, or failed — no later step, on any
/// event, can emit a marker write or a download.
pub proof fn lemma_no_update_after_resolution(
    pre: Provisioner,
    event: Event,
    post: Provisioner,
    action: Option<Action>,
)
    requires
        pre.state is MarkingExecutable || pre.state is Finished || pre.state is Failed,
        step_post(pre, event, post, action),
    ensures
        post.state is MarkingExecutable || post.state is Finished || post.state is Failed,
        !(action matches Some(Action::WriteMarker { .. })),
        !(action matches Some(Action::Download { .. })),
{
}

/// When the stored marker content differs from the fetched version,
/// the step's one action overwrites the marker file with the fetched
/// version; the step emits no download, so the write always precedes
/// any download attempt.
pub proof fn lemma_stale_marker_writes_version(
    pre: Provisioner,
    content: String,
    post: Provisioner,
    action: Option<Action>,
)
    requires
        pre.state matches State::ReadingMarker { version, .. } && content@ != version@,
        step_post(pre, Event::MarkerRead { content }, post, action),
    ensures
        post.state is WritingMarker,
        pre.state matches State::ReadingMarker { version, .. } ==> (action matches Some(
            Action::WriteMarker { file, contents },
        ) && file@ == "lsp_ver"@ && contents == version),
        !(action matches Some(Action::Download { .. })),
{
}

/// A download action is emitted only by the step that is fed a
/// successful marker write: the new version is persisted before any
/// download is attempted.
pub proof fn lemma_download_only_after_write(
    pre: Provisioner,
    event: Event,
    post: Provisioner,
    action: Option<Action>,
)
    requires
        step_post(pre, event, post, action),
        action matches Some(Action::Download { .. }),
    ensures
        pre.state is WritingMarker,
        event is MarkerWritten,
{
}

/// On a supported platform, the download that follows the marker write
/// takes the platform's asset URL out of the release's asset list and
/// its archive format out of the fixed table.
pub proof fn lemma_supported_platform_download(
    pre: Provisioner,
    post: Provisioner,
    action: Option<Action>,
)
    requires
        pre.state is WritingMarker,
        supported(pre.os, pre.arch),
        step_post(pre, Event::MarkerWritten, post, action),
    ensures
        post.state is Downloading,
        pre.state matches State::WritingMarker { asset_urls } ==> (action matches Some(
            Action::Download { url, directory, archive },
        ) && url == asset_urls@[spec_asset_index(pre.os, pre.arch)] && directory@ == "c3lsp/"@
            && archive == spec_archive_kind(pre.os, pre.arch)),
{
}

/// The download's outcome is ignored: successful or not, the machine
/// proceeds identically to marking the binary executable.
pub proof fn lemma_download_outcome_ignored(
    pre: Provisioner,
    success: bool,
    post: Provisioner,
    action: Option<Action>,
)
    requires
        pre.state is Downloading,
        step_post(pre, Event::DownloadFinished { success }, post, action),
    ensures
        resolves_binary(pre.os, pre.arch, post.state, action),
{
}

/// A missing marker file is created empty, and empty content is
/// unequal to any non-empty fetched version, so the first run performs
/// exactly one update cycle: the marker is created, then overwritten
/// with the fetched version.
pub proof fn lemma_missing_marker_forces_update(
    pre: Provisioner,
    post1: Provisioner,
    a1: Option<Action>,
    post2: Provisioner,
    a2: Option<Action>,
)
    requires
        pre.state matches State::OpeningMarker { version, .. } && version@.len() > 0,
        step_post(pre, Event::MarkerMissing, post1, a1),
        step_post(post1, Event::MarkerCreated, post2, a2),
    ensures
        a1 matches Some(Action::CreateMarker { file }) && file@ == "lsp_ver"@,
        post2.state is WritingMarker,
        pre.state matches State::OpeningMarker { version, .. } ==> (a2 matches Some(
            Action::WriteMarker { file, contents },
        ) && file@ == "lsp_ver"@ && contents == version),
{
    assert(Seq::<char>::empty().len() == 0);
}

/// On an unsupported platform the update step downloads nothing, and
/// the path handed on for execution is the sentinel, not a real path.
pub proof fn lemma_unsupported_platform_skips_download(
    pre: Provisioner,
    post: Provisioner,
    action: Option<Action>,
)
    requires
        !supported(pre.os, pre.arch),
        pre.state is WritingMarker,
        step_post(pre, Event::MarkerWritten, post, action),
    ensures
        !(action matches Some(Action::Download { .. })),
        post.state matches State::MarkingExecutable { path } && path@ == "no available lsp!"@,
{
}

/// A failed release fetch skips the whole update: the machine neither
/// touches the marker file nor downloads anything, and goes straight
/// to resolving and marking whatever binary is already on disk.
pub proof fn lemma_fetch_failure_skips_update(
    pre: Provisioner,
    post: Provisioner,
    action: Option<Action>,
)
    requires
        pre.state is FetchingRelease,
        step_post(pre, Event::ReleaseUnavailable, post, action),
    ensures
        resolves_binary(pre.os, pre.arch, post.state, action),
        !(action matches Some(Action::WriteMarker { .. })),
        !(action matches Some(Action::Download { .. })),
        !(action matches Some(Action::OpenMarker { .. })),
        !(action matches Some(Action::CreateMarker { .. })),
{
}

} // verus!
