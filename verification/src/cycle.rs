//! One update cycle as a step-by-step state machine.
//!
//! A cycle fetches the feed, parses it, selects the newest entry, resolves
//! the entry's image URL, downloads the image, writes it to the fixed
//! temporary file, and asks the platform to apply it as the wallpaper. The
//! machine here makes every decision of that sequence; the driver performs
//! the network, parse, file and platform work and reports each outcome back
//! as a [`CycleEvent`], receiving the next [`CycleAction`] in return.
//!
//! The wallpaper call is best-effort by design: its failure is reported,
//! but the cycle still ends successfully once the file has been written.

use vstd::prelude::*;

use crate::feed::Feed;
use crate::urlnorm::{normalize_scheme, normalized_url, url_is_valid, url_parses};

verus! {

/// Why an update cycle failed.
#[derive(Clone, Copy, Debug, PartialEq, Eq, Structural)]
pub enum CycleError {
    /// The feed or image host could not be reached at all.
    Transport,
    /// A response arrived with a non-success HTTP status.
    Status(u16),
    /// The feed markup or the enclosure URL was malformed.
    Parse,
    /// The feed was well-formed but held no entries.
    Absence,
    /// The temporary file could not be written.
    Io,
}

/// Where the machine stands within one cycle.
#[derive(Clone, Copy, Debug)]
pub enum CyclePhase {
    /// No cycle is underway; `begin` starts one.
    Ready,
    /// The feed request is out.
    AwaitingFeed,
    /// The feed body is being parsed.
    AwaitingParse,
    /// The image request is out.
    AwaitingImage,
    /// The image bytes are being written to the temporary file.
    AwaitingWrite,
    /// The platform is applying the wallpaper.
    AwaitingWallpaper,
    /// The cycle is over, with this outcome.
    Finished { outcome: Result<(), CycleError> },
}

/// The outcome of one piece of outside work, reported by the driver.
#[derive(Debug)]
pub enum CycleEvent {
    /// The feed request completed with this status and body.
    FeedResponse { status: u16, body: String },
    /// The feed request failed at the transport level.
    FeedTransportFailed,
    /// The feed body parsed into a feed record.
    FeedParsed { feed: Feed },
    /// The feed body was malformed.
    FeedParseFailed,
    /// The image request completed with this status and body.
    ImageResponse { status: u16, bytes: Vec<u8> },
    /// The image request failed at the transport level.
    ImageTransportFailed,
    /// The image bytes were written to the temporary file.
    FileWritten,
    /// Writing the temporary file failed.
    FileWriteFailed,
    /// The platform accepted the wallpaper.
    WallpaperSet,
    /// The platform rejected the wallpaper (best-effort: not a cycle failure).
    WallpaperFailed,
}

/// The next piece of outside work the driver is asked to perform.
#[derive(Debug)]
pub enum CycleAction {
    /// Issue an HTTP GET for the feed, identifying as `user_agent`.
    FetchFeed { url: String, user_agent: String },
    /// Parse this body as feed markup.
    ParseFeed { body: String },
    /// Issue an HTTP GET for the resolved image URL, identifying as `user_agent`.
    FetchImage { url: String, user_agent: String },
    /// Create or truncate the fixed temporary file and write these bytes to it.
    WriteFile { bytes: Vec<u8> },
    /// Ask the platform to apply the temporary file as the wallpaper.
    SetWallpaper,
    /// The cycle is over; report this outcome.
    Finish { outcome: Result<(), CycleError> },
}

/// The machine driving one update cycle.
///
/// `file` is the model of the fixed temporary file's content: `None` while
/// nothing is known to have been written, `Some(bytes)` once a write
/// succeeded. A successful write replaces the content entirely, whatever
/// was there before (the file is truncated on open).
pub struct CycleMachine {
    /// The fixed feed URL every cycle fetches.
    pub feed_url: String,
    /// The fixed client identifier sent with every request.
    pub user_agent: String,
    /// Where the machine stands.
    pub phase: CyclePhase,
    /// Model of the temporary file's content.
    pub file: Ghost<Option<Seq<u8>>>,
    /// The image bytes handed out for writing, remembered until the write
    /// is confirmed.
    pub pending: Ghost<Seq<u8>>,
}

/// Which events the driver may report in which phase: each phase that waits
/// on outside work accepts exactly the two outcomes of that work.
pub open spec fn event_fits(phase: CyclePhase, event: CycleEvent) -> bool {
    match (phase, event) {
        (CyclePhase::AwaitingFeed, CycleEvent::FeedResponse { .. }) => true,
        (CyclePhase::AwaitingFeed, CycleEvent::FeedTransportFailed) => true,
        (CyclePhase::AwaitingParse, CycleEvent::FeedParsed { .. }) => true,
        (CyclePhase::AwaitingParse, CycleEvent::FeedParseFailed) => true,
        (CyclePhase::AwaitingImage, CycleEvent::ImageResponse { .. }) => true,
        (CyclePhase::AwaitingImage, CycleEvent::ImageTransportFailed) => true,
        (CyclePhase::AwaitingWrite, CycleEvent::FileWritten) => true,
        (CyclePhase::AwaitingWrite, CycleEvent::FileWriteFailed) => true,
        (CyclePhase::AwaitingWallpaper, CycleEvent::WallpaperSet) => true,
        (CyclePhase::AwaitingWallpaper, CycleEvent::WallpaperFailed) => true,
        _ => false,
    }
}

/// The machine's fixed configuration never changes across a step.
pub open spec fn config_kept(pre: CycleMachine, post: CycleMachine) -> bool {
    &&& post.feed_url@ == pre.feed_url@
    &&& post.user_agent@ == pre.user_agent@
}

/// The shape of an aborting step: the cycle finishes with error `e`, the
/// driver is told to do nothing but report it, and the file is untouched.
pub open spec fn aborted(
    pre: CycleMachine,
    post: CycleMachine,
    action: CycleAction,
    e: CycleError,
) -> bool {
    &&& post.phase matches CyclePhase::Finished { outcome } && outcome == Err::<(), CycleError>(e)
    &&& action matches CycleAction::Finish { outcome } && outcome == Err::<(), CycleError>(e)
    &&& post.file@ == pre.file@
}

/// The full transition relation of one step: from the machine `pre` and the
/// driver's `event` to the machine `post` and the requested `action`.
pub open spec fn step_spec(
    pre: CycleMachine,
    event: CycleEvent,
    post: CycleMachine,
    action: CycleAction,
) -> bool {
    &&& config_kept(pre, post)
    &&& match (pre.phase, event) {
        (CyclePhase::AwaitingFeed, CycleEvent::FeedResponse { status, body }) => {
            if status == 200 {
                &&& post.phase is AwaitingParse
                &&& action matches CycleAction::ParseFeed { body: b } && b@ == body@
                &&& post.file@ == pre.file@
            } else {
                aborted(pre, post, action, CycleError::Status(status))
            }
        },
        (CyclePhase::AwaitingFeed, CycleEvent::FeedTransportFailed) => {
            aborted(pre, post, action, CycleError::Transport)
        },
        (CyclePhase::AwaitingParse, CycleEvent::FeedParsed { feed }) => {
            if feed.entries@.len() == 0 {
                aborted(pre, post, action, CycleError::Absence)
            } else if !url_parses(feed.entries@[0].enclosure_url@) {
                aborted(pre, post, action, CycleError::Parse)
            } else {
                &&& post.phase is AwaitingImage
                &&& action matches CycleAction::FetchImage { url, user_agent }
                    && url@ == normalized_url(feed.entries@[0].enclosure_url@)
                    && user_agent@ == pre.user_agent@
                &&& post.file@ == pre.file@
            }
        },
        (CyclePhase::AwaitingParse, CycleEvent::FeedParseFailed) => {
            aborted(pre, post, action, CycleError::Parse)
        },
        (CyclePhase::AwaitingImage, CycleEvent::ImageResponse { status, bytes }) => {
            if status == 200 {
                &&& post.phase is AwaitingWrite
                &&& action matches CycleAction::WriteFile { bytes: b } && b@ == bytes@
                &&& post.pending@ == bytes@
                &&& post.file@ == pre.file@
            } else {
                aborted(pre, post, action, CycleError::Status(status))
            }
        },
        (CyclePhase::AwaitingImage, CycleEvent::ImageTransportFailed) => {
            aborted(pre, post, action, CycleError::Transport)
        },
        (CyclePhase::AwaitingWrite, CycleEvent::FileWritten) => {
            &&& post.phase is AwaitingWallpaper
            &&& action is SetWallpaper
            &&& post.file@ == Some(pre.pending@)
        },
        (CyclePhase::AwaitingWrite, CycleEvent::FileWriteFailed) => {
            // The file's content is unknown after a failed write, so nothing
            // is said of `post.file` here.
            &&& post.phase matches CyclePhase::Finished { outcome }
                && outcome == Err::<(), CycleError>(CycleError::Io)
            &&& action matches CycleAction::Finish { outcome }
                && outcome == Err::<(), CycleError>(CycleError::Io)
        },
        (CyclePhase::AwaitingWallpaper, CycleEvent::WallpaperSet) => {
            &&& post.phase matches CyclePhase::Finished { outcome }
                && outcome == Ok::<(), CycleError>(())
            &&& action matches CycleAction::Finish { outcome }
                && outcome == Ok::<(), CycleError>(())
            &&& post.file@ == pre.file@
        },
        (CyclePhase::AwaitingWallpaper, CycleEvent::WallpaperFailed) => {
            // Best-effort: the wallpaper call failed, yet the cycle succeeds
            // and the written file stays in place.
            &&& post.phase matches CyclePhase::Finished { outcome }
                && outcome == Ok::<(), CycleError>(())
            &&& action matches CycleAction::Finish { outcome }
                && outcome == Ok::<(), CycleError>(())
            &&& post.file@ == pre.file@
        },
        _ => false,
    }
}

impl CycleMachine {
    /// A fresh machine for the given feed URL and client identifier.
    pub fn new(feed_url: String, user_agent: String) -> (m: CycleMachine)
        ensures
            m.phase is Ready,
            m.feed_url@ == feed_url@,
            m.user_agent@ == user_agent@,
            m.file@ is None,
    {
        CycleMachine {
            feed_url,
            user_agent,
            phase: CyclePhase::Ready,
            file: Ghost(None),
            pending: Ghost(Seq::empty()),
        }
    }

    /// Starts a cycle: the driver is asked to fetch the feed at the fixed
    /// URL, identifying with the fixed client identifier.
    pub fn begin(&mut self) -> (a: CycleAction)
        requires
            old(self).phase is Ready,
        ensures
            final(self).phase is AwaitingFeed,
            a matches CycleAction::FetchFeed { url, user_agent }
                && url@ == old(self).feed_url@
                && user_agent@ == old(self).user_agent@,
            config_kept(*old(self), *final(self)),
            final(self).file@ == old(self).file@,
    {
        self.phase = CyclePhase::AwaitingFeed;
        CycleAction::FetchFeed {
            url: self.feed_url.clone(),
            user_agent: self.user_agent.clone(),
        }
    }

    /// Makes a finished machine ready for the next cycle; the file model
    /// carries over, since the temporary file outlives every cycle.
    pub fn reset(&mut self)
        requires
            old(self).phase matches CyclePhase::Finished { .. },
        ensures
            final(self).phase is Ready,
            config_kept(*old(self), *final(self)),
            final(self).file@ == old(self).file@,
    {
        self.phase = CyclePhase::Ready;
    }

    /// One step of the cycle: takes the outcome of the outside work the
    /// driver just performed, decides, and hands back the next action.
    /// The full transition relation is [`step_spec`].
    pub fn step(&mut self, event: CycleEvent) -> (a: CycleAction)
        requires
            event_fits(old(self).phase, event),
        ensures
            step_spec(*old(self), event, *final(self), a),
    {
        match event {
            CycleEvent::FeedResponse { status, body } => {
                if status == 200 {
                    self.phase = CyclePhase::AwaitingParse;
                    CycleAction::ParseFeed { body }
                } else {
                    self.abort(CycleError::Status(status))
                }
            },
            CycleEvent::FeedTransportFailed => self.abort(CycleError::Transport),
            CycleEvent::FeedParsed { feed } => {
                if feed.entries.len() == 0 {
                    self.abort(CycleError::Absence)
                } else {
                    let raw = &feed.entries[0].enclosure_url;
                    if url_is_valid(raw.as_str()) {
                        let url = normalize_scheme(raw.as_str());
                        let user_agent = self.user_agent.clone();
                        self.phase = CyclePhase::AwaitingImage;
                        CycleAction::FetchImage { url, user_agent }
                    } else {
                        self.abort(CycleError::Parse)
                    }
                }
            },
            CycleEvent::FeedParseFailed => self.abort(CycleError::Parse),
            CycleEvent::ImageResponse { status, bytes } => {
                if status == 200 {
                    self.pending = Ghost(bytes@);
                    self.phase = CyclePhase::AwaitingWrite;
                    CycleAction::WriteFile { bytes }
                } else {
                    self.abort(CycleError::Status(status))
                }
            },
            CycleEvent::ImageTransportFailed => self.abort(CycleError::Transport),
            CycleEvent::FileWritten => {
                self.file = Ghost(Some(self.pending@));
                self.phase = CyclePhase::AwaitingWallpaper;
                CycleAction::SetWallpaper
            },
            CycleEvent::FileWriteFailed => self.abort(CycleError::Io),
            CycleEvent::WallpaperSet => {
                self.phase = CyclePhase::Finished { outcome: Ok(()) };
                CycleAction::Finish { outcome: Ok(()) }
            },
            CycleEvent::WallpaperFailed => {
                self.phase = CyclePhase::Finished { outcome: Ok(()) };
                CycleAction::Finish { outcome: Ok(()) }
            },
        }
    }

    /// Ends the cycle with the given error, leaving the file untouched.
    fn abort(&mut self, e: CycleError) -> (a: CycleAction)
        ensures
            aborted(*old(self), *final(self), a, e),
            config_kept(*old(self), *final(self)),
            final(self).pending@ == old(self).pending@,
    {
        self.phase = CyclePhase::Finished { outcome: Err(e) };
        CycleAction::Finish { outcome: Err(e) }
    }
}

/// Law: once a cycle has finished, the machine accepts no further event;
/// in particular no fetch, parse, write or wallpaper work follows.
pub proof fn lemma_finished_is_terminal(m: CycleMachine)
    requires
        m.phase matches CyclePhase::Finished { .. },
    ensures
        forall|e: CycleEvent| !event_fits(m.phase, e),
{
}

/// Law: a non-success status on the feed request ends the cycle with that
/// status error; the machine asks for no parse and no image fetch, the file
/// is untouched, and no further event is accepted.
pub proof fn lemma_feed_status_aborts(
    pre: CycleMachine,
    event: CycleEvent,
    post: CycleMachine,
    a: CycleAction,
)
    requires
        pre.phase is AwaitingFeed,
        event matches CycleEvent::FeedResponse { status, .. } && status != 200,
        step_spec(pre, event, post, a),
    ensures
        event matches CycleEvent::FeedResponse { status, .. } ==> aborted(
            pre,
            post,
            a,
            CycleError::Status(status),
        ),
        !(a matches CycleAction::ParseFeed { .. }),
        !(a matches CycleAction::FetchImage { .. }),
        post.file@ == pre.file@,
        forall|e: CycleEvent| !event_fits(post.phase, e),
{
}

/// Law: an empty feed ends the cycle with the absence error; the machine
/// asks for no image fetch and no write, the file is untouched, and no
/// further event is accepted.
pub proof fn lemma_empty_feed_aborts(
    pre: CycleMachine,
    event: CycleEvent,
    post: CycleMachine,
    a: CycleAction,
)
    requires
        pre.phase is AwaitingParse,
        event matches CycleEvent::FeedParsed { feed } && feed.entries@.len() == 0,
        step_spec(pre, event, post, a),
    ensures
        aborted(pre, post, a, CycleError::Absence),
        !(a matches CycleAction::FetchImage { .. }),
        !(a matches CycleAction::WriteFile { .. }),
        post.file@ == pre.file@,
        forall|e: CycleEvent| !event_fits(post.phase, e),
{
}

/// Law: a non-success status on the image request ends the cycle with that
/// status error; the machine asks for no file write and no wallpaper call,
/// the file is untouched, and no further event is accepted.
pub proof fn lemma_image_status_aborts(
    pre: CycleMachine,
    event: CycleEvent,
    post: CycleMachine,
    a: CycleAction,
)
    requires
        pre.phase is AwaitingImage,
        event matches CycleEvent::ImageResponse { status, .. } && status != 200,
        step_spec(pre, event, post, a),
    ensures
        event matches CycleEvent::ImageResponse { status, .. } ==> aborted(
            pre,
            post,
            a,
            CycleError::Status(status),
        ),
        !(a matches CycleAction::WriteFile { .. }),
        !(a is SetWallpaper),
        post.file@ == pre.file@,
        forall|e: CycleEvent| !event_fits(post.phase, e),
{
}

/// Law: the bytes a cycle writes are exactly the image response's body, and
/// once the write is confirmed the file holds exactly those bytes — no
/// transformation, no re-encoding.
pub proof fn lemma_file_matches_response(
    pre: CycleMachine,
    event: CycleEvent,
    mid: CycleMachine,
    a1: CycleAction,
    post: CycleMachine,
    a2: CycleAction,
)
    requires
        pre.phase is AwaitingImage,
        event matches CycleEvent::ImageResponse { status, .. } && status == 200,
        step_spec(pre, event, mid, a1),
        step_spec(mid, CycleEvent::FileWritten, post, a2),
    ensures
        event matches CycleEvent::ImageResponse { bytes, .. } ==> {
            &&& a1 matches CycleAction::WriteFile { bytes: b } && b@ == bytes@
            &&& post.file@ == Some(bytes@)
        },
{
}

/// Law: a new cycle's successful write replaces the file's previous content
/// entirely — whatever stood there before, of whatever length, the content
/// afterwards is exactly the new bytes (truncate-on-open semantics).
pub proof fn lemma_write_overwrites(
    prev: Seq<u8>,
    pre: CycleMachine,
    event: CycleEvent,
    mid: CycleMachine,
    a1: CycleAction,
    post: CycleMachine,
    a2: CycleAction,
)
    requires
        pre.file@ == Some(prev),
        pre.phase is AwaitingImage,
        event matches CycleEvent::ImageResponse { status, .. } && status == 200,
        step_spec(pre, event, mid, a1),
        step_spec(mid, CycleEvent::FileWritten, post, a2),
    ensures
        event matches CycleEvent::ImageResponse { bytes, .. } ==> {
            &&& post.file@ == Some(bytes@)
            &&& post.file@ matches Some(c) && c.len() == bytes@.len()
        },
{
}

/// Law: a failing wallpaper call is best-effort. The cycle still ends
/// successfully and the written file stays in place, exactly as after a
/// wallpaper call that worked.
pub proof fn lemma_wallpaper_failure_not_fatal(
    pre: CycleMachine,
    post: CycleMachine,
    a: CycleAction,
)
    requires
        pre.phase is AwaitingWallpaper,
        step_spec(pre, CycleEvent::WallpaperFailed, post, a),
    ensures
        post.phase matches CyclePhase::Finished { outcome } && outcome == Ok::<(), CycleError>(()),
        a matches CycleAction::Finish { outcome } && outcome == Ok::<(), CycleError>(()),
        post.file@ == pre.file@,
{
}

} // verus!
