//! The user-facing playback commands: where a requested track comes from,
//! and what play, skip and stop answer.
use vstd::prelude::*;
use crate::cache::{lookup_index, ContentCache};
use crate::disconnect::{armed_ticket, DisconnectScheduler};
use crate::download::{cached_file_path, cached_file_path_spec};
use crate::text::starts_with;

verus! {

/// Shown where a track's title is unknown.
pub const TITLE_NOT_FOUND: &'static str = "TITLE NOT FOUND";

/// Shown by skip where the current track's title is unknown.
pub const SKIP_TITLE_NOT_FOUND: &'static str = "[TITLE NOT FOUND]";

/// A text answer to a command, optionally visible to its caller alone.
pub struct Reply {
    pub content: String,
    pub ephemeral: bool,
}

pub open spec fn title_or(title: Option<String>, fallback: Seq<char>) -> Seq<char> {
    match title {
        Some(t) => t@,
        None => fallback,
    }
}

/// The title to show for a track: its own, else `fallback`.
pub fn title_or_fallback(title: &Option<String>, fallback: &str) -> (r: String)
    ensures
        r@ == title_or(*title, fallback@),
{
    match title {
        Some(t) => t.clone(),
        None => fallback.to_owned(),
    }
}

fn reply(prefix: &str, body: &str, ephemeral: bool) -> (r: Reply)
    ensures
        r.content@ == prefix@ + body@,
        r.ephemeral == ephemeral,
{
    let mut content = prefix.to_owned();
    content.append(body);
    Reply { content, ephemeral }
}

/// Whether a query is taken as a URL rather than a search.
pub open spec fn looks_like_url(q: Seq<char>) -> bool {
    "http"@.len() <= q.len() && q.subrange(0, "http"@.len() as int) == "http"@
}

/// Where the audio of a play request comes from.
pub enum SourcePlan {
    /// The cached file at `path`, shown with the cached title and URL.
    Cached { path: String, title: Option<String>, url: String },
    /// Resolved live: the query as a URL when `direct`, else a search.
    Live { direct: bool },
}

/// Chooses the source for `query`: its cached file under `home` when the
/// cache resolves it, else live resolution.
pub fn plan_source(cache: &ContentCache, query: &str, home: &str) -> (r: SourcePlan)
    ensures
        match lookup_index(cache@, query@) {
            Some(k) => r matches SourcePlan::Cached { path, title, url }
                && path@ == cached_file_path_spec(home@, cache@[k].id)
                && crate::cache::opt_text(title) == cache@[k].title
                && url@ == cache@[k].url,
            None => r matches SourcePlan::Live { direct } && direct == looks_like_url(query@),
        },
{
    match cache.lookup(query) {
        Some(rec) => SourcePlan::Cached {
            path: cached_file_path(home, rec.id.as_str()),
            title: match &rec.title {
                Some(t) => Some(t.clone()),
                None => None,
            },
            url: rec.source_url.clone(),
        },
        None => SourcePlan::Live { direct: starts_with(query, "http") },
    }
}

/// What play does once the track is enqueued.
pub struct PlayReply {
    pub reply: Reply,
    /// Whether presence is to show the track as playing.
    pub now_playing: bool,
    /// Ticket of the auto-disconnect timer cancelled, whose task is to be aborted.
    pub cancelled: Option<u64>,
}

/// Play enqueued a track titled `title` in `guild`, and the queue now holds
/// `queue_len` tracks. When it is the only one, the armed auto-disconnect
/// timer is cancelled first and the answer is "Now playing"; otherwise
/// "Added to queue".
pub fn play_enqueued(timers: &mut DisconnectScheduler, guild: u64, title: &Option<String>, queue_len: usize) -> (r: PlayReply)
    requires
        old(timers).wf(),
    ensures
        final(timers).wf(),
        final(timers).next() == old(timers).next(),
        !r.reply.ephemeral,
        r.now_playing == (queue_len == 1),
        queue_len == 1 ==> r.cancelled == armed_ticket(old(timers)@, guild)
            && final(timers)@ == old(timers)@.remove(guild)
            && r.reply.content@ == "Now playing: "@ + title_or(*title, TITLE_NOT_FOUND@),
        queue_len != 1 ==> r.cancelled is None
            && final(timers)@ == old(timers)@
            && r.reply.content@ == "Added to queue: "@ + title_or(*title, TITLE_NOT_FOUND@),
{
    let shown = title_or_fallback(title, TITLE_NOT_FOUND);
    if queue_len == 1 {
        let cancelled = timers.disarm(guild);
        PlayReply { reply: reply("Now playing: ", shown.as_str(), false), now_playing: true, cancelled }
    } else {
        PlayReply { reply: reply("Added to queue: ", shown.as_str(), false), now_playing: false, cancelled: None }
    }
}

/// Play's answer when the caller is in no voice channel.
pub fn not_in_voice() -> (r: Reply)
    ensures
        r.content@ == "Not connected to voice channel"@,
        r.ephemeral,
{
    Reply { content: "Not connected to voice channel".to_owned(), ephemeral: true }
}

/// Play's answer when live resolution gave no source URL.
pub fn missing_source_url() -> (r: Reply)
    ensures
        r.content@ == "Failed to retrieve url from input!"@,
        r.ephemeral,
{
    Reply { content: "Failed to retrieve url from input!".to_owned(), ephemeral: true }
}

/// What skip does.
pub struct SkipReply {
    pub reply: Reply,
    /// Whether the current track is to be skipped.
    pub skip: bool,
}

/// Skip in a guild that has a session or not, whose queue holds `queue_len`
/// tracks, the current one titled `current_title`. It skips only with a
/// session and a track to skip; it reads and changes no state.
pub fn skip_reply(has_session: bool, queue_len: usize, current_title: &Option<String>) -> (r: SkipReply)
    ensures
        r.skip == (has_session && queue_len > 0),
        !has_session ==> r.reply.content@ == "Failed to skip"@ && r.reply.ephemeral,
        has_session && queue_len == 0 ==> r.reply.content@ == "There is nothing to skip!"@ && r.reply.ephemeral,
        has_session && queue_len > 0 ==> r.reply.content@ == "Skipped: "@ + title_or(*current_title, SKIP_TITLE_NOT_FOUND@)
            && !r.reply.ephemeral,
{
    if !has_session {
        SkipReply { reply: Reply { content: "Failed to skip".to_owned(), ephemeral: true }, skip: false }
    } else if queue_len == 0 {
        SkipReply { reply: Reply { content: "There is nothing to skip!".to_owned(), ephemeral: true }, skip: false }
    } else {
        let shown = title_or_fallback(current_title, SKIP_TITLE_NOT_FOUND);
        SkipReply { reply: reply("Skipped: ", shown.as_str(), false), skip: true }
    }
}

/// Stop in a guild that has a session or not: with one, presence is cleared
/// and the connection left (the disconnect listener clears the queue).
pub fn stop_reply(has_session: bool) -> (r: Reply)
    ensures
        has_session ==> r.content@ == "Stopping"@ && !r.ephemeral,
        !has_session ==> r.content@ == "Failed to stop"@ && r.ephemeral,
{
    if has_session {
        Reply { content: "Stopping".to_owned(), ephemeral: false }
    } else {
        Reply { content: "Failed to stop".to_owned(), ephemeral: true }
    }
}

} // verus!
