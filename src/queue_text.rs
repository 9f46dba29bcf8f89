//! The text of the queue command: the current track with its elapsed and
//! total time, then the upcoming tracks, each with the time until it starts.
//! A track of unknown duration ends the running estimate: from it on the
//! estimate shows as unknown. The text is cut to the message limit, counted
//! in characters, with a marker at its end.
use vstd::prelude::*;
use crate::playback::{title_or, Reply};

verus! {

/// Longest message the chat platform takes, in characters.
pub const MESSAGE_LIMIT: usize = 2000;

/// Ends a queue text that was cut.
pub const TOO_LONG: &'static str = "...\n**Queue is too long to display**";

/// Shown for the current track where its title is unknown.
pub const CURRENT_TITLE_NOT_FOUND: &'static str = "TITLE NOT FOUND!";

/// Shown for an upcoming track where its title is unknown.
pub const NO_TITLE_FOUND: &'static str = "NO TITLE FOUND";

/// What the queue text shows of a track.
pub struct TrackInfo {
    pub title: Option<String>,
    pub duration_secs: Option<u64>,
}

pub open spec fn digit_char(d: nat) -> char {
    "0123456789"@[d as int]
}

/// Decimal digits of `n`, without leading zeros.
pub open spec fn decimal(n: nat) -> Seq<char>
    decreases n,
{
    if n < 10 {
        seq![digit_char(n)]
    } else {
        decimal(n / 10) + seq![digit_char(n % 10)]
    }
}

/// At least two digits: a leading zero below ten.
pub open spec fn pad2(n: nat) -> Seq<char> {
    if n < 10 {
        seq!['0'] + decimal(n)
    } else {
        decimal(n)
    }
}

/// `mm:ss` for a number of seconds; the minutes may take more digits.
pub open spec fn minutes_text(secs: nat) -> Seq<char> {
    pad2(secs / 60) + ":"@ + pad2(secs % 60)
}

/// `content` in bold.
pub open spec fn bold(content: Seq<char>) -> Seq<char> {
    "**"@ + content + "**"@
}

/// The first line: title, elapsed and total time of the current track.
pub open spec fn header_line(current: TrackInfo, position: u64) -> Seq<char> {
    let total: nat = match current.duration_secs {
        Some(d) => d as nat,
        None => 0,
    };
    bold("Currently playing: "@) + title_or(current.title, CURRENT_TITLE_NOT_FOUND@)
        + bold(" | "@ + minutes_text(position as nat) + " / "@ + minutes_text(total)) + "\n"@
}

/// Time until the first upcoming track: what is left of the current one.
pub open spec fn first_eta(current: TrackInfo, position: u64) -> Option<nat> {
    match current.duration_secs {
        Some(d) => Some(if position <= d { (d - position) as nat } else { 0 }),
        None => None,
    }
}

/// The line of upcoming track number `n`, which starts after `eta`.
pub open spec fn entry_line(n: nat, t: TrackInfo, eta: Option<nat>) -> Seq<char> {
    bold(decimal(n) + ". "@) + title_or(t.title, NO_TITLE_FOUND@) + match (t.duration_secs, eta) {
        (Some(_), Some(e)) => bold(" | "@ + minutes_text(e)) + "\n"@,
        _ => bold("????"@) + "\n"@,
    }
}

/// The estimate after a track: unknown once a duration is unknown, or once
/// the sum leaves the range of `u64`.
pub open spec fn next_eta(t: TrackInfo, eta: Option<nat>) -> Option<nat> {
    match (t.duration_secs, eta) {
        (Some(d), Some(e)) => if e + d <= u64::MAX { Some((e + d) as nat) } else { None },
        _ => None,
    }
}

/// The text from upcoming track `i` on, after `acc`; it stops adding lines
/// once the text reaches the limit.
pub open spec fn entries_from(acc: Seq<char>, items: Seq<TrackInfo>, i: int, eta: Option<nat>) -> Seq<char>
    decreases items.len() - i,
{
    if i < 0 || i >= items.len() || acc.len() >= MESSAGE_LIMIT {
        acc
    } else {
        entries_from(acc + entry_line((i + 1) as nat, items[i], eta), items, i + 1, next_eta(items[i], eta))
    }
}

/// A text that reached the limit is cut so that, with the marker, it is as
/// long as the limit.
pub open spec fn fit_to_limit(s: Seq<char>) -> Seq<char> {
    if s.len() >= MESSAGE_LIMIT {
        s.subrange(0, MESSAGE_LIMIT - TOO_LONG@.len()) + TOO_LONG@
    } else {
        s
    }
}

/// The queue text for the current track at `position` and the upcoming ones.
pub open spec fn queue_text_spec(current: TrackInfo, position: u64, upcoming: Seq<TrackInfo>) -> Seq<char> {
    fit_to_limit(entries_from(header_line(current, position), upcoming, 0, first_eta(current, position)))
}

/// Decimal digits of `n`.
pub fn decimal_string(n: u64) -> (r: String)
    ensures
        r@ == decimal(n as nat),
    decreases n,
{
    let digits = "0123456789";
    proof {
        reveal_strlit("0123456789");
    }
    let d = (n % 10) as usize;
    if n < 10 {
        digits.substring_char(d, d + 1).to_owned()
    } else {
        let mut s = decimal_string(n / 10);
        s.append(digits.substring_char(d, d + 1));
        s
    }
}

pub fn pad2_string(n: u64) -> (r: String)
    ensures
        r@ == pad2(n as nat),
{
    if n < 10 {
        let mut s = "0".to_owned();
        proof {
            reveal_strlit("0");
        }
        let d = decimal_string(n);
        s.append(d.as_str());
        assert(s@ =~= seq!['0'] + decimal(n as nat));
        s
    } else {
        decimal_string(n)
    }
}

/// `mm:ss` for `secs` seconds.
pub fn minutes_string(secs: u64) -> (r: String)
    ensures
        r@ == minutes_text(secs as nat),
{
    let mut s = pad2_string(secs / 60);
    s.append(":");
    let rest = pad2_string(secs % 60);
    s.append(rest.as_str());
    s
}

fn push_bold(out: &mut String, content: &str)
    ensures
        final(out)@ == old(out)@ + bold(content@),
{
    out.append("**");
    out.append(content);
    out.append("**");
    assert(final(out)@ =~= old(out)@ + bold(content@));
}

fn header_string(current: &TrackInfo, position: u64) -> (r: String)
    ensures
        r@ == header_line(*current, position),
{
    let mut out = String::new();
    push_bold(&mut out, "Currently playing: ");
    match &current.title {
        Some(t) => out.append(t.as_str()),
        None => out.append(CURRENT_TITLE_NOT_FOUND),
    }
    let total: u64 = match current.duration_secs {
        Some(d) => d,
        None => 0,
    };
    let mut times = " | ".to_owned();
    let p = minutes_string(position);
    times.append(p.as_str());
    times.append(" / ");
    let t = minutes_string(total);
    times.append(t.as_str());
    push_bold(&mut out, times.as_str());
    out.append("\n");
    assert(out@ =~= header_line(*current, position));
    out
}

fn push_entry(out: &mut String, n: u64, t: &TrackInfo, eta: Option<u64>)
    ensures
        final(out)@ == old(out)@ + entry_line(n as nat, *t, match eta {
            Some(e) => Some(e as nat),
            None => None,
        }),
{
    let mut num = decimal_string(n);
    num.append(". ");
    push_bold(out, num.as_str());
    match &t.title {
        Some(title) => out.append(title.as_str()),
        None => out.append(NO_TITLE_FOUND),
    }
    match (t.duration_secs, eta) {
        (Some(_), Some(e)) => {
            let mut line = " | ".to_owned();
            let m = minutes_string(e);
            line.append(m.as_str());
            push_bold(out, line.as_str());
        },
        _ => push_bold(out, "????"),
    }
    out.append("\n");
    assert(final(out)@ =~= old(out)@ + entry_line(n as nat, *t, match eta {
        Some(e) => Some(e as nat),
        None => None,
    }));
}

/// The queue text for the current track, `position_secs` into it, and the
/// upcoming tracks in order.
pub fn queue_text(current: &TrackInfo, position_secs: u64, upcoming: &Vec<TrackInfo>) -> (r: String)
    ensures
        r@ == queue_text_spec(*current, position_secs, upcoming@),
{
    let mut out = header_string(current, position_secs);
    let mut eta: Option<u64> = match current.duration_secs {
        Some(d) => Some(if position_secs <= d { d - position_secs } else { 0 }),
        None => None,
    };
    let ghost start = out@;
    let mut len = out.as_str().unicode_len();
    let mut i: usize = 0;
    while i < upcoming.len() && len < MESSAGE_LIMIT
        invariant
            i <= upcoming.len(),
            len == out@.len(),
            entries_from(start, upcoming@, 0, first_eta(*current, position_secs))
                == entries_from(out@, upcoming@, i as int, match eta {
                    Some(e) => Some(e as nat),
                    None => None,
                }),
        decreases upcoming.len() - i,
    {
        let t = &upcoming[i];
        push_entry(&mut out, (i + 1) as u64, t, eta);
        eta = match (t.duration_secs, eta) {
            (Some(d), Some(e)) => e.checked_add(d),
            _ => None,
        };
        len = out.as_str().unicode_len();
        i = i + 1;
    }
    let r = if len >= MESSAGE_LIMIT {
        proof {
            reveal_strlit("...\n**Queue is too long to display**");
        }
        let mut cut = out.as_str().substring_char(0, MESSAGE_LIMIT - 36).to_owned();
        cut.append(TOO_LONG);
        cut
    } else {
        out
    };
    r
}

/// The answer of the queue command in a guild with a session or not, whose
/// queue holds `tracks` (the current one first), `position_secs` into the
/// current one.
pub fn queue_reply(has_session: bool, tracks: &Vec<TrackInfo>, position_secs: u64) -> (r: Reply)
    ensures
        !r.ephemeral,
        !has_session ==> r.content@ == "Failed retrieving queue"@,
        has_session && tracks@.len() == 0 ==> r.content@ == "Queue is empty"@,
        has_session && tracks@.len() > 0 ==> r.content@
            == queue_text_spec(tracks@[0], position_secs, tracks@.subrange(1, tracks@.len() as int)),
{
    if !has_session {
        return Reply { content: "Failed retrieving queue".to_owned(), ephemeral: false };
    }
    if tracks.len() == 0 {
        return Reply { content: "Queue is empty".to_owned(), ephemeral: false };
    }
    let mut upcoming: Vec<TrackInfo> = Vec::new();
    let mut j: usize = 1;
    while j < tracks.len()
        invariant
            1 <= j <= tracks.len(),
            upcoming@ == tracks@.subrange(1, j as int),
        decreases tracks.len() - j,
    {
        let t = &tracks[j];
        let title = match &t.title {
            Some(s) => Some(s.clone()),
            None => None,
        };
        upcoming.push(TrackInfo { title, duration_secs: t.duration_secs });
        proof {
            assert(upcoming@ =~= tracks@.subrange(1, j + 1));
        }
        j = j + 1;
    }
    Reply { content: queue_text(&tracks[0], position_secs, &upcoming), ephemeral: false }
}

} // verus!
