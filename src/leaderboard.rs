//! Advent of Code private leaderboards: the stored documents, and the
//! decisions of the commands and of the periodic fetch.
use vstd::prelude::*;
use crate::cache::opt_text;
use crate::queue_text::{decimal, decimal_string};
use crate::clock::generate_current_timestamp;
use crate::playback::Reply;

verus! {

broadcast use vstd::seq_lib::group_to_multiset_ensures;

/// Least time between two fetches of one leaderboard, in seconds.
pub const INTERVAL_TIME: i64 = 900;

/// Age after which a session cookie is taken as expired, in seconds.
pub const THIRTY_DAYS_TIME: i64 = 2592000;

/// Last day of an event.
pub const LAST_DAY: i64 = 25;

/// The times at which a member got the stars of one day.
pub struct DayLevel {
    pub day: i64,
    pub first_star_ts: Option<i64>,
    pub second_star_ts: Option<i64>,
}

pub struct Member {
    pub id: i64,
    pub name: String,
    pub stars: i64,
    pub global_score: i64,
    pub local_score: i64,
    pub last_star_ts: i64,
    pub completion_day_level: Vec<DayLevel>,
}

pub struct PrivateLeaderboard {
    pub members: Vec<Member>,
    pub owner_id: i64,
    pub event: String,
    pub last_update_timestamp: i64,
}

/// A session cookie and when it was set.
pub struct Session {
    pub cookie: Option<String>,
    pub added_timestamp: Option<i64>,
}

/// One guild's private leaderboard, with its leaderboards by year.
pub struct PrivateLeaderboardDatabaseDoc {
    pub guild_id: i64,
    pub private_leaderboard_id: i64,
    pub session_cookie: Session,
    pub leaderboards: Vec<(String, PrivateLeaderboard)>,
}

impl Session {
    /// A session set at `added_timestamp`, or now when no time is given.
    pub fn new(cookie: Option<String>, added_timestamp: Option<i64>) -> (r: Session)
        ensures
            opt_text(r.cookie) == opt_text(cookie),
            r.added_timestamp is Some,
            added_timestamp is Some ==> r.added_timestamp == added_timestamp,
    {
        let added = match added_timestamp {
            Some(t) => t,
            None => generate_current_timestamp(),
        };
        Session { cookie, added_timestamp: Some(added) }
    }
}

impl PrivateLeaderboardDatabaseDoc {
    /// A document with no leaderboards yet.
    pub fn new(guild_id: u64, private_leaderboard_id: i64, session_cookie: Session) -> (r: PrivateLeaderboardDatabaseDoc)
        ensures
            r.guild_id == guild_id as i64,
            r.private_leaderboard_id == private_leaderboard_id,
            r.session_cookie == session_cookie,
            r.leaderboards@.len() == 0,
    {
        PrivateLeaderboardDatabaseDoc {
            guild_id: guild_id as i64,
            private_leaderboard_id,
            session_cookie,
            leaderboards: Vec::new(),
        }
    }
}

/// Whether a leaderboard last updated at `last_update` may be fetched again
/// at `now`.
pub open spec fn fetch_due_spec(now: i64, last_update: i64) -> bool {
    now - last_update > INTERVAL_TIME
}

pub fn fetch_due(now: i64, last_update: i64) -> (r: bool)
    ensures
        r == fetch_due_spec(now, last_update),
{
    (now as i128) - (last_update as i128) > INTERVAL_TIME as i128
}

/// Whether a session set at `added` can still be used at `now`.
pub open spec fn cookie_fresh_spec(now: i64, added: Option<i64>) -> bool {
    match added {
        Some(t) => now - t <= THIRTY_DAYS_TIME,
        None => false,
    }
}

pub fn cookie_fresh(now: i64, added: Option<i64>) -> (r: bool)
    ensures
        r == cookie_fresh_spec(now, added),
{
    match added {
        Some(t) => (now as i128) - (t as i128) <= THIRTY_DAYS_TIME as i128,
        None => false,
    }
}

/// The day a speedrun request is for: the requested one, else today; a day
/// outside the event becomes its first.
pub open spec fn speedrun_day_spec(requested: Option<i64>, today: i64) -> i64 {
    let d = match requested {
        Some(d) => d,
        None => today,
    };
    if 1 <= d <= LAST_DAY { d } else { 1 }
}

pub fn speedrun_day(requested: Option<i64>, today: i64) -> (r: i64)
    ensures
        r == speedrun_day_spec(requested, today),
{
    let d = match requested {
        Some(d) => d,
        None => today,
    };
    if 1 <= d && d <= LAST_DAY { d } else { 1 }
}

/// The event a speedrun request is for: the requested year, else this
/// year's in December and last year's before.
pub open spec fn speedrun_year_spec(requested: Option<i64>, month: u32, year: i32) -> int {
    match requested {
        Some(y) => y as int,
        None => if month == 12 { year as int } else { year as int - 1 },
    }
}

pub fn speedrun_year(requested: Option<i64>, month: u32, year: i32) -> (r: i64)
    ensures
        r == speedrun_year_spec(requested, month, year),
{
    match requested {
        Some(y) => y,
        None => if month == 12 { year as i64 } else { year as i64 - 1 },
    }
}

/// The first entry of `days` for `day`.
pub open spec fn day_entry(days: Seq<DayLevel>, day: i64) -> Option<DayLevel>
    decreases days.len(),
{
    if days.len() == 0 {
        None
    } else if days[0].day == day {
        Some(days[0])
    } else {
        day_entry(days.drop_first(), day)
    }
}

/// Seconds from a member's first to second star of `day`, when it has both.
pub open spec fn member_time(m: Member, day: i64) -> Option<int> {
    match day_entry(m.completion_day_level@, day) {
        Some(d) => match (d.first_star_ts, d.second_star_ts) {
            (Some(a), Some(b)) => Some(b - a),
            _ => None,
        },
        None => None,
    }
}

/// The speedrun of each member that has one for `day`, in member order.
pub open spec fn speedrun_entries(ms: Seq<Member>, day: i64) -> Seq<(Seq<char>, int)>
    decreases ms.len(),
{
    if ms.len() == 0 {
        Seq::empty()
    } else {
        let rest = speedrun_entries(ms.drop_last(), day);
        match member_time(ms.last(), day) {
            Some(t) => rest.push((ms.last().name@, t)),
            None => rest,
        }
    }
}

pub open spec fn times_view(v: Seq<(String, i128)>) -> Seq<(Seq<char>, int)> {
    v.map_values(|e: (String, i128)| (e.0@, e.1 as int))
}

pub open spec fn sorted_by_time(s: Seq<(Seq<char>, int)>) -> bool {
    forall|a: int, b: int| 0 <= a < b < s.len() ==> s[a].1 <= s[b].1
}

fn member_speedrun(m: &Member, day: i64) -> (r: Option<i128>)
    ensures
        match member_time(*m, day) {
            Some(t) => r matches Some(x) && x as int == t,
            None => r is None,
        },
{
    let ghost days = m.completion_day_level@;
    assert(days.subrange(0, days.len() as int) =~= days);
    let mut i: usize = 0;
    while i < m.completion_day_level.len()
        invariant
            days == m.completion_day_level@,
            i <= days.len(),
            day_entry(days, day) == day_entry(days.subrange(i as int, days.len() as int), day),
        decreases days.len() - i,
    {
        let ghost rest = days.subrange(i as int, days.len() as int);
        assert(rest.drop_first() =~= days.subrange(i + 1, days.len() as int));
        assert(rest[0] == days[i as int]);
        let level = &m.completion_day_level[i];
        if level.day == day {
            assert(day_entry(days, day) == Some(days[i as int]));
            return match (level.first_star_ts, level.second_star_ts) {
                (Some(a), Some(b)) => Some((b as i128) - (a as i128)),
                _ => None,
            };
        }
        i = i + 1;
    }
    None
}

/// Inserts `e` after every entry whose time is not above its own.
fn insert_by_time(v: &mut Vec<(String, i128)>, e: (String, i128))
    requires
        sorted_by_time(times_view(old(v)@)),
    ensures
        sorted_by_time(times_view(final(v)@)),
        times_view(final(v)@).to_multiset() == times_view(old(v)@).to_multiset().insert((e.0@, e.1 as int)),
{
    let mut p: usize = 0;
    while p < v.len() && v[p].1 <= e.1
        invariant
            p <= v.len(),
            v@ == old(v)@,
            forall|j: int| 0 <= j < p ==> v@[j].1 <= e.1,
        decreases v.len() - p,
    {
        p = p + 1;
    }
    let ghost before = times_view(v@);
    let ghost x = (e.0@, e.1 as int);
    v.insert(p, e);
    assert(times_view(v@) =~= before.insert(p as int, x));
    proof {
        let s = times_view(v@);
        assert forall|a: int, b: int| 0 <= a < b < s.len() implies s[a].1 <= s[b].1 by {
            if b < p {
                assert(s[a] == before[a] && s[b] == before[b]);
            } else if b == p {
                assert(s[a] == before[a]);
            } else if a < p {
                assert(s[a] == before[a] && s[b] == before[b - 1]);
                assert(before[p as int].1 > e.1);
                if b - 1 > p {
                    assert(before[p as int].1 <= before[b - 1].1);
                }
            } else if a == p {
                assert(s[b] == before[b - 1]);
                assert(before[p as int].1 > e.1);
                if b - 1 > p {
                    assert(before[p as int].1 <= before[b - 1].1);
                }
            } else {
                assert(s[a] == before[a - 1] && s[b] == before[b - 1]);
            }
        }
    }
}

/// The speedruns of `members` for `day`, fastest first.
pub fn speedrun_times(members: &Vec<Member>, day: i64) -> (r: Vec<(String, i128)>)
    ensures
        sorted_by_time(times_view(r@)),
        times_view(r@).to_multiset() == speedrun_entries(members@, day).to_multiset(),
{
    let mut out: Vec<(String, i128)> = Vec::new();
    let mut i: usize = 0;
    while i < members.len()
        invariant
            i <= members.len(),
            sorted_by_time(times_view(out@)),
            times_view(out@).to_multiset() == speedrun_entries(members@.subrange(0, i as int), day).to_multiset(),
        decreases members.len() - i,
    {
        let ghost prefix = members@.subrange(0, i + 1);
        assert(prefix.drop_last() =~= members@.subrange(0, i as int));
        match member_speedrun(&members[i], day) {
            Some(t) => {
                insert_by_time(&mut out, (members[i].name.clone(), t));
            },
            None => {},
        }
        i = i + 1;
    }
    assert(members@.subrange(0, members.len() as int) =~= members@);
    out
}

/// A time as shown: negative ones as zero, and at most `u64::MAX`.
pub open spec fn clamp_secs(t: int) -> nat {
    if t < 0 {
        0
    } else if t > u64::MAX {
        u64::MAX as nat
    } else {
        t as nat
    }
}

/// The lines of the speedrun answer for the sorted `times`.
pub open spec fn speedrun_lines(times: Seq<(Seq<char>, int)>) -> Seq<char>
    decreases times.len(),
{
    if times.len() == 0 {
        Seq::empty()
    } else {
        speedrun_lines(times.drop_last()) + times.last().0 + ": "@ + decimal(clamp_secs(times.last().1))
            + "s\n"@
    }
}

/// The speedrun answer for `year` and `day` from the sorted `times`.
pub fn speedrun_text(year: u64, day: u64, times: &Vec<(String, i128)>) -> (r: String)
    ensures
        times@.len() == 0 ==> r@ == "There are no speedruns"@,
        times@.len() > 0 ==> r@ == "**Speedrun for AoC"@ + decimal(year as nat) + " day "@ + decimal(day as nat)
            + "**\n"@ + speedrun_lines(times_view(times@)),
{
    if times.len() == 0 {
        return "There are no speedruns".to_owned();
    }
    let mut s = "**Speedrun for AoC".to_owned();
    let y = decimal_string(year);
    s.append(y.as_str());
    s.append(" day ");
    let d = decimal_string(day);
    s.append(d.as_str());
    s.append("**\n");
    let ghost head = s@;
    let mut i: usize = 0;
    while i < times.len()
        invariant
            i <= times.len(),
            s@ == head + speedrun_lines(times_view(times@.subrange(0, i as int))),
        decreases times.len() - i,
    {
        let ghost pre = times_view(times@.subrange(0, i + 1));
        assert(pre.drop_last() =~= times_view(times@.subrange(0, i as int)));
        s.append(times[i].0.as_str());
        s.append(": ");
        let secs: u64 = if times[i].1 < 0 {
            0
        } else if times[i].1 > u64::MAX as i128 {
            u64::MAX
        } else {
            times[i].1 as u64
        };
        let n = decimal_string(secs);
        s.append(n.as_str());
        s.append("s\n");
        i = i + 1;
    }
    assert(times@.subrange(0, times.len() as int) =~= times@);
    s
}

/// The speedrun command.
pub struct SpeedrunCommand;

impl SpeedrunCommand {
    /// The answer for `day` of the event of `year`, from the members of its
    /// leaderboard: their speedruns, fastest first.
    pub fn answer(year: u64, day: i64, leaderboard: &PrivateLeaderboard) -> (r: Reply)
        requires
            1 <= day,
        ensures
            !r.ephemeral,
            exists|times: Seq<(Seq<char>, int)>|
                sorted_by_time(times) && times.to_multiset() == speedrun_entries(leaderboard.members@, day).to_multiset()
                && if times.len() == 0 {
                    r.content@ == "There are no speedruns"@
                } else {
                    r.content@ == "**Speedrun for AoC"@ + decimal(year as nat) + " day "@ + decimal(day as nat)
                        + "**\n"@ + speedrun_lines(times)
                },
    {
        let times = speedrun_times(&leaderboard.members, day);
        Reply { content: speedrun_text(year, day as u64, &times), ephemeral: false }
    }
}

/// The command that adds a private leaderboard.
pub struct AddPrivateLeaderboardCommand;

impl AddPrivateLeaderboardCommand {
    /// Given the session cookie of the stored document, if there is one, and
    /// the cookie given with the command: the document to store when there
    /// is none yet, and the cookie to fetch the leaderboard with.
    pub fn prepare(
        stored_cookie: Option<Option<String>>,
        guild_id: u64,
        private_leaderboard_id: i64,
        provided: Option<String>,
    ) -> (r: (Option<PrivateLeaderboardDatabaseDoc>, Option<String>))
        ensures
            stored_cookie matches Some(c) ==> r.0 is None && opt_text(r.1) == opt_text(c),
            stored_cookie is None ==> opt_text(r.1) == opt_text(provided) && (r.0 matches Some(d)
                && d.guild_id == guild_id as i64
                && d.private_leaderboard_id == private_leaderboard_id
                && opt_text(d.session_cookie.cookie) == opt_text(provided)
                && d.session_cookie.added_timestamp is Some
                && d.leaderboards@.len() == 0),
    {
        match stored_cookie {
            Some(c) => (None, c),
            None => {
                let cookie = match &provided {
                    Some(c) => Some(c.clone()),
                    None => None,
                };
                let doc = PrivateLeaderboardDatabaseDoc::new(
                    guild_id,
                    private_leaderboard_id,
                    Session::new(cookie, None),
                );
                (Some(doc), provided)
            },
        }
    }

    pub fn reply() -> (r: Reply)
        ensures
            r.content@ == "Leaderboard has been added"@,
            !r.ephemeral,
    {
        Reply { content: "Leaderboard has been added".to_owned(), ephemeral: false }
    }
}

/// The command that sets a leaderboard's session cookie.
pub struct SetSessionCookieCommand;

impl SetSessionCookieCommand {
    /// The answer once the update found the leaderboard or not.
    pub fn reply(found: bool) -> (r: Reply)
        ensures
            found ==> r.content@ == "Successfully set session"@,
            !found ==> r.content@ == "Leaderboard not found"@,
            !r.ephemeral,
    {
        if found {
            Reply { content: "Successfully set session".to_owned(), ephemeral: false }
        } else {
            Reply { content: "Leaderboard not found".to_owned(), ephemeral: false }
        }
    }
}

} // verus!
