//! Guild members as remembered across bans and rejoins, and the ban
//! easter egg with its cooldown.
use vstd::prelude::*;
use crate::queue_text::{decimal, decimal_string};
use crate::text::{contains_text, occurs_at};

verus! {

/// What is kept of a member: name, nickname and roles.
pub struct SavedUser {
    pub user_id: i64,
    pub display_name: String,
    pub nickname: Option<String>,
    pub roles: Vec<i64>,
}

impl SavedUser {
    pub fn new(user_id: i64, display_name: String, nickname: Option<String>, roles: Vec<i64>) -> (r: SavedUser)
        ensures
            r.user_id == user_id,
            r.display_name == display_name,
            r.nickname == nickname,
            r.roles == roles,
    {
        SavedUser { user_id, display_name, nickname, roles }
    }
}

/// The guild the easter egg lives in.
pub const SERVER: u64 = 173766075484340234;

/// The member the easter egg bans.
pub const MATTID: u64 = 252114544485335051;

/// Least time between two bans, in seconds.
pub const BAN_COOLDOWN_TIME: i64 = 3600;

/// The emoji that asks for the ban.
pub const EMOJIID: &'static str = "<:banajmatijosa:621685158600245248>";

/// Members who may ask for the ban.
pub open spec fn allowed_member(id: u64) -> bool {
    id == 132286945031094272 || id == 170561008786604034 || id == 245956125713760258
        || id == 268420122090274816 || id == 344472419085582347 || id == 344121954124431360
        || id == 302763402944839680 || id == 155013213811900416
}

pub fn is_allowed_member(id: u64) -> (r: bool)
    ensures
        r == allowed_member(id),
{
    id == 132286945031094272 || id == 170561008786604034 || id == 245956125713760258
        || id == 268420122090274816 || id == 344472419085582347 || id == 344121954124431360
        || id == 302763402944839680 || id == 155013213811900416
}

/// What a message does to the easter egg.
pub enum BanDecision {
    /// Not a ban request.
    Ignore,
    /// Ban now, and start the cooldown.
    Ban,
    /// Too soon: `remaining` seconds of cooldown are left.
    TooSoon { remaining: i128 },
}

/// A message in `guild` by `author` with text `content` at `now`, the last
/// ban at `last_ban` with cooldown `cooldown`.
pub fn ban_decision(guild: u64, author: u64, content: &str, now: i64, cooldown: i64, last_ban: i64) -> (r: BanDecision)
    ensures
        !(guild == SERVER && allowed_member(author) && exists|i: int| occurs_at(content@, EMOJIID@, i))
            ==> r is Ignore,
        guild == SERVER && allowed_member(author) && (exists|i: int| occurs_at(content@, EMOJIID@, i)) ==> {
            if now - cooldown > last_ban {
                r is Ban
            } else {
                r matches BanDecision::TooSoon { remaining } && remaining == cooldown - (now - last_ban)
            }
        },
{
    if guild != SERVER || !is_allowed_member(author) || !contains_text(content, EMOJIID) {
        return BanDecision::Ignore;
    }
    if (now as i128) - (cooldown as i128) > last_ban as i128 {
        BanDecision::Ban
    } else {
        BanDecision::TooSoon { remaining: (cooldown as i128) - ((now as i128) - (last_ban as i128)) }
    }
}

/// The answer to a ban asked for too soon.
pub fn too_soon_text(remaining: u64) -> (r: String)
    ensures
        r@ == "Nečem ga još banati! ("@ + decimal(remaining as nat) + " s)"@,
{
    let mut s = "Nečem ga još banati! (".to_owned();
    let n = decimal_string(remaining);
    s.append(n.as_str());
    s.append(" s)");
    s
}

/// A member's place in a ban ranking: the name shown and the count.
pub struct BanCount {
    pub name: String,
    pub count: u64,
}

/// The lines of a ranking, numbered from one, each as a quote.
pub open spec fn ranking_lines(rows: Seq<BanCount>) -> Seq<char>
    decreases rows.len(),
{
    if rows.len() == 0 {
        Seq::empty()
    } else {
        ranking_lines(rows.drop_last()) + "> **"@ + decimal(rows.len()) + ". **"@ + rows.last().name@ + ": "@
            + decimal(rows.last().count as nat) + "\n"@
    }
}

fn push_ranking(out: &mut String, rows: &Vec<BanCount>)
    ensures
        final(out)@ == old(out)@ + ranking_lines(rows@),
{
    let ghost start = out@;
    let mut i: usize = 0;
    while i < rows.len()
        invariant
            i <= rows.len(),
            out@ == start + ranking_lines(rows@.subrange(0, i as int)),
        decreases rows.len() - i,
    {
        let ghost pre = rows@.subrange(0, i + 1);
        assert(pre.drop_last() =~= rows@.subrange(0, i as int));
        out.append("> **");
        let n = decimal_string((i + 1) as u64);
        out.append(n.as_str());
        out.append(". **");
        out.append(rows[i].name.as_str());
        out.append(": ");
        let c = decimal_string(rows[i].count);
        out.append(c.as_str());
        out.append("\n");
        assert(out@ =~= start + ranking_lines(pre));
        i = i + 1;
    }
    assert(rows@.subrange(0, rows.len() as int) =~= rows@);
}

/// The ban leaderboard: the most banned members, then those who banned most.
pub fn ban_top_text(most_banned: &Vec<BanCount>, most_bans_issued: &Vec<BanCount>) -> (r: String)
    ensures
        r@ == "**Top Banned:**\n"@ + ranking_lines(most_banned@) + "**Top Bans:**\n"@ + ranking_lines(most_bans_issued@),
{
    let mut out = "**Top Banned:**\n".to_owned();
    push_ranking(&mut out, most_banned);
    out.append("**Top Bans:**\n");
    push_ranking(&mut out, most_bans_issued);
    out
}

} // verus!
