use mrbot::leaderboard::{
    cookie_fresh, fetch_due, speedrun_day, speedrun_text, speedrun_times, speedrun_year,
    AddPrivateLeaderboardCommand, DayLevel, Member, PrivateLeaderboard, PrivateLeaderboardDatabaseDoc,
    Session, SetSessionCookieCommand, SpeedrunCommand,
};
use mrbot::members::{
    ban_decision, ban_top_text, too_soon_text, BanCount, BanDecision, SavedUser, EMOJIID, SERVER,
};
use mrbot::roll::{
    lang_weights_pool, languages, maximum_weight_value, pick_language, roll_reply, AoC2022Lang,
    RollCommand,
};

fn member(name: &str, days: Vec<DayLevel>) -> Member {
    Member {
        id: 1,
        name: name.to_string(),
        stars: 0,
        global_score: 0,
        local_score: 0,
        last_star_ts: 0,
        completion_day_level: days,
    }
}

fn level(day: i64, first: Option<i64>, second: Option<i64>) -> DayLevel {
    DayLevel { day, first_star_ts: first, second_star_ts: second }
}

#[test]
fn weights_pool_is_running_sum() {
    let pool = lang_weights_pool();
    assert_eq!(pool.len(), 16);
    assert_eq!(pool[0], 100);
    assert_eq!(pool[3], 400);
    assert_eq!(pool[6], 670);
    assert_eq!(pool[15], 701);
    assert_eq!(maximum_weight_value(), 701);
    assert_eq!(languages()[8].lang, "Matijoš bira");
}

#[test]
fn picks_first_language_reaching_roll() {
    assert_eq!(pick_language(1), Some(0));
    assert_eq!(pick_language(100), Some(0));
    assert_eq!(pick_language(101), Some(1));
    assert_eq!(pick_language(701), Some(15));
    assert_eq!(pick_language(702), None);
}

#[test]
fn roll_answers_with_share() {
    assert_eq!(roll_reply(1), "Go (14.27%)");
    assert_eq!(roll_reply(650), "Lua (12.84%)");
    assert_eq!(roll_reply(701), "HolyC (0.14%)");
    assert_eq!(roll_reply(800), "Dober kod pajdo.");
    let r = RollCommand.roll();
    assert!(r.ends_with("%)"));
}

#[test]
fn language_constructor() {
    let l = AoC2022Lang::new("Go", 100, false);
    assert_eq!(l.lang, "Go");
    assert_eq!(l.weight, 100);
    assert!(!l.free_reroll);
}

#[test]
fn speedrun_day_and_year_defaults() {
    assert_eq!(speedrun_day(None, 7), 7);
    assert_eq!(speedrun_day(Some(30), 7), 1);
    assert_eq!(speedrun_day(Some(0), 7), 1);
    assert_eq!(speedrun_day(None, 26), 1);
    assert_eq!(speedrun_year(None, 12, 2023), 2023);
    assert_eq!(speedrun_year(None, 3, 2024), 2023);
    assert_eq!(speedrun_year(Some(2020), 3, 2024), 2020);
}

#[test]
fn speedruns_sorted_fastest_first() {
    let members = vec![
        member("slow", vec![level(1, Some(100), Some(400))]),
        member("none", vec![level(1, Some(100), None)]),
        member("fast", vec![level(2, Some(0), Some(1)), level(1, Some(10), Some(40))]),
        member("tie", vec![level(1, Some(0), Some(30))]),
    ];
    let times = speedrun_times(&members, 1);
    let got: Vec<(String, i128)> = times.clone();
    assert_eq!(got, vec![("fast".to_string(), 30), ("tie".to_string(), 30), ("slow".to_string(), 300)]);
    assert_eq!(
        speedrun_text(2023, 1, &times),
        "**Speedrun for AoC2023 day 1**\nfast: 30s\ntie: 30s\nslow: 300s\n"
    );
    assert_eq!(speedrun_text(2023, 1, &vec![]), "There are no speedruns");
}

#[test]
fn fetch_and_cookie_windows() {
    assert!(!fetch_due(1000, 100));
    assert!(fetch_due(1001, 100));
    assert!(cookie_fresh(2592000, Some(0)));
    assert!(!cookie_fresh(2592001, Some(0)));
    assert!(!cookie_fresh(0, None));
}

#[test]
fn session_and_document_constructors() {
    let s = Session::new(Some("c".to_string()), Some(5));
    assert_eq!(s.added_timestamp, Some(5));
    let now = Session::new(None, None);
    assert!(now.added_timestamp.unwrap() > 1_600_000_000);
    let doc = PrivateLeaderboardDatabaseDoc::new(42, 7, s);
    assert_eq!(doc.guild_id, 42);
    assert_eq!(doc.private_leaderboard_id, 7);
    assert!(doc.leaderboards.is_empty());
    let lb = PrivateLeaderboard { members: vec![], owner_id: 1, event: "2023".to_string(), last_update_timestamp: 0 };
    assert_eq!(lb.event, "2023");
}

#[test]
fn saved_user_keeps_fields() {
    let u = SavedUser::new(3, "Name".to_string(), Some("Nick".to_string()), vec![1, 2]);
    assert_eq!(u.user_id, 3);
    assert_eq!(u.display_name, "Name");
    assert_eq!(u.nickname, Some("Nick".to_string()));
    assert_eq!(u.roles, vec![1, 2]);
}

#[test]
fn ban_cooldown_decisions() {
    let asker = 132286945031094272u64;
    let msg = format!("go {}", EMOJIID);
    assert!(matches!(ban_decision(SERVER, asker, &msg, 10_000, 3600, 1_000), BanDecision::Ban));
    assert!(matches!(
        ban_decision(SERVER, asker, &msg, 2_000, 3600, 1_000),
        BanDecision::TooSoon { remaining: 2600 }
    ));
    assert!(matches!(ban_decision(SERVER, 1, &msg, 10_000, 3600, 1_000), BanDecision::Ignore));
    assert!(matches!(ban_decision(1, asker, &msg, 10_000, 3600, 1_000), BanDecision::Ignore));
    assert!(matches!(ban_decision(SERVER, asker, "hello", 10_000, 3600, 1_000), BanDecision::Ignore));
    assert_eq!(too_soon_text(2600), "Nečem ga još banati! (2600 s)");
}

#[test]
fn ban_top_lists_both_rankings() {
    let banned = vec![BanCount { name: "Matt".to_string(), count: 12 }, BanCount { name: "Bob".to_string(), count: 3 }];
    let issued = vec![BanCount { name: "Jo".to_string(), count: 9 }];
    assert_eq!(
        ban_top_text(&banned, &issued),
        "**Top Banned:**\n> **1. **Matt: 12\n> **2. **Bob: 3\n**Top Bans:**\n> **1. **Jo: 9\n"
    );
    assert_eq!(ban_top_text(&vec![], &vec![]), "**Top Banned:**\n**Top Bans:**\n");
}

#[test]
fn speedrun_command_answers() {
    let leaderboard = PrivateLeaderboard {
        members: vec![member("a", vec![level(3, Some(5), Some(65))])],
        owner_id: 1,
        event: "2022".to_string(),
        last_update_timestamp: 0,
    };
    let r = SpeedrunCommand::answer(2022, 3, &leaderboard);
    assert_eq!(r.content, "**Speedrun for AoC2022 day 3**\na: 60s\n");
    assert_eq!(SpeedrunCommand::answer(2022, 4, &leaderboard).content, "There are no speedruns");
}

#[test]
fn add_leaderboard_uses_stored_cookie_or_creates() {
    let (created, cookie) = AddPrivateLeaderboardCommand::prepare(Some(Some("old".to_string())), 5, 9, Some("new".to_string()));
    assert!(created.is_none());
    assert_eq!(cookie, Some("old".to_string()));
    let (created, cookie) = AddPrivateLeaderboardCommand::prepare(None, 5, 9, Some("new".to_string()));
    let doc = created.unwrap();
    assert_eq!(doc.guild_id, 5);
    assert_eq!(doc.private_leaderboard_id, 9);
    assert_eq!(doc.session_cookie.cookie, Some("new".to_string()));
    assert!(doc.session_cookie.added_timestamp.is_some());
    assert_eq!(cookie, Some("new".to_string()));
    assert_eq!(AddPrivateLeaderboardCommand::reply().content, "Leaderboard has been added");
}

#[test]
fn set_session_cookie_answers() {
    assert_eq!(SetSessionCookieCommand::reply(true).content, "Successfully set session");
    assert_eq!(SetSessionCookieCommand::reply(false).content, "Leaderboard not found");
}
