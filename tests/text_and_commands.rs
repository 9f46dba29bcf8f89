use mrbot::commands::SlashCommands;
use mrbot::queue_text::{decimal_string, minutes_string, queue_reply, queue_text, TrackInfo};
use mrbot::text::{contains_text, starts_with, text_eq};

fn track(title: Option<&str>, secs: Option<u64>) -> TrackInfo {
    TrackInfo { title: title.map(|t| t.to_string()), duration_secs: secs }
}

#[test]
fn minutes_are_zero_padded() {
    assert_eq!(minutes_string(0), "00:00");
    assert_eq!(minutes_string(65), "01:05");
    assert_eq!(minutes_string(600), "10:00");
    assert_eq!(minutes_string(6000), "100:00");
    assert_eq!(decimal_string(1234567890), "1234567890");
}

#[test]
fn queue_text_with_running_estimate() {
    let current = track(Some("Now"), Some(200));
    let upcoming = vec![track(Some("A"), Some(100)), track(None, Some(50)), track(Some("C"), Some(10))];
    let text = queue_text(&current, 80, &upcoming);
    assert_eq!(
        text,
        "**Currently playing: **Now** | 01:20 / 03:20**\n\
         **1. **A** | 02:00**\n\
         **2. **NO TITLE FOUND** | 03:40**\n\
         **3. **C** | 04:30**\n"
    );
}

#[test]
fn unknown_duration_breaks_the_estimate() {
    let current = track(None, Some(60));
    let upcoming = vec![track(Some("A"), None), track(Some("B"), Some(10))];
    let text = queue_text(&current, 0, &upcoming);
    assert_eq!(
        text,
        "**Currently playing: **TITLE NOT FOUND!** | 00:00 / 01:00**\n\
         **1. **A**????**\n\
         **2. **B**????**\n"
    );
}

#[test]
fn long_queue_is_cut_with_marker() {
    let current = track(Some("Now"), Some(10));
    let long_title = "x".repeat(300);
    let upcoming: Vec<TrackInfo> = (0..20).map(|_| track(Some(&long_title), Some(10))).collect();
    let text = queue_text(&current, 0, &upcoming);
    assert_eq!(text.chars().count(), 2000);
    assert!(text.ends_with("...\n**Queue is too long to display**"));
}

#[test]
fn queue_replies() {
    assert_eq!(queue_reply(false, &vec![], 0).content, "Failed retrieving queue");
    assert_eq!(queue_reply(true, &vec![], 0).content, "Queue is empty");
    let r = queue_reply(true, &vec![track(Some("Now"), Some(60)), track(Some("A"), Some(5))], 30);
    assert_eq!(r.content, "**Currently playing: **Now** | 00:30 / 01:00**\n**1. **A** | 00:30**\n");
}

#[test]
fn command_names_round_trip() {
    let all = [
        SlashCommands::BanTop,
        SlashCommands::Play,
        SlashCommands::Skip,
        SlashCommands::Stop,
        SlashCommands::Queue,
        SlashCommands::Speedrun,
        SlashCommands::AddPrivateLeaderboard,
        SlashCommands::SetSessionCookie,
        SlashCommands::Roll,
    ];
    for c in all {
        assert!(matches!(SlashCommands::parse(c.as_str()), Ok(p) if p == c));
    }
    assert_eq!(SlashCommands::Play.as_str(), "play");
    assert_eq!(SlashCommands::AddPrivateLeaderboard.as_str(), "addprivateleaderboard");
    assert!(SlashCommands::parse("dance").is_err());
    assert!("queue".parse::<SlashCommands>().is_ok());
}

#[test]
fn text_helpers() {
    assert!(text_eq("abc", "abc"));
    assert!(!text_eq("abc", "abd"));
    assert!(starts_with("https://x", "http"));
    assert!(!starts_with("htt", "http"));
    assert!(contains_text("hello <:e:1> there", "<:e:1>"));
    assert!(!contains_text("hello", "world"));
    assert!(contains_text("", ""));
}
