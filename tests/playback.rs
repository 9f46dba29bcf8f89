use mrbot::cache::ContentCache;
use mrbot::disconnect::{DisconnectScheduler, DISCONNECT_AFTER_SECS};
use mrbot::download::{DownloadCoordinator, DownloadStep};
use mrbot::hashing::content_id;
use mrbot::playback::{
    missing_source_url, not_in_voice, plan_source, play_enqueued, skip_reply, stop_reply,
    title_or_fallback, SourcePlan,
};
use mrbot::session::{on_driver_disconnect, on_track_end, ConnectAction, VoiceSessions};
use mrbot::tracks::{TrackMeta, TrackTable};

#[test]
fn rearming_replaces_the_armed_timer() {
    let mut t = DisconnectScheduler::new();
    let first = t.arm(7, Some(600));
    assert_eq!(first.cancelled, None);
    assert_eq!(first.armed.delay_secs, 600);
    let second = t.arm(7, Some(30));
    assert_eq!(second.cancelled, Some(first.armed.ticket));
    assert_eq!(second.armed.delay_secs, 30);
    assert_ne!(second.armed.ticket, first.armed.ticket);
    assert!(t.armed(7) == Some(second.armed));
    assert!(!t.fire(7, first.armed.ticket));
    assert!(t.armed(7).is_some());
    assert!(t.fire(7, second.armed.ticket));
    assert!(t.armed(7).is_none());
    assert!(!t.fire(7, second.armed.ticket));
}

#[test]
fn default_delay_is_five_minutes() {
    let mut t = DisconnectScheduler::new();
    assert!(t.has_ticket_left());
    let o = t.arm(1, None);
    assert_eq!(o.armed.delay_secs, DISCONNECT_AFTER_SECS);
    assert_eq!(DISCONNECT_AFTER_SECS, 300);
}

#[test]
fn disarm_returns_the_cancelled_ticket() {
    let mut t = DisconnectScheduler::new();
    assert_eq!(t.disarm(3), None);
    let o = t.arm(3, None);
    assert_eq!(t.disarm(3), Some(o.armed.ticket));
    assert!(t.armed(3).is_none());
}

#[test]
fn enqueue_into_empty_queue_cancels_timer() {
    let mut t = DisconnectScheduler::new();
    let o = t.arm(9, None);
    let r = play_enqueued(&mut t, 9, &Some("Song".to_string()), 1);
    assert_eq!(r.cancelled, Some(o.armed.ticket));
    assert!(t.armed(9).is_none());
    assert!(r.now_playing);
    assert_eq!(r.reply.content, "Now playing: Song");
    assert!(!r.reply.ephemeral);
}

#[test]
fn enqueue_behind_others_keeps_timer_and_adds() {
    let mut t = DisconnectScheduler::new();
    t.arm(9, None);
    let r = play_enqueued(&mut t, 9, &None, 3);
    assert_eq!(r.cancelled, None);
    assert!(t.armed(9).is_some());
    assert!(!r.now_playing);
    assert_eq!(r.reply.content, "Added to queue: TITLE NOT FOUND");
}

#[test]
fn skip_on_empty_queue_has_nothing_to_skip() {
    let r = skip_reply(true, 0, &None);
    assert!(!r.skip);
    assert_eq!(r.reply.content, "There is nothing to skip!");
    assert!(r.reply.ephemeral);
}

#[test]
fn skip_without_session_fails() {
    let r = skip_reply(false, 2, &Some("x".to_string()));
    assert!(!r.skip);
    assert_eq!(r.reply.content, "Failed to skip");
}

#[test]
fn skip_names_the_current_track() {
    let r = skip_reply(true, 2, &Some("Song".to_string()));
    assert!(r.skip);
    assert_eq!(r.reply.content, "Skipped: Song");
    assert_eq!(skip_reply(true, 1, &None).reply.content, "Skipped: [TITLE NOT FOUND]");
}

#[test]
fn stop_answers() {
    assert_eq!(stop_reply(true).content, "Stopping");
    assert!(!stop_reply(true).ephemeral);
    assert_eq!(stop_reply(false).content, "Failed to stop");
    assert!(stop_reply(false).ephemeral);
}

#[test]
fn fixed_answers() {
    assert_eq!(not_in_voice().content, "Not connected to voice channel");
    assert!(not_in_voice().ephemeral);
    assert_eq!(missing_source_url().content, "Failed to retrieve url from input!");
    assert_eq!(title_or_fallback(&None, "X"), "X");
    assert_eq!(title_or_fallback(&Some("T".to_string()), "X"), "T");
}

#[test]
fn connect_creates_keeps_and_rejoins() {
    let mut s = VoiceSessions::new();
    assert!(s.connect(1, 10) == ConnectAction::Create);
    assert_eq!(s.channel(1), Some(10));
    assert!(s.connect(1, 20) == ConnectAction::Keep);
    assert_eq!(s.channel(1), Some(10));
    s.unbind(1);
    assert!(s.has_session(1));
    assert_eq!(s.channel(1), None);
    assert!(s.connect(1, 20) == ConnectAction::Rejoin);
    assert_eq!(s.channel(1), Some(20));
}

#[test]
fn track_end_arms_only_on_empty_queue() {
    let mut t = DisconnectScheduler::new();
    assert!(on_track_end(&mut t, 4, false, None).is_none());
    assert!(t.armed(4).is_none());
    let o = on_track_end(&mut t, 4, true, None).unwrap();
    assert_eq!(o.cancelled, None);
    assert!(t.armed(4) == Some(o.armed));
    let o2 = on_track_end(&mut t, 4, true, Some(5)).unwrap();
    assert_eq!(o2.cancelled, Some(o.armed.ticket));
}

#[test]
fn driver_disconnect_tears_down_when_unbound() {
    let mut s = VoiceSessions::new();
    let mut t = DisconnectScheduler::new();
    s.connect(2, 11);
    let o = t.arm(2, None);
    assert!(on_driver_disconnect(&mut s, &mut t, 2, true, true).is_none());
    assert!(on_driver_disconnect(&mut s, &mut t, 2, false, false).is_none());
    assert!(t.armed(2).is_some());
    assert_eq!(on_driver_disconnect(&mut s, &mut t, 2, true, false), Some(Some(o.armed.ticket)));
    assert!(t.armed(2).is_none());
    assert_eq!(s.channel(2), None);
    assert!(s.has_session(2));
}

#[test]
fn play_url_without_cache_hit_then_background_commit() {
    let url = "https://video/x";
    let mut downloads = DownloadCoordinator::new(ContentCache::new());
    let mut timers = DisconnectScheduler::new();
    let mut sessions = VoiceSessions::new();
    assert!(sessions.connect(5, 50) == ConnectAction::Create);
    match plan_source(&downloads.cache, url, "/home/bot") {
        SourcePlan::Live { direct } => assert!(direct),
        _ => panic!("expected live resolution"),
    }
    let title = Some("Video X".to_string());
    assert!(matches!(downloads.begin(url, url, "/home/bot"), Ok(DownloadStep::Fetch { .. })));
    let r = play_enqueued(&mut timers, 5, &title, 1);
    assert_eq!(r.reply.content, "Now playing: Video X");
    assert!(!downloads.cache.is_cached(url));
    assert!(downloads.complete_at(url, url, title, true, 100).is_ok());
    assert!(downloads.cache.is_cached(url));
}

#[test]
fn play_same_query_after_caching_uses_the_file() {
    let mut downloads = DownloadCoordinator::new(ContentCache::new());
    let mut timers = DisconnectScheduler::new();
    let url = "https://video/z";
    downloads.begin(url, "same query", "/home/bot").ok();
    downloads.complete_at(url, "same query", Some("Zed".to_string()), true, 1).ok();
    match plan_source(&downloads.cache, "same query", "/home/bot") {
        SourcePlan::Cached { path, title, url: u } => {
            assert_eq!(path, format!("/home/bot/songbird_cache/{}", content_id(url)));
            assert_eq!(title, Some("Zed".to_string()));
            assert_eq!(u, url);
        }
        _ => panic!("expected a cache hit"),
    }
    assert_eq!(play_enqueued(&mut timers, 6, &Some("Zed".to_string()), 1).reply.content, "Now playing: Zed");
    assert_eq!(play_enqueued(&mut timers, 6, &Some("Zed".to_string()), 2).reply.content, "Added to queue: Zed");
}

#[test]
fn search_query_is_not_direct() {
    let cache = ContentCache::new();
    match plan_source(&cache, "never gonna", "/h") {
        SourcePlan::Live { direct } => assert!(!direct),
        _ => panic!("expected live resolution"),
    }
}

#[test]
fn two_guilds_are_independent() {
    let mut timers = DisconnectScheduler::new();
    let mut sessions = VoiceSessions::new();
    assert!(sessions.connect(1, 100) == ConnectAction::Create);
    assert!(sessions.connect(2, 200) == ConnectAction::Create);
    let a = timers.arm(1, None);
    let b = timers.arm(2, Some(60));
    let r = play_enqueued(&mut timers, 1, &None, 1);
    assert_eq!(r.cancelled, Some(a.armed.ticket));
    assert!(timers.armed(1).is_none());
    assert!(timers.armed(2) == Some(b.armed));
    sessions.unbind(1);
    assert_eq!(sessions.channel(1), None);
    assert_eq!(sessions.channel(2), Some(200));
    assert!(timers.fire(2, b.armed.ticket));
    assert!(timers.armed(1).is_none());
}

#[test]
fn track_table_attaches_and_detaches() {
    let mut table = TrackTable::new();
    assert_eq!(table.title(1), None);
    table.attach(1, TrackMeta { title: Some("A".to_string()), source_url: None, duration_secs: Some(90) });
    assert_eq!(table.title(1), Some("A".to_string()));
    let info = table.info(1);
    assert_eq!(info.title, Some("A".to_string()));
    assert_eq!(info.duration_secs, Some(90));
    let unknown = table.info(2);
    assert_eq!(unknown.title, None);
    assert_eq!(unknown.duration_secs, None);
    table.detach(1);
    assert_eq!(table.title(1), None);
}
