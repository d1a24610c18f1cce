use enchanting::config::EnchConfig;
use enchanting::gnomes::{
    gnome_theft, pick_weighted, plan_gnome_raid, plan_gnome_wake, raid_after_registration, GnomeRaid, GnomeWake,
};
use enchanting::repo::{GnomeChat, GnomeVictimCandidate};
use enchanting::rollback::{
    announce_outcome, announcement_delivered, announcement_pending, announcer_step,
    AnnounceOutcome, AnnouncerStep, ANNOUNCER_RETRY_SECS,
    ANNOUNCER_START_DELAY_SECS,
};

fn candidate(uid: i64, length: i32) -> GnomeVictimCandidate {
    GnomeVictimCandidate { uid, name: format!("p{uid}"), length }
}

// 2024-01-02 00:00:00 UTC
const DAY: i64 = 1_704_153_600;

#[test]
fn wake_before_the_raid_hour() {
    let wake = plan_gnome_wake(DAY + 3600, 0, 6);
    assert_eq!(wake, GnomeWake { raid_now: false, next_raid: DAY + 6 * 3600, sleep_secs: 5 * 3600, sleep_nanos: 0 });
}

#[test]
fn wake_after_the_raid_hour() {
    let wake = plan_gnome_wake(DAY + 7 * 3600, 250_000_000, 6);
    assert_eq!(
        wake,
        GnomeWake { raid_now: true, next_raid: DAY + 86400 + 6 * 3600, sleep_secs: 23 * 3600 - 1, sleep_nanos: 750_000_000 }
    );
}

#[test]
fn wake_exactly_at_the_raid_hour() {
    let wake = plan_gnome_wake(DAY + 6 * 3600, 0, 6);
    assert!(wake.raid_now);
    assert_eq!(wake.sleep_secs, 86400);
}

#[test]
fn wakes_follow_day_by_day() {
    let first = plan_gnome_wake(DAY + 3600, 0, 6);
    let second = plan_gnome_wake(first.next_raid + 2, 1_000, 6);
    assert!(second.raid_now);
    assert_eq!(second.next_raid, first.next_raid + 86400);
}

#[test]
fn raid_hours_past_23_mean_23() {
    let wake = plan_gnome_wake(DAY, 0, 99);
    assert_eq!(wake.next_raid, DAY + 23 * 3600);
}

#[test]
fn wake_before_the_epoch() {
    let wake = plan_gnome_wake(-3600, 0, 0);
    assert_eq!(wake.next_raid, 0);
    assert!(wake.raid_now);
}

#[test]
fn roulette_shares_follow_the_weights() {
    // weights (excess over 20, plus one): 2, 4, 3
    let cands = vec![candidate(1, 21), candidate(2, 23), candidate(3, 22)];
    let picks: Vec<usize> = (0..9).map(|roll| pick_weighted(&cands, 20, roll)).collect();
    assert_eq!(picks, vec![0, 0, 1, 1, 1, 1, 2, 2, 2]);
}

#[test]
fn theft_is_bounded_by_the_victim() {
    assert_eq!(gnome_theft(30, 5), Some(5));
    assert_eq!(gnome_theft(3, 5), Some(3));
    assert_eq!(gnome_theft(30, 0), None);
    assert_eq!(gnome_theft(0, 5), None);
    assert_eq!(gnome_theft(-2, 5), None);
}

#[test]
fn raid_plans() {
    let cfg = EnchConfig::default();
    assert_eq!(plan_gnome_raid(&cfg, &vec![]), None);
    let cands = vec![candidate(1, 21), candidate(2, 40)];
    for _ in 0..100 {
        let raid = plan_gnome_raid(&cfg, &cands).expect("someone is robbed");
        assert!(raid.victim < 2);
        assert!(raid.stolen >= 1 && raid.stolen <= 10);
        assert!(raid.stolen <= cands[raid.victim].length);
    }
    let nothing_to_steal = EnchConfig { gnomes_steal: 0..=0, ..EnchConfig::default() };
    for _ in 0..20 {
        assert_eq!(plan_gnome_raid(&nothing_to_steal, &cands), None);
    }
    let raid = GnomeRaid { victim: 1, stolen: 4 };
    assert_eq!(raid_after_registration(raid, true), Some(raid));
    assert_eq!(raid_after_registration(raid, false), None);
    let chat = GnomeChat { internal_id: 1, tg_chat_id: -100 };
    assert_eq!(chat, GnomeChat { internal_id: 1, tg_chat_id: -100 });
}

#[test]
fn rollback_announcer() {
    assert_eq!(ANNOUNCER_START_DELAY_SECS, 5);
    assert!(!announcement_pending(&vec![]));
    assert!(announcement_pending(&vec![3]));
    assert!(!announcement_delivered(&vec![]));
    assert!(!announcement_delivered(&vec![false, false]));
    assert!(announcement_delivered(&vec![false, true, false]));
    assert_eq!(announce_outcome(false, false), AnnounceOutcome::NothingPending);
    assert_eq!(announce_outcome(true, true), AnnounceOutcome::Delivered);
    assert_eq!(announce_outcome(true, false), AnnounceOutcome::NotDelivered);
    assert_eq!(announcer_step(AnnounceOutcome::NothingPending), AnnouncerStep::Stop);
    assert_eq!(announcer_step(AnnounceOutcome::Delivered), AnnouncerStep::Stop);
    assert_eq!(announcer_step(AnnounceOutcome::NotDelivered), AnnouncerStep::RetryAfter { secs: ANNOUNCER_RETRY_SECS });
    assert_eq!(announcer_step(AnnounceOutcome::Failed), AnnouncerStep::RetryAfter { secs: 60 });
}
