use enchanting::commands::EnchCommands;
use enchanting::config::EnchConfig;
use enchanting::ench::{
    attempt_reply, ench_chance, ench_new_sharpness, ench_success, ench_verdict, has_vagina,
    vagina_check, verdict_reply, EnchReply, EnchVerdict,
};
use enchanting::repo::EnchState;

fn state(sharpness: i32, bless_charges: i32, attempts_left: i32) -> EnchState {
    EnchState { sharpness, bless_charges, attempts_left }
}

#[test]
fn only_non_positive_dicks_are_vaginas() {
    assert!(has_vagina(0));
    assert!(has_vagina(-5));
    assert!(!has_vagina(1));
    assert_eq!(vagina_check(12), Some(EnchReply::NoVagina { length: 12 }));
    assert_eq!(vagina_check(-3), None);
}

#[test]
fn commands_with_bless() {
    assert!(!EnchCommands::Ench.with_bless());
    assert!(EnchCommands::Enchb.with_bless());
}

#[test]
fn chance_is_certain_up_to_the_safe_level() {
    let cfg = EnchConfig::default();
    assert_eq!(ench_chance(&cfg, 3, 0), 100);
    assert_eq!(ench_chance(&cfg, -10, 0), 100);
}

#[test]
fn chance_is_clamped_above_the_safe_level() {
    let cfg = EnchConfig::default();
    assert_eq!(ench_chance(&cfg, 4, 0), 5);
    assert_eq!(ench_chance(&cfg, 4, 37), 37);
    assert_eq!(ench_chance(&cfg, 9, 250), 100);
    let narrow = EnchConfig { chance_min: 10, chance_max: 60, ..EnchConfig::default() };
    assert_eq!(ench_chance(&narrow, 5, 70), 60);
    assert_eq!(ench_chance(&narrow, 5, 3), 10);
}

#[test]
fn success_is_certain_at_full_chance() {
    assert!(ench_success(100));
    assert!(ench_success(150));
    assert!(!ench_success(0));
}

#[test]
fn verdicts() {
    assert_eq!(ench_verdict(&state(2, 0, 0), false), EnchVerdict::NoAttempts);
    assert_eq!(ench_verdict(&state(2, 0, 5), true), EnchVerdict::NoBlesses);
    assert_eq!(ench_verdict(&state(2, 0, 5), false), EnchVerdict::Attempt { target: 3 });
    assert_eq!(ench_verdict(&state(2, 1, 5), true), EnchVerdict::Attempt { target: 3 });
    assert_eq!(verdict_reply(EnchVerdict::NoAttempts), Some(EnchReply::NoAttempts { until_tomorrow: true }));
    assert_eq!(verdict_reply(EnchVerdict::NoBlesses), Some(EnchReply::NoBlesses));
    assert_eq!(verdict_reply(EnchVerdict::Attempt { target: 1 }), None);
}

#[test]
fn new_sharpness() {
    assert_eq!(ench_new_sharpness(4, true, false), 5);
    assert_eq!(ench_new_sharpness(4, true, true), 5);
    assert_eq!(ench_new_sharpness(4, false, true), 4);
    assert_eq!(ench_new_sharpness(4, false, false), 0);
}

#[test]
fn replies_after_the_attempt() {
    let s = state(4, 2, 3);
    assert_eq!(
        attempt_reply(&s, true, 40, false, 4, true),
        EnchReply::Enchanted { success: false, with_bless: true, level: 4, chance: 40, blesses: 1, attempts_left: 2 }
    );
    assert_eq!(
        attempt_reply(&s, false, 100, true, 5, true),
        EnchReply::Enchanted { success: true, with_bless: false, level: 5, chance: 100, blesses: 2, attempts_left: 2 }
    );
    assert_eq!(attempt_reply(&s, false, 100, true, 5, false), EnchReply::NoAttempts { until_tomorrow: false });
}

#[test]
fn reply_keys() {
    let enchanted = |success, with_bless| EnchReply::Enchanted {
        success, with_bless, level: 1, chance: 1, blesses: 0, attempts_left: 0,
    };
    assert_eq!(enchanted(true, false).key(), "commands.ench.success");
    assert_eq!(enchanted(true, true).key(), "commands.ench.success_bless");
    assert_eq!(enchanted(false, false).key(), "commands.ench.fail");
    assert_eq!(enchanted(false, true).key(), "commands.ench.fail_bless");
    assert_eq!(EnchReply::NoVagina { length: 3 }.key(), "commands.ench.errors.no_vagina");
    assert_eq!(EnchReply::NoAttempts { until_tomorrow: true }.key(), "commands.ench.errors.no_attempts");
    assert_eq!(EnchReply::NoBlesses.key(), "commands.ench.errors.no_blesses");
}

#[test]
fn a_full_attempt_at_the_safe_level() {
    let cfg = EnchConfig::default();
    let s = state(0, 0, 20);
    let target = match ench_verdict(&s, false) {
        EnchVerdict::Attempt { target } => target,
        other => panic!("unexpected verdict {other:?}"),
    };
    let chance = ench_chance(&cfg, target, 0);
    let success = ench_success(chance);
    assert!(success);
    let level = ench_new_sharpness(s.sharpness, success, false);
    assert_eq!(level, 1);
    assert_eq!(
        attempt_reply(&s, false, chance, success, level, true),
        EnchReply::Enchanted { success: true, with_bless: false, level: 1, chance: 100, blesses: 0, attempts_left: 19 }
    );
}
