use enchanting::bless::{bless_draw, bless_reply, no_candidates_reply, BlessDraw, BlessReply};
use enchanting::callback::SexCallbackData;
use enchanting::config::EnchConfig;
use enchanting::repo::{EnchState, VaginaCandidate};
use enchanting::sex::{
    bite_growth, check_defender, duel_outcome, duel_precheck, duel_sharpness, sex_offer,
    sex_vagina_check, sharpness_of, vagina_wins_roll, SexDuelError, SexDuelOutcome, SexOffer,
};

fn state(sharpness: i32) -> Option<EnchState> {
    Some(EnchState { sharpness, bless_charges: 0, attempts_left: 0 })
}

#[test]
fn offers() {
    assert_eq!(sex_vagina_check(5), Some(SexOffer::NoVagina));
    assert_eq!(sex_vagina_check(0), None);
    assert_eq!(sharpness_of(None), 0);
    assert_eq!(sex_offer(7, None), SexOffer::NotSharpened);
    assert_eq!(sex_offer(7, state(0)), SexOffer::NotSharpened);
    assert_eq!(
        sex_offer(7, state(3)),
        SexOffer::Offer { sharpness: 3, data: SexCallbackData { initiator: 7, sharpness: 3 } }
    );
    assert_eq!(
        sex_offer(7, state(65536 + 2)),
        SexOffer::Offer { sharpness: 65538, data: SexCallbackData { initiator: 7, sharpness: 2 } }
    );
    assert_eq!(SexOffer::NoVagina.key(), "commands.sex.errors.no_vagina");
    assert_eq!(SexOffer::NotSharpened.key(), "commands.sex.errors.not_sharpened");
    assert_eq!(sex_offer(7, state(3)).key(), "commands.sex.start");
}

#[test]
fn duel_checks() {
    let data = SexCallbackData { initiator: 7, sharpness: 3 };
    assert_eq!(duel_precheck(&data, 7, true), Err(SexDuelError::SamePerson));
    assert_eq!(duel_precheck(&data, 8, false), Err(SexDuelError::Expired));
    assert_eq!(duel_precheck(&data, 8, true), Ok(()));
    assert_eq!(duel_sharpness(&data, state(3)), Ok(3));
    assert_eq!(duel_sharpness(&data, state(4)), Err(SexDuelError::Expired));
    assert_eq!(duel_sharpness(&data, None), Err(SexDuelError::Expired));
    assert_eq!(check_defender(2, 3), Err(SexDuelError::TooShort));
    assert_eq!(check_defender(3, 3), Ok(()));
    assert_eq!(SexDuelError::SamePerson.key(), "commands.sex.errors.same_person");
    assert_eq!(SexDuelError::Expired.key(), "commands.sex.errors.expired");
    assert_eq!(SexDuelError::TooShort.key(), "commands.sex.errors.too_short");
}

#[test]
fn a_stale_offer_expires() {
    let offer = sex_offer(7, state(65538));
    let data = match offer {
        SexOffer::Offer { data, .. } => data,
        other => panic!("unexpected offer {other:?}"),
    };
    assert_eq!(duel_sharpness(&data, state(65538)), Err(SexDuelError::Expired));
}

#[test]
fn vagina_wins_the_duel() {
    let outcome = duel_outcome(6, true);
    assert_eq!(outcome, SexDuelOutcome::VaginaWins { sharpness: 6, defender_growth: -6 });
    assert_eq!(outcome.key(), "commands.sex.vagina_wins");
    assert!(!outcome.grants_blesses());
    let initiator_length = -4;
    let growth = bite_growth(6, initiator_length);
    assert_eq!(growth, 10);
    assert_eq!(initiator_length + growth, 6);
}

#[test]
fn dick_wins_the_duel() {
    let outcome = duel_outcome(7, false);
    assert_eq!(outcome, SexDuelOutcome::DickWins { sharpness: 7, blesses: 3 });
    assert_eq!(outcome.key(), "commands.sex.dick_wins");
    assert!(outcome.grants_blesses());
    assert!(!duel_outcome(1, false).grants_blesses());
}

#[test]
fn coin_is_a_bool() {
    let mut seen = [false, false];
    for _ in 0..200 {
        seen[vagina_wins_roll() as usize] = true;
    }
    assert!(seen[0] && seen[1]);
}

#[test]
fn bless_of_day() {
    let cfg = EnchConfig::default();
    assert_eq!(bless_draw(&cfg, None), BlessDraw::NoCandidates);
    let winner = VaginaCandidate { uid: 9, name: "Ann".to_string() };
    match bless_draw(&cfg, Some(winner.clone())) {
        BlessDraw::Winner { winner: w, amount } => {
            assert_eq!(w, winner);
            assert!((1..=3).contains(&amount));
        }
        other => panic!("unexpected draw {other:?}"),
    }
    let reply = bless_reply(winner.clone(), 2, true);
    assert_eq!(reply, BlessReply::Blessed { uid: 9, name: "Ann".to_string(), amount: 2 });
    assert!(reply.grants_blesses());
    assert_eq!(reply.key(), "commands.bless.result");
    let reply = bless_reply(winner, 2, false);
    assert_eq!(reply, BlessReply::AlreadyChosen);
    assert!(!reply.grants_blesses());
    assert_eq!(reply.key(), "commands.bless.already_chosen");
    assert_eq!(no_candidates_reply().key(), "commands.bless.no_candidates");
}
