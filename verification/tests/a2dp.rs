use airpods::a2dp::{
    active_profile, card_of, cards_error, profile_error, A2dpReset, PactlResult, ResetStep,
    Restoration,
};

const ADDRESS: &str = "AA:BB:CC:DD:EE:FF";
const CARD: &str = "bluez_card.AA_BB_CC_DD_EE_FF";
const CARDS: &str = "Card #41\n\tName: alsa_card.pci\n\tActive Profile: output:stereo\r\n\
    Card #42\n\tName: bluez_card.AA_BB_CC_DD_EE_FF\n\tDriver: module\n\
    \tActive Profile: a2dp-sink-aac\n\tActive Profile: off\n";

fn ran(success: bool, stdout: &str, stderr: &[u8]) -> PactlResult {
    PactlResult::Finished {
        success,
        stdout: stdout.as_bytes().to_vec(),
        stderr: stderr.to_vec(),
    }
}

fn command(step: ResetStep) -> (Vec<String>, u64) {
    match step {
        ResetStep::Run { command, pause_ms } => (command.arguments(), pause_ms),
        ResetStep::Done(error) => panic!("over: {error:?}"),
    }
}

fn over(step: ResetStep) -> Option<String> {
    match step {
        ResetStep::Done(error) => error,
        step => panic!("{step:?}"),
    }
}

#[test]
fn cards_are_named_after_addresses() {
    assert_eq!(card_of(ADDRESS), CARD);
    assert_eq!(card_of(""), "bluez_card.");
}

#[test]
fn the_active_profile_is_that_of_the_card() {
    assert_eq!(active_profile(CARDS, CARD).as_deref(), Some("a2dp-sink-aac"));
    assert_eq!(active_profile(CARDS, "alsa_card.pci").as_deref(), Some("output:stereo"));
    assert_eq!(active_profile(CARDS, "other"), None);
    assert_eq!(active_profile("", CARD), None);
    let unnamed = "Name: x\nCard #1\nActive Profile: a";
    assert_eq!(active_profile(unnamed, "x"), None);
}

#[test]
fn a_reset_switches_off_and_on() {
    let mut pending = None;
    let (mut reset, step) = A2dpReset::begin(ADDRESS, &pending);
    assert_eq!(command(step), (vec!["list".to_string(), "cards".to_string()], 0));
    let step = reset.reset_a2dp(&mut pending, &ran(true, CARDS, b""));
    let (arguments, _) = command(step);
    assert_eq!(arguments, ["set-card-profile", CARD, "off"]);
    assert_eq!(pending.as_ref().unwrap().profile, "a2dp-sink-aac");
    let step = reset.reset_a2dp(&mut pending, &ran(true, "", b""));
    let (arguments, _) = command(step);
    assert_eq!(arguments, ["set-card-profile", CARD, "a2dp-sink-aac"]);
    let step = reset.reset_a2dp(&mut pending, &ran(true, "", b""));
    assert_eq!(over(step), None);
    assert!(pending.is_none());
}

#[test]
fn a_profile_is_switched_on_even_if_it_was_not_switched_off() {
    let mut pending = None;
    let (mut reset, _) = A2dpReset::begin(ADDRESS, &pending);
    reset.reset_a2dp(&mut pending, &ran(true, CARDS, b""));
    let step = reset.reset_a2dp(&mut pending, &ran(false, "", b" busy\xff \n"));
    let (arguments, _) = command(step);
    assert_eq!(arguments[2], "a2dp-sink-aac");
    let step = reset.reset_a2dp(&mut pending, &ran(true, "", b""));
    assert_eq!(
        over(step).unwrap(),
        format!("failed to set {CARD} profile to off: busy\u{fffd}")
    );
    assert!(pending.is_none());
}

#[test]
fn a_failed_restoration_is_made_up_for() {
    let mut pending = None;
    let (mut reset, _) = A2dpReset::begin(ADDRESS, &pending);
    reset.reset_a2dp(&mut pending, &ran(true, CARDS, b""));
    reset.reset_a2dp(&mut pending, &ran(true, "", b""));
    for _ in 0..2 {
        let (_, pause_ms) = command(reset.reset_a2dp(&mut pending, &PactlResult::NotRun));
        assert_eq!(pause_ms, 100);
    }
    let step = reset.reset_a2dp(&mut pending, &ran(false, "", b"gone"));
    assert_eq!(
        over(step).unwrap(),
        format!("failed to set {CARD} profile to a2dp-sink-aac: gone")
    );
    assert_eq!(pending.as_ref().unwrap().card, CARD);

    let (mut reset, step) = A2dpReset::begin("11:22:33:44:55:66", &pending);
    assert_eq!(command(step).0, ["set-card-profile", CARD, "a2dp-sink-aac"]);
    command(reset.reset_a2dp(&mut pending, &PactlResult::NotRun));
    command(reset.reset_a2dp(&mut pending, &PactlResult::NotRun));
    let step = reset.reset_a2dp(&mut pending, &PactlResult::NotRun);
    assert_eq!(over(step).unwrap(), "failed to recover a pending A2DP profile restoration");
    assert!(pending.is_some());

    let (mut reset, _) = A2dpReset::begin("11:22:33:44:55:66", &pending);
    let (arguments, _) = command(reset.reset_a2dp(&mut pending, &ran(true, "", b"")));
    assert_eq!(arguments, ["list", "cards"]);
    assert!(pending.is_none());
}

#[test]
fn cards_that_cannot_be_listed_end_a_reset() {
    let mut pending = None;
    let (mut reset, _) = A2dpReset::begin(ADDRESS, &pending);
    let step = reset.reset_a2dp(&mut pending, &PactlResult::NotRun);
    assert_eq!(over(step).unwrap(), "failed to inspect PipeWire cards with pactl");
    let (mut reset, _) = A2dpReset::begin(ADDRESS, &pending);
    let step = reset.reset_a2dp(&mut pending, &ran(false, CARDS, b" refused \n"));
    assert_eq!(over(step).unwrap(), "pactl list cards failed: refused");
    assert_eq!(cards_error("x "), "pactl list cards failed: x");
}

#[test]
fn other_profiles_are_left_alone() {
    for cards in ["", &CARDS.replace("a2dp-sink-aac", "headset-head-unit")] {
        let mut pending = None;
        let (mut reset, _) = A2dpReset::begin(ADDRESS, &pending);
        let step = reset.reset_a2dp(&mut pending, &ran(true, cards, b""));
        assert_eq!(over(step), None);
        assert!(pending.is_none());
    }
}

#[test]
fn profile_errors_name_card_and_profile() {
    let to = Restoration { card: "c".to_string(), profile: "p".to_string() };
    assert_eq!(profile_error(&to, None), "failed to set c profile to p");
    assert_eq!(profile_error(&to, Some(" why ")), "failed to set c profile to p: why");
}
