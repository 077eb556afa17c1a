//! The reset of the A2DP profile through `pactl`.
//!
//! The profile of the card is switched off and back on, so that PipeWire builds a
//! new route for playback. A profile that could not be switched back on is kept in
//! mind and switched on before the next reset.
use crate::text::{
    chars_of, decode_lossy, has_prefix, pieces, split, starts_with, strip_prefix, texts, trim,
    trimmed, utf8_lossy,
};
use vstd::prelude::*;

verus! {

/// The time within which `pactl` must answer.
pub const PACTL_TIMEOUT_MS: u64 = 2_000;

/// How often it is tried to switch a profile back on.
pub const A2DP_RESTORE_ATTEMPTS: usize = 3;

/// The pause between two tries to switch a profile back on.
pub const A2DP_RESTORE_RETRY_DELAY_MS: u64 = 100;

/// The error of a profile from an earlier reset that still cannot be switched on.
pub const PENDING_RESTORE_FAILED: &'static str =
    "failed to recover a pending A2DP profile restoration";

/// The error of a list of cards that cannot be had.
pub const CARDS_UNREADABLE: &'static str = "failed to inspect PipeWire cards with pactl";

/// The profile of a card that is switched off.
pub const OFF: &'static str = "off";

/// A card whose profile is to be switched back on.
#[derive(Debug)]
pub struct Restoration {
    /// The name of the card.
    pub card: String,
    /// The profile.
    pub profile: String,
}

/// The model of a `Restoration`.
pub struct RestorationView {
    pub card: Seq<char>,
    pub profile: Seq<char>,
}

impl View for Restoration {
    type V = RestorationView;

    open spec fn view(&self) -> RestorationView {
        RestorationView { card: self.card@, profile: self.profile@ }
    }
}

impl Clone for Restoration {
    /// A copy.
    fn clone(&self) -> (restoration: Restoration)
        ensures
            restoration@ == self@,
    {
        Restoration { card: self.card.clone(), profile: self.profile.clone() }
    }
}

/// The model of a restoration that may not be pending.
pub open spec fn pending_view(pending: Option<Restoration>) -> Option<RestorationView> {
    match pending {
        Some(restoration) => Some(restoration@),
        None => None,
    }
}

/// A command for `pactl`.
#[derive(Debug)]
pub enum PactlCommand {
    /// Describe the cards.
    ListCards,
    /// Set the profile of a card.
    SetProfile(Restoration),
}

/// The model of a `PactlCommand`.
pub enum CommandView {
    ListCards,
    SetProfile(RestorationView),
}

impl View for PactlCommand {
    type V = CommandView;

    open spec fn view(&self) -> CommandView {
        match self {
            PactlCommand::ListCards => CommandView::ListCards,
            PactlCommand::SetProfile(restoration) => CommandView::SetProfile(restoration@),
        }
    }
}

impl CommandView {
    /// The arguments of the command.
    pub open spec fn arguments(self) -> Seq<Seq<char>> {
        match self {
            CommandView::ListCards => seq!["list"@, "cards"@],
            CommandView::SetProfile(to) => seq!["set-card-profile"@, to.card, to.profile],
        }
    }
}

impl PactlCommand {
    /// The arguments of the command.
    pub fn arguments(&self) -> (arguments: Vec<String>)
        ensures
            texts(arguments@) == self@.arguments(),
    {
        let arguments = match self {
            PactlCommand::ListCards => vec!["list".to_owned(), "cards".to_owned()],
            PactlCommand::SetProfile(to) => vec![
                "set-card-profile".to_owned(),
                to.card.clone(),
                to.profile.clone(),
            ],
        };
        assert(texts(arguments@) =~= self@.arguments());
        arguments
    }
}

/// What became of a run of `pactl`.
#[derive(Debug)]
pub enum PactlResult {
    /// It could not be run, or did not answer in time.
    NotRun,
    /// It ran, with success or without, and with what it printed.
    Finished { success: bool, stdout: Vec<u8>, stderr: Vec<u8> },
}

/// The name of the card of a Bluetooth address.
pub open spec fn card_name(address: Seq<char>) -> Seq<char> {
    "bluez_card."@ + address.map_values(
        |c: char|
            if c == ':' {
                '_'
            } else {
                c
            },
    )
}

/// The name of the card of a Bluetooth address.
pub fn card_of(address: &str) -> (card: String)
    ensures
        card@ == card_name(address@),
{
    let chars = chars_of(address);
    let mut card = "bluez_card.".to_owned();
    for i in 0..chars.len()
        invariant
            chars@ == address@,
            card@ == card_name(address@.take(i as int)),
    {
        if chars[i] == ':' {
            card.push('_');
        } else {
            card.push(chars[i]);
        }
        assert(card@ =~= card_name(address@.take(i + 1)));
    }
    assert(address@.take(address@.len() as int) =~= address@);
    card
}

/// The lines of a text, without white space around them.
pub open spec fn trimmed_lines(text: Seq<char>) -> Seq<Seq<char>> {
    pieces(text, '\n').map_values(|line: Seq<char>| trimmed(line))
}

/// Whether a line opens the description of another card.
pub open spec fn opens_card(line: Seq<char>) -> bool {
    has_prefix(line, "Card #"@)
}

/// Whether a line names a card.
pub open spec fn names_card(line: Seq<char>) -> bool {
    !opens_card(line) && has_prefix(line, "Name: "@)
}

/// Whether the line at `n` belongs to the given card: the nearest line before it
/// that opens or names a card names this one.
pub open spec fn within_card(lines: Seq<Seq<char>>, card: Seq<char>, n: nat) -> bool
    decreases n,
{
    if n == 0 {
        false
    } else if opens_card(lines[n - 1]) {
        false
    } else if names_card(lines[n - 1]) {
        lines[n - 1].skip("Name: "@.len() as int) == card
    } else {
        within_card(lines, card, (n - 1) as nat)
    }
}

/// The profile that the line at `n` states for the given card.
pub open spec fn profile_at(lines: Seq<Seq<char>>, card: Seq<char>, n: nat) -> Option<Seq<char>> {
    if !opens_card(lines[n as int]) && !names_card(lines[n as int]) && within_card(lines, card, n)
        && has_prefix(lines[n as int], "Active Profile: "@) {
        Some(lines[n as int].skip("Active Profile: "@.len() as int))
    } else {
        None
    }
}

/// The first profile that the lines before `n` state for the given card.
pub open spec fn profile_before(lines: Seq<Seq<char>>, card: Seq<char>, n: nat) -> Option<Seq<char>>
    decreases n,
{
    if n == 0 {
        None
    } else {
        match profile_before(lines, card, (n - 1) as nat) {
            Some(profile) => Some(profile),
            None => profile_at(lines, card, (n - 1) as nat),
        }
    }
}

/// The active profile of a card in a description of cards.
pub open spec fn described_profile(cards: Seq<char>, card: Seq<char>) -> Option<Seq<char>> {
    let lines = trimmed_lines(cards);
    profile_before(lines, card, lines.len())
}

proof fn lemma_first_profile(lines: Seq<Seq<char>>, card: Seq<char>, m: nat, n: nat)
    requires
        m <= n <= lines.len(),
        profile_before(lines, card, m) is Some,
    ensures
        profile_before(lines, card, n) == profile_before(lines, card, m),
    decreases n,
{
    if m < n {
        lemma_first_profile(lines, card, m, (n - 1) as nat);
    }
}

/// The active profile of a card in a description of cards.
pub fn active_profile(cards: &str, card: &str) -> (profile: Option<String>)
    ensures
        crate::text::text_option(profile) == described_profile(cards@, card@),
{
    let parts = split(cards, '\n');
    let ghost lines = trimmed_lines(cards@);
    let mut in_card = false;
    for i in 0..parts.len()
        invariant
            texts(parts@) == pieces(cards@, '\n'),
            lines == trimmed_lines(cards@),
            parts.len() == lines.len(),
            in_card == within_card(lines, card@, i as nat),
            profile_before(lines, card@, i as nat) is None,
    {
        let line = trim(parts[i].as_str());
        assert(texts(parts@)[i as int] == parts@[i as int]@);
        assert(lines[i as int] == line@);
        assert(profile_before(lines, card@, (i + 1) as nat) == profile_at(lines, card@, i as nat));
        if starts_with(line.as_str(), "Card #") {
            in_card = false;
        } else if let Some(name) = strip_prefix(line.as_str(), "Name: ") {
            in_card = crate::text::same_text(name.as_str(), card);
        } else if in_card {
            if let Some(profile) = strip_prefix(line.as_str(), "Active Profile: ") {
                proof {
                    lemma_first_profile(lines, card@, (i + 1) as nat, lines.len());
                }
                return Some(profile);
            }
        }
    }
    None
}

/// The profile that a reset switches off and back on: the active one, where it
/// serves playback through A2DP.
pub open spec fn playback_profile(cards: Seq<char>, card: Seq<char>) -> Option<Seq<char>> {
    match described_profile(cards, card) {
        Some(profile) => if has_prefix(profile, "a2dp-sink"@) {
            Some(profile)
        } else {
            None
        },
        None => None,
    }
}

/// The error of a list of cards, with what `pactl` said of it.
pub fn cards_error(stderr: &str) -> (message: String)
    ensures
        message@ == "pactl list cards failed: "@ + trimmed(stderr@),
{
    let mut message = "pactl list cards failed: ".to_owned();
    message.append(trim(stderr).as_str());
    message
}

/// The error of a profile that could not be set.
pub open spec fn unset_text(to: RestorationView) -> Seq<char> {
    "failed to set "@ + to.card + " profile to "@ + to.profile
}

/// The error of a profile that could not be set, with what `pactl` said of it where
/// it ran.
pub fn profile_error(to: &Restoration, stderr: Option<&str>) -> (message: String)
    ensures
        message@ == (match stderr {
            None => unset_text(to@),
            Some(stderr) => unset_text(to@) + ": "@ + trimmed(stderr@),
        }),
{
    let mut message = "failed to set ".to_owned();
    message.append(to.card.as_str());
    message.append(" profile to ");
    message.append(to.profile.as_str());
    match stderr {
        None => {},
        Some(stderr) => {
            message.append(": ");
            message.append(trim(stderr).as_str());
        },
    }
    message
}

/// The error of a try to set a profile, `None` where it succeeded.
pub open spec fn set_error(to: RestorationView, result: PactlResult) -> Option<Seq<char>> {
    match result {
        PactlResult::NotRun => Some(unset_text(to)),
        PactlResult::Finished { success, stderr, .. } => if success {
            None
        } else {
            Some(unset_text(to) + ": "@ + trimmed(utf8_lossy(stderr@)))
        },
    }
}

/// What became of a try to set a profile.
pub fn set_card_profile(to: &Restoration, result: &PactlResult) -> (error: Option<String>)
    ensures
        crate::text::text_option(error) == set_error(to@, *result),
{
    match result {
        PactlResult::NotRun => Some(profile_error(to, None)),
        PactlResult::Finished { success, stdout, stderr } => if *success {
            None
        } else {
            let said = decode_lossy(stderr.as_slice());
            Some(profile_error(to, Some(said.as_str())))
        },
    }
}

/// Where a reset stands.
#[derive(Debug)]
pub enum ResetStage {
    /// The profile of an earlier reset is being switched on.
    Recover { restoration: Restoration, attempt: usize },
    /// The cards are being listed.
    List,
    /// The profile is being switched off.
    Off { profile: String },
    /// The profile is being switched back on.
    Restore { profile: String, attempt: usize, off_error: Option<String> },
}

/// The model of a `ResetStage`.
pub enum StageView {
    Recover { restoration: RestorationView, attempt: nat },
    List,
    Off { profile: Seq<char> },
    Restore { profile: Seq<char>, attempt: nat, off_error: Option<Seq<char>> },
}

impl View for ResetStage {
    type V = StageView;

    open spec fn view(&self) -> StageView {
        match self {
            ResetStage::Recover { restoration, attempt } => StageView::Recover {
                restoration: restoration@,
                attempt: *attempt as nat,
            },
            ResetStage::List => StageView::List,
            ResetStage::Off { profile } => StageView::Off { profile: profile@ },
            ResetStage::Restore { profile, attempt, off_error } => StageView::Restore {
                profile: profile@,
                attempt: *attempt as nat,
                off_error: crate::text::text_option(*off_error),
            },
        }
    }
}

/// What a reset does next.
#[derive(Debug)]
pub enum ResetStep {
    /// It runs `pactl` after a pause.
    Run { command: PactlCommand, pause_ms: u64 },
    /// It is over; the error says what failed.
    Done(Option<String>),
}

/// The model of a `ResetStep`.
pub enum ResetStepView {
    Run { command: CommandView, pause_ms: u64 },
    Done(Option<Seq<char>>),
}

impl View for ResetStep {
    type V = ResetStepView;

    open spec fn view(&self) -> ResetStepView {
        match self {
            ResetStep::Run { command, pause_ms } => ResetStepView::Run {
                command: command@,
                pause_ms: *pause_ms,
            },
            ResetStep::Done(error) => ResetStepView::Done(crate::text::text_option(*error)),
        }
    }
}

/// A reset of the A2DP profile of one card.
#[derive(Debug)]
pub struct A2dpReset {
    /// The name of the card.
    pub card: String,
    /// Where the reset stands.
    pub stage: ResetStage,
}

/// A reset with what is pending and with its next step.
pub struct ResetState {
    pub stage: StageView,
    pub pending: Option<RestorationView>,
    pub step: ResetStepView,
}

/// The beginning of a reset: a pending restoration goes first.
pub open spec fn reset_begun(pending: Option<RestorationView>) -> ResetState {
    match pending {
        Some(restoration) => ResetState {
            stage: StageView::Recover { restoration, attempt: 0 },
            pending,
            step: ResetStepView::Run { command: CommandView::SetProfile(restoration), pause_ms: 0 },
        },
        None => ResetState {
            stage: StageView::List,
            pending,
            step: ResetStepView::Run { command: CommandView::ListCards, pause_ms: 0 },
        },
    }
}

/// A reset that is over with an error, or without one.
pub open spec fn reset_over(
    stage: StageView,
    pending: Option<RestorationView>,
    error: Option<Seq<char>>,
) -> ResetState {
    ResetState { stage, pending, step: ResetStepView::Done(error) }
}

/// A reset that sets a profile next.
pub open spec fn reset_setting(
    stage: StageView,
    pending: RestorationView,
    to: RestorationView,
    pause_ms: u64,
) -> ResetState {
    ResetState {
        stage,
        pending: Some(pending),
        step: ResetStepView::Run { command: CommandView::SetProfile(to), pause_ms },
    }
}

/// What follows the list of cards.
pub open spec fn reset_listed(
    card: Seq<char>,
    pending: Option<RestorationView>,
    result: PactlResult,
) -> ResetState {
    match result {
        PactlResult::NotRun => reset_over(StageView::List, pending, Some(CARDS_UNREADABLE@)),
        PactlResult::Finished { success, stdout, stderr } => if !success {
            reset_over(
                StageView::List,
                pending,
                Some("pactl list cards failed: "@ + trimmed(utf8_lossy(stderr@))),
            )
        } else {
            match playback_profile(utf8_lossy(stdout@), card) {
                None => reset_over(StageView::List, pending, None),
                Some(profile) => reset_setting(
                    StageView::Off { profile },
                    RestorationView { card, profile },
                    RestorationView { card, profile: OFF@ },
                    0,
                ),
            }
        },
    }
}

/// What follows a run of `pactl`.
pub open spec fn reset_advanced(
    card: Seq<char>,
    stage: StageView,
    pending: Option<RestorationView>,
    result: PactlResult,
) -> ResetState {
    match stage {
        StageView::Recover { restoration, attempt } => if set_error(restoration, result) is None {
            ResetState {
                stage: StageView::List,
                pending: None,
                step: ResetStepView::Run { command: CommandView::ListCards, pause_ms: 0 },
            }
        } else if attempt + 1 < A2DP_RESTORE_ATTEMPTS {
            ResetState {
                stage: StageView::Recover { restoration, attempt: attempt + 1 },
                pending,
                step: ResetStepView::Run {
                    command: CommandView::SetProfile(restoration),
                    pause_ms: A2DP_RESTORE_RETRY_DELAY_MS,
                },
            }
        } else {
            reset_over(stage, pending, Some(PENDING_RESTORE_FAILED@))
        },
        StageView::List => reset_listed(card, pending, result),
        StageView::Off { profile } => ResetState {
            stage: StageView::Restore {
                profile,
                attempt: 0,
                off_error: set_error(RestorationView { card, profile: OFF@ }, result),
            },
            pending,
            step: ResetStepView::Run {
                command: CommandView::SetProfile(RestorationView { card, profile }),
                pause_ms: 0,
            },
        },
        StageView::Restore { profile, attempt, off_error } => {
            let error = set_error(RestorationView { card, profile }, result);
            if error is None {
                reset_over(stage, None, off_error)
            } else if attempt + 1 < A2DP_RESTORE_ATTEMPTS {
                ResetState {
                    stage: StageView::Restore { profile, attempt: attempt + 1, off_error },
                    pending,
                    step: ResetStepView::Run {
                        command: CommandView::SetProfile(RestorationView { card, profile }),
                        pause_ms: A2DP_RESTORE_RETRY_DELAY_MS,
                    },
                }
            } else {
                reset_over(stage, pending, error)
            }
        },
    }
}

/// Whether a stage counts its tries within their limit.
pub open spec fn stage_counts(stage: StageView) -> bool {
    match stage {
        StageView::Recover { attempt, .. } => attempt < A2DP_RESTORE_ATTEMPTS,
        StageView::Restore { attempt, .. } => attempt < A2DP_RESTORE_ATTEMPTS,
        _ => true,
    }
}

impl A2dpReset {
    /// Begins the reset of the card of a Bluetooth address.
    pub fn begin(address: &str, pending: &Option<Restoration>) -> (begun: (A2dpReset, ResetStep))
        ensures
            begun.0.card@ == card_name(address@),
            begun.0.stage@ == reset_begun(pending_view(*pending)).stage,
            begun.1@ == reset_begun(pending_view(*pending)).step,
            stage_counts(begun.0.stage@),
    {
        let card = card_of(address);
        match pending {
            Some(restoration) => (
                A2dpReset {
                    card,
                    stage: ResetStage::Recover { restoration: restoration.clone(), attempt: 0 },
                },
                ResetStep::Run {
                    command: PactlCommand::SetProfile(restoration.clone()),
                    pause_ms: 0,
                },
            ),
            None => (
                A2dpReset { card, stage: ResetStage::List },
                ResetStep::Run { command: PactlCommand::ListCards, pause_ms: 0 },
            ),
        }
    }

    /// Goes on with a reset, after the command that it last asked for.
    pub fn reset_a2dp(&mut self, pending: &mut Option<Restoration>, result: &PactlResult) -> (step:
        ResetStep)
        ensures
            ({
                let next = reset_advanced(
                    old(self).card@,
                    old(self).stage@,
                    pending_view(*old(pending)),
                    *result,
                );
                &&& final(self).card@ == old(self).card@
                &&& final(self).stage@ == next.stage
                &&& pending_view(*final(pending)) == next.pending
                &&& step@ == next.step
            }),
            stage_counts(old(self).stage@) ==> stage_counts(final(self).stage@),
    {
        match &self.stage {
            ResetStage::Recover { restoration, attempt } => {
                let restoration = restoration.clone();
                let attempt: usize = *attempt;
                match set_card_profile(&restoration, result) {
                    None => {
                        *pending = None;
                        self.stage = ResetStage::List;
                        ResetStep::Run { command: PactlCommand::ListCards, pause_ms: 0 }
                    },
                    Some(_) => if attempt < A2DP_RESTORE_ATTEMPTS - 1 {
                        let command = PactlCommand::SetProfile(restoration.clone());
                        self.stage = ResetStage::Recover { restoration, attempt: attempt + 1 };
                        ResetStep::Run { command, pause_ms: A2DP_RESTORE_RETRY_DELAY_MS }
                    } else {
                        ResetStep::Done(Some(PENDING_RESTORE_FAILED.to_owned()))
                    },
                }
            },
            ResetStage::List => self.listed(pending, result),
            ResetStage::Off { profile } => {
                let profile = profile.clone();
                let off = Restoration { card: self.card.clone(), profile: OFF.to_owned() };
                let off_error = set_card_profile(&off, result);
                let command = PactlCommand::SetProfile(
                    Restoration { card: self.card.clone(), profile: profile.clone() },
                );
                self.stage = ResetStage::Restore { profile, attempt: 0, off_error };
                ResetStep::Run { command, pause_ms: 0 }
            },
            ResetStage::Restore { profile, attempt, off_error } => {
                let to = Restoration { card: self.card.clone(), profile: profile.clone() };
                let attempt: usize = *attempt;
                let off_error = off_error.clone();
                match set_card_profile(&to, result) {
                    None => {
                        *pending = None;
                        ResetStep::Done(off_error)
                    },
                    Some(error) => if attempt < A2DP_RESTORE_ATTEMPTS - 1 {
                        let profile = profile.clone();
                        self.stage = ResetStage::Restore {
                            profile,
                            attempt: attempt + 1,
                            off_error,
                        };
                        ResetStep::Run {
                            command: PactlCommand::SetProfile(to),
                            pause_ms: A2DP_RESTORE_RETRY_DELAY_MS,
                        }
                    } else {
                        ResetStep::Done(Some(error))
                    },
                }
            },
        }
    }

    fn listed(&mut self, pending: &mut Option<Restoration>, result: &PactlResult) -> (step:
        ResetStep)
        requires
            old(self).stage is List,
        ensures
            ({
                let next = reset_listed(old(self).card@, pending_view(*old(pending)), *result);
                &&& final(self).card@ == old(self).card@
                &&& final(self).stage@ == next.stage
                &&& pending_view(*final(pending)) == next.pending
                &&& step@ == next.step
            }),
            stage_counts(final(self).stage@),
    {
        match result {
            PactlResult::NotRun => ResetStep::Done(Some(CARDS_UNREADABLE.to_owned())),
            PactlResult::Finished { success, stdout, stderr } => {
                if !*success {
                    let said = decode_lossy(stderr.as_slice());
                    return ResetStep::Done(Some(cards_error(said.as_str())));
                }
                let cards = decode_lossy(stdout.as_slice());
                match active_profile(cards.as_str(), self.card.as_str()) {
                    None => ResetStep::Done(None),
                    Some(profile) => {
                        if !starts_with(profile.as_str(), "a2dp-sink") {
                            return ResetStep::Done(None);
                        }
                        *pending = Some(
                            Restoration { card: self.card.clone(), profile: profile.clone() },
                        );
                        self.stage = ResetStage::Off { profile };
                        let off = Restoration { card: self.card.clone(), profile: OFF.to_owned() };
                        ResetStep::Run { command: PactlCommand::SetProfile(off), pause_ms: 0 }
                    },
                }
            },
        }
    }
}

proof fn lemma_within_card(lines: Seq<Seq<char>>, card: Seq<char>, n: nat)
    requires
        n <= lines.len(),
        within_card(lines, card, n),
    ensures
        exists|i: int|
            0 <= i < n && #[trigger] names_card(lines[i]) && lines[i].skip("Name: "@.len() as int)
                == card && (forall|k: int|
                i < k < n ==> !opens_card(#[trigger] lines[k]) && !names_card(lines[k])),
    decreases n,
{
    if n > 0 {
        let m = (n - 1) as nat;
        if names_card(lines[m as int]) {
            assert(names_card(lines[m as int]));
        } else {
            lemma_within_card(lines, card, m);
            let i = choose|i: int|
                0 <= i < m && #[trigger] names_card(lines[i]) && lines[i].skip(
                    "Name: "@.len() as int,
                ) == card && (forall|k: int|
                    i < k < m ==> !opens_card(#[trigger] lines[k]) && !names_card(lines[k]));
            assert(names_card(lines[i]));
            assert forall|k: int| i < k < n implies !opens_card(#[trigger] lines[k]) && !names_card(
                lines[k],
            ) by {
                if k < m {
                    assert(!opens_card(lines[k]));
                }
            }
        }
    }
}

proof fn lemma_profile_before(lines: Seq<Seq<char>>, card: Seq<char>, n: nat) -> (j: nat)
    requires
        n <= lines.len(),
        profile_before(lines, card, n) is Some,
    ensures
        j < n,
        profile_at(lines, card, j) == profile_before(lines, card, n),
    decreases n,
{
    if profile_before(lines, card, (n - 1) as nat) is Some {
        lemma_profile_before(lines, card, (n - 1) as nat)
    } else {
        (n - 1) as nat
    }
}

/// Whether lines `i` and `j` of a description state a profile for a card: the first
/// names the card, the second its profile, and no other card comes between them.
pub open spec fn states_profile(
    lines: Seq<Seq<char>>,
    card: Seq<char>,
    profile: Seq<char>,
    i: int,
    j: int,
) -> bool {
    &&& 0 <= i < j < lines.len()
    &&& names_card(lines[i])
    &&& lines[i].skip("Name: "@.len() as int) == card
    &&& has_prefix(lines[j], "Active Profile: "@)
    &&& lines[j].skip("Active Profile: "@.len() as int) == profile
    &&& forall|k: int| i < k < j ==> !opens_card(#[trigger] lines[k]) && !names_card(lines[k])
}

/// A profile is only ever taken from the description of the card itself.
pub proof fn law_profile_is_that_of_the_card(cards: Seq<char>, card: Seq<char>)
    requires
        described_profile(cards, card) is Some,
    ensures
        exists|i: int, j: int| #[trigger]
            states_profile(
                trimmed_lines(cards),
                card,
                described_profile(cards, card)->0,
                i,
                j,
            ),
{
    let lines = trimmed_lines(cards);
    let j = lemma_profile_before(lines, card, lines.len());
    lemma_within_card(lines, card, j);
    let i = choose|i: int|
        0 <= i < j && #[trigger] names_card(lines[i]) && lines[i].skip("Name: "@.len() as int)
            == card && (forall|k: int|
            i < k < j ==> !opens_card(#[trigger] lines[k]) && !names_card(lines[k]));
    assert(states_profile(lines, card, described_profile(cards, card)->0, i, j as int));
}

/// Whether what is pending fits the stage of a reset: nothing while the cards are
/// listed, and otherwise the profile that is to be switched back on.
pub open spec fn kept_in_mind(
    card: Seq<char>,
    stage: StageView,
    pending: Option<RestorationView>,
) -> bool {
    match stage {
        StageView::Recover { restoration, .. } => pending == Some(restoration),
        StageView::List => pending is None,
        StageView::Off { profile } => pending == Some(RestorationView { card, profile }),
        StageView::Restore { profile, .. } => pending == Some(RestorationView { card, profile }),
    }
}

/// A profile is kept in mind before it is switched off and until it is back on: at
/// every step of a reset what is pending fits its stage.
pub proof fn law_profile_is_kept_in_mind(
    card: Seq<char>,
    stage: StageView,
    pending: Option<RestorationView>,
    result: PactlResult,
)
    requires
        kept_in_mind(card, stage, pending),
    ensures
        reset_advanced(card, stage, pending, result).step is Run ==> kept_in_mind(
            card,
            reset_advanced(card, stage, pending, result).stage,
            reset_advanced(card, stage, pending, result).pending,
        ),
        kept_in_mind(card, reset_begun(pending).stage, pending),
{
}

/// A reset that is over leaves something pending exactly where the profile could
/// not be switched back on. One that is over without an error leaves nothing.
pub proof fn law_reset_leaves_no_profile_off(
    card: Seq<char>,
    stage: StageView,
    pending: Option<RestorationView>,
    result: PactlResult,
)
    requires
        kept_in_mind(card, stage, pending),
        reset_advanced(card, stage, pending, result).step is Done,
    ensures
        ({
            let next = reset_advanced(card, stage, pending, result);
            &&& next.pending is Some <==> (stage !is List && set_error(pending->0, result) is Some)
            &&& next.pending is Some ==> next.pending == pending
            &&& next.step == ResetStepView::Done(None) ==> next.pending is None
        }),
{
}

/// The number of commands that a reset can still run, the current one included.
pub open spec fn commands_left(stage: StageView) -> int {
    match stage {
        StageView::Recover { attempt, .. } => 8 - attempt,
        StageView::List => 5,
        StageView::Off { .. } => 4,
        StageView::Restore { attempt, .. } => 3 - attempt,
    }
}

/// A reset comes to an end: each command leaves fewer of them, and there are at
/// most eight.
pub proof fn law_reset_ends(
    card: Seq<char>,
    stage: StageView,
    pending: Option<RestorationView>,
    result: PactlResult,
)
    requires
        stage_counts(stage),
    ensures
        0 < commands_left(stage) <= 8,
        ({
            let next = reset_advanced(card, stage, pending, result);
            next.step is Run ==> commands_left(next.stage) < commands_left(stage)
        }),
{
}

/// Behind the command that switches a profile off, the same profile is switched back
/// on, whether or not that command succeeded.
pub proof fn law_off_is_followed_by_on(
    card: Seq<char>,
    profile: Seq<char>,
    pending: Option<RestorationView>,
    result: PactlResult,
)
    ensures
        reset_advanced(card, StageView::Off { profile }, pending, result).step
            == (ResetStepView::Run {
            command: CommandView::SetProfile(RestorationView { card, profile }),
            pause_ms: 0,
        }),
{
}

/// The card of an address is called `bluez_card.` and the address, with an underscore for each
/// colon.
pub proof fn law_cards_are_called_after_the_address(address: &str, card: String)
    requires
        call_ensures(card_of, (address,), card),
    ensures
        card@.len() == 11 + address@.len(),
        card@.take(11) == "bluez_card."@,
        forall|i: int|
            0 <= i < address@.len() ==> (#[trigger] address@[i] == ':' ==> card@[11 + i] == '_')
                && (
            address@[i] != ':' ==> card@[11 + i] == address@[i]),
{
    reveal_strlit("bluez_card.");
    assert(card@.take(11) =~= "bluez_card."@);
}

/// `pactl` is asked for the cards, or told the card and then the profile.
pub proof fn law_arguments_name_card_and_profile(command: &PactlCommand, arguments: Vec<String>)
    requires
        call_ensures(PactlCommand::arguments, (command,), arguments),
    ensures
        command is ListCards ==> arguments@.len() == 2 && arguments@[0]@ == "list"@
            && arguments@[1]@
            == "cards"@,
        command matches PactlCommand::SetProfile(to) ==> arguments@.len() == 3 && arguments@[0]@
            == "set-card-profile"@ && arguments@[1]@ == to.card@ && arguments@[2]@ == to.profile@,
{
    let views = texts(arguments@);
    assert(views.len() == arguments@.len());
    assert forall|i: int| 0 <= i < views.len() implies views[i] == (#[trigger] arguments@[i])@ by {}
    if command is ListCards {
        assert(views.len() == 2);
        assert(arguments@[0]@ == views[0] && arguments@[1]@ == views[1]);
    } else {
        assert(views.len() == 3);
        assert(arguments@[0]@ == views[0] && arguments@[1]@ == views[1] && arguments@[2]@
            == views[2]);
    }
}

/// The `n`-th line of a description, without white space around it.
pub open spec fn line_of(cards: Seq<char>, n: int) -> Seq<char> {
    trimmed(pieces(cards, '\n')[n])
}

/// Whether line `i` of a description names a card, line `j` states the profile, and no line
/// between them opens or names a card.
pub open spec fn stated_for(
    cards: Seq<char>,
    card: Seq<char>,
    profile: Seq<char>,
    i: int,
    j: int,
) -> bool {
    &&& 0 <= i < j < pieces(cards, '\n').len()
    &&& line_of(cards, i) == "Name: "@ + card
    &&& line_of(cards, j) == "Active Profile: "@ + profile
    &&& forall|k: int|
        i < k < j ==> !has_prefix(#[trigger] line_of(cards, k), "Card #"@) && !has_prefix(
            line_of(cards, k),
            "Name: "@,
        )
}

proof fn lemma_line_kinds(line: Seq<char>)
    ensures
        has_prefix(line, "Name: "@) ==> !has_prefix(line, "Card #"@),
        has_prefix(line, "Active Profile: "@) ==> !has_prefix(line, "Card #"@) && !has_prefix(
            line,
            "Name: "@,
        ),
        "Name: "@.len() == 6,
        "Active Profile: "@.len() == 16,
{
    reveal_strlit("Name: ");
    reveal_strlit("Card #");
    reveal_strlit("Active Profile: ");
    if has_prefix(line, "Name: "@) {
        assert(line.subrange(0, 6)[0] == 'N');
    }
    if has_prefix(line, "Card #"@) {
        assert(line.subrange(0, 6)[0] == 'C');
    }
    if has_prefix(line, "Active Profile: "@) {
        assert(line.subrange(0, 16)[0] == 'A');
    }
}

proof fn lemma_skipped(prefix: Seq<char>, rest: Seq<char>)
    ensures
        has_prefix(prefix + rest, prefix),
        (prefix + rest).skip(prefix.len() as int) == rest,
{
    assert((prefix + rest).subrange(0, prefix.len() as int) =~= prefix);
    assert((prefix + rest).skip(prefix.len() as int) =~= rest);
}

proof fn lemma_within(lines: Seq<Seq<char>>, card: Seq<char>, i: int, n: nat)
    requires
        0 <= i < n <= lines.len(),
        lines[i] == "Name: "@ + card,
        forall|k: int|
            i < k < n ==> !has_prefix(#[trigger] lines[k], "Card #"@) && !has_prefix(
                lines[k],
                "Name: "@,
            ),
    ensures
        within_card(lines, card, n),
    decreases n,
{
    if i == n - 1 {
        lemma_skipped("Name: "@, card);
        lemma_line_kinds(lines[i]);
    } else {
        assert(!has_prefix(lines[n - 1], "Card #"@));
        lemma_within(lines, card, i, (n - 1) as nat);
    }
}

proof fn lemma_stated(cards: Seq<char>, card: Seq<char>, n: nat, profile: Seq<char>)
    requires
        n < trimmed_lines(cards).len(),
        profile_at(trimmed_lines(cards), card, n) == Some(profile),
    ensures
        exists|i: int| #[trigger] stated_for(cards, card, profile, i, n as int),
{
    let lines = trimmed_lines(cards);
    lemma_within_card(lines, card, n);
    let i = choose|i: int|
        0 <= i < n && #[trigger] names_card(lines[i]) && lines[i].skip("Name: "@.len() as int)
            == card && (forall|k: int|
            i < k < n ==> !opens_card(#[trigger] lines[k]) && !names_card(lines[k]));
    crate::text::law_prefix_stands_first(lines[i], "Name: "@);
    crate::text::law_prefix_stands_first(lines[n as int], "Active Profile: "@);
    assert(line_of(cards, i) == lines[i] && line_of(cards, n as int) == lines[n as int]);
    assert forall|k: int| i < k < n implies !has_prefix(#[trigger] line_of(cards, k), "Card #"@)
        && !has_prefix(line_of(cards, k), "Name: "@) by {
        assert(line_of(cards, k) == lines[k]);
        assert(!opens_card(lines[k]));
    }
    assert(stated_for(cards, card, profile, i, n as int));
}

/// The active profile of a card is the first one that a description states for that card:
/// what is stated for another card, or before any card is named, does not count.
pub proof fn law_the_first_stated_profile_is_active(
    cards: &str,
    card: &str,
    profile: Option<String>,
    stated: Seq<char>,
    i: int,
    j: int,
)
    requires
        call_ensures(active_profile, (cards, card), profile),
    ensures
        profile matches Some(profile) ==> exists|a: int, b: int| #[trigger]
            stated_for(cards@, card@, profile@, a, b),
        stated_for(cards@, card@, stated, i, j) && (forall|p: Seq<char>, a: int, b: int|
            b < j ==> !#[trigger] stated_for(cards@, card@, p, a, b)) ==> profile is Some
            && profile->0@ == stated,
{
    let lines = trimmed_lines(cards@);
    if profile is Some {
        let b = lemma_profile_before(lines, card@, lines.len());
        lemma_stated(cards@, card@, b, profile->0@);
        let a = choose|a: int| #[trigger] stated_for(cards@, card@, profile->0@, a, b as int);
    }
    if stated_for(cards@, card@, stated, i, j) && (forall|p: Seq<char>, a: int, b: int|
        b < j ==> !#[trigger] stated_for(cards@, card@, p, a, b)) {
        assert forall|k: int| 0 <= k < lines.len() implies line_of(cards@, k)
            == #[trigger] lines[k] by {}
        assert(lines[i] == line_of(cards@, i) && lines[j] == line_of(cards@, j));
        assert forall|k: int| i < k < j implies !has_prefix(#[trigger] lines[k], "Card #"@)
            && !has_prefix(lines[k], "Name: "@) by {
            assert(lines[k] == line_of(cards@, k));
        }
        lemma_within(lines, card@, i, j as nat);
        lemma_skipped("Active Profile: "@, stated);
        lemma_line_kinds(lines[j]);
        assert(profile_at(lines, card@, j as nat) == Some(stated));
        if profile_before(lines, card@, j as nat) is Some {
            let b = lemma_profile_before(lines, card@, j as nat);
            lemma_stated(cards@, card@, b, profile_at(lines, card@, b)->0);
            let a = choose|a: int| #[trigger]
                stated_for(cards@, card@, profile_at(lines, card@, b)->0, a, b as int);
            assert(false);
        }
        assert(profile_before(lines, card@, (j + 1) as nat) == Some(stated));
        lemma_first_profile(lines, card@, (j + 1) as nat, lines.len());
    }
}

/// Whether a run of `pactl` did what it was asked for.
pub open spec fn succeeded(result: PactlResult) -> bool {
    result matches PactlResult::Finished { success, .. } && success
}

/// Once the cards are listed, a card whose active profile is `a2dp-sink` or begins with it is
/// switched off, and that profile is kept in mind; with any other profile, or with none, the
/// reset is over without an error and nothing is touched. A list that cannot be had ends it
/// with an error.
pub proof fn law_playback_profiles_are_switched_off(
    reset: &mut A2dpReset,
    pending: &mut Option<Restoration>,
    result: &PactlResult,
    step: ResetStep,
    cards: &str,
    card: &str,
    profile: Option<String>,
)
    requires
        old(reset).stage is List,
        call_ensures(A2dpReset::reset_a2dp, (reset, pending, result), step),
        result matches PactlResult::Finished { stdout, .. } ==> cards@ == utf8_lossy(stdout@),
        card@ == old(reset).card@,
        call_ensures(active_profile, (cards, card), profile),
    ensures
        !succeeded(*result) ==> step is Done && step->Done_0 is Some
            && pending_view(*final(pending))
            == pending_view(*old(pending)),
        !succeeded(*result) && result is Finished ==> exists|front: Seq<char>|
            step->Done_0->0@ == #[trigger] (front + trimmed(utf8_lossy(result->stderr@))),
        succeeded(*result) && profile is Some && (exists|rest: Seq<char>|
            profile->0@ == #[trigger] ("a2dp-sink"@ + rest)) ==> {
            &&& step is Run && step->pause_ms == 0 && step->command is SetProfile
            &&& step->command->SetProfile_0.card@ == old(reset).card@
            &&& step->command->SetProfile_0.profile@ == "off"@
            &&& *final(pending) is Some && (*final(pending))->0.card@ == old(reset).card@
                && (*final(pending))->0.profile@ == profile->0@
            &&& final(reset).stage is Off && final(reset).stage->Off_profile@ == profile->0@
        },
        succeeded(*result) && !(profile is Some && (exists|rest: Seq<char>|
            profile->0@ == #[trigger] ("a2dp-sink"@ + rest))) ==> step is Done && step->Done_0
            is None && pending_view(*final(pending)) == pending_view(*old(pending)),
{
    if let Some(profile) = profile {
        crate::text::law_prefix_stands_first(profile@, "a2dp-sink"@);
    }
    let next = reset_listed(old(reset).card@, pending_view(*old(pending)), *result);
    assert(step@ == next.step);
    assert(final(reset).stage@ == next.stage);
    assert(pending_view(*final(pending)) == next.pending);
}

/// A reset begins with what an earlier one left switched off, and with the list of cards where
/// nothing is left.
pub proof fn law_what_is_pending_goes_first(
    address: &str,
    pending: &Option<Restoration>,
    begun: (A2dpReset, ResetStep),
)
    requires
        call_ensures(A2dpReset::begin, (address, pending), begun),
    ensures
        begun.1 is Run && begun.1->pause_ms == 0,
        pending is None ==> begun.1->command is ListCards && begun.0.stage is List,
        pending matches Some(left) ==> {
            &&& begun.1->command is SetProfile
            &&& begun.1->command->SetProfile_0.card@ == left.card@
            &&& begun.1->command->SetProfile_0.profile@ == left.profile@
            &&& begun.0.stage is Recover && begun.0.stage->Recover_attempt == 0
            &&& begun.0.stage->restoration.card@ == left.card@
            &&& begun.0.stage->restoration.profile@ == left.profile@
        },
{
    let start = reset_begun(pending_view(*pending));
    assert(begun.1@ == start.step);
    assert(begun.0.stage@ == start.stage);
}

/// Behind the command that switches a card off, the same profile is switched back on at once,
/// whether or not the card went off; what went wrong is kept for the end.
pub proof fn law_a_profile_is_switched_back_on(
    reset: &mut A2dpReset,
    pending: &mut Option<Restoration>,
    result: &PactlResult,
    step: ResetStep,
    off: &Restoration,
    off_error: Option<String>,
)
    requires
        old(reset).stage is Off,
        call_ensures(A2dpReset::reset_a2dp, (reset, pending, result), step),
        off.card@ == old(reset).card@ && off.profile@ == "off"@,
        call_ensures(set_card_profile, (off, result), off_error),
    ensures
        step is Run && step->pause_ms == 0 && step->command is SetProfile,
        step->command->SetProfile_0.card@ == old(reset).card@,
        step->command->SetProfile_0.profile@ == old(reset).stage->Off_profile@,
        pending_view(*final(pending)) == pending_view(*old(pending)),
        final(reset).stage is Restore && final(reset).stage->Restore_attempt == 0,
        final(reset).stage->Restore_profile@ == old(reset).stage->Off_profile@,
        final(reset).stage->off_error is None <==> succeeded(*result),
        crate::text::text_option(final(reset).stage->off_error) == crate::text::text_option(
            off_error,
        ),
{
    let next = reset_advanced(
        old(reset).card@,
        old(reset).stage@,
        pending_view(*old(pending)),
        *result,
    );
    assert(step@ == next.step);
    assert(final(reset).stage@ == next.stage);
}

/// A profile that could not be switched back on is tried three times in all, a tenth of a
/// second apart. It stays in mind until it is on, and only then is it forgotten; the error of
/// switching off is reported even then.
pub proof fn law_a_profile_stays_in_mind_until_it_is_on(
    reset: &mut A2dpReset,
    pending: &mut Option<Restoration>,
    result: &PactlResult,
    step: ResetStep,
    to: &Restoration,
    error: Option<String>,
)
    requires
        old(reset).stage is Restore,
        call_ensures(A2dpReset::reset_a2dp, (reset, pending, result), step),
        to.card@ == old(reset).card@ && to.profile@ == old(reset).stage->Restore_profile@,
        call_ensures(set_card_profile, (to, result), error),
    ensures
        succeeded(*result) ==> *final(pending) is None && step is Done && crate::text::text_option(
            step->Done_0,
        ) == crate::text::text_option(old(reset).stage->off_error),
        !succeeded(*result) ==> pending_view(*final(pending)) == pending_view(*old(pending)),
        !succeeded(*result) && old(reset).stage->Restore_attempt < 2 ==> {
            &&& step is Run && step->pause_ms == 100 && step->command is SetProfile
            &&& step->command->SetProfile_0.card@ == old(reset).card@
            &&& step->command->SetProfile_0.profile@ == old(reset).stage->Restore_profile@
            &&& final(reset).stage is Restore
            &&& final(reset).stage->Restore_attempt == old(reset).stage->Restore_attempt + 1
            &&& final(reset).stage->Restore_profile@ == old(reset).stage->Restore_profile@
        },
        !succeeded(*result) && old(reset).stage->Restore_attempt < 2 ==> crate::text::text_option(
            final(reset).stage->off_error,
        ) == crate::text::text_option(old(reset).stage->off_error),
        !succeeded(*result) && old(reset).stage->Restore_attempt >= 2 ==> step is Done
            && step->Done_0 is Some && crate::text::text_option(step->Done_0)
            == crate::text::text_option(error),
{
    let next = reset_advanced(
        old(reset).card@,
        old(reset).stage@,
        pending_view(*old(pending)),
        *result,
    );
    assert(step@ == next.step);
    assert(final(reset).stage@ == next.stage);
}

/// What an earlier reset left switched off is tried three times in all, a tenth of a second
/// apart. Once it is on it is forgotten and the cards are listed; where it stays off, nothing
/// else is touched.
pub proof fn law_recovery_comes_before_the_list(
    reset: &mut A2dpReset,
    pending: &mut Option<Restoration>,
    result: &PactlResult,
    step: ResetStep,
)
    requires
        old(reset).stage is Recover,
        call_ensures(A2dpReset::reset_a2dp, (reset, pending, result), step),
    ensures
        succeeded(*result) ==> *final(pending) is None && step is Run && step->pause_ms == 0
            && step->command is ListCards && final(reset).stage is List,
        !succeeded(*result) ==> pending_view(*final(pending)) == pending_view(*old(pending)),
        !succeeded(*result) && old(reset).stage->Recover_attempt < 2 ==> {
            &&& step is Run && step->pause_ms == 100 && step->command is SetProfile
            &&& step->command->SetProfile_0.card@ == old(reset).stage->restoration.card@
            &&& step->command->SetProfile_0.profile@ == old(reset).stage->restoration.profile@
            &&& final(reset).stage is Recover
            &&& final(reset).stage->Recover_attempt == old(reset).stage->Recover_attempt + 1
            &&& final(reset).stage->restoration.card@ == old(reset).stage->restoration.card@
            &&& final(reset).stage->restoration.profile@ == old(reset).stage->restoration.profile@
        },
        !succeeded(*result) && old(reset).stage->Recover_attempt >= 2 ==> step is Done
            && step->Done_0 is Some,
{
    let next = reset_advanced(
        old(reset).card@,
        old(reset).stage@,
        pending_view(*old(pending)),
        *result,
    );
    assert(step@ == next.step);
    assert(final(reset).stage@ == next.stage);
}

/// A profile counts as set exactly where `pactl` ran with success. The error names the card and
/// the profile, and ends with what `pactl` said.
pub proof fn law_only_success_sets_a_profile(
    to: &Restoration,
    result: &PactlResult,
    error: Option<String>,
)
    requires
        call_ensures(set_card_profile, (to, result), error),
    ensures
        error is None <==> succeeded(*result),
        error matches Some(error) ==> exists|back: Seq<char>|
            error@ == #[trigger] ("failed to set "@ + to.card@ + " profile to "@ + to.profile@
                + back),
        error is Some && result is Finished ==> exists|front: Seq<char>|
            error->0@ == #[trigger] (front + trimmed(utf8_lossy(result->stderr@))),
{
    if let Some(error) = error {
        let named = "failed to set "@ + to.card@ + " profile to "@ + to.profile@;
        assert(unset_text(to@) == named);
        if let PactlResult::Finished { success, stdout, stderr } = result {
            let said = trimmed(utf8_lossy(stderr@));
            assert(error@ == named + ": "@ + said);
            assert(error@ =~= named + (": "@ + said));
            assert(error@ == (named + ": "@) + said);
        } else {
            assert(error@ =~= named + Seq::<char>::empty());
        }
    }
}

} // verus!
