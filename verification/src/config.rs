//! The configuration that the daemon keeps across restarts.
use crate::decibel::{Decibels, DEFAULT_GAIN_64, DEFAULT_LIMITER_64};
use crate::text::{decimal, to_decimal};
use vstd::prelude::*;

verus! {

/// The directory of the daemon below the directory of configurations.
pub const CONFIG_DIRECTORY: &'static str = "airpods-linux";

/// The name of the file that holds the settings.
pub const CONFIG_FILE: &'static str = "config.toml";

/// The error of a missing directory of configurations.
pub const NO_CONFIG_DIRECTORY: &'static str = "XDG config directory is unavailable";

/// The error of a place for the settings that is in no directory.
pub const NO_PARENT: &'static str = "config path has no parent";

/// The settings of the daemon.
#[derive(Debug)]
pub struct Config {
    /// The Bluetooth address of the selected AirPods, empty where none is selected.
    pub selected_device: String,
    /// Whether the microphone is to run.
    pub mic_enabled: bool,
    /// The gain before the limiter, in dB.
    pub gain_db: Decibels,
    /// The ceiling of the limiter, in dBFS.
    pub limiter_db: Decibels,
}

/// The model of a `Config`.
pub struct ConfigView {
    pub selected_device: Seq<char>,
    pub mic_enabled: bool,
    pub gain_db: Decibels,
    pub limiter_db: Decibels,
}

impl View for Config {
    type V = ConfigView;

    open spec fn view(&self) -> ConfigView {
        ConfigView {
            selected_device: self.selected_device@,
            mic_enabled: self.mic_enabled,
            gain_db: self.gain_db,
            limiter_db: self.limiter_db,
        }
    }
}

impl ConfigView {
    /// The settings that stand where nothing is configured.
    pub open spec fn initial() -> ConfigView {
        ConfigView {
            selected_device: Seq::empty(),
            mic_enabled: false,
            gain_db: Decibels { bits: DEFAULT_GAIN_64 },
            limiter_db: Decibels { bits: DEFAULT_LIMITER_64 },
        }
    }

    /// Whether gain and limiter lie in their ranges.
    pub open spec fn valid(self) -> bool {
        self.gain_db.valid_gain() && self.limiter_db.valid_limiter()
    }
}

impl Clone for Config {
    /// A copy of the settings.
    fn clone(&self) -> (config: Config)
        ensures
            config@ == self@,
    {
        Config {
            selected_device: self.selected_device.clone(),
            mic_enabled: self.mic_enabled,
            gain_db: self.gain_db,
            limiter_db: self.limiter_db,
        }
    }
}

impl Default for Config {
    /// No device, the microphone off, a gain of 18 dB and a ceiling of -3 dBFS.
    fn default() -> (config: Config)
        ensures
            config@ == ConfigView::initial(),
    {
        Config {
            selected_device: String::new(),
            mic_enabled: false,
            gain_db: Decibels { bits: DEFAULT_GAIN_64 },
            limiter_db: Decibels { bits: DEFAULT_LIMITER_64 },
        }
    }
}

/// What was found where the configuration is stored.
pub enum ConfigFile {
    /// A file that reads as settings.
    Read(Config),
    /// A file that cannot be understood, with the reason.
    Malformed(String),
    /// No file.
    Missing,
    /// A file that cannot be read, with the reason.
    Unreadable(String),
}

/// The model of a `ConfigFile`.
pub enum FileView {
    Read(ConfigView),
    Malformed(Seq<char>),
    Missing,
    Unreadable(Seq<char>),
}

impl View for ConfigFile {
    type V = FileView;

    open spec fn view(&self) -> FileView {
        match self {
            ConfigFile::Read(config) => FileView::Read(config@),
            ConfigFile::Malformed(message) => FileView::Malformed(message@),
            ConfigFile::Missing => FileView::Missing,
            ConfigFile::Unreadable(message) => FileView::Unreadable(message@),
        }
    }
}

/// The error of a gain out of range.
pub const GAIN_OUT_OF_RANGE: &'static str = "configured gain is outside the supported range";

/// The error of a limiter out of range.
pub const LIMITER_OUT_OF_RANGE: &'static str = "configured limiter is outside the supported range";

/// Why settings are refused, `None` where they are accepted.
pub open spec fn refusal(config: ConfigView) -> Option<Seq<char>> {
    if !config.gain_db.valid_gain() {
        Some(GAIN_OUT_OF_RANGE@)
    } else if !config.limiter_db.valid_limiter() {
        Some(LIMITER_OUT_OF_RANGE@)
    } else {
        None
    }
}

/// The settings that a stored file gives, or why it cannot be used: the stored ones
/// where they are accepted, the initial ones where there is no file.
pub open spec fn loaded(file: FileView) -> Result<ConfigView, Seq<char>> {
    match file {
        FileView::Read(config) => match refusal(config) {
            None => Ok(config),
            Some(message) => Err(message),
        },
        FileView::Missing => Ok(ConfigView::initial()),
        FileView::Malformed(message) => Err(message),
        FileView::Unreadable(message) => Err(message),
    }
}

impl Config {
    /// Refuses settings whose gain or limiter is not finite or out of range.
    pub fn validate(&self) -> (result: Result<(), String>)
        ensures
            match result {
                Ok(_) => self@.valid(),
                Err(message) => refusal(self@) == Some(message@),
            },
    {
        if !self.gain_db.is_valid_gain() {
            return Err(GAIN_OUT_OF_RANGE.to_owned());
        }
        if !self.limiter_db.is_valid_limiter() {
            return Err(LIMITER_OUT_OF_RANGE.to_owned());
        }
        Ok(())
    }

    /// The settings that a stored file gives: the stored ones where they are
    /// accepted, the initial ones where there is no file.
    pub fn load(file: ConfigFile) -> (result: Result<Config, String>)
        ensures
            match result {
                Ok(config) => loaded(file@) == Ok::<ConfigView, Seq<char>>(config@),
                Err(message) => loaded(file@) == Err::<ConfigView, Seq<char>>(message@),
            },
    {
        match file {
            ConfigFile::Read(config) => match config.validate() {
                Ok(_) => Ok(config),
                Err(message) => Err(message),
            },
            ConfigFile::Missing => Ok(Config::default()),
            ConfigFile::Malformed(message) => Err(message),
            ConfigFile::Unreadable(message) => Err(message),
        }
    }

    /// The settings and the reported error with which the daemon starts: the stored
    /// settings where they can be used, and the initial ones with the reason where
    /// they cannot. They are in range whatever the stored file holds.
    pub fn at_startup(file: ConfigFile) -> (start: (Config, String))
        ensures
            start.0@.valid(),
            match loaded(file@) {
                Ok(config) => start.0@ == config && start.1@ == Seq::<char>::empty(),
                Err(error) => {
                    &&& start.0@ == ConfigView::initial()
                    &&& start.1@ == "failed to load config; using defaults: "@ + error
                },
            },
    {
        proof {
            crate::decibel::law_defaults_are_valid();
        }
        match Config::load(file) {
            Ok(config) => (config, String::new()),
            Err(error) => {
                let mut message = "failed to load config; using defaults: ".to_owned();
                message.append(error.as_str());
                (Config::default(), message)
            },
        }
    }
}

/// The stages of saving settings, in their order.
#[derive(Clone, Copy, Debug, PartialEq, Eq, Structural)]
pub enum SaveStage {
    /// Making the directory.
    MakeDirectory,
    /// Putting the settings into text.
    Encode,
    /// Making the temporary file, which must not exist yet.
    MakeTemporary,
    /// Writing the text to the temporary file.
    Write,
    /// Waiting until the temporary file is on its medium.
    Sync,
    /// Giving the temporary file the name of the settings.
    Rename,
    /// Waiting until the new name is on its medium.
    SyncDirectory,
}

impl SaveStage {
    /// The stage that follows, `None` behind the last one.
    pub open spec fn following(self) -> Option<SaveStage> {
        match self {
            SaveStage::MakeDirectory => Some(SaveStage::Encode),
            SaveStage::Encode => Some(SaveStage::MakeTemporary),
            SaveStage::MakeTemporary => Some(SaveStage::Write),
            SaveStage::Write => Some(SaveStage::Sync),
            SaveStage::Sync => Some(SaveStage::Rename),
            SaveStage::Rename => Some(SaveStage::SyncDirectory),
            SaveStage::SyncDirectory => None,
        }
    }

    /// Whether the temporary file has been made when the stage begins.
    pub open spec fn has_temporary(self) -> bool {
        !(self == SaveStage::MakeDirectory || self == SaveStage::Encode || self
            == SaveStage::MakeTemporary)
    }
}

/// What follows a stage of saving.
#[derive(Debug)]
pub enum SaveStep {
    /// The given stage is carried out.
    Perform(SaveStage),
    /// The settings are saved.
    Saved,
    /// The settings are not saved; where that is asked for, the temporary file is
    /// removed.
    Failed { error: String, remove_temporary: bool },
}

/// The model of a `SaveStep`.
pub enum SaveStepView {
    Perform(SaveStage),
    Saved,
    Failed { error: Seq<char>, remove_temporary: bool },
}

impl View for SaveStep {
    type V = SaveStepView;

    open spec fn view(&self) -> SaveStepView {
        match self {
            SaveStep::Perform(stage) => SaveStepView::Perform(*stage),
            SaveStep::Saved => SaveStepView::Saved,
            SaveStep::Failed { error, remove_temporary } => SaveStepView::Failed {
                error: error@,
                remove_temporary: *remove_temporary,
            },
        }
    }
}

/// What follows a stage of saving that succeeded, or that failed with the given error.
pub open spec fn save_follows(stage: SaveStage, error: Option<Seq<char>>) -> SaveStepView {
    match error {
        None => match stage.following() {
            Some(next) => SaveStepView::Perform(next),
            None => SaveStepView::Saved,
        },
        Some(error) => SaveStepView::Failed { error, remove_temporary: stage.has_temporary() },
    }
}

/// Decides what follows a stage of saving. A failure leaves no temporary file behind.
pub fn save_step(stage: SaveStage, result: Result<(), String>) -> (step: SaveStep)
    ensures
        step@ == save_follows(
            stage,
            match result {
                Ok(_) => None,
                Err(error) => Some(error@),
            },
        ),
{
    match result {
        Ok(_) => match stage {
            SaveStage::MakeDirectory => SaveStep::Perform(SaveStage::Encode),
            SaveStage::Encode => SaveStep::Perform(SaveStage::MakeTemporary),
            SaveStage::MakeTemporary => SaveStep::Perform(SaveStage::Write),
            SaveStage::Write => SaveStep::Perform(SaveStage::Sync),
            SaveStage::Sync => SaveStep::Perform(SaveStage::Rename),
            SaveStage::Rename => SaveStep::Perform(SaveStage::SyncDirectory),
            SaveStage::SyncDirectory => SaveStep::Saved,
        },
        Err(error) => {
            let remove_temporary = match stage {
                SaveStage::MakeDirectory => false,
                SaveStage::Encode => false,
                SaveStage::MakeTemporary => false,
                _ => true,
            };
            SaveStep::Failed { error, remove_temporary }
        },
    }
}

/// A file: what it holds, and whether all of that is on its medium.
pub struct StoredFile {
    pub content: Seq<u8>,
    pub synced: bool,
}

/// The directory of the settings, as far as saving is concerned: what stands under the
/// name of the settings, and what under the name of the temporary file.
pub struct Directory {
    pub settings: Option<StoredFile>,
    pub temporary: Option<StoredFile>,
}

/// How a stage turns out: whether it succeeds, its error where it fails, and what a
/// write that fails has written by then.
pub struct StageTry {
    pub succeeds: bool,
    pub error: Seq<char>,
    pub written: Seq<u8>,
}

/// The error of a stage, where it fails. A temporary file cannot be made where there is
/// a file of that name.
pub open spec fn stage_error(stage: SaveStage, directory: Directory, attempt: StageTry) -> Option<
    Seq<char>,
> {
    if attempt.succeeds && !(stage == SaveStage::MakeTemporary && directory.temporary is Some) {
        None
    } else {
        Some(attempt.error)
    }
}

/// The directory behind a stage of saving the given text. Making the temporary file,
/// and renaming it, happen or do not happen; a write that fails leaves a part.
pub open spec fn directory_behind(
    stage: SaveStage,
    directory: Directory,
    text: Seq<u8>,
    attempt: StageTry,
) -> Directory {
    let succeeded = stage_error(stage, directory, attempt) is None;
    match stage {
        SaveStage::MakeTemporary => if succeeded {
            Directory {
                temporary: Some(StoredFile { content: Seq::empty(), synced: false }),
                ..directory
            }
        } else {
            directory
        },
        SaveStage::Write => Directory {
            temporary: Some(
                StoredFile {
                    content: if succeeded {
                        text
                    } else {
                        attempt.written
                    },
                    synced: false,
                },
            ),
            ..directory
        },
        SaveStage::Sync => if succeeded {
            Directory {
                temporary: match directory.temporary {
                    Some(file) => Some(StoredFile { synced: true, ..file }),
                    None => None,
                },
                ..directory
            }
        } else {
            directory
        },
        SaveStage::Rename => if succeeded {
            Directory { settings: directory.temporary, temporary: None }
        } else {
            directory
        },
        _ => directory,
    }
}

/// Where saving has come to: the directory, and how it ended where it has ended.
pub struct SaveRun {
    pub directory: Directory,
    pub end: Option<SaveStepView>,
}

/// Saving a text from a stage on, with a row of tries of the stages: each step is the
/// one that follows the stage before it, and a temporary file is removed where that is
/// asked for.
pub open spec fn saving(
    stage: SaveStage,
    directory: Directory,
    text: Seq<u8>,
    tries: Seq<StageTry>,
) -> SaveRun
    decreases tries.len(),
{
    if tries.len() == 0 {
        SaveRun { directory, end: None }
    } else {
        let behind = directory_behind(stage, directory, text, tries[0]);
        match save_follows(stage, stage_error(stage, directory, tries[0])) {
            SaveStepView::Perform(next) => saving(next, behind, text, tries.skip(1)),
            SaveStepView::Saved => SaveRun { directory: behind, end: Some(SaveStepView::Saved) },
            SaveStepView::Failed { error, remove_temporary } => SaveRun {
                directory: if remove_temporary {
                    Directory { temporary: None, ..behind }
                } else {
                    behind
                },
                end: Some(SaveStepView::Failed { error, remove_temporary }),
            },
        }
    }
}

/// Whether the directory is as it can be when a stage begins, for what stood under the
/// two names before saving.
spec fn on_the_way(
    stage: SaveStage,
    directory: Directory,
    text: Seq<u8>,
    before: Directory,
) -> bool {
    let whole = StoredFile { content: text, synced: true };
    match stage {
        SaveStage::MakeDirectory => directory == before,
        SaveStage::Encode => directory == before,
        SaveStage::MakeTemporary => directory == before,
        SaveStage::Write => {
            &&& before.temporary is None
            &&& directory.settings == before.settings
        },
        SaveStage::Sync => {
            &&& before.temporary is None
            &&& directory.settings == before.settings
            &&& directory.temporary == Some(StoredFile { content: text, synced: false })
        },
        SaveStage::Rename => {
            &&& before.temporary is None
            &&& directory.settings == before.settings
            &&& directory.temporary == Some(whole)
        },
        SaveStage::SyncDirectory => {
            &&& before.temporary is None
            &&& directory.settings == Some(whole)
            &&& directory.temporary is None
        },
    }
}

proof fn lemma_saving(
    stage: SaveStage,
    directory: Directory,
    text: Seq<u8>,
    tries: Seq<StageTry>,
    before: Directory,
)
    requires
        on_the_way(stage, directory, text, before),
    ensures
        ({
            let run = saving(stage, directory, text, tries);
            let whole = Some(StoredFile { content: text, synced: true });
            &&& run.directory.settings == before.settings || run.directory.settings == whole
            &&& run.end is Some ==> run.directory.temporary == before.temporary
            &&& run.end == Some(SaveStepView::Saved) ==> run.directory.settings == whole
        }),
    decreases tries.len(),
{
    if tries.len() > 0 {
        let behind = directory_behind(stage, directory, text, tries[0]);
        match save_follows(stage, stage_error(stage, directory, tries[0])) {
            SaveStepView::Perform(next) => {
                lemma_saving(next, behind, text, tries.skip(1), before);
            },
            _ => {},
        }
    }
}

/// Whatever becomes of the stages of saving, and at every moment of it, the name of the
/// settings holds what it held before or the whole new text, which is then on its
/// medium. Where saving has ended, no temporary file of it is left, and a file of
/// somebody else under that name is untouched. Where it has ended well, the name of the
/// settings holds the new text.
pub proof fn law_settings_are_replaced_as_a_whole(
    before: Directory,
    text: Seq<u8>,
    tries: Seq<StageTry>,
)
    ensures
        ({
            let run = saving(SaveStage::MakeDirectory, before, text, tries);
            let whole = Some(StoredFile { content: text, synced: true });
            &&& run.directory.settings == before.settings || run.directory.settings == whole
            &&& run.end is Some ==> run.directory.temporary == before.temporary
            &&& run.end == Some(SaveStepView::Saved) ==> run.directory.settings == whole
        }),
{
    lemma_saving(SaveStage::MakeDirectory, before, text, tries, before);
}

/// Saving comes to an end after at most seven stages. It ends well if and only if each
/// of them succeeds and no file had the temporary name.
pub proof fn law_saving_ends(before: Directory, text: Seq<u8>, tries: Seq<StageTry>)
    requires
        tries.len() >= 7,
    ensures
        ({
            let end = saving(SaveStage::MakeDirectory, before, text, tries).end;
            &&& end is Some
            &&& end == Some(SaveStepView::Saved) <==> before.temporary is None && forall|i: int|
                0 <= i < 7 ==> (#[trigger] tries[i]).succeeds
        }),
{
    reveal_with_fuel(saving, 8);
}

/// Saving that fails reports the error of the first stage that failed.
pub proof fn law_the_first_error_is_reported(
    before: Directory,
    text: Seq<u8>,
    tries: Seq<StageTry>,
    failed: int,
)
    requires
        0 <= failed < 7,
        failed < tries.len(),
        forall|i: int| 0 <= i < failed ==> (#[trigger] tries[i]).succeeds,
        !tries[failed].succeeds,
        before.temporary is None,
    ensures
        saving(SaveStage::MakeDirectory, before, text, tries).end matches Some(
            SaveStepView::Failed { error, remove_temporary },
        ) && error == tries[failed].error && remove_temporary == (failed >= 3),
{
    reveal_with_fuel(saving, 8);
}

/// What reading the settings finds, where `decode` reads a text as settings or says why
/// it cannot.
pub open spec fn found(
    settings: Option<StoredFile>,
    decode: spec_fn(Seq<u8>) -> Result<ConfigView, Seq<char>>,
) -> FileView {
    match settings {
        None => FileView::Missing,
        Some(file) => match decode(file.content) {
            Ok(config) => FileView::Read(config),
            Err(message) => FileView::Malformed(message),
        },
    }
}

/// Settings in range that were saved are loaded again as they were, in every field,
/// with every notation in which a text reads as the settings that it was written for.
/// Where saving failed, what is loaded is that, or what was loaded before.
pub proof fn law_saved_settings_are_loaded_again(
    before: Directory,
    text: Seq<u8>,
    tries: Seq<StageTry>,
    config: ConfigView,
    decode: spec_fn(Seq<u8>) -> Result<ConfigView, Seq<char>>,
)
    requires
        config.valid(),
        decode(text) == Ok::<ConfigView, Seq<char>>(config),
    ensures
        ({
            let run = saving(SaveStage::MakeDirectory, before, text, tries);
            let then = loaded(found(run.directory.settings, decode));
            &&& run.end == Some(SaveStepView::Saved) ==> then == Ok::<ConfigView, Seq<char>>(config)
            &&& then == Ok::<ConfigView, Seq<char>>(config) || then == loaded(
                found(before.settings, decode),
            )
        }),
{
    law_settings_are_replaced_as_a_whole(before, text, tries);
}

/// The name of the temporary file through which a file is replaced.
pub open spec fn temporary_name(file_name: Seq<char>, process_id: nat, nonce: nat) -> Seq<char> {
    "."@ + file_name + "."@ + decimal(process_id) + "."@ + decimal(nonce) + ".tmp"@
}

/// The name of the temporary file through which a file is replaced.
///
/// The process and the moment are part of the name, so that two writers do not
/// meet in one file.
pub fn temporary_file_name(file_name: Option<&str>, process_id: u32, nonce: u128) -> (name: String)
    ensures
        name@ == temporary_name(
            match file_name {
                Some(file_name) => file_name@,
                None => CONFIG_FILE@,
            },
            process_id as nat,
            nonce as nat,
        ),
{
    let mut name = ".".to_owned();
    match file_name {
        Some(file_name) => name.append(file_name),
        None => name.append(CONFIG_FILE),
    }
    name.append(".");
    name.append(to_decimal(process_id as u128).as_str());
    name.append(".");
    name.append(to_decimal(nonce).as_str());
    name.append(".tmp");
    name
}

proof fn lemma_decimal(n: nat)
    ensures
        decimal(n).len() > 0,
        forall|i: int| 0 <= i < decimal(n).len() ==> '0' <= #[trigger] decimal(n)[i] <= '9',
    decreases n,
{
    if n >= 10 {
        lemma_decimal(n / 10);
    }
}

proof fn lemma_decimal_injective(a: nat, b: nat)
    requires
        decimal(a) == decimal(b),
    ensures
        a == b,
    decreases a,
{
    lemma_decimal(a / 10);
    lemma_decimal(b / 10);
    assert(decimal(a).last() == decimal(b).last());
    assert(decimal(a).last() as u32 == 48 + a % 10);
    assert(decimal(b).last() as u32 == 48 + b % 10);
    if a >= 10 && b >= 10 {
        assert(decimal(a).drop_last() =~= decimal(a / 10));
        assert(decimal(b).drop_last() =~= decimal(b / 10));
        lemma_decimal_injective(a / 10, b / 10);
    } else if a >= 10 {
        assert(decimal(a).len() > 1);
        assert(decimal(b).len() == 1);
    } else if b >= 10 {
        assert(decimal(b).len() > 1);
        assert(decimal(a).len() == 1);
    }
}

/// Two writers that differ in their process or in their moment write to different
/// temporary files.
pub proof fn law_temporary_names_differ(
    file_name: Seq<char>,
    process_id: nat,
    nonce: nat,
    other_process_id: nat,
    other_nonce: nat,
)
    requires
        process_id != other_process_id || nonce != other_nonce,
    ensures
        temporary_name(file_name, process_id, nonce) != temporary_name(
            file_name,
            other_process_id,
            other_nonce,
        ),
{
    let left = temporary_name(file_name, process_id, nonce);
    let right = temporary_name(file_name, other_process_id, other_nonce);
    if left == right {
        reveal_strlit(".");
        reveal_strlit(".tmp");
        lemma_decimal(process_id);
        lemma_decimal(other_process_id);
        let head = 2 + file_name.len();
        let p = decimal(process_id);
        let q = decimal(other_process_id);
        assert forall|i: int| 0 <= i < p.len() implies left[head + i] == p[i] by {}
        assert forall|i: int| 0 <= i < q.len() implies right[head + i] == q[i] by {}
        assert(left[(head + p.len()) as int] == '.');
        assert(right[(head + q.len()) as int] == '.');
        if p.len() < q.len() {
            assert(right[(head + p.len()) as int] == q[p.len() as int]);
        }
        if q.len() < p.len() {
            assert(left[(head + q.len()) as int] == p[q.len() as int]);
        }
        assert(p =~= q) by {
            assert forall|i: int| 0 <= i < p.len() implies p[i] == q[i] by {
                assert(left[head + i] == right[head + i]);
            }
        }
        let start = (head + p.len() + 1) as int;
        let end = left.len() - 4;
        assert(left.subrange(start, end) =~= decimal(nonce));
        assert(right.subrange(start, end) =~= decimal(other_nonce));
        lemma_decimal_injective(process_id, other_process_id);
        lemma_decimal_injective(nonce, other_nonce);
    }
}

/// Settings are accepted exactly where their gain and their limiter are.
pub proof fn law_settings_are_accepted_in_range(
    config: &Config,
    result: Result<(), String>,
    valid_gain: bool,
    valid_limiter: bool,
)
    requires
        call_ensures(Config::validate, (config,), result),
        call_ensures(Decibels::is_valid_gain, (config.gain_db,), valid_gain),
        call_ensures(Decibels::is_valid_limiter, (config.limiter_db,), valid_limiter),
    ensures
        result is Ok <==> valid_gain && valid_limiter,
{
}

/// Settings that are accepted are loaded as they are stored, field by field. Without a file no
/// device is selected, the microphone is off, the gain is 18 dB and the limiter -3 dBFS. A file
/// that cannot be used gives its reason.
pub proof fn law_stored_settings_are_loaded_as_they_are(
    stored: Config,
    valid: Result<(), String>,
    loaded_stored: Result<Config, String>,
    loaded_missing: Result<Config, String>,
    reason: String,
    loaded_malformed: Result<Config, String>,
    loaded_unreadable: Result<Config, String>,
)
    requires
        call_ensures(Config::validate, (&stored,), valid),
        call_ensures(Config::load, (ConfigFile::Read(stored),), loaded_stored),
        call_ensures(Config::load, (ConfigFile::Missing,), loaded_missing),
        call_ensures(Config::load, (ConfigFile::Malformed(reason),), loaded_malformed),
        call_ensures(Config::load, (ConfigFile::Unreadable(reason),), loaded_unreadable),
    ensures
        loaded_stored is Ok <==> valid is Ok,
        loaded_stored matches Ok(config) ==> config.selected_device@ == stored.selected_device@
            && config.mic_enabled == stored.mic_enabled && config.gain_db == stored.gain_db
            && config.limiter_db == stored.limiter_db,
        loaded_missing matches Ok(config) && config.selected_device@.len() == 0
            && !config.mic_enabled && config.gain_db.bits == 0x4032_0000_0000_0000
            && config.limiter_db.bits == 0xc008_0000_0000_0000,
        loaded_malformed is Err && loaded_malformed->Err_0@ == reason@,
        loaded_unreadable is Err && loaded_unreadable->Err_0@ == reason@,
{
    if let Ok(config) = loaded_stored {
        assert(config@ == stored@);
    }
    if let Ok(config) = loaded_missing {
        assert(config@ == ConfigView::initial());
        assert(config@.selected_device == config.selected_device@);
        assert(config@.mic_enabled == config.mic_enabled);
        assert(config@.gain_db == config.gain_db && config@.limiter_db == config.limiter_db);
    }
}

/// The daemon starts with what was loaded and without an error, or with the initial settings and
/// an error that ends with the reason.
pub proof fn law_the_daemon_starts_with_usable_settings(
    file: ConfigFile,
    start: (Config, String),
    read: Result<Config, String>,
)
    requires
        call_ensures(Config::at_startup, (file,), start),
        call_ensures(Config::load, (file,), read),
    ensures
        read matches Ok(config) ==> start.0@ == config@ && start.1@.len() == 0,
        read matches Err(reason) ==> {
            &&& start.0.selected_device@.len() == 0 && !start.0.mic_enabled
            &&& start.0.gain_db.bits == 0x4032_0000_0000_0000
            &&& start.0.limiter_db.bits == 0xc008_0000_0000_0000
            &&& exists|front: Seq<char>| front.len() > 0 && start.1@ == #[trigger] (front + reason@)
        },
{
    if let Err(reason) = read {
        assert(start.0@ == ConfigView::initial());
        assert(start.0@.selected_device == start.0.selected_device@);
        assert(start.0@.mic_enabled == start.0.mic_enabled);
        assert(start.0@.gain_db == start.0.gain_db && start.0@.limiter_db == start.0.limiter_db);
        reveal_strlit("failed to load config; using defaults: ");
        let front = "failed to load config; using defaults: "@;
        assert(start.1@ == front + reason@);
    }
}

/// The temporary file is a hidden one, is never the file of the settings itself, and carries the
/// name of that file.
pub proof fn law_temporary_files_are_hidden(
    file_name: Option<&str>,
    process_id: u32,
    nonce: u128,
    name: String,
)
    requires
        call_ensures(temporary_file_name, (file_name, process_id, nonce), name),
        file_name is Some,
    ensures
        name@.len() > file_name->0@.len() + 1,
        name@[0] == '.',
        name@.subrange(1, 1int + file_name->0@.len()) == file_name->0@,
        name@ != file_name->0@,
{
    reveal_strlit(".");
    reveal_strlit(".tmp");
    lemma_decimal(process_id as nat);
    assert(name@.subrange(1, 1int + file_name->0@.len()) =~= file_name->0@);
}

/// Settings are saved stage by stage, from the directory to the sync of the renamed file. A stage
/// that fails ends saving with its error, and asks for the removal of the temporary file exactly
/// from the moment on at which there is one.
pub proof fn law_saving_goes_stage_by_stage(
    stage: SaveStage,
    result: Result<(), String>,
    step: SaveStep,
)
    requires
        call_ensures(save_step, (stage, result), step),
    ensures
        result is Ok ==> match stage {
            SaveStage::MakeDirectory => step == SaveStep::Perform(SaveStage::Encode),
            SaveStage::Encode => step == SaveStep::Perform(SaveStage::MakeTemporary),
            SaveStage::MakeTemporary => step == SaveStep::Perform(SaveStage::Write),
            SaveStage::Write => step == SaveStep::Perform(SaveStage::Sync),
            SaveStage::Sync => step == SaveStep::Perform(SaveStage::Rename),
            SaveStage::Rename => step == SaveStep::Perform(SaveStage::SyncDirectory),
            SaveStage::SyncDirectory => step is Saved,
        },
        result matches Err(error) ==> step is Failed && step->error@ == error@ && (
        step->remove_temporary <==> stage != SaveStage::MakeDirectory && stage != SaveStage::Encode
            && stage != SaveStage::MakeTemporary),
{
    if result is Ok {
        assert(step@ == save_follows(stage, None));
    }
}

} // verus!
