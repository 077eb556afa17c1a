//! The sound mode, handed to WirePlumber through `pw-metadata`.
use crate::text::{decode_lossy, texts, trim, trimmed, utf8_lossy};
use vstd::prelude::*;

verus! {

/// The metadata object that WirePlumber watches.
pub const METADATA_NAME: &'static str = "airpods-linux";

/// The key of the sound mode.
pub const MODE_KEY: &'static str = "sound.mode";

/// The time within which `pw-metadata` must answer.
pub const COMMAND_TIMEOUT_MS: u64 = 2_000;

/// The program to run: the configured one, else `pw-metadata`.
pub fn metadata_program(configured: Option<String>) -> (program: String)
    ensures
        program@ == (match configured {
            Some(configured) => configured@,
            None => "pw-metadata"@,
        }),
{
    match configured {
        Some(configured) => configured,
        None => "pw-metadata".to_owned(),
    }
}

/// The arguments that set a mode.
pub open spec fn mode_arguments(mode: Seq<char>) -> Seq<Seq<char>> {
    seq![
        "--name"@,
        METADATA_NAME@,
        "0"@,
        MODE_KEY@,
        "\""@ + mode + "\""@,
        "Spa:String:JSON"@,
    ]
}

/// The arguments that set a mode.
pub fn metadata_arguments(mode: &str) -> (arguments: Vec<String>)
    ensures
        texts(arguments@) == mode_arguments(mode@),
{
    let mut value = "\"".to_owned();
    value.append(mode);
    value.append("\"");
    let arguments = vec![
        "--name".to_owned(),
        METADATA_NAME.to_owned(),
        "0".to_owned(),
        MODE_KEY.to_owned(),
        value,
        "Spa:String:JSON".to_owned(),
    ];
    assert(texts(arguments@) =~= mode_arguments(mode@));
    arguments
}

/// The error of a run that failed: what the program said, or else its exit status.
pub open spec fn failure_text(status: Seq<char>, said: Seq<char>) -> Seq<char> {
    if trimmed(said).len() == 0 {
        "pw-metadata exited with "@ + status
    } else {
        "pw-metadata failed: "@ + trimmed(said)
    }
}

/// The error of a run that failed, out of its exit status and of what it said.
pub fn failure_message(status: &str, said: &str) -> (message: String)
    ensures
        message@ == failure_text(status@, said@),
{
    let said = trim(said);
    if said.as_str().is_empty() {
        let mut message = "pw-metadata exited with ".to_owned();
        message.append(status);
        message
    } else {
        let mut message = "pw-metadata failed: ".to_owned();
        message.append(said.as_str());
        message
    }
}

/// What became of a run of `pw-metadata`.
#[derive(Clone, Copy, Debug)]
pub enum MetadataRun<'a> {
    /// It did not answer in time.
    TimedOut,
    /// It could not be run.
    NotRun,
    /// It ran, with success or without, with its exit status as text and with what it
    /// said.
    Finished { success: bool, status: &'a str, stderr: &'a [u8] },
}

/// What became of publishing a mode with the given program.
pub fn publish_mode(program: &str, run: MetadataRun) -> (result: Result<(), String>)
    ensures
        match run {
            MetadataRun::TimedOut => result matches Err(message) && message@
                == "pw-metadata timed out"@,
            MetadataRun::NotRun => result matches Err(message) && message@ == "failed to run "@
                + program@,
            MetadataRun::Finished { success, status, stderr } => match result {
                Ok(_) => success,
                Err(message) => !success && message@ == failure_text(status@, utf8_lossy(stderr@)),
            },
        },
{
    match run {
        MetadataRun::TimedOut => Err("pw-metadata timed out".to_owned()),
        MetadataRun::NotRun => {
            let mut message = "failed to run ".to_owned();
            message.append(program);
            Err(message)
        },
        MetadataRun::Finished { success, status, stderr } => {
            if success {
                return Ok(());
            }
            let said = decode_lossy(stderr);
            Err(failure_message(status, said.as_str()))
        },
    }
}

/// A mode is set for the key `sound.mode` of the metadata `airpods-linux`, between quotation marks.
pub proof fn law_modes_are_set_in_quotation_marks(mode: &str, arguments: Vec<String>)
    requires
        call_ensures(metadata_arguments, (mode,), arguments),
    ensures
        arguments@.len() == 6,
        arguments@[0]@ == "--name"@ && arguments@[1]@ == "airpods-linux"@ && arguments@[2]@ == "0"@,
        arguments@[3]@ == "sound.mode"@ && arguments@[5]@ == "Spa:String:JSON"@,
        arguments@[4]@.len() == mode@.len() + 2,
        arguments@[4]@[0] == '"' && arguments@[4]@.last() == '"',
        arguments@[4]@.subrange(1, 1int + mode@.len()) == mode@,
{
    let views = texts(arguments@);
    assert(views.len() == 6 && views.len() == arguments@.len());
    assert forall|i: int| 0 <= i < 6 implies (#[trigger] arguments@[i])@ == views[i] by {}
    reveal_strlit("\"");
    assert(arguments@[4]@.subrange(1, 1int + mode@.len()) =~= mode@);
}

/// The configured program is run where there is one. A mode was published exactly where the
/// program ran with success; what it said otherwise stands at the end of the error.
pub proof fn law_modes_are_published_with_success_only(
    configured: Option<String>,
    chosen: String,
    program: &str,
    run: MetadataRun,
    result: Result<(), String>,
)
    requires
        call_ensures(metadata_program, (configured,), chosen),
        call_ensures(publish_mode, (program, run), result),
    ensures
        configured matches Some(configured) ==> chosen@ == configured@,
        configured is None ==> chosen@ == "pw-metadata"@,
        result is Ok <==> run is Finished && run->success,
        run matches MetadataRun::Finished { success, status, stderr } ==> !success ==> {
            let said = trimmed(utf8_lossy(stderr@));
            &&& said.len() > 0 ==> exists|front: Seq<char>|
                result->Err_0@ == #[trigger] (front + said)
            &&& said.len() == 0 ==> exists|front: Seq<char>|
                result->Err_0@ == #[trigger] (front + status@)
        },
{
}

} // verus!
