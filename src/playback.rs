use vstd::prelude::*;
use vstd::string::StringExecFns;
use crate::text::{contains, is_substring};
use crate::adapter::{ToolCommand, command_of, lemma_words};

verus! {

/// Sink that playback uses when the caller names none.
pub const DEFAULT_SINK: &'static str = "alsa_card.pci-0000_00_05.0.analog-stereo";

/// Message of the error that a sink missing from the card listing gives.
pub const SINK_ERROR: &'static str = "Invalid specified sink. Specified sink not available or doesn't exists on device.
                                Please run 'pactl list cards' to check by yourself ! and specify valid available sink !";

/// Why playback did not go through. Neither ends the program.
#[derive(Clone, Copy, Debug, PartialEq, Eq, Structural)]
pub enum PlaybackError {
    /// The player could not be started.
    NotLaunched,
    /// The player ran and exited with a failure status.
    Failed,
}

/// The sink to play on: the one given, else the default sink.
pub fn playback_sink(sink: Option<String>) -> (r: String)
    ensures
        sink matches Some(s) ==> r@ == s@,
        sink is None ==> r@ == DEFAULT_SINK@,
{
    match sink {
        Some(s) => s,
        None => String::from_str(DEFAULT_SINK),
    }
}

/// `paplay -d <sink> <file>`: plays `file` on `sink`.
pub fn playback_command(sink: &str, file: &str) -> (r: ToolCommand)
    ensures
        r.words() == seq!["paplay"@, "-d"@, sink@, file@],
{
    let r = command_of("paplay", &["-d", sink, file]);
    proof {
        lemma_words(r, "paplay", seq!["-d", sink, file]);
        assert(crate::adapter::words_of("paplay", seq!["-d", sink, file]) =~= seq![
            "paplay"@,
            "-d"@,
            sink@,
            file@,
        ]);
    }
    r
}

/// Judges a playback run: whether the player started, and whether it exited
/// with success.
pub fn playback_verdict(launched: bool, exit_success: bool) -> (r: Result<(), PlaybackError>)
    ensures
        !launched ==> r == Err::<(), PlaybackError>(PlaybackError::NotLaunched),
        launched && !exit_success ==> r == Err::<(), PlaybackError>(PlaybackError::Failed),
        launched && exit_success ==> r is Ok,
{
    if !launched {
        Err(PlaybackError::NotLaunched)
    } else if !exit_success {
        Err(PlaybackError::Failed)
    } else {
        Ok(())
    }
}

/// Checks that `sink` appears in the text of the audio card listing; gives the
/// sink back if so.
pub fn check_sink_listed(listing: &str, sink: &str) -> (r: Result<String, String>)
    ensures
        r is Ok <==> is_substring(sink@, listing@),
        r matches Ok(s) ==> s@ == sink@,
        r matches Err(m) ==> m@ == SINK_ERROR@,
{
    if contains(listing, sink) {
        Ok(String::from_str(sink))
    } else {
        Err(String::from_str(SINK_ERROR))
    }
}

} // verus!
