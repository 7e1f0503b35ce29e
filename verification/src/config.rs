//! Parsing of a configuration text into trigger entries. The text is YAML
//! of the shape `audio: {SECOND: CUE, ...}`; the parse itself is the work
//! of an outside crate, reached through one trusted wrapper.

use vstd::prelude::*;
use crate::scheduler::entries_map;
use crate::scheduler::keys_unique;

verus! {

/// The trigger mapping that a configuration text denotes, or `None` where
/// the text does not parse into one. The mapping is a function of the text
/// alone.
pub uninterp spec fn yaml_audio_map(s: Seq<char>) -> Option<Map<u64, Seq<char>>>;

/// Relies on serde_yaml::from_str: parses the text as a YAML mapping whose
/// `audio` member maps integer seconds to cue strings, yielding one entry
/// per key. A YAML mapping's keys are unique, so the entries' seconds are
/// pairwise distinct and the entries denote exactly the parsed mapping.
#[verifier::external_body]
pub(crate) fn parse_audio_entries(s: &str) -> (r: Option<Vec<(u64, String)>>)
    ensures
        (r is Some) == (yaml_audio_map(s@) is Some),
        r matches Some(v) ==> keys_unique(v@) && yaml_audio_map(s@) == Some(entries_map(v@)),
{
    let parsed: Result<
        std::collections::HashMap<String, std::collections::HashMap<u64, String>>,
        serde_yaml::Error,
    > = serde_yaml::from_str(s);
    match parsed {
        Ok(mut doc) => match doc.remove("audio") {
            Some(audio) => Some(audio.into_iter().collect()),
            None => None,
        },
        Err(_) => None,
    }
}

} // verus!
