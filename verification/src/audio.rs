//! How synthesized speech is kept: which requests may be served from files
//! that were written before, and what those files are called.

use crate::narration::{decimal, decimal_text, signed_decimal, signed_decimal_text};
use vstd::prelude::*;

verus! {

/// What a piece of speech is, which decides whether it is kept for reuse.
#[derive(Clone, Copy, Debug, PartialEq, Eq, Structural)]
pub enum AudioType {
    /// A question read out; kept under the question's identity.
    Question,
    /// A correct answer read out; kept under the question's identity.
    Answer,
    /// Speech that is made once and not looked up again.
    NoCache,
}

/// The name of the file that holds the speech for a question, where the kind
/// of speech is kept for reuse.
pub open spec fn cached_audio_text(question_id: i64, audio_type: AudioType) -> Option<Seq<char>> {
    match audio_type {
        AudioType::Question => Some("audio/q-"@ + signed_decimal_text(question_id as int) + ".mp3"@),
        AudioType::Answer => Some("audio/a-"@ + signed_decimal_text(question_id as int) + ".mp3"@),
        AudioType::NoCache => None,
    }
}

/// The name of the file in which speech of this kind for this question is
/// kept, or `None` where speech of this kind is not kept.
pub fn cached_audio_name(question_id: i64, audio_type: AudioType) -> (r: Option<String>)
    ensures
        r is Some == cached_audio_text(question_id, audio_type) is Some,
        r is Some ==> r->0@ == cached_audio_text(question_id, audio_type)->0,
{
    let mut name = match audio_type {
        AudioType::Question => String::from_str("audio/q-"),
        AudioType::Answer => String::from_str("audio/a-"),
        AudioType::NoCache => {
            return None;
        },
    };
    let id = signed_decimal(question_id);
    name.append(id.as_str());
    name.append(".mp3");
    Some(name)
}

/// The name of the file for speech that is made once, at time `now`.
pub fn one_shot_audio_name(now: u64) -> (r: String)
    ensures
        r@ == "audio/nocache-"@ + decimal_text(now as nat) + ".mp3"@,
{
    let mut name = String::from_str("audio/nocache-");
    let stamp = decimal(now);
    name.append(stamp.as_str());
    name.append(".mp3");
    name
}

} // verus!
