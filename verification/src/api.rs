//! Request and response shapes of the HTTP surface. The routing and
//! serialization live in the embedding program; the shapes the core
//! speaks are fixed here.

use vstd::prelude::*;
use vstd::string::*;

verus! {

/// A transcription request: base64-encoded audio.
pub struct TranscribeRequest {
    pub audio_data: String,
}

/// A synthesis request: text and an optional voice name.
pub struct SynthesizeRequest {
    pub text: String,
    pub voice: Option<String>,
}

/// A synthesis answer: base64-encoded audio.
pub struct SynthesizeResponse {
    pub audio_data: String,
}

/// A login request.
pub struct LoginRequest {
    pub username: String,
    pub password: String,
}

/// A login answer: the signed token and the user it names.
pub struct LoginResponse {
    pub token: String,
    pub user: UserInfo,
}

/// The public face of a user.
pub struct UserInfo {
    pub id: String,
    pub username: String,
    pub email: String,
    pub role: String,
}

/// An administrator's user-creation request.
pub struct CreateUserRequest {
    pub username: String,
    pub password: String,
    pub role: String,
}

/// An administrator's user-update request.
pub struct UpdateUserRequest {
    pub username: String,
    pub password: Option<String>,
    pub role: String,
}

/// One recorded intent correction, in the training-data layout the NLU
/// server reads.
pub open spec fn spec_feedback_entry(correct_intent: Seq<char>, text: Seq<char>) -> Seq<char> {
    "- intent: "@.add(correct_intent).add("\n  examples: |\n    - "@).add(text).add("\n"@)
}

/// Render an intent correction for the feedback file.
pub fn format_feedback_entry(correct_intent: &str, text: &str) -> (r: String)
    ensures
        r@ == spec_feedback_entry(correct_intent@, text@),
{
    let mut s = String::new();
    s.append("- intent: ");
    s.append(correct_intent);
    s.append("\n  examples: |\n    - ");
    s.append(text);
    s.append("\n");
    proof {
        assert(s@ =~= spec_feedback_entry(correct_intent@, text@));
    }
    s
}

} // verus!
