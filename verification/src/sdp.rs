//! Session descriptions in the format of the `webrtc_sdp` crate.

use vstd::prelude::*;
use webrtc_sdp::error::SdpParserError;
use webrtc_sdp::SdpSession;

verus! {

/// A parsed session description.
#[verifier::external_type_specification]
#[verifier::external_body]
pub struct ExSdpSession(webrtc_sdp::SdpSession);

/// The reason for which a session description could not be parsed.
#[verifier::external_type_specification]
#[verifier::external_body]
pub struct ExSdpParserError(webrtc_sdp::error::SdpParserError);

/// What `webrtc_sdp::parse_sdp` makes of a text.
pub uninterp spec fn sdp_parse(text: Seq<char>, fail_on_warning: bool) -> Result<
    SdpSession,
    SdpParserError,
>;

/// The text by which a parsed session description is shown.
pub uninterp spec fn sdp_session_text(session: SdpSession) -> Seq<char>;

/// The text by which a parser error is shown.
pub uninterp spec fn sdp_error_text(error: SdpParserError) -> Seq<char>;

/// `webrtc_sdp::parse_sdp` reads a session description. Its outcome depends on the text and on
/// whether warnings count as errors, and on nothing else.
pub assume_specification[ webrtc_sdp::parse_sdp ](sdp: &str, fail_on_warning: bool) -> (outcome:
    Result<SdpSession, SdpParserError>)
    ensures
        outcome == sdp_parse(sdp@, fail_on_warning),
;

/// `SdpSession`'s `Display` writes a session description as a text, which depends on nothing but
/// the session.
#[verifier::external_body]
pub(crate) fn session_to_string(session: &SdpSession) -> (text: String)
    ensures
        text@ == sdp_session_text(*session),
{
    session.to_string()
}

/// `SdpParserError`'s `Display` writes the reason of a failure as a text, which depends on nothing
/// but the error.
#[verifier::external_body]
fn error_to_string(error: &SdpParserError) -> (text: String)
    ensures
        text@ == sdp_error_text(*error),
{
    error.to_string()
}

/// Parses a session description, tolerating warnings. Where that fails, tells the reason.
pub fn parse_session(sdp: &str) -> (outcome: Result<SdpSession, String>)
    ensures
        match sdp_parse(sdp@, false) {
            Ok(session) => outcome == Ok::<SdpSession, String>(session),
            Err(error) => outcome matches Err(reason) && reason@ == sdp_error_text(error),
        },
{
    match webrtc_sdp::parse_sdp(sdp, false) {
        Ok(session) => Ok(session),
        Err(error) => Err(error_to_string(&error)),
    }
}

} // verus!
