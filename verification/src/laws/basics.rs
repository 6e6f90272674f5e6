//! Texts, errors, configurations and turns.

use vstd::prelude::*;
use vstd::utf8::*;

use crate::configuration::{
    IceConfiguration, RtcDataChannelConfiguration, RtcIceServer, RtcIceTransportPolicy,
    RtcPacketLifetime,
};
use crate::error::{RtcDataChannelError, RtcPeerConnectionError};
use crate::message::{
    RtcIceCandidate, RtcNegotiationMessage, RtcSdpType, RtcSessionDescription,
};
use crate::poll::{PollFuture, RtcPoll};

verus! {

/// Where two texts agree on their first bytes and then differ, the one with the smaller byte comes
/// first; and so does one that ends where the other one goes on.
pub proof fn lemma_smaller_byte_precedes(left: &str, right: &str, n: int, less: bool)
    requires
        call_ensures(crate::text::text_less, (left, right), less),
        0 <= n <= encode_utf8(left@).len(),
        n < encode_utf8(right@).len(),
        encode_utf8(left@).take(n) == encode_utf8(right@).take(n),
        n < encode_utf8(left@).len() ==> encode_utf8(left@)[n] < encode_utf8(right@)[n],
    ensures
        less,
{
    let a = encode_utf8(left@);
    let b = encode_utf8(right@);
    assert forall|i: int| 0 <= i < n implies a[i] == b[i] by {
        assert(a.take(n)[i] == b.take(n)[i]);
    }
    assert(crate::text::precedes_at(a, b, n));
}

/// Of two different texts exactly one is less than the other; equal texts are not; and the test for
/// equality tells the two situations apart.
pub proof fn lemma_texts_compare(
    left: &str,
    right: &str,
    less: bool,
    greater: bool,
    equal: bool,
)
    requires
        call_ensures(crate::text::text_less, (left, right), less),
        call_ensures(crate::text::text_less, (right, left), greater),
        call_ensures(crate::text::text_equals, (left, right), equal),
    ensures
        equal <==> left@ == right@,
        equal ==> !less && !greater,
        !equal ==> (less <==> !greater),
{
    crate::text::lemma_text_order_is_total(left@, right@);
    crate::text::lemma_text_order_is_total(right@, left@);
}

/// The order of texts is transitive.
pub proof fn lemma_text_order_is_transitive(a: Seq<char>, b: Seq<char>, c: Seq<char>)
    requires
        crate::text::text_precedes(a, b),
        crate::text::text_precedes(b, c),
    ensures
        crate::text::text_precedes(a, c),
{
    let (x, y, z) = (encode_utf8(a), encode_utf8(b), encode_utf8(c));
    let n = choose|n: int| #[trigger] crate::text::precedes_at(x, y, n);
    let m = choose|m: int| #[trigger] crate::text::precedes_at(y, z, m);
    let k = if n <= m {
        n
    } else {
        m
    };
    assert forall|i: int| 0 <= i < k implies x[i] == z[i] by {
        assert(x[i] == y[i] && y[i] == z[i]);
    }
    if n < m {
        assert(y[n] == z[n]);
    } else if m < n {
        assert(x[m] == y[m]);
    }
    assert(crate::text::precedes_at(x, z, k));
}

/// A prefix is taken off exactly the texts that begin with it, and the rest is what comes after.
pub proof fn lemma_prefix_is_taken_off(text: &str, prefix: &str, rest: Option<&str>)
    requires
        call_ensures(crate::text::strip_prefix, (text, prefix), rest),
    ensures
        rest is Some <==> prefix@.is_prefix_of(text@),
        rest matches Some(rest) ==> rest@ == text@.skip(prefix@.len() as int),
{
    if let Some(rest) = rest {
        assert(text@.take(prefix@.len() as int) =~= prefix@);
        assert(rest@ =~= text@.skip(prefix@.len() as int));
    }
}

/// The words of the roles.
pub proof fn lemma_role_words(sdp_type: RtcSdpType, word: &'static str)
    requires
        call_ensures(RtcSdpType::as_str, (sdp_type,), word),
    ensures
        sdp_type is Answer <==> word@ == "answer"@,
        sdp_type is Offer <==> word@ == "offer"@,
        sdp_type is Pranswer <==> word@ == "pranswer"@,
        sdp_type is Rollback <==> word@ == "rollback"@,
{
    reveal_strlit("answer");
    reveal_strlit("offer");
    reveal_strlit("pranswer");
    reveal_strlit("rollback");
    assert("answer"@.len() == 6 && "offer"@.len() == 5);
    assert("pranswer"@.len() == 8 && "rollback"@.len() == 8);
    assert("pranswer"@[0] == 'p' && "rollback"@[0] == 'r');
}

/// A role is read back from the word that was written for it, and every other word is an offer.
pub proof fn lemma_role_is_read_back(
    sdp_type: RtcSdpType,
    word: &'static str,
    text: &str,
    read: RtcSdpType,
)
    requires
        call_ensures(RtcSdpType::as_str, (sdp_type,), word),
        call_ensures(RtcSdpType::from_text, (text,), read),
    ensures
        word@ == text@ ==> read == sdp_type,
        !(read is Offer) ==> text@ == read.text(),
{
    crate::message::lemma_sdp_type_round_trip(sdp_type);
}

/// Every error of a connection is shown as a fixed text for its cause, followed by its detail.
pub proof fn lemma_connection_error_is_shown(error: RtcPeerConnectionError, text: String)
    requires
        call_ensures(RtcPeerConnectionError::to_string, (&error,), text),
    ensures
        error matches RtcPeerConnectionError::Creation(x) ==> text@
            == "An error occurred during connection creation: "@ + x@,
        error matches RtcPeerConnectionError::Negotiation(x) ==> text@
            == "An error occurred during channel negotiation: "@ + x@,
        error matches RtcPeerConnectionError::DataChannelMismatch(x) ==> text@
            == "The data channel configuration was not the same for both peers: "@ + x@,
        error matches RtcPeerConnectionError::IceNegotiationFailure(x) ==> text@
            == "ICE negotiation failed: "@ + x@,
{
}

/// Every error of a channel is shown as a fixed text for its cause, followed by its detail.
pub proof fn lemma_channel_error_is_shown(error: RtcDataChannelError, text: String)
    requires
        call_ensures(RtcDataChannelError::to_string, (&error,), text),
    ensures
        error matches RtcDataChannelError::Send(x) ==> text@
            == "An error occurred during message sending: "@ + x@,
        error matches RtcDataChannelError::Receive(x) ==> text@
            == "An error occurred during message receiving: "@ + x@,
{
}

/// A copy of an error is the same error.
pub proof fn lemma_errors_are_copied(
    connection: (RtcPeerConnectionError, RtcPeerConnectionError),
    channel: (RtcDataChannelError, RtcDataChannelError),
)
    requires
        call_ensures(<RtcPeerConnectionError as Clone>::clone, (&connection.0,), connection.1),
        call_ensures(<RtcDataChannelError as Clone>::clone, (&channel.0,), channel.1),
    ensures
        connection.0 == connection.1,
        channel.0 == channel.1,
{
}

/// A copy of what the peers tell each other is the same.
pub proof fn lemma_messages_are_copied(
    candidate: (RtcIceCandidate, RtcIceCandidate),
    description: (RtcSessionDescription, RtcSessionDescription),
    message: (RtcNegotiationMessage, RtcNegotiationMessage),
)
    requires
        call_ensures(<RtcIceCandidate as Clone>::clone, (&candidate.0,), candidate.1),
        call_ensures(<RtcSessionDescription as Clone>::clone, (&description.0,), description.1),
        call_ensures(<RtcNegotiationMessage as Clone>::clone, (&message.0,), message.1),
    ensures
        candidate.0 == candidate.1,
        description.0 == description.1,
        message.0 == message.1,
{
}

/// What is configured where nothing is asked for.
pub proof fn lemma_defaults(
    configuration: IceConfiguration,
    server: RtcIceServer,
    policy: RtcIceTransportPolicy,
    channel: RtcDataChannelConfiguration,
)
    requires
        call_ensures(<IceConfiguration as Default>::default, (), configuration),
        call_ensures(<RtcIceServer as Default>::default, (), server),
        call_ensures(<RtcIceTransportPolicy as Default>::default, (), policy),
        call_ensures(<RtcDataChannelConfiguration as Default>::default, (), channel),
    ensures
        configuration.ice_servers@.len() == 0,
        configuration.ice_transport_policy == policy,
        policy is All,
        server.urls@.len() == 0,
        server.username is None,
        server.credential is None,
        channel.label@.len() == 0,
        channel.ordered,
        channel.reliability is Reliable,
        channel.protocol is None,
{
}

/// A lifetime gives back the number of milliseconds that it was made of, and there is one for every
/// number but zero.
pub proof fn lemma_lifetime_is_kept(
    milliseconds: u16,
    lifetime: Option<RtcPacketLifetime>,
    given: u16,
)
    requires
        call_ensures(RtcPacketLifetime::new, (milliseconds,), lifetime),
        lifetime is Some ==> call_ensures(RtcPacketLifetime::get, (lifetime->0,), given),
    ensures
        lifetime is Some <==> milliseconds > 0,
        lifetime is Some ==> given == milliseconds,
{
}

/// A future that gives one turn is pending once, and is ready from the second poll on.
pub proof fn lemma_one_turn(
    made: PollFuture,
    first: &mut PollFuture,
    second: &mut PollFuture,
    third: &mut PollFuture,
    polls: (RtcPoll<()>, RtcPoll<()>, RtcPoll<()>),
)
    requires
        call_ensures(PollFuture::once, (), made),
        *old(first) == made,
        call_ensures(PollFuture::poll, (first,), polls.0),
        *old(second) == *final(first),
        call_ensures(PollFuture::poll, (second,), polls.1),
        *old(third) == *final(second),
        call_ensures(PollFuture::poll, (third,), polls.2),
    ensures
        polls == (RtcPoll::<()>::Pending, RtcPoll::Ready(()), RtcPoll::Ready(())),
{
}

/// A future is pending as often as was asked for: the first poll uses up one of the turns, and leaves
/// what a future that was asked for one turn less begins with; and without turns it is ready, and
/// stays so.
pub proof fn lemma_turns(
    count: u32,
    more: u32,
    made: PollFuture,
    made_for_more: PollFuture,
    future: &mut PollFuture,
    poll: RtcPoll<()>,
)
    requires
        more == count + 1,
        call_ensures(PollFuture::new, (count,), made),
        call_ensures(PollFuture::new, (more,), made_for_more),
        call_ensures(PollFuture::poll, (future,), poll),
    ensures
        *old(future) == made_for_more ==> poll is Pending && final(future)@ == made@,
        *old(future) == made && count == 0 ==> poll is Ready && final(future)@ == made@,
{
}

} // verus!
