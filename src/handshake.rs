use vstd::prelude::*;
use vstd::slice::slice_to_vec;
use crate::error::ProtocolError;
use crate::protocol::Message;
use crate::protocol::FrameModel;
use crate::protocol::valid;
use crate::protocol::made;
use crate::protocol::connect_payload;
use crate::protocol::A_AUTH;
use crate::protocol::A_CNXN;
use crate::protocol::AUTH_PUBLICKEY;
use crate::protocol::AUTH_SIGNATURE;
use crate::protocol::MAX_PAYLOAD;
use crate::protocol::VERSION;

verus! {

/// Where a connection stands in the connect / authenticate exchange.
#[derive(Debug, Clone, Copy, PartialEq, Eq, Structural)]
pub enum HandshakeState {
    Connecting,
    AwaitingAuthChallenge,
    ChallengeSigned,
    PublicKeySent,
    Connected,
    Failed(ProtocolError),
}

/// What the driver of the transport must do after a step.
#[derive(Debug)]
pub enum HandshakeAction {
    /// Write this frame, then read the next one.
    Send(Message),
    /// Sign the stored challenge and hand the outcome to `on_signed`.
    Sign,
    /// The connection is established.
    Connected,
    /// The handshake has failed for this reason; close the transport.
    Failed(ProtocolError),
}

/// The state the handshake moves to when frame `f` arrives in state `s`.
pub open spec fn next_state(s: HandshakeState, f: FrameModel) -> HandshakeState {
    match s {
        HandshakeState::Connecting => if valid(f) && f.cmd == A_CNXN {
            HandshakeState::Connected
        } else if valid(f) && f.cmd == A_AUTH {
            HandshakeState::AwaitingAuthChallenge
        } else {
            HandshakeState::Failed(ProtocolError::UnexpectedResponse)
        },
        HandshakeState::AwaitingAuthChallenge => HandshakeState::Failed(
            ProtocolError::UnexpectedResponse,
        ),
        HandshakeState::ChallengeSigned => if valid(f) && f.cmd == A_CNXN {
            HandshakeState::Connected
        } else if valid(f) && f.cmd == A_AUTH {
            HandshakeState::PublicKeySent
        } else {
            HandshakeState::Failed(ProtocolError::UnexpectedResponse)
        },
        HandshakeState::PublicKeySent => if valid(f) && f.cmd == A_CNXN {
            HandshakeState::Connected
        } else {
            HandshakeState::Failed(ProtocolError::AuthRejected)
        },
        HandshakeState::Connected => s,
        HandshakeState::Failed(_) => s,
    }
}

/// Whether a frame arriving in state `s` counts as one exchange with the peer.
pub open spec fn awaits_reply(s: HandshakeState) -> bool {
    s == HandshakeState::Connecting || s == HandshakeState::ChallengeSigned || s
        == HandshakeState::PublicKeySent
}

/// The number of frames the peer has sent on reaching state `s` by the
/// ordinary path.
pub open spec fn exchanges_in(s: HandshakeState) -> u32 {
    match s {
        HandshakeState::Connecting => 0,
        HandshakeState::AwaitingAuthChallenge => 1,
        HandshakeState::ChallengeSigned => 1,
        HandshakeState::PublicKeySent => 2,
        _ => 3,
    }
}

/// The state after a successful signing step: a pending challenge becomes a
/// sent signature; any other state stays.
pub open spec fn signed(s: HandshakeState) -> HandshakeState {
    if s == HandshakeState::AwaitingAuthChallenge {
        HandshakeState::ChallengeSigned
    } else {
        s
    }
}

/// The state reached from `Connecting` after the peer sent `replies`, in order,
/// with every signing step succeeding.
pub open spec fn run(replies: Seq<FrameModel>) -> HandshakeState
    decreases replies.len(),
{
    if replies.len() == 0 {
        HandshakeState::Connecting
    } else {
        signed(next_state(run(replies.drop_last()), replies.last()))
    }
}

/// A peer that answers the connect frame with a valid connect frame gets the
/// client connected after exactly that one exchange.
pub proof fn lemma_no_auth_path(c: FrameModel)
    requires
        valid(c),
        c.cmd == A_CNXN,
    ensures
        run(seq![]) != HandshakeState::Connected,
        run(seq![c]) == HandshakeState::Connected,
{
    assert(seq![c].drop_last() =~= seq![]);
}

/// A peer that answers with a challenge, then accepts the signature with a
/// connect frame, gets the client connected after exactly two exchanges.
pub proof fn lemma_auth_path(a: FrameModel, c: FrameModel)
    requires
        valid(a),
        a.cmd == A_AUTH,
        valid(c),
        c.cmd == A_CNXN,
    ensures
        run(seq![a]) == HandshakeState::ChallengeSigned,
        run(seq![a, c]) == HandshakeState::Connected,
{
    assert(seq![a].drop_last() =~= seq![]);
    assert(seq![a, c].drop_last() =~= seq![a]);
    assert(run(seq![]) == HandshakeState::Connecting);
    assert(run(seq![a]) == signed(next_state(HandshakeState::Connecting, a)));
    assert(run(seq![a, c]) == signed(next_state(run(seq![a]), c)));
}

/// A peer that rejects the signature with a second `AUTH`, then accepts the
/// public key with a connect frame, gets the client connected after exactly
/// three exchanges.
pub proof fn lemma_auth_fallback(a: FrameModel, a2: FrameModel, c: FrameModel)
    requires
        valid(a),
        a.cmd == A_AUTH,
        valid(a2),
        a2.cmd == A_AUTH,
        valid(c),
        c.cmd == A_CNXN,
    ensures
        run(seq![a]) == HandshakeState::ChallengeSigned,
        run(seq![a, a2]) == HandshakeState::PublicKeySent,
        run(seq![a, a2, c]) == HandshakeState::Connected,
{
    assert(seq![a].drop_last() =~= seq![]);
    assert(seq![a, a2].drop_last() =~= seq![a]);
    assert(seq![a, a2, c].drop_last() =~= seq![a, a2]);
    assert(run(seq![]) == HandshakeState::Connecting);
    assert(run(seq![a]) == signed(next_state(HandshakeState::Connecting, a)));
    assert(run(seq![a, a2]) == signed(next_state(run(seq![a]), a2)));
    assert(run(seq![a, a2, c]) == signed(next_state(run(seq![a, a2]), c)));
}

/// The client side of the connect / authenticate exchange.
pub struct Handshake {
    pub state: HandshakeState,
    /// Frames received from the peer so far.
    pub exchanges: u32,
    /// Protocol version the peer announced in its connect frame.
    pub version: u32,
    /// Largest payload the peer announced in its connect frame.
    pub max_payload: u32,
    /// The challenge to sign, while in `AwaitingAuthChallenge`.
    pub challenge: Vec<u8>,
    /// The public key to offer if the peer rejects the signature.
    pub public_key: Vec<u8>,
}

impl Handshake {
    /// Well-formed: the exchange count fits the state and the stored key can
    /// be sent in one frame.
    pub open spec fn wf(&self) -> bool {
        &&& self.exchanges <= 3
        &&& self.public_key@.len() <= u32::MAX
        &&& awaits_reply(self.state) ==> self.exchanges == exchanges_in(self.state)
        &&& self.state == HandshakeState::AwaitingAuthChallenge ==> self.exchanges == 1
    }

    /// A handshake in `Connecting`, and the connect frame to send first.
    pub fn start() -> (r: (Handshake, Message))
        ensures
            r.0.wf(),
            r.0.state == HandshakeState::Connecting,
            r.0.exchanges == 0,
            r.1@ == made(A_CNXN, VERSION, MAX_PAYLOAD, connect_payload()),
    {
        let hs = Handshake {
            state: HandshakeState::Connecting,
            exchanges: 0,
            version: 0,
            max_payload: 0,
            challenge: Vec::new(),
            public_key: Vec::new(),
        };
        (hs, Message::cnnx_msg())
    }

    /// Takes the peer's next frame and moves to `next_state`. The action says
    /// what to do next: send the public key frame, sign the challenge, or stop.
    pub fn on_frame(&mut self, reply: &Message) -> (r: HandshakeAction)
        requires
            old(self).wf(),
        ensures
            final(self).wf(),
            final(self).state == next_state(old(self).state, reply@),
            final(self).exchanges == if awaits_reply(old(self).state) {
                old(self).exchanges + 1
            } else {
                old(self).exchanges as int
            },
            final(self).public_key == old(self).public_key,
            final(self).state == HandshakeState::AwaitingAuthChallenge
                ==> final(self).challenge@ == reply.payload@,
            final(self).state == HandshakeState::Connected && old(self).state
                != HandshakeState::Connected
                ==> final(self).version == reply.arg0 && final(self).max_payload == reply.arg1,
            match r {
                HandshakeAction::Send(m) => final(self).state == HandshakeState::PublicKeySent
                    && m@ == made(A_AUTH, AUTH_PUBLICKEY, 0, old(self).public_key@),
                HandshakeAction::Sign => final(self).state
                    == HandshakeState::AwaitingAuthChallenge,
                HandshakeAction::Connected => final(self).state == HandshakeState::Connected,
                HandshakeAction::Failed(e) => final(self).state == HandshakeState::Failed(e),
            },
    {
        let ok = Message::is_validate_message(reply);
        match self.state {
            HandshakeState::Connecting => {
                self.exchanges = self.exchanges + 1;
                if ok && reply.cmd == A_CNXN {
                    self.connected(reply)
                } else if ok && reply.cmd == A_AUTH {
                    self.challenge = slice_to_vec(reply.payload.as_slice());
                    self.state = HandshakeState::AwaitingAuthChallenge;
                    HandshakeAction::Sign
                } else {
                    self.fail(ProtocolError::UnexpectedResponse)
                }
            },
            HandshakeState::AwaitingAuthChallenge => {
                self.fail(ProtocolError::UnexpectedResponse)
            },
            HandshakeState::ChallengeSigned => {
                self.exchanges = self.exchanges + 1;
                if ok && reply.cmd == A_CNXN {
                    self.connected(reply)
                } else if ok && reply.cmd == A_AUTH {
                    self.state = HandshakeState::PublicKeySent;
                    let pk = slice_to_vec(self.public_key.as_slice());
                    HandshakeAction::Send(Message::pkey_msg(pk))
                } else {
                    self.fail(ProtocolError::UnexpectedResponse)
                }
            },
            HandshakeState::PublicKeySent => {
                self.exchanges = self.exchanges + 1;
                if ok && reply.cmd == A_CNXN {
                    self.connected(reply)
                } else {
                    self.fail(ProtocolError::AuthRejected)
                }
            },
            HandshakeState::Connected => HandshakeAction::Connected,
            HandshakeState::Failed(e) => HandshakeAction::Failed(e),
        }
    }

    /// Takes the outcome of signing the stored challenge. On success the
    /// signature frame is to be sent and the public key is kept for a possible
    /// second round; on failure the handshake fails with the signer's error.
    pub fn on_signed(&mut self, signed: Result<(Message, Vec<u8>), ProtocolError>) -> (r:
        HandshakeAction)
        requires
            old(self).wf(),
            old(self).state == HandshakeState::AwaitingAuthChallenge,
        ensures
            final(self).wf(),
            final(self).exchanges == old(self).exchanges,
            match signed {
                Ok((m, pk)) => if pk@.len() <= u32::MAX {
                    &&& final(self).state == HandshakeState::ChallengeSigned
                    &&& final(self).public_key@ == pk@
                    &&& r matches HandshakeAction::Send(sent) && sent@ == m@
                } else {
                    &&& final(self).state == HandshakeState::Failed(ProtocolError::SigningError)
                    &&& r == HandshakeAction::Failed(ProtocolError::SigningError)
                },
                Err(e) => final(self).state == HandshakeState::Failed(e) && r
                    == HandshakeAction::Failed(e),
            },
    {
        match signed {
            Ok((m, pk)) => {
                if pk.len() > u32::MAX as usize {
                    return self.fail(ProtocolError::SigningError);
                }
                self.public_key = pk;
                self.state = HandshakeState::ChallengeSigned;
                HandshakeAction::Send(m)
            },
            Err(e) => self.fail(e),
        }
    }

    /// Takes the peer's next frame and does what follows from it, signing a
    /// challenge on the spot. The state becomes `next_state`, or, where that is
    /// a pending challenge, `ChallengeSigned` with the signature frame to send,
    /// or `Failed(SigningError)` if signing failed.
    pub fn receive(&mut self, reply: &Message) -> (r: HandshakeAction)
        requires
            old(self).wf(),
        ensures
            final(self).wf(),
            final(self).exchanges == if awaits_reply(old(self).state) {
                old(self).exchanges + 1
            } else {
                old(self).exchanges as int
            },
            next_state(old(self).state, reply@) != HandshakeState::AwaitingAuthChallenge ==> {
                &&& final(self).state == next_state(old(self).state, reply@)
                &&& r matches HandshakeAction::Send(m) ==> final(self).state
                    == HandshakeState::PublicKeySent && m@ == made(
                    A_AUTH,
                    AUTH_PUBLICKEY,
                    0,
                    old(self).public_key@,
                )
                &&& r is Sign ==> false
                &&& r is Connected <==> final(self).state == HandshakeState::Connected
                &&& r matches HandshakeAction::Failed(e) ==> final(self).state
                    == HandshakeState::Failed(e)
            },
            !(r is Sign),
            final(self).state matches HandshakeState::Failed(e) ==> r == HandshakeAction::Failed(e),
            next_state(old(self).state, reply@) == HandshakeState::AwaitingAuthChallenge ==> {
                ||| {
                    &&& final(self).state == HandshakeState::ChallengeSigned
                    &&& r matches HandshakeAction::Send(m) && m@ == made(
                        A_AUTH,
                        AUTH_SIGNATURE,
                        0,
                        m.payload@,
                    )
                }
                ||| {
                    &&& final(self).state == HandshakeState::Failed(ProtocolError::SigningError)
                    &&& r == HandshakeAction::Failed(ProtocolError::SigningError)
                }
            },
    {
        let action = self.on_frame(reply);
        match action {
            HandshakeAction::Sign => {
                let outcome = Message::sign_challenge(self.challenge.as_slice());
                self.on_signed(outcome)
            },
            other => other,
        }
    }

    fn connected(&mut self, reply: &Message) -> (r: HandshakeAction)
        ensures
            *final(self) == (Handshake {
                state: HandshakeState::Connected,
                version: reply.arg0,
                max_payload: reply.arg1,
                ..*old(self)
            }),
            r is Connected,
    {
        self.version = reply.arg0;
        self.max_payload = reply.arg1;
        self.state = HandshakeState::Connected;
        HandshakeAction::Connected
    }

    fn fail(&mut self, e: ProtocolError) -> (r: HandshakeAction)
        ensures
            *final(self) == (Handshake { state: HandshakeState::Failed(e), ..*old(self) }),
            r == HandshakeAction::Failed(e),
    {
        self.state = HandshakeState::Failed(e);
        HandshakeAction::Failed(e)
    }
}

} // verus!
