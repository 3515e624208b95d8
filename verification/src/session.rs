//! Connection state and the decisions of the session pipeline.
//!
//! The pipeline itself — a reader thread feeding payloads through a queue to
//! a decode thread — performs blocking calls and lives outside this library.
//! Every decision it takes is here: the state transitions, the frame-size
//! guard, and what to do with one queued payload.

use vstd::prelude::*;
use vstd::string::StringSliceAdditionalSpecFns;

use crate::decoder::interpret_post;
use crate::decoder::DecodeError;
use crate::decoder::Decoder;
use crate::messages::read_fields;
use crate::messages::read_fields_spec;
use crate::messages::rsp_kind_of;
use crate::messages::ServerRspMsg;
use crate::numtext::dec_text;
use crate::numtext::parse_i32_spec;

verus! {

/// A frame declaring more than this many bytes is a fatal protocol
/// violation.
pub const MAX_MSG_LEN: usize = 0xFFFFFF;

/// The request id used when an error belongs to no request.
pub const NO_VALID_ID: i32 = -1;

/// The error code reported when the connection is given up.
pub const NOT_CONNECTED_CODE: i32 = 504;

#[derive(Clone, Copy, Debug, PartialEq, Eq, Structural)]
pub enum ConnStatus {
    Disconnected,
    Connecting,
    Connected,
}

/// What the decode stage hands back for one queued payload: the messages to
/// forward to the consumer, in order, and whether the stage must stop.
pub struct StepOutcome {
    pub messages: Vec<ServerRspMsg>,
    pub stop: bool,
}

/// An inbound payload whose UTF-8 byte length exceeds the limit.
pub open spec fn oversize(payload: Seq<char>) -> bool {
    vstd::utf8::encode_utf8(payload).len() > MAX_MSG_LEN
}

/// A field list on which the decode stage cannot continue: a leading field
/// that is not a number, or one that names no known message kind.
pub open spec fn decode_fatal(fs: Seq<Seq<char>>) -> bool {
    fs.len() > 0 && (match parse_i32_spec(fs[0]) {
        Option::None => true,
        Option::Some(id) => rsp_kind_of(id as int) is None,
    })
}

/// The single error message synthesized for an oversize payload; the
/// length it reports is the payload's byte length.
pub open spec fn oversize_err_is(payload: Seq<char>, m: ServerRspMsg) -> bool {
    m matches ServerRspMsg::ErrMsg { req_id, error_code, error_str } && req_id == NO_VALID_ID
        && error_code == NOT_CONNECTED_CODE && error_str@ == "Not connected"@ + seq![':']
        + dec_text(vstd::utf8::encode_utf8(payload).len()) + seq![':'] + payload
}

/// The session: the negotiated-version decoder plus the connection status
/// that all stages share.
pub struct Session {
    pub decoder: Decoder,
    pub status: ConnStatus,
}

impl Session {
    /// A fresh session; nothing is connected yet.
    pub fn new(server_version: i32) -> (r: Session)
        ensures
            r.decoder.server_version == server_version,
            r.status is Disconnected,
    {
        Session { decoder: Decoder::new(server_version), status: ConnStatus::Disconnected }
    }

    /// A read-only view of the connection status.
    pub fn status(&self) -> (r: ConnStatus)
        ensures
            r == self.status,
    {
        self.status
    }

    /// The socket is established: the session is now connecting.
    pub fn on_socket_established(&mut self)
        requires
            old(self).status is Disconnected,
        ensures
            final(self).status is Connecting,
            final(self).decoder == old(self).decoder,
    {
        self.status = ConnStatus::Connecting;
    }

    /// The version handshake and start-of-session exchange completed.
    pub fn on_handshake_complete(&mut self)
        requires
            old(self).status is Connecting,
        ensures
            final(self).status is Connected,
            final(self).decoder == old(self).decoder,
    {
        self.status = ConnStatus::Connected;
    }

    /// A transport failure, from any state, disconnects the session.
    pub fn on_failure(&mut self)
        ensures
            final(self).status is Disconnected,
            final(self).decoder == old(self).decoder,
    {
        self.status = ConnStatus::Disconnected;
    }

    /// The reader stage observed end-of-stream or a closed queue.
    pub fn on_closed(&mut self)
        ensures
            final(self).status is Disconnected,
            final(self).decoder == old(self).decoder,
    {
        self.status = ConnStatus::Disconnected;
    }

    /// Decide what to do with one queued payload.  An oversize payload
    /// yields exactly one error message and stops the stage after forcing
    /// the status to disconnected; a payload whose leading field is fatal
    /// stops the stage the same way but forwards nothing; any other payload
    /// is split, decoded and forwarded, and the stage goes on.
    pub fn on_payload(&mut self, payload: &String) -> (r: StepOutcome)
        ensures
            oversize(payload@) ==> ({
                &&& r.stop
                &&& r.messages@.len() == 1
                &&& oversize_err_is(payload@, r.messages@[0])
                &&& final(self).status is Disconnected
                &&& final(self).decoder == old(self).decoder
            }),
            !oversize(payload@) && !decode_fatal(read_fields_spec(payload@)) ==> ({
                &&& !r.stop
                &&& interpret_post(
                    read_fields_spec(payload@),
                    old(self).decoder.server_version,
                    Result::<_, DecodeError>::Ok(r.messages),
                )
                &&& *final(self) == *old(self)
            }),
            !oversize(payload@) && decode_fatal(read_fields_spec(payload@)) ==> ({
                &&& r.stop
                &&& r.messages@.len() == 0
                &&& final(self).status is Disconnected
                &&& final(self).decoder == old(self).decoder
            }),
    {
        let ps = payload.as_str();
        let n = ps.as_bytes().len();
        proof {
            assert(ps.spec_bytes() == vstd::utf8::encode_utf8(payload@));
        }
        if n > MAX_MSG_LEN {
            let mut error_str = String::from_str("Not connected");
            error_str.append(":");
            let len_text = crate::numtext::u64_text(n as u64);
            error_str.append(len_text.as_str());
            error_str.append(":");
            error_str.append(payload.as_str());
            proof {
                reveal_strlit(":");
                assert(":"@ =~= seq![':']);
            }
            let mut messages: Vec<ServerRspMsg> = Vec::new();
            messages.push(
                ServerRspMsg::ErrMsg {
                    req_id: NO_VALID_ID,
                    error_code: NOT_CONNECTED_CODE,
                    error_str,
                },
            );
            self.status = ConnStatus::Disconnected;
            StepOutcome { messages, stop: true }
        } else {
            let fields = read_fields(payload.as_str());
            match self.decoder.interpret(fields.as_slice()) {
                Ok(messages) => StepOutcome { messages, stop: false },
                Err(_) => {
                    self.status = ConnStatus::Disconnected;
                    StepOutcome { messages: Vec::new(), stop: true }
                },
            }
        }
    }
}

/// The reader-stage guard: may a frame declaring this many payload bytes be
/// read at all?
pub fn frame_size_ok(declared_len: usize) -> (r: bool)
    ensures
        r <==> declared_len <= MAX_MSG_LEN,
{
    declared_len <= MAX_MSG_LEN
}

/// The single error message synthesized when the reader refuses a frame by
/// its declared length, the payload unread.
pub open spec fn oversize_frame_err_is(declared_len: int, m: ServerRspMsg) -> bool {
    m matches ServerRspMsg::ErrMsg { req_id, error_code, error_str } && req_id == NO_VALID_ID
        && error_code == NOT_CONNECTED_CODE && error_str@ == "Not connected"@ + seq![':']
        + dec_text(declared_len as nat) + seq![':']
}

/// What the reader stage does with a frame whose declared length exceeds
/// the limit: refuse to read the payload, hand the consumer exactly one
/// error message, and stop.
pub fn oversize_frame_outcome(declared_len: usize) -> (r: StepOutcome)
    requires
        declared_len > MAX_MSG_LEN,
    ensures
        r.stop,
        r.messages@.len() == 1,
        oversize_frame_err_is(declared_len as int, r.messages@[0]),
{
    let mut error_str = String::from_str("Not connected");
    error_str.append(":");
    let len_text = crate::numtext::u64_text(declared_len as u64);
    error_str.append(len_text.as_str());
    error_str.append(":");
    proof {
        reveal_strlit(":");
        assert(":"@ =~= seq![':']);
    }
    let mut messages: Vec<ServerRspMsg> = Vec::new();
    messages.push(
        ServerRspMsg::ErrMsg { req_id: NO_VALID_ID, error_code: NOT_CONNECTED_CODE, error_str },
    );
    StepOutcome { messages, stop: true }
}

} // verus!
