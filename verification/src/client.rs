//! WebSocket client session: the small state machine over the frame codec
//! and the opening handshake.
//!
//! Lifecycle: a fresh client is idle; `client_connect` builds the Upgrade
//! request and moves it to connecting; `client_accept` validates the
//! server's response and opens it; `read` decodes one incoming frame at a
//! time, classifying close frames by whether this side already sent its own
//! close; `write` masks and frames outgoing messages; `close` initiates the
//! closing handshake. The closing states split the protocol's closing phase
//! by who closed first: close-sent (this side did) and close-received (the
//! server did).

use vstd::prelude::*;

use crate::base64::base64_of;
use crate::base64::base64_encode;
use crate::frame::DecodeStep;
use crate::frame::WsError;
use crate::frame::OPCODE_BINARY;
use crate::frame::OPCODE_CLOSE;
use crate::frame::OPCODE_CONTINUATION;
use crate::frame::OPCODE_PING;
use crate::frame::OPCODE_PONG;
use crate::frame::OPCODE_TEXT;
use crate::frame::be16_val;
use crate::frame::decode_frame;
use crate::frame::declared_len;
use crate::frame::encode_frame;
use crate::frame::frame_bytes;
use crate::frame::frame_complete;
use crate::frame::frame_payload;
use crate::frame::have_length;
use crate::frame::hdr_fin;
use crate::frame::hdr_opcode;
use crate::frame::header_len;
use crate::frame::valid_opcode;
use crate::handshake::WebSocketOptions;
use crate::handshake::accept_key_of;
use crate::handshake::build_upgrade_request;
use crate::handshake::check_upgrade_response;
use crate::handshake::derive_accept_key;
use crate::handshake::response_accepts;
use crate::handshake::upgrade_request;

verus! {

/// Where the session stands in its life.
#[derive(Debug, Clone, Copy, PartialEq, Eq, Structural)]
pub enum WsState {
    /// No handshake begun.
    Idle,
    /// The Upgrade request is built; the response is awaited.
    Connecting,
    /// The handshake completed: application frames flow.
    Open,
    /// This side sent a close frame and awaits the server's.
    CloseSent,
    /// The server's close frame arrived and was answered or is owed.
    CloseReceived,
    /// The closing handshake finished.
    Closed,
    /// The opening handshake failed.
    Aborted,
}

/// What a decoded frame means to the application.
#[derive(Debug, Clone, Copy, PartialEq, Eq, Structural)]
pub enum MessageType {
    Text,
    Binary,
    /// The payload must be echoed back as a pong at once.
    Ping,
    Pong,
    /// The server closed first: echo a close reply, then close the
    /// transport.
    CloseMustReply,
    /// The server answered this side's close: close the transport.
    CloseCompleted,
}

/// What the application can send.
#[derive(Debug, Clone, Copy, PartialEq, Eq, Structural)]
pub enum SendMessageType {
    Text,
    Binary,
    Ping,
    Pong,
    /// The close frame owed after `CloseMustReply`.
    CloseReply,
}

/// The opcode each outgoing message type is framed with.
pub open spec fn send_opcode(t: SendMessageType) -> u8 {
    match t {
        SendMessageType::Text => OPCODE_TEXT,
        SendMessageType::Binary => OPCODE_BINARY,
        SendMessageType::Ping => OPCODE_PING,
        SendMessageType::Pong => OPCODE_PONG,
        SendMessageType::CloseReply => OPCODE_CLOSE,
    }
}

/// Round trip for text: the bytes `write` frames for a final text message
/// (any masking key, any payload that fits the destination buffer), handed
/// back to `read` on an open session, decode to a text message with exactly
/// the original payload, and leave the session open.
pub proof fn lemma_text_round_trip(
    pre: WebSocketClient,
    key: Seq<u8>,
    payload: Seq<u8>,
    max: usize,
    r: Result<ReadOutcome, WsError>,
    post: WebSocketClient,
)
    requires
        pre.state == WsState::Open,
        key.len() == 4,
        payload.len() <= max,
        read_spec(pre, frame_bytes(true, OPCODE_TEXT, Some(key), payload), max, r, post),
    ensures
        r matches Ok(o) && o matches ReadOutcome::Message(m) && m.message_type
            == MessageType::Text && m.payload@ == payload && m.end_of_message == true,
        post.state == WsState::Open,
{
    crate::frame::lemma_frame_round_trip(true, OPCODE_TEXT, Some(key), payload);
}

/// Round trip for the ping echo: the payload of a decoded ping, echoed with
/// `write` as a final pong frame and decoded again, comes back as a pong
/// carrying exactly the ping's payload.
pub proof fn lemma_pong_echo_round_trip(
    pre: WebSocketClient,
    key: Seq<u8>,
    ping_payload: Seq<u8>,
    max: usize,
    r: Result<ReadOutcome, WsError>,
    post: WebSocketClient,
)
    requires
        pre.state == WsState::Open,
        key.len() == 4,
        ping_payload.len() <= max,
        read_spec(pre, frame_bytes(true, OPCODE_PONG, Some(key), ping_payload), max, r, post),
    ensures
        r matches Ok(o) && o matches ReadOutcome::Message(m) && m.message_type
            == MessageType::Pong && m.payload@ == ping_payload && m.end_of_message == true,
        post.state == WsState::Open,
{
    crate::frame::lemma_frame_round_trip(true, OPCODE_PONG, Some(key), ping_payload);
}

/// One decoded message unit handed to the application.
pub struct ReadMessage {
    pub message_type: MessageType,
    /// The unmasked payload, copied out of the input buffer.
    pub payload: Vec<u8>,
    /// Whether this frame ends its message.
    pub end_of_message: bool,
    /// The status code of a close frame that carried one.
    pub close_status: Option<u16>,
    /// How many input bytes the frame occupied.
    pub consumed: usize,
}

/// The outcome of a read attempt on a buffer that may hold less than one
/// whole frame.
pub enum ReadOutcome {
    /// No complete frame yet: read more bytes and try again.
    Incomplete,
    /// One whole message unit.
    Message(ReadMessage),
}

/// The client: its lifecycle state, the type of a fragmented incoming
/// message in flight, whether the next outgoing fragment continues an
/// unfinished message, and the accept key the pending handshake owes.
pub struct WebSocketClient {
    pub state: WsState,
    pub continuation_type: Option<MessageType>,
    pub write_continuation: bool,
    pub expected_accept: Option<Vec<u8>>,
}

/// Reading application frames is allowed while open, and while awaiting the
/// server's answer to this side's close.
pub open spec fn read_allowed(st: WsState) -> bool {
    st == WsState::Open || st == WsState::CloseSent
}

/// Writing is allowed while open, and while the server's close awaits its
/// reply.
pub open spec fn write_allowed(st: WsState) -> bool {
    st == WsState::Open || st == WsState::CloseReceived
}

/// Everything `read` must do, as one relation between the client before the
/// call, the input bytes, the destination capacity, the result, and the
/// client after the call.
pub open spec fn read_spec(
    pre: WebSocketClient,
    s: Seq<u8>,
    max: usize,
    r: Result<ReadOutcome, WsError>,
    post: WebSocketClient,
) -> bool {
    if !read_allowed(pre.state) {
        r == Err::<ReadOutcome, WsError>(WsError::InvalidState) && post == pre
    } else if s.len() < 2 {
        (r matches Ok(o) && o is Incomplete) && post == pre
    } else if !valid_opcode(hdr_opcode(s)) {
        r == Err::<ReadOutcome, WsError>(WsError::InvalidOpcode(hdr_opcode(s))) && post == pre
    } else if !have_length(s) {
        (r matches Ok(o) && o is Incomplete) && post == pre
    } else if declared_len(s) > max {
        r == Err::<ReadOutcome, WsError>(WsError::FrameTooLarge(declared_len(s) as u64, max))
            && post == pre
    } else if !frame_complete(s) {
        (r matches Ok(o) && o is Incomplete) && post == pre
    } else if hdr_opcode(s) == OPCODE_CONTINUATION && pre.continuation_type is None {
        r == Err::<ReadOutcome, WsError>(WsError::InvalidContinuation) && post == pre
    } else {
        let op = hdr_opcode(s);
        let fin = hdr_fin(s);
        let pl = frame_payload(s);
        let mt = if op == OPCODE_TEXT {
            MessageType::Text
        } else if op == OPCODE_BINARY {
            MessageType::Binary
        } else if op == OPCODE_PING {
            MessageType::Ping
        } else if op == OPCODE_PONG {
            MessageType::Pong
        } else if op == OPCODE_CLOSE {
            if pre.state == WsState::CloseSent {
                MessageType::CloseCompleted
            } else {
                MessageType::CloseMustReply
            }
        } else {
            pre.continuation_type.unwrap()
        };
        &&& r matches Ok(o) && o matches ReadOutcome::Message(m) && m.message_type == mt
            && m.payload@ == pl && m.end_of_message == fin && m.consumed == header_len(s)
            + declared_len(s) && m.close_status == (
        if op == OPCODE_CLOSE && pl.len() >= 2 {
            Some(be16_val(pl.subrange(0, 2)) as u16)
        } else {
            None
        })
        &&& post.state == (if op == OPCODE_CLOSE {
            if pre.state == WsState::CloseSent {
                WsState::Closed
            } else {
                WsState::CloseReceived
            }
        } else {
            pre.state
        })
        &&& post.continuation_type == (if op == OPCODE_TEXT || op == OPCODE_BINARY {
            if fin {
                Option::<MessageType>::None
            } else {
                Some(mt)
            }
        } else if op == OPCODE_CONTINUATION {
            if fin {
                Option::<MessageType>::None
            } else {
                pre.continuation_type
            }
        } else {
            pre.continuation_type
        })
        &&& post.write_continuation == pre.write_continuation
        &&& post.expected_accept == pre.expected_accept
    }
}

impl WebSocketClient {
    /// A fresh client: idle, with no fragmented message in flight and no
    /// handshake pending.
    pub fn new_client() -> (r: WebSocketClient)
        ensures
            r.state == WsState::Idle,
            r.continuation_type is None,
            r.write_continuation == false,
            r.expected_accept is None,
    {
        WebSocketClient {
            state: WsState::Idle,
            continuation_type: None,
            write_continuation: false,
            expected_accept: None,
        }
    }

    /// Begins the opening handshake: encodes the 16 key bytes in base64,
    /// builds the Upgrade request, remembers the accept key the server now
    /// owes, and moves to connecting. Refused only on an already-open
    /// session.
    pub fn client_connect(&mut self, options: &WebSocketOptions, key: &Vec<u8>) -> (r: Result<
        Vec<u8>,
        WsError,
    >)
        requires
            key@.len() == 16,
        ensures
            old(self).state == WsState::Open ==> r == Err::<Vec<u8>, WsError>(
                WsError::InvalidState,
            ) && *final(self) == *old(self),
            old(self).state != WsState::Open ==> ({
                &&& r matches Ok(req)
                &&& (options.sub_protocols matches Some(p) ==> req@ == upgrade_request(
                    options.path@,
                    options.host@,
                    options.origin@,
                    base64_of(key@),
                    Some(p@),
                ))
                &&& (options.sub_protocols is None ==> req@ == upgrade_request(
                    options.path@,
                    options.host@,
                    options.origin@,
                    base64_of(key@),
                    None,
                ))
                &&& final(self).state == WsState::Connecting
                &&& final(self).expected_accept matches Some(e) && e@ == accept_key_of(
                    base64_of(key@),
                )
                &&& final(self).continuation_type == old(self).continuation_type
                &&& final(self).write_continuation == old(self).write_continuation
            }),
    {
        if self.state == WsState::Open {
            return Err(WsError::InvalidState);
        }
        let key_b64 = base64_encode(key);
        let request = build_upgrade_request(options, &key_b64);
        let expected = derive_accept_key(&key_b64);
        self.expected_accept = Some(expected);
        self.state = WsState::Connecting;
        Ok(request)
    }

    /// Completes the opening handshake: the response must carry status 101
    /// and the owed accept key. Success opens the session; a mismatch
    /// aborts it. Refused when no handshake is pending or the session is
    /// already open.
    pub fn client_accept(&mut self, response: &Vec<u8>) -> (r: Result<(), WsError>)
        ensures
            old(self).state == WsState::Open || old(self).expected_accept is None ==> r == Err::<
                (),
                WsError,
            >(WsError::InvalidState) && *final(self) == *old(self),
            old(self).expected_accept matches Some(e) ==> (old(self).state != WsState::Open ==> {
                &&& (r is Ok <==> response_accepts(response@, e@))
                &&& (r is Err ==> r == Err::<(), WsError>(WsError::HandshakeMismatch))
                &&& final(self).state == (if r is Ok {
                    WsState::Open
                } else {
                    WsState::Aborted
                })
                &&& final(self).continuation_type == old(self).continuation_type
                &&& final(self).write_continuation == old(self).write_continuation
                &&& final(self).expected_accept == old(self).expected_accept
            }),
    {
        if self.state == WsState::Open {
            return Err(WsError::InvalidState);
        }
        match &self.expected_accept {
            None => Err(WsError::InvalidState),
            Some(expected) => {
                match check_upgrade_response(response, expected) {
                    Ok(()) => {
                        self.state = WsState::Open;
                        Ok(())
                    },
                    Err(e) => {
                        self.state = WsState::Aborted;
                        Err(e)
                    },
                }
            },
        }
    }

    /// Decodes one frame from the front of `input` into a message unit of
    /// at most `max_payload` payload bytes: exactly the relation
    /// `read_spec`.
    pub fn read(&mut self, input: &Vec<u8>, max_payload: usize) -> (r: Result<
        ReadOutcome,
        WsError,
    >)
        ensures
            read_spec(*old(self), input@, max_payload, r, *final(self)),
    {
        if !(self.state == WsState::Open || self.state == WsState::CloseSent) {
            return Err(WsError::InvalidState);
        }
        match decode_frame(input, max_payload) {
            Err(e) => Err(e),
            Ok(DecodeStep::Incomplete) => Ok(ReadOutcome::Incomplete),
            Ok(DecodeStep::Frame(f)) => {
                let mt: MessageType = if f.opcode == OPCODE_TEXT {
                    MessageType::Text
                } else if f.opcode == OPCODE_BINARY {
                    MessageType::Binary
                } else if f.opcode == OPCODE_PING {
                    MessageType::Ping
                } else if f.opcode == OPCODE_PONG {
                    MessageType::Pong
                } else if f.opcode == OPCODE_CLOSE {
                    if self.state == WsState::CloseSent {
                        MessageType::CloseCompleted
                    } else {
                        MessageType::CloseMustReply
                    }
                } else {
                    match self.continuation_type {
                        Some(t) => t,
                        None => {
                            return Err(WsError::InvalidContinuation);
                        },
                    }
                };
                let close_status: Option<u16> = if f.opcode == OPCODE_CLOSE && f.payload.len()
                    >= 2 {
                    Some(f.payload[0] as u16 * 0x100 + f.payload[1] as u16)
                } else {
                    None
                };
                if f.opcode == OPCODE_CLOSE {
                    if self.state == WsState::CloseSent {
                        self.state = WsState::Closed;
                    } else {
                        self.state = WsState::CloseReceived;
                    }
                }
                if f.opcode == OPCODE_TEXT || f.opcode == OPCODE_BINARY {
                    self.continuation_type = if f.fin {
                        None
                    } else {
                        Some(mt)
                    };
                } else if f.opcode == OPCODE_CONTINUATION {
                    if f.fin {
                        self.continuation_type = None;
                    }
                }
                Ok(
                    ReadOutcome::Message(
                        ReadMessage {
                            message_type: mt,
                            payload: f.payload,
                            end_of_message: f.fin,
                            close_status,
                            consumed: f.consumed,
                        },
                    ),
                )
            },
        }
    }

    /// Frames one outgoing message, masked with the given 4-byte key. A
    /// fragmented message keeps its opcode only on its first frame; close
    /// replies close the session. Refused unless the session is open or a
    /// received close awaits its reply.
    pub fn write(
        &mut self,
        message_type: SendMessageType,
        end_of_message: bool,
        payload: &Vec<u8>,
        mask_key: &Vec<u8>,
    ) -> (r: Result<Vec<u8>, WsError>)
        requires
            mask_key@.len() == 4,
        ensures
            !write_allowed(old(self).state) ==> r == Err::<Vec<u8>, WsError>(
                WsError::InvalidState,
            ) && *final(self) == *old(self),
            write_allowed(old(self).state) ==> ({
                let op = if send_opcode(message_type) == OPCODE_CLOSE {
                    OPCODE_CLOSE
                } else if old(self).write_continuation {
                    OPCODE_CONTINUATION
                } else {
                    send_opcode(message_type)
                };
                &&& r matches Ok(bytes) && bytes@ == frame_bytes(
                    end_of_message,
                    op,
                    Some(mask_key@),
                    payload@,
                )
                &&& final(self).state == (if send_opcode(message_type) == OPCODE_CLOSE {
                    WsState::Closed
                } else {
                    old(self).state
                })
                &&& final(self).write_continuation == !end_of_message
                &&& final(self).continuation_type == old(self).continuation_type
                &&& final(self).expected_accept == old(self).expected_accept
            }),
    {
        if !(self.state == WsState::Open || self.state == WsState::CloseReceived) {
            return Err(WsError::InvalidState);
        }
        let base_op: u8 = match message_type {
            SendMessageType::Text => OPCODE_TEXT,
            SendMessageType::Binary => OPCODE_BINARY,
            SendMessageType::Ping => OPCODE_PING,
            SendMessageType::Pong => OPCODE_PONG,
            SendMessageType::CloseReply => OPCODE_CLOSE,
        };
        let op: u8 = if base_op == OPCODE_CLOSE {
            self.state = WsState::Closed;
            OPCODE_CLOSE
        } else if self.write_continuation {
            OPCODE_CONTINUATION
        } else {
            base_op
        };
        self.write_continuation = !end_of_message;
        let bytes = encode_frame(end_of_message, op, Some(mask_key), payload);
        Ok(bytes)
    }

    /// Initiates the closing handshake: frames a close carrying the status
    /// code and reason, and awaits the server's close. Refused unless the
    /// session is open.
    pub fn close(&mut self, status_code: u16, reason: &Vec<u8>, mask_key: &Vec<u8>) -> (r: Result<
        Vec<u8>,
        WsError,
    >)
        requires
            mask_key@.len() == 4,
        ensures
            old(self).state != WsState::Open ==> r == Err::<Vec<u8>, WsError>(
                WsError::InvalidState,
            ) && *final(self) == *old(self),
            old(self).state == WsState::Open ==> ({
                &&& r matches Ok(bytes) && bytes@ == frame_bytes(
                    true,
                    OPCODE_CLOSE,
                    Some(mask_key@),
                    seq![(status_code / 0x100) as u8, (status_code % 0x100) as u8] + reason@,
                )
                &&& final(self).state == WsState::CloseSent
                &&& final(self).continuation_type == old(self).continuation_type
                &&& final(self).write_continuation == old(self).write_continuation
                &&& final(self).expected_accept == old(self).expected_accept
            }),
    {
        if self.state != WsState::Open {
            return Err(WsError::InvalidState);
        }
        let mut payload: Vec<u8> = Vec::new();
        payload.push((status_code / 0x100) as u8);
        payload.push((status_code % 0x100) as u8);
        let mut i: usize = 0;
        while i < reason.len()
            invariant
                0 <= i <= reason@.len(),
                payload@ =~= seq![(status_code / 0x100) as u8, (status_code % 0x100) as u8]
                    + reason@.subrange(0, i as int),
            decreases reason@.len() - i,
        {
            payload.push(reason[i]);
            assert(payload@ =~= seq![(status_code / 0x100) as u8, (status_code % 0x100) as u8]
                + reason@.subrange(0, i + 1));
            i = i + 1;
        }
        assert(payload@ =~= seq![(status_code / 0x100) as u8, (status_code % 0x100) as u8]
            + reason@);
        self.state = WsState::CloseSent;
        let bytes = encode_frame(true, OPCODE_CLOSE, Some(mask_key), &payload);
        Ok(bytes)
    }
}

} // verus!
