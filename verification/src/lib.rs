//! A small RPC transport core: a length-prefixed binary framing protocol,
//! the receive-buffer state machine used by non-blocking endpoints, the
//! polling server's connection bookkeeping, and an actor envelope protocol
//! that multiplexes lifecycle commands and user payloads over one endpoint
//! pair. Everything here is pure of I/O: sockets live in the embedding
//! application, which feeds bytes in and carries bytes out.

mod actor;
mod backlog;
mod client;
mod frame;
mod server;

pub use actor::{
    actor_policy, command_view, custom_response, decode_command, decode_response, dispatch,
    encode_command, lifecycle_response,
    encode_command_frame, encode_response, expect_custom,
    lemma_command_round_trip, lemma_response_round_trip, response_view, spec_decode_command,
    spec_decode_response, spec_encode_command, spec_encode_response, ActorServer, Message,
    Response, RpcError, RuntimeError,
};
pub use backlog::Backlog;
pub use client::{RecvBuffer, SocketStatus};
pub use server::{count_closed, keep_open, lemma_keep_open_count, PostServing, ServerCore};
pub use frame::{
    be_byte, close_frame, decode_len, encode_frame, encode_len, lemma_close_frame_is_reserved,
    lemma_exchange_round_trip, lemma_frame_round_trip, lemma_len_round_trip, spec_decode_len,
    spec_encode_len, spec_frame, spec_frame_len, spec_frame_payload,
};
