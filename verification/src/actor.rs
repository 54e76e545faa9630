//! The actor layer: two small tagged unions multiplex lifecycle control and
//! user payloads over one duplex endpoint pair. A client wraps each user
//! request or lifecycle command in a command envelope; the hosting server
//! unwraps it, drives the matching capability of a user-owned actor state
//! machine, and answers with a response envelope. On the wire an envelope is
//! one byte of tag followed by the user payload, if any, all inside an
//! ordinary frame.

use vstd::prelude::*;
use vstd::pervasive::unreached;

use crate::frame::spec_frame;
use crate::frame::encode_frame;
use crate::server::PostServing;

verus! {

/// The command envelope a client sends: a lifecycle command, or a user
/// request wrapped in `Custom`.
#[derive(Debug, PartialEq, Eq)]
pub enum Message<M> {
    Stop,
    Pause,
    Resume,
    Hibernate,
    WakeUp,
    Custom(M),
}

/// The response envelope a server returns: a bare acknowledgement for a
/// lifecycle command, or a user response wrapped in `Custom`.
#[derive(Debug, PartialEq, Eq)]
pub enum Response<M> {
    Awk,
    Custom(M),
}

impl<M> Response<M> {
    /// Takes the user payload out of a `Custom` response. Applying this to
    /// `Awk` is a protocol violation by the caller's own contract, so that
    /// case is excluded outright.
    pub fn unwrap_custom(self) -> (m: M)
        requires
            self is Custom,
        ensures
            m == self->Custom_0,
    {
        match self {
            Response::Awk => unreached(),
            Response::Custom(m) => m,
        }
    }
}

/// Why a transport or actor operation failed: a socket error, a payload that
/// could not be encoded or decoded, a breach of the envelope protocol, or a
/// failing actor capability.
#[derive(Clone, Copy, Debug, PartialEq, Eq, Structural)]
pub enum RpcError {
    IoError,
    SerializationError,
    ProtocolViolation,
    RuntimeError,
}

/// A failure reported by one of an actor's capabilities.
#[derive(Debug)]
pub struct RuntimeError {
    pub message: String,
}

/// A command envelope with its payload read as a mathematical sequence of
/// bytes.
pub open spec fn command_view(c: Message<Vec<u8>>) -> Message<Seq<u8>> {
    match c {
        Message::Stop => Message::Stop,
        Message::Pause => Message::Pause,
        Message::Resume => Message::Resume,
        Message::Hibernate => Message::Hibernate,
        Message::WakeUp => Message::WakeUp,
        Message::Custom(p) => Message::Custom(p@),
    }
}

/// A response envelope with its payload read as a mathematical sequence of
/// bytes.
pub open spec fn response_view(r: Response<Vec<u8>>) -> Response<Seq<u8>> {
    match r {
        Response::Awk => Response::Awk,
        Response::Custom(p) => Response::Custom(p@),
    }
}

/// The wire form of a command envelope: one tag byte, then the payload of a
/// `Custom` command.
pub open spec fn spec_encode_command(c: Message<Seq<u8>>) -> Seq<u8> {
    match c {
        Message::Stop => seq![0u8],
        Message::Pause => seq![1u8],
        Message::Resume => seq![2u8],
        Message::Hibernate => seq![3u8],
        Message::WakeUp => seq![4u8],
        Message::Custom(p) => seq![5u8] + p,
    }
}

/// The command envelope a sequence of wire bytes stands for, or `None` where
/// the bytes are not the encoding of any command.
pub open spec fn spec_decode_command(b: Seq<u8>) -> Option<Message<Seq<u8>>> {
    if b.len() == 0 {
        None
    } else if b[0] == 0 && b.len() == 1 {
        Some(Message::Stop)
    } else if b[0] == 1 && b.len() == 1 {
        Some(Message::Pause)
    } else if b[0] == 2 && b.len() == 1 {
        Some(Message::Resume)
    } else if b[0] == 3 && b.len() == 1 {
        Some(Message::Hibernate)
    } else if b[0] == 4 && b.len() == 1 {
        Some(Message::WakeUp)
    } else if b[0] == 5 {
        Some(Message::Custom(b.skip(1)))
    } else {
        None
    }
}

/// The wire form of a response envelope: one tag byte, then the payload of a
/// `Custom` response.
pub open spec fn spec_encode_response(r: Response<Seq<u8>>) -> Seq<u8> {
    match r {
        Response::Awk => seq![0u8],
        Response::Custom(p) => seq![1u8] + p,
    }
}

/// The response envelope a sequence of wire bytes stands for, or `None`
/// where the bytes are not the encoding of any response.
pub open spec fn spec_decode_response(b: Seq<u8>) -> Option<Response<Seq<u8>>> {
    if b.len() == 0 {
        None
    } else if b[0] == 0 && b.len() == 1 {
        Some(Response::Awk)
    } else if b[0] == 1 {
        Some(Response::Custom(b.skip(1)))
    } else {
        None
    }
}

/// Decoding the bytes produced by encoding any command envelope reproduces
/// that envelope exactly.
pub proof fn lemma_command_round_trip(c: Message<Seq<u8>>)
    ensures
        spec_decode_command(spec_encode_command(c)) == Some(c),
{
    match c {
        Message::Custom(p) => {
            assert((seq![5u8] + p).skip(1) =~= p);
        },
        _ => {},
    }
}

/// Decoding the bytes produced by encoding any response envelope reproduces
/// that envelope exactly.
pub proof fn lemma_response_round_trip(r: Response<Seq<u8>>)
    ensures
        spec_decode_response(spec_encode_response(r)) == Some(r),
{
    match r {
        Response::Custom(p) => {
            assert((seq![1u8] + p).skip(1) =~= p);
        },
        _ => {},
    }
}

/// Writes the wire bytes of a command envelope.
pub fn encode_command(c: &Message<Vec<u8>>) -> (r: Vec<u8>)
    ensures
        r@ == spec_encode_command(command_view(*c)),
        r@.len() >= 1,
{
    match c {
        Message::Stop => vec![0u8],
        Message::Pause => vec![1u8],
        Message::Resume => vec![2u8],
        Message::Hibernate => vec![3u8],
        Message::WakeUp => vec![4u8],
        Message::Custom(p) => {
            let mut r = vec![5u8];
            let mut i: usize = 0;
            while i < p.len()
                invariant
                    i <= p@.len(),
                    r@ == seq![5u8] + p@.subrange(0, i as int),
                decreases p@.len() - i,
            {
                r.push(p[i]);
                i = i + 1;
                proof {
                    assert(r@ =~= seq![5u8] + p@.subrange(0, i as int));
                }
            }
            proof {
                assert(p@.subrange(0, p@.len() as int) =~= p@);
            }
            r
        },
    }
}

/// Reads a command envelope back out of wire bytes; bytes that encode no
/// command are rejected as a serialization error.
pub fn decode_command(b: &Vec<u8>) -> (r: Result<Message<Vec<u8>>, RpcError>)
    ensures
        match r {
            Ok(c) => spec_decode_command(b@) == Some(command_view(c)),
            Err(e) => spec_decode_command(b@) is None && e == RpcError::SerializationError,
        },
{
    if b.len() == 0 {
        return Err(RpcError::SerializationError);
    }
    let tag = b[0];
    if tag == 5 {
        let mut p: Vec<u8> = Vec::new();
        let mut i: usize = 1;
        while i < b.len()
            invariant
                1 <= i <= b@.len(),
                p@ == b@.subrange(1, i as int),
            decreases b@.len() - i,
        {
            p.push(b[i]);
            i = i + 1;
            proof {
                assert(p@ =~= b@.subrange(1, i as int));
            }
        }
        proof {
            assert(b@.subrange(1, b@.len() as int) =~= b@.skip(1));
        }
        Ok(Message::Custom(p))
    } else if b.len() != 1 {
        Err(RpcError::SerializationError)
    } else if tag == 0 {
        Ok(Message::Stop)
    } else if tag == 1 {
        Ok(Message::Pause)
    } else if tag == 2 {
        Ok(Message::Resume)
    } else if tag == 3 {
        Ok(Message::Hibernate)
    } else if tag == 4 {
        Ok(Message::WakeUp)
    } else {
        Err(RpcError::SerializationError)
    }
}

/// Writes the wire bytes of a response envelope.
pub fn encode_response(r: &Response<Vec<u8>>) -> (out: Vec<u8>)
    ensures
        out@ == spec_encode_response(response_view(*r)),
        out@.len() >= 1,
{
    match r {
        Response::Awk => vec![0u8],
        Response::Custom(p) => {
            let mut out = vec![1u8];
            let mut i: usize = 0;
            while i < p.len()
                invariant
                    i <= p@.len(),
                    out@ == seq![1u8] + p@.subrange(0, i as int),
                decreases p@.len() - i,
            {
                out.push(p[i]);
                i = i + 1;
                proof {
                    assert(out@ =~= seq![1u8] + p@.subrange(0, i as int));
                }
            }
            proof {
                assert(p@.subrange(0, p@.len() as int) =~= p@);
            }
            out
        },
    }
}

/// Reads a response envelope back out of wire bytes; bytes that encode no
/// response are rejected as a serialization error.
pub fn decode_response(b: &Vec<u8>) -> (r: Result<Response<Vec<u8>>, RpcError>)
    ensures
        match r {
            Ok(resp) => spec_decode_response(b@) == Some(response_view(resp)),
            Err(e) => spec_decode_response(b@) is None && e == RpcError::SerializationError,
        },
{
    if b.len() == 0 {
        return Err(RpcError::SerializationError);
    }
    let tag = b[0];
    if tag == 1 {
        let mut p: Vec<u8> = Vec::new();
        let mut i: usize = 1;
        while i < b.len()
            invariant
                1 <= i <= b@.len(),
                p@ == b@.subrange(1, i as int),
            decreases b@.len() - i,
        {
            p.push(b[i]);
            i = i + 1;
            proof {
                assert(p@ =~= b@.subrange(1, i as int));
            }
        }
        proof {
            assert(b@.subrange(1, b@.len() as int) =~= b@.skip(1));
        }
        Ok(Response::Custom(p))
    } else if tag == 0 && b.len() == 1 {
        Ok(Response::Awk)
    } else {
        Err(RpcError::SerializationError)
    }
}

/// Builds the whole frame that carries a command envelope: length prefix,
/// tag byte, payload.
pub fn encode_command_frame(c: &Message<Vec<u8>>) -> (r: Vec<u8>)
    ensures
        r@ == spec_frame(spec_encode_command(command_view(*c))),
{
    let body = encode_command(c);
    encode_frame(&body)
}

/// The checked unwrap a client applies to the response of a user request: a
/// `Custom` response yields its payload, and an acknowledgement where a
/// payload was expected is a protocol violation, never silently coerced.
pub fn expect_custom<M>(r: Response<M>) -> (out: Result<M, RpcError>)
    ensures
        r is Custom ==> out == Ok::<M, RpcError>(r->Custom_0),
        r is Awk ==> out == Err::<M, RpcError>(RpcError::ProtocolViolation),
{
    match r {
        Response::Awk => Err(RpcError::ProtocolViolation),
        Response::Custom(m) => Ok(m),
    }
}

/// The capability set a user-owned actor state machine implements. The
/// hosting loop drives `step` once per polling iteration, dispatches each
/// inbound command envelope to the matching capability, and calls `stop`
/// exactly once after the loop exits.
pub trait ActorServer<Req, Res>: Sized {
    /// One slice of the actor's own background work, run every iteration
    /// whether or not traffic arrived.
    fn step(&mut self) -> Result<(), RuntimeError>;

    /// Terminal teardown; consumes the actor.
    fn stop(self) -> Result<(), RuntimeError>;

    fn pause(&mut self) -> Result<(), RuntimeError>;

    fn resume(&mut self) -> Result<(), RuntimeError>;

    fn hibernate(&mut self) -> Result<(), RuntimeError>;

    fn wake_up(&mut self) -> Result<(), RuntimeError>;

    /// Services one user request.
    fn request(&mut self, message: Req) -> Result<Res, RuntimeError>;
}

/// Turns a lifecycle capability's outcome into the envelope the server
/// answers with: success is acknowledged with `Awk`, and a failure is passed
/// through unchanged.
pub fn lifecycle_response<Res>(outcome: Result<(), RuntimeError>) -> (r: Result<
    Response<Res>,
    RuntimeError,
>)
    ensures
        outcome is Ok ==> r is Ok && r->Ok_0 is Awk,
        outcome is Err ==> r is Err && r->Err_0 == outcome->Err_0,
{
    match outcome {
        Ok(()) => Ok(Response::Awk),
        Err(e) => Err(e),
    }
}

/// Turns the `request` capability's outcome into the envelope the server
/// answers with: an answer travels back wrapped in `Custom`, and a failure
/// is passed through unchanged.
pub fn custom_response<Res>(outcome: Result<Res, RuntimeError>) -> (r: Result<
    Response<Res>,
    RuntimeError,
>)
    ensures
        outcome is Ok ==> r is Ok && r->Ok_0 == Response::Custom(outcome->Ok_0),
        outcome is Err ==> r is Err && r->Err_0 == outcome->Err_0,
{
    match outcome {
        Ok(res) => Ok(Response::Custom(res)),
        Err(e) => Err(e),
    }
}

/// Dispatches one inbound command envelope to the matching capability of the
/// hosted actor. `Stop` invokes no capability: it clears the liveness flag,
/// which the policy check observes at the end of the iteration, and is
/// acknowledged at once. Every other command leaves the flag alone;
/// lifecycle commands are acknowledged with `Awk` and a user request is
/// answered with a `Custom` envelope. A capability failure is surfaced to
/// the caller, never swallowed.
pub fn dispatch<Req, Res, A: ActorServer<Req, Res>>(
    actor: &mut A,
    alive: &mut bool,
    command: Message<Req>,
) -> (r: Result<Response<Res>, RuntimeError>)
    ensures
        command is Stop ==> !*final(alive) && r is Ok && r->Ok_0 is Awk,
        !(command is Stop) ==> *final(alive) == *old(alive),
        command is Pause || command is Resume || command is Hibernate || command is WakeUp ==> (r
            is Ok ==> r->Ok_0 is Awk),
        command is Custom ==> (r is Ok ==> r->Ok_0 is Custom),
{
    match command {
        Message::Stop => {
            *alive = false;
            Ok(Response::Awk)
        },
        Message::Pause => lifecycle_response(actor.pause()),
        Message::Resume => lifecycle_response(actor.resume()),
        Message::Hibernate => lifecycle_response(actor.hibernate()),
        Message::WakeUp => lifecycle_response(actor.wake_up()),
        Message::Custom(m) => custom_response(actor.request(m)),
    }
}

/// The per-iteration policy check of the hosted actor loop: run one step of
/// the actor's background work, then yield while the liveness flag still
/// stands and stop once it has been cleared. A failing step is surfaced to
/// the caller.
pub fn actor_policy<Req, Res, A: ActorServer<Req, Res>>(actor: &mut A, alive: &bool) -> (p: Result<
    PostServing,
    RuntimeError,
>)
    ensures
        p is Ok ==> (if *alive {
            p->Ok_0 is Yield
        } else {
            p->Ok_0 is Stop
        }),
{
    match actor.step() {
        Ok(()) => if *alive {
            Ok(PostServing::Yield)
        } else {
            Ok(PostServing::Stop)
        },
        Err(e) => Err(e),
    }
}

} // verus!
