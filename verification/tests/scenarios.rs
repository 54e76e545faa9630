//! End-to-end exchanges simulated over the verified core: the bytes a client
//! endpoint writes are fed, frame by frame, to a server endpoint's receive
//! state machine; the handler's answer travels back the same way. Payloads
//! are real bincode encodings, as the embedding application produces them. A
//! request is `(0, name)` for a greeting and `(1, name)` for a farewell; a
//! response is a plain string.

use simple_socket::{
    close_frame, decode_command, decode_len, decode_response, dispatch, encode_command_frame,
    encode_frame, encode_response, expect_custom, ActorServer, Message, Response, RuntimeError,
    ServerCore, SocketStatus,
};

const HELLO: u8 = 0;
const GOODBYE: u8 = 1;

fn handler(request: &[u8]) -> Vec<u8> {
    let (tag, name): (u8, String) = bincode::deserialize(request).unwrap();
    let reply = match tag {
        HELLO => format!("Hello, {}!", name),
        GOODBYE => format!("Goodbye, {}!", name),
        _ => panic!("unknown request tag"),
    };
    bincode::serialize(&reply).unwrap()
}

/// Carries one request frame from the client to the server core, services
/// it, and carries the response frame back; returns the decoded response.
fn exchange(core: &mut ServerCore, conn: usize, request_payload: &Vec<u8>) -> String {
    // Client side: one frame on the wire.
    let wire = encode_frame(request_payload);

    // Server side: the non-blocking read path consumes the prefix, then the
    // payload, across two polling iterations.
    let header: Vec<u8> = wire[..8].to_vec();
    let st = core.start_frame_at(conn, &header);
    assert!(matches!(st, SocketStatus::Alive));
    let body: Vec<u8> = wire[8..].to_vec();
    assert!(core.accept_chunk_at(conn, &body));
    let payload = core.take_payload_at(conn);
    assert_eq!(&payload, request_payload);

    // The handler runs exactly once, and its answer is framed and written
    // back.
    let response_payload = handler(&payload);
    let response_wire = encode_frame(&response_payload);

    // Client side: blocking read of exactly one response frame.
    let response_header: Vec<u8> = response_wire[..8].to_vec();
    let n = decode_len(&response_header) as usize;
    assert_eq!(n, response_payload.len());
    let received: Vec<u8> = response_wire[8..8 + n].to_vec();
    bincode::deserialize(&received).unwrap()
}

#[test]
fn hello_receives_exactly_the_handler_answer() {
    let mut core = ServerCore::new();
    core.add_connection();

    let request = bincode::serialize(&(HELLO, String::from("foo"))).unwrap();
    let response = exchange(&mut core, 0, &request);
    assert_eq!(response, "Hello, foo!");
}

#[test]
fn goodbye_on_the_same_connection_follows_hello() {
    let mut core = ServerCore::new();
    core.add_connection();

    let request = bincode::serialize(&(HELLO, String::from("foo"))).unwrap();
    let response = exchange(&mut core, 0, &request);
    assert_eq!(response, "Hello, foo!");

    // The same connection's buffer is reused for the second request.
    let request = bincode::serialize(&(GOODBYE, String::from("foo"))).unwrap();
    let response = exchange(&mut core, 0, &request);
    assert_eq!(response, "Goodbye, foo!");
}

#[test]
fn dropped_client_is_pruned_on_the_next_iteration() {
    let mut core = ServerCore::new();
    core.add_connection();
    core.add_connection();

    let request = bincode::serialize(&(HELLO, String::from("foo"))).unwrap();
    let response = exchange(&mut core, 1, &request);
    assert_eq!(response, "Hello, foo!");

    // Dropping the client sends the close signal; on its next iteration the
    // server observes Closed for that connection and removes it, and exactly
    // it, with no error surfaced.
    let before = core.num_connections();
    let st = core.start_frame_at(1, &close_frame());
    assert!(matches!(st, SocketStatus::Closed));
    core.remove_connection(1);
    assert_eq!(core.num_connections(), before - 1);
    assert!(core.has_connections());
}

struct UpperActor;

impl ActorServer<String, String> for UpperActor {
    fn step(&mut self) -> Result<(), RuntimeError> {
        Ok(())
    }
    fn stop(self) -> Result<(), RuntimeError> {
        Ok(())
    }
    fn pause(&mut self) -> Result<(), RuntimeError> {
        Ok(())
    }
    fn resume(&mut self) -> Result<(), RuntimeError> {
        Ok(())
    }
    fn hibernate(&mut self) -> Result<(), RuntimeError> {
        Ok(())
    }
    fn wake_up(&mut self) -> Result<(), RuntimeError> {
        Ok(())
    }
    fn request(&mut self, message: String) -> Result<String, RuntimeError> {
        Ok(message.to_uppercase())
    }
}

#[test]
fn actor_request_round_trips_over_the_wire() {
    // The client wraps a user request in a command envelope and frames it.
    let user_request = bincode::serialize(&String::from("quiet")).unwrap();
    let wire = encode_command_frame(&Message::Custom(user_request));

    // The hosting server unwraps the frame, decodes the envelope, and
    // dispatches to the actor's capability.
    let mut core = ServerCore::new();
    core.add_connection();
    let st = core.start_frame_at(0, &wire[..8].to_vec());
    assert!(matches!(st, SocketStatus::Alive));
    assert!(core.accept_chunk_at(0, &wire[8..].to_vec()));
    let envelope = decode_command(&core.take_payload_at(0)).unwrap();
    let command = match envelope {
        Message::Custom(body) => {
            Message::Custom(bincode::deserialize::<String>(&body).unwrap())
        }
        Message::Stop => Message::Stop,
        Message::Pause => Message::Pause,
        Message::Resume => Message::Resume,
        Message::Hibernate => Message::Hibernate,
        Message::WakeUp => Message::WakeUp,
    };
    let mut actor = UpperActor;
    let mut alive = true;
    let response = dispatch(&mut actor, &mut alive, command).unwrap();
    let response: Response<Vec<u8>> = match response {
        Response::Awk => Response::Awk,
        Response::Custom(value) => Response::Custom(bincode::serialize(&value).unwrap()),
    };
    let response_wire = encode_frame(&encode_response(&response));

    // The client reads one response frame back, expects a user payload, and
    // recovers exactly the capability's answer.
    let n = decode_len(&response_wire[..8].to_vec()) as usize;
    let body: Vec<u8> = response_wire[8..8 + n].to_vec();
    let envelope = decode_response(&body).unwrap();
    let payload = expect_custom(envelope).unwrap();
    let answer: String = bincode::deserialize(&payload).unwrap();
    assert_eq!(answer, "QUIET");
    assert!(alive);
}

#[test]
fn a_frame_arriving_byte_by_byte_is_one_request() {
    let mut core = ServerCore::new();
    core.add_connection();

    let request = bincode::serialize(&(HELLO, String::from("w"))).unwrap();
    let wire = encode_frame(&request);
    let st = core.start_frame_at(0, &wire[..8].to_vec());
    assert!(matches!(st, SocketStatus::Alive));

    // The stream trickles one byte per polling iteration.
    let mut complete = false;
    for i in 8..wire.len() {
        assert!(!complete);
        complete = core.accept_chunk_at(0, &wire[i..i + 1].to_vec());
    }
    assert!(complete);
    assert_eq!(core.take_payload_at(0), request);
}
