//! Sending an HL7 clinical message: how the command's texts are read into
//! a request.
use vstd::prelude::*;
use vstd::string::StringExecFns;
use crate::gateway::{parse_port, parsed_port};
use crate::text::{join, same_text};

verus! {

/// How an HL7 message travels.
#[derive(Debug, Clone, Copy, PartialEq, Eq, Structural)]
pub enum SendMethod {
    Tcp,
    Http,
}

/// One HL7 message on its way to a server.
#[derive(Debug, Clone, PartialEq, Eq)]
pub struct Hl7Request {
    pub message: String,
    pub server_address: String,
    pub port: u16,
    pub method: SendMethod,
}

/// The transport that a label names: `HTTP` names HTTP, every other label
/// TCP.
pub open spec fn method_of(label: Seq<char>) -> SendMethod {
    if label == "HTTP"@ {
        SendMethod::Http
    } else {
        SendMethod::Tcp
    }
}

/// Reads a transport label.
pub fn send_method(label: &str) -> (method: SendMethod)
    ensures
        method == method_of(label@),
{
    if same_text(label, "HTTP") {
        SendMethod::Http
    } else {
        SendMethod::Tcp
    }
}

/// `request` is the request for the given texts on `port`.
pub open spec fn requests(
    request: Hl7Request,
    message: Seq<char>,
    server_address: Seq<char>,
    port: u16,
    method: Seq<char>,
) -> bool {
    &&& request.message@ == message
    &&& request.server_address@ == server_address
    &&& request.port == port
    &&& request.method == method_of(method)
}

/// Builds the request for a message from a port that was already read. A
/// port text that denotes no port is refused, and named in the refusal.
pub fn hl7_request(
    message: &str,
    server_address: &str,
    port_text: &str,
    port: Option<u16>,
    method: &str,
) -> (outcome: Result<Hl7Request, String>)
    ensures
        match port {
            Some(number) => outcome is Ok && requests(
                outcome->Ok_0,
                message@,
                server_address@,
                number,
                method@,
            ),
            None => outcome is Err && outcome->Err_0@ == "Invalid port: "@ + port_text@,
        },
{
    match port {
        Some(number) => Ok(
            Hl7Request {
                message: String::from_str(message),
                server_address: String::from_str(server_address),
                port: number,
                method: send_method(method),
            },
        ),
        None => Err(join("Invalid port: ", port_text)),
    }
}

/// Reads the texts of a send command into a request.
pub fn send_hl7_message(message: &str, server_address: &str, port: &str, method: &str) -> (outcome:
    Result<Hl7Request, String>)
    ensures
        match parsed_port(port@) {
            Some(number) => outcome is Ok && requests(
                outcome->Ok_0,
                message@,
                server_address@,
                number,
                method@,
            ),
            None => outcome is Err && outcome->Err_0@ == "Invalid port: "@ + port@,
        },
{
    let number = parse_port(port);
    hl7_request(message, server_address, port, number, method)
}

} // verus!
