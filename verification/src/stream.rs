//! The stream abstraction and the per-connection unit of work.
//!
//! [`StreamAdapter`] is the capability interface over "read one request
//! line" and "write response bytes"; [`PayloadSource`] stands for the
//! external store of the two fixed pages; [`Delay`] stands for the clock.
//! Concrete implementations are a real transport in the server binary and
//! the verified in-memory doubles of [`crate::doubles`]. Each
//! implementation carries its own model (the `spec fn`s below), and
//! [`handle_stream`] is verified against those models alone, so its
//! contract holds for any conforming transport.

use crate::response::spec_response;
use crate::router::route;
use crate::router::spec_route;
use vstd::prelude::*;

verus! {

/// The kind of an I/O failure raised by a transport or a payload source.
/// Mirrors the taxonomy of the platform's I/O errors; kinds the library
/// does not need to tell apart arrive as `Other`.
#[derive(Clone, Copy, Debug, PartialEq, Eq, Structural)]
pub enum IoErrorKind {
    NotFound,
    PermissionDenied,
    ConnectionRefused,
    ConnectionReset,
    ConnectionAborted,
    BrokenPipe,
    InvalidData,
    TimedOut,
    WriteZero,
    Interrupted,
    UnexpectedEof,
    Other,
}

/// One bidirectional byte channel to a client, reduced to the two
/// capabilities the router needs: read the request line, write the
/// response bytes.
///
/// The model: `read_spec` is the line the transport will yield (or the
/// error kind it will raise), `write_spec` is the outcome it gives to a
/// write of the given bytes, and `writes` is the log of every byte
/// sequence successfully written so far.
pub trait StreamAdapter: Sized {
    /// The first line of incoming data, or an empty string if the stream
    /// ends without one, or the error kind the transport will raise.
    spec fn read_spec(&self) -> Result<Seq<char>, IoErrorKind>;

    /// The outcome the transport gives to a write of `bytes`. A write is
    /// all-or-nothing: either every byte is accepted or an error is raised.
    spec fn write_spec(&self, bytes: Seq<u8>) -> Result<(), IoErrorKind>;

    /// Every byte sequence successfully written so far, oldest first.
    spec fn writes(&self) -> Seq<Seq<u8>>;

    /// Reads the first line of the request. Reading writes nothing and
    /// leaves the write behaviour of the transport as it was.
    fn read_request(&mut self) -> (r: Result<String, IoErrorKind>)
        ensures
            (match r {
                Ok(line) => old(self).read_spec() == Ok::<Seq<char>, IoErrorKind>(line@),
                Err(kind) => old(self).read_spec() == Err::<Seq<char>, IoErrorKind>(kind),
            }),
            final(self).writes() == old(self).writes(),
            forall|bytes: Seq<u8>| #[trigger]
                final(self).write_spec(bytes) == old(self).write_spec(bytes),
    ;

    /// Writes all given bytes, or raises the transport's error kind
    /// without recording a write.
    fn write_response(&mut self, response: &[u8]) -> (r: Result<(), IoErrorKind>)
        ensures
            r == old(self).write_spec(response@),
            final(self).writes() == (if r is Ok {
                old(self).writes().push(response@)
            } else {
                old(self).writes()
            }),
    ;
}

/// The external store of the fixed pages, read fresh per request.
///
/// `load_spec` models it: for each payload name, the contents the store
/// yields, or the error kind it raises. The store is read-only, so loading
/// takes `&self` and is deterministic for one store value.
pub trait PayloadSource: Sized {
    /// The contents the source yields for the named payload, or the error
    /// kind it raises.
    spec fn load_spec(&self, name: Seq<char>) -> Result<Seq<u8>, IoErrorKind>;

    /// Loads the named payload's contents.
    fn load(&self, name: &str) -> (r: Result<Vec<u8>, IoErrorKind>)
        ensures
            (match r {
                Ok(contents) => self.load_spec(name@) == Ok::<Seq<u8>, IoErrorKind>(contents@),
                Err(kind) => self.load_spec(name@) == Err::<Seq<u8>, IoErrorKind>(kind),
            }),
    ;
}

/// The clock capability: suspend the current unit of work for a number of
/// seconds, without blocking any other unit of work.
///
/// `waited` is the log of every delay requested so far. How long a request
/// really takes is the implementation's affair; the library only pins down
/// which delays are requested, and when.
pub trait Delay: Sized {
    /// Every delay requested so far, in seconds, oldest first.
    spec fn waited(&self) -> Seq<u64>;

    /// Requests a delay of `secs` seconds.
    fn wait_secs(&mut self, secs: u64)
        ensures
            final(self).waited() == old(self).waited().push(secs),
    ;
}

/// The result of handling one connection on the given stream and payload
/// source: the first failure among read, load and write, in that order,
/// or success when all three succeed.
pub open spec fn spec_handle_outcome<S: StreamAdapter, P: PayloadSource>(stream: S, source: P) -> Result<
    (),
    IoErrorKind,
> {
    match stream.read_spec() {
        Err(kind) => Err(kind),
        Ok(request) => {
            let decision = spec_route(request);
            match source.load_spec(decision.spec_file_name()) {
                Err(kind) => Err(kind),
                Ok(body) => stream.write_spec(spec_response(decision.spec_status_line(), body)),
            }
        },
    }
}

/// The write log of the stream after handling one connection: exactly one
/// entry, the full wire response for the routed request, is appended when
/// read, load and write all succeed; nothing is appended otherwise.
pub open spec fn spec_handle_writes<S: StreamAdapter, P: PayloadSource>(stream: S, source: P) -> Seq<
    Seq<u8>,
> {
    match stream.read_spec() {
        Err(_) => stream.writes(),
        Ok(request) => {
            let decision = spec_route(request);
            match source.load_spec(decision.spec_file_name()) {
                Err(_) => stream.writes(),
                Ok(body) => {
                    let response = spec_response(decision.spec_status_line(), body);
                    if stream.write_spec(response) is Ok {
                        stream.writes().push(response)
                    } else {
                        stream.writes()
                    }
                },
            }
        },
    }
}

/// The delay log after handling one connection, given the log `waited`
/// before it: one five-second delay is requested when the request line was
/// read and routed to the delayed page; no delay is requested otherwise.
pub open spec fn spec_handle_waits<S: StreamAdapter>(stream: S, waited: Seq<u64>) -> Seq<u64> {
    match stream.read_spec() {
        Ok(request) => if spec_route(request) is DelayedHello {
            waited.push(5u64)
        } else {
            waited
        },
        Err(_) => waited,
    }
}

/// Handles one connection: reads the request line, routes it, requests the
/// route's delay, loads the route's payload, and writes the assembled
/// response.
///
/// The first failure aborts the work with that error kind: a read failure
/// before any delay, load or write; a load failure before any write. An
/// unrecognized or empty request line is not a failure — it is served the
/// not-found page.
pub fn handle_stream<S: StreamAdapter, P: PayloadSource, D: Delay>(
    stream: &mut S,
    source: &P,
    delay: &mut D,
) -> (r: Result<(), IoErrorKind>)
    ensures
        r == spec_handle_outcome(*old(stream), *source),
        final(stream).writes() == spec_handle_writes(*old(stream), *source),
        final(delay).waited() == spec_handle_waits(*old(stream), old(delay).waited()),
{
    let request = match stream.read_request() {
        Ok(line) => line,
        Err(kind) => {
            return Err(kind);
        },
    };
    let decision = route(request.as_str());
    let secs = decision.delay_secs();
    if secs > 0 {
        delay.wait_secs(secs);
    }
    let contents = match source.load(decision.file_name()) {
        Ok(contents) => contents,
        Err(kind) => {
            return Err(kind);
        },
    };
    let response = crate::response::build_response(decision.status_line(), contents.as_slice());
    stream.write_response(response.as_slice())
}

/// Law: the sleep route, and only the sleep route, requests one
/// five-second delay before its unit of work completes; every other
/// request line, and a failed read, requests none.
pub proof fn lemma_only_sleep_route_delays<S: StreamAdapter>(stream: S, waited: Seq<u64>)
    ensures
        (stream.read_spec() matches Ok(request) && spec_route(request) is DelayedHello)
            ==> spec_handle_waits(stream, waited) == waited.push(5u64),
        (stream.read_spec() matches Ok(request) && !(spec_route(request) is DelayedHello))
            ==> spec_handle_waits(stream, waited) == waited,
        stream.read_spec() is Err ==> spec_handle_waits(stream, waited) == waited,
{
}

/// Law: a read failure is the outcome of the whole unit of work, and it
/// prevents any write — the stream's write log stays as it was.
pub proof fn lemma_read_failure_prevents_write<S: StreamAdapter, P: PayloadSource>(
    stream: S,
    source: P,
    kind: IoErrorKind,
)
    requires
        stream.read_spec() == Err::<Seq<char>, IoErrorKind>(kind),
    ensures
        spec_handle_outcome(stream, source) == Err::<(), IoErrorKind>(kind),
        spec_handle_writes(stream, source) == stream.writes(),
{
}

/// Law: a load failure is the outcome of the whole unit of work, and it
/// prevents any write — the stream's write log stays as it was.
pub proof fn lemma_load_failure_prevents_write<S: StreamAdapter, P: PayloadSource>(
    stream: S,
    source: P,
    kind: IoErrorKind,
)
    requires
        stream.read_spec() is Ok,
        source.load_spec(spec_route(stream.read_spec()->Ok_0).spec_file_name()) == Err::<
            Seq<u8>,
            IoErrorKind,
        >(kind),
    ensures
        spec_handle_outcome(stream, source) == Err::<(), IoErrorKind>(kind),
        spec_handle_writes(stream, source) == stream.writes(),
{
}

/// Law: a write failure surfaces as the outcome of the whole unit of work
/// with the very error kind the transport raised.
pub proof fn lemma_write_failure_kind<S: StreamAdapter, P: PayloadSource>(
    stream: S,
    source: P,
    kind: IoErrorKind,
)
    requires
        stream.read_spec() is Ok,
        source.load_spec(spec_route(stream.read_spec()->Ok_0).spec_file_name()) is Ok,
        stream.write_spec(
            spec_response(
                spec_route(stream.read_spec()->Ok_0).spec_status_line(),
                source.load_spec(spec_route(stream.read_spec()->Ok_0).spec_file_name())->Ok_0,
            ),
        ) == Err::<(), IoErrorKind>(kind),
    ensures
        spec_handle_outcome(stream, source) == Err::<(), IoErrorKind>(kind),
        spec_handle_writes(stream, source) == stream.writes(),
{
}

/// Law: when read, load and write all succeed, the unit of work succeeds
/// and exactly one entry — the full wire response for the routed request —
/// is appended to the stream's write log.
pub proof fn lemma_success_writes_one_response<S: StreamAdapter, P: PayloadSource>(
    stream: S,
    source: P,
    request: Seq<char>,
    body: Seq<u8>,
)
    requires
        stream.read_spec() == Ok::<Seq<char>, IoErrorKind>(request),
        source.load_spec(spec_route(request).spec_file_name()) == Ok::<Seq<u8>, IoErrorKind>(body),
        stream.write_spec(spec_response(spec_route(request).spec_status_line(), body)) is Ok,
    ensures
        spec_handle_outcome(stream, source) is Ok,
        spec_handle_writes(stream, source) == stream.writes().push(
            spec_response(spec_route(request).spec_status_line(), body),
        ),
{
}

} // verus!
