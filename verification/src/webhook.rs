//! The webhook transport: what it is configured with, the address it
//! registers, the route it serves, and its answer to each request.
//!
//! Every request handler may hold a sender of the update queue, so many
//! requests enqueue at once; the queue is unbounded, so a handler never
//! waits for the consumer, and the queue grows for as long as the consumer
//! lags behind.

use tokio::sync::mpsc::error::SendError;
use tokio::sync::mpsc::UnboundedSender;
use url::ParseError;
use vstd::prelude::*;
use vstd::string::StrSliceExecFns;
use vstd::string::StringExecFns;

verus! {

/// The error of the `url` crate's parser, carried as it comes.
#[verifier::external_type_specification]
#[verifier::external_body]
pub struct ExParseError(ParseError);

/// The sending half of `tokio`'s unbounded channel.
#[verifier::external_type_specification]
#[verifier::external_body]
#[verifier::reject_recursive_types(T)]
pub struct ExUnboundedSender<T>(UnboundedSender<T>);

/// The error in which `tokio`'s channel hands back a value it could not take:
/// its one field is that value.
#[verifier::external_type_specification]
#[verifier::reject_recursive_types(T)]
pub struct ExSendError<T>(SendError<T>);

/// The text that `url::Url::parse` makes of `input`: the serialization of
/// the URL it reads, or `None` where it reports an error.
pub uninterp spec fn parsed_url(input: Seq<char>) -> Option<Seq<char>>;

/// The text of the URL that `url::Url::join` resolves `reference` to against
/// the URL that `base` is parsed to: `None` where either step reports an error.
pub uninterp spec fn joined_url(base: Seq<char>, reference: Seq<char>) -> Option<Seq<char>>;

/// Calls `url::Url::parse`. The contract only names the outcome: the same
/// input always gives the same serialization or the same failure. Nothing is
/// claimed of what the serialization looks like.
#[verifier::external_body]
pub(crate) fn parse_url(input: &str) -> (out: Result<String, ParseError>)
    ensures
        match out {
            Ok(text) => parsed_url(input@) == Some(text@),
            Err(_) => parsed_url(input@) is None,
        },
{
    match url::Url::parse(input) {
        Ok(parsed) => Ok(String::from(parsed)),
        Err(e) => Err(e),
    }
}

/// Calls `url::Url::join` on the URL that `base` is parsed to. The contract
/// only names the outcome, as a function of the two texts; the resolution
/// itself is the `url` crate's and nothing is claimed of it.
#[verifier::external_body]
fn join_url(base: &str, reference: &str) -> (out: Result<String, ParseError>)
    ensures
        match out {
            Ok(text) => joined_url(base@, reference@) == Some(text@),
            Err(_) => joined_url(base@, reference@) is None,
        },
{
    match url::Url::parse(base) {
        Ok(parsed) => match parsed.join(reference) {
            Ok(joined) => Ok(String::from(joined)),
            Err(e) => Err(e),
        },
        Err(e) => Err(e),
    }
}

/// `UnboundedSender::send` hands the message to the channel, or hands it back
/// in an error when the receiving half is closed or gone. Which of the two
/// happens depends on the receiver, so the contract states only that an error
/// holds the message that was passed.
pub assume_specification<T>[ UnboundedSender::<T>::send ](
    sender: &UnboundedSender<T>,
    message: T,
) -> (out: Result<(), SendError<T>>)
    ensures
        out matches Err(refused) ==> refused.0 == message,
;

/// Status of a request that was served.
pub const OK: u16 = 200;

/// Status of a request whose body is no update.
pub const BAD_REQUEST: u16 = 400;

/// Status of a request whose update nobody is left to receive.
pub const SERVICE_UNAVAILABLE: u16 = 503;

/// A socket address to listen on, as plain numbers.
#[derive(Clone, Copy, Debug, PartialEq, Eq)]
pub enum BindAddr {
    /// An IPv4 address and a port.
    V4 {
        /// The four octets of the address, first to last.
        octets: [u8; 4],
        /// The port.
        port: u16,
    },
    /// An IPv6 address and a port.
    V6 {
        /// The eight 16-bit segments of the address, first to last.
        segments: [u16; 8],
        /// The port.
        port: u16,
        /// The flow label and traffic class.
        flowinfo: u32,
        /// The scope of the address.
        scope_id: u32,
    },
}

/// HTTP config for receiving updates via webhook.
pub struct HTTPConfig {
    /// Base URL for the callback, as text.
    pub base_url: String,
    /// Path for the callback; a leading slash is optional.
    pub path: String,
    /// Address to listen for updates.
    pub addr: BindAddr,
}

/// What an [`HTTPConfig`] holds, as mathematical values.
pub ghost struct ConfigView {
    /// The text of the base URL.
    pub base_url: Seq<char>,
    /// The path.
    pub path: Seq<char>,
    /// The address to listen on.
    pub addr: BindAddr,
}

impl View for HTTPConfig {
    type V = ConfigView;

    open spec fn view(&self) -> ConfigView {
        ConfigView { base_url: self.base_url@, path: self.path@, addr: self.addr }
    }
}

/// `path` without the slashes it starts with.
pub open spec fn without_leading_slashes(path: Seq<char>) -> Seq<char>
    decreases path.len(),
{
    if path.len() > 0 && path[0] == '/' {
        without_leading_slashes(path.skip(1))
    } else {
        path
    }
}

/// The route under which updates are accepted for a configured `path`: one
/// slash, then the path without the slashes it starts with.
pub open spec fn route_of(path: Seq<char>) -> Seq<char> {
    seq!['/'] + without_leading_slashes(path)
}

/// A path's leading slash is optional: with one more slash in front the
/// route is the same.
pub proof fn lemma_route_leading_slash_optional(path: Seq<char>)
    ensures
        route_of(seq!['/'] + path) == route_of(path),
{
    let slashed = seq!['/'] + path;
    assert(slashed.skip(1) == path);
}

/// A route starts with exactly one slash, and is at most one character longer
/// than the path it was made of.
pub proof fn lemma_route_shape(path: Seq<char>)
    ensures
        route_of(path).len() >= 1,
        route_of(path)[0] == '/',
        route_of(path).len() >= 2 ==> route_of(path)[1] != '/',
        route_of(path).len() <= path.len() + 1,
{
    lemma_without_leading_slashes(path);
}

/// What is left of a path without its leading slashes is its tail from some
/// point on, before which the path holds slashes only, and starts with no slash.
pub proof fn lemma_without_leading_slashes(path: Seq<char>)
    ensures
        without_leading_slashes(path).len() <= path.len(),
        without_leading_slashes(path) == path.skip(path.len() - without_leading_slashes(path).len()),
        forall|i: int|
            0 <= i < path.len() - without_leading_slashes(path).len() ==> path[i] == '/',
        without_leading_slashes(path).len() > 0 ==> without_leading_slashes(path)[0] != '/',
    decreases path.len(),
{
    if path.len() > 0 && path[0] == '/' {
        let tail = path.skip(1);
        lemma_without_leading_slashes(tail);
        let rest = without_leading_slashes(tail);
        assert(tail.skip(tail.len() - rest.len()) == path.skip(path.len() - rest.len()));
        assert forall|i: int| 0 <= i < path.len() - rest.len() implies path[i] == '/' by {
            if i > 0 {
                assert(path[i] == tail[i - 1]);
            }
        }
    } else {
        assert(path.skip(0) == path);
    }
}

/// Making a route of a route changes nothing.
pub proof fn lemma_route_idempotent(path: Seq<char>)
    ensures
        route_of(route_of(path)) == route_of(path),
{
    lemma_without_leading_slashes(path);
    let rest = without_leading_slashes(path);
    let route = route_of(path);
    assert(route.skip(1) == rest);
    assert(without_leading_slashes(route) == without_leading_slashes(rest));
    assert(without_leading_slashes(rest) == rest);
}

impl HTTPConfig {
    /// Whether the base URL joined with the path is a URL at all: the
    /// condition under which the configuration can be served.
    pub open spec fn wf(&self) -> bool {
        joined_url(self.base_url@, self.path@) is Some
    }

    /// The URL to register as the callback: the base URL joined with the
    /// path. `None` exactly where the two do not join to a URL.
    pub fn full_url(&self) -> (out: Option<String>)
        ensures
            out is Some <==> self.wf(),
            out matches Some(text) ==> joined_url(self.base_url@, self.path@) == Some(text@),
    {
        match join_url(self.base_url.as_str(), self.path.as_str()) {
            Ok(text) => Some(text),
            Err(_) => None,
        }
    }

    /// The route under which the server accepts updates.
    pub fn route(&self) -> (out: String)
        ensures
            out@ == route_of(self.path@),
    {
        let path = self.path.as_str();
        let len = path.unicode_len();
        let mut start: usize = 0;
        proof {
            assert(path@.skip(0) == path@);
        }
        while start < len && path.get_char(start) == '/'
            invariant
                start <= len,
                len == path@.len(),
                without_leading_slashes(path@) == without_leading_slashes(path@.skip(start as int)),
            decreases len - start,
        {
            proof {
                let rest = path@.skip(start as int);
                assert(rest.skip(1) == path@.skip(start + 1));
            }
            start += 1;
        }
        let rest = path.substring_char(start, len);
        proof {
            reveal_strlit("/");
            assert("/"@ == seq!['/']);
            assert(rest@ == path@.skip(start as int));
        }
        let mut out = String::from_str("/");
        out.append(rest);
        out
    }
}

/// The route of the liveness check.
pub fn health_route() -> (out: &'static str)
    ensures
        out@ == "/health-check"@,
{
    "/health-check"
}

/// The answer to a liveness check. It takes nothing, so no state of the
/// queue or of the server can change it.
pub fn health_check() -> (status: u16)
    ensures
        status == OK,
{
    OK
}

/// The answer to a request whose update was handed to the queue: success
/// where the queue took it, an error where no consumer is left.
pub fn status_after_send(taken: bool) -> (status: u16)
    ensures
        status == if taken { OK } else { SERVICE_UNAVAILABLE },
{
    if taken {
        OK
    } else {
        SERVICE_UNAVAILABLE
    }
}

/// Serves one request to the update route. A body that is no update (`None`)
/// is answered with a client error and nothing is sent. An update is sent to
/// the queue as a success value, once; whether the queue took it depends on
/// the consumer, and [`status_after_send`] says what is answered either way.
pub fn receive<U, E>(queue: &UnboundedSender<Result<U, E>>, body: Option<U>) -> (status: u16)
    ensures
        body is None ==> status == BAD_REQUEST,
        body is Some ==> status == OK || status == SERVICE_UNAVAILABLE,
{
    match body {
        None => BAD_REQUEST,
        Some(update) => {
            let sent = queue.send(Ok(update));
            status_after_send(sent.is_ok())
        },
    }
}

/// What a webhook listener keeps: the stream of updates and the handle that
/// stops the server.
pub struct State<S, T> {
    stream: S,
    stop_tx: T,
}

impl<S, T> State<S, T> {
    /// Puts a stream and a stop handle together.
    pub fn new(stream: S, stop_tx: T) -> (out: Self)
        ensures
            out.stream() == stream,
            out.stop_handle() == stop_tx,
    {
        State { stream, stop_tx }
    }

    /// The stream of updates.
    pub closed spec fn stream(self) -> S {
        self.stream
    }

    /// The handle that stops the server.
    pub closed spec fn stop_handle(self) -> T {
        self.stop_tx
    }

    /// Lends the stream. The stop handle stays as it is, and the stream is
    /// afterwards what the borrower left.
    pub fn stream_mut(&mut self) -> (out: &mut S)
        ensures
            *out == old(self).stream(),
            final(self).stream() == *final(out),
            final(self).stop_handle() == old(self).stop_handle(),
    {
        &mut self.stream
    }
}

impl<S, T: Clone> State<S, T> {
    /// A copy of the stop handle. The state is left unchanged.
    pub fn stop_tx(&mut self) -> (out: T)
        ensures
            cloned(old(self).stop_handle(), out),
            *final(self) == *old(self),
    {
        self.stop_tx.clone()
    }
}

} // verus!
