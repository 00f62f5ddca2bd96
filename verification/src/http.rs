//! Requests over HTTP: one request on a connection, one answer.

use vstd::prelude::*;

use crate::ident::fresh_id;
use crate::jsonrpc::{parse_jsonrpc, refusal_text, Parsed};
use crate::message::{reply_text, RpcMessage, RpcMessageView};
use crate::peer::{real_peer, PeerId};
use crate::text::{lossy_text, name_is, parse_length, utf8_text, copy_bytes, Header, HeaderView};
#[allow(unused_imports)]
use crate::jsonrpc::{jsonrpc_parsed, refusal};
#[allow(unused_imports)]
use crate::message::carried_text;
#[allow(unused_imports)]
use crate::peer::{acting_peer, no_peer, peer_of_hex};
#[allow(unused_imports)]
use crate::text::{header_views, is_named, length_of, text_of, utf8};

verus! {

/// How many bytes one read of a connection asks for.
pub const READ_SIZE: usize = 1024;

/// How many header lines a request may have.
pub const MAX_HEADERS: u16 = 16;

/// What stands before the JSON text in every answer.
pub const RESPONSE_HEAD: &'static str =
    "HTTP/1.1 200 OK\r\nAccess-Control-Allow-Origin:*\r\nCross-Origin-Resource-Policy:cross-origin\r\nContent-Type:application/json;charset=UTF-8\r\n\r\n";

/// The page that is served at the root: the contents of the index file, where one is set
/// and can be read.
pub fn homepage<E>(index: Option<Result<String, E>>) -> (r: String)
    ensures
        match index {
            Some(Ok(page)) => r == page,
            Some(Err(_)) => r@ == "Error Homepage."@,
            None => r@ == "No Homepage."@,
        },
{
    match index {
        Some(Ok(page)) => page,
        Some(Err(_)) => "Error Homepage.".to_owned(),
        None => "No Homepage.".to_owned(),
    }
}

/// What was read of the head of a request: where the body starts, once the head is
/// complete, and the header lines. Until then the lines that are still missing are empty.
#[derive(Debug)]
pub struct Head {
    pub end: Option<usize>,
    pub headers: Vec<Header>,
}

impl View for Head {
    type V = (Option<usize>, Seq<HeaderView>);

    open spec fn view(&self) -> (Option<usize>, Seq<HeaderView>) {
        (self.end, header_views(self.headers@))
    }
}

/// What `httparse` makes of the start of a request, with room for `max_headers` header
/// lines: nothing where it is malformed, else where the body starts and the header lines.
pub uninterp spec fn request_head(src: Seq<u8>, max_headers: u16) -> Option<
    (Option<usize>, Seq<(Seq<u8>, Seq<u8>)>),
>;

/// Calls `httparse::Request::parse` on a request with `max_headers` empty header slots.
/// Trusted: the result depends on the bytes and the number of slots alone, and the offset
/// at which a complete head ends lies within the bytes. What the head of given bytes is, is
/// not stated.
#[verifier::external_body]
fn read_head(src: &[u8], max_headers: u16) -> (r: Option<Head>)
    ensures
        r is Some <==> request_head(src@, max_headers) is Some,
        r matches Some(head) ==> head@ == request_head(src@, max_headers)->0,
        r matches Some(head) ==> (head.end matches Some(end) ==> end <= src@.len()),
{
    let mut slots = vec![httparse::EMPTY_HEADER; max_headers as usize];
    let mut req = httparse::Request::new(&mut slots);
    let end = match req.parse(src) {
        Ok(httparse::Status::Complete(end)) => Some(end),
        Ok(httparse::Status::Partial) => None,
        Err(_) => return None,
    };
    let headers = req.headers.iter().map(
        |h| Header { name: h.name.as_bytes().to_vec(), value: h.value.to_vec() },
    ).collect();
    Some(Head { end, headers })
}

/// A request that came in: with its whole body, or with part of the body missing.
#[derive(Debug)]
pub enum HTTP {
    /// Where the body starts, and the header lines.
    Complete(usize, Vec<Header>),
    /// Where the body starts, and how long it is.
    NeedMore(usize, usize),
}

/// [`HTTP`] as mathematical values.
pub enum HttpView {
    Complete(usize, Seq<HeaderView>),
    NeedMore(usize, usize),
}

impl View for HTTP {
    type V = HttpView;

    open spec fn view(&self) -> HttpView {
        match self {
            HTTP::Complete(amt, headers) => HttpView::Complete(*amt, header_views(headers@)),
            HTTP::NeedMore(amt, len) => HttpView::NeedMore(*amt, *len),
        }
    }
}

/// A request that came in, or the reason for refusing it, as mathematical values.
pub open spec fn request_view(r: Result<HTTP, &'static str>) -> Result<HttpView, Seq<char>> {
    match r {
        Ok(request) => Ok(request@),
        Err(reason) => Err(reason@),
    }
}

/// The value of the first header line of this name.
pub open spec fn first_named(headers: Seq<HeaderView>, wanted: Seq<char>) -> Option<Seq<u8>>
    decreases headers.len(),
{
    if headers.len() == 0 {
        None
    } else if is_named(headers[0].0, wanted) {
        Some(headers[0].1)
    } else {
        first_named(headers.drop_first(), wanted)
    }
}

/// What a request amounts to of which `head` was read, in `len` bytes: the first line named
/// `content-length` says how much must follow the head.
pub open spec fn request_of(
    head: Option<(Option<usize>, Seq<HeaderView>)>,
    len: int,
) -> Result<HttpView, Seq<char>> {
    match head {
        None => Err("HTTP parse error"@),
        Some((end, headers)) => match first_named(headers, "content-length"@) {
            None => Err("HTTP header is invalid"@),
            Some(value) => match (length_of(value), end) {
                (None, _) => Err("HTTP length is invalid"@),
                (Some(_), None) => Err("HTTP parse error"@),
                (Some(need), Some(amt)) => if len - amt >= need {
                    Ok(HttpView::Complete(amt, headers))
                } else {
                    Ok(HttpView::NeedMore(amt, need))
                },
            },
        },
    }
}

/// Looks up the value of the first header line of a name.
fn find_first<'a>(headers: &'a Vec<Header>, wanted: &str) -> (r: Option<&'a Vec<u8>>)
    requires
        vstd::utf8::is_ascii_chars(wanted@),
    ensures
        r is Some <==> first_named(header_views(headers@), wanted@) is Some,
        r matches Some(value) ==> value@ == first_named(header_views(headers@), wanted@)->0,
{
    let ghost views = header_views(headers@);
    let mut i: usize = 0;
    assert(views.skip(0) =~= views);
    while i < headers.len()
        invariant
            i <= headers@.len(),
            vstd::utf8::is_ascii_chars(wanted@),
            views == header_views(headers@),
            first_named(views, wanted@) == first_named(views.skip(i as int), wanted@),
        decreases headers@.len() - i,
    {
        assert(views.skip(i as int)[0] == headers@[i as int]@);
        assert(views.skip(i as int).drop_first() =~= views.skip(i + 1));
        if name_is(headers[i].name.as_slice(), wanted) {
            return Some(&headers[i].value);
        }
        i = i + 1;
    }
    None
}

/// Decides what a request amounts to of which `head` was read, in `len` bytes: its body is
/// complete, or part of it is missing, or the request is refused.
pub fn check_head(head: Option<Head>, len: usize) -> (r: Result<HTTP, &'static str>)
    requires
        head matches Some(h) ==> (h.end matches Some(end) ==> end <= len),
    ensures
        request_view(r) == request_of(
            match head {
                Some(h) => Some(h@),
                None => None,
            },
            len as int,
        ),
{
    let head = match head {
        Some(head) => head,
        None => return Err("HTTP parse error"),
    };
    proof {
        reveal_strlit("content-length");
    }
    let length: usize = match find_first(&head.headers, "content-length") {
        None => return Err("HTTP header is invalid"),
        Some(value) => match parse_length(value.as_slice()) {
            None => return Err("HTTP length is invalid"),
            Some(length) => length,
        },
    };
    match head.end {
        None => Err("HTTP parse error"),
        Some(amt) => if len - amt >= length {
            Ok(HTTP::Complete(amt, head.headers))
        } else {
            Ok(HTTP::NeedMore(amt, length))
        },
    }
}

/// Reads the head of a request out of the bytes that came first, with room for
/// `max_headers` header lines.
pub fn parse_req(src: &[u8], max_headers: u16) -> (r: Result<HTTP, &'static str>)
    ensures
        request_view(r) == request_of(request_head(src@, max_headers), src@.len() as int),
        r matches Ok(HTTP::Complete(amt, _)) ==> amt <= src@.len(),
        r matches Ok(HTTP::NeedMore(amt, _)) ==> amt <= src@.len(),
{
    let head = read_head(src, max_headers);
    check_head(head, src.len())
}

/// The peer that a header line carries: its value in hexadecimal, under the name `X-PEER`.
pub open spec fn line_peer(line: HeaderView) -> Option<Seq<u8>> {
    if is_named(line.0, "X-PEER"@) {
        match utf8(line.1) {
            Some(text) => peer_of_hex(text),
            None => None,
        }
    } else {
        None
    }
}

/// The peer that header lines carry: that of the last line which carries one.
pub open spec fn header_peer(headers: Seq<HeaderView>) -> Seq<u8>
    decreases headers.len(),
{
    if headers.len() == 0 {
        no_peer()
    } else {
        match line_peer(headers.last()) {
            Some(peer) => peer,
            None => header_peer(headers.drop_last()),
        }
    }
}

/// Reads the peer that a header line carries.
fn peer_of_line(line: &Header) -> (r: Option<PeerId>)
    ensures
        r is Some <==> line_peer(line@) is Some,
        r matches Some(peer) ==> peer@ == line_peer(line@)->0,
{
    proof {
        reveal_strlit("X-PEER");
    }
    if !name_is(line.name.as_slice(), "X-PEER") {
        return None;
    }
    match utf8_text(copy_bytes(line.value.as_slice())) {
        Some(text) => PeerId::from_hex(text.as_str()),
        None => None,
    }
}

/// Reads the peer that header lines carry.
pub fn peer_of_headers(headers: &Vec<Header>) -> (r: PeerId)
    ensures
        r@ == header_peer(header_views(headers@)),
{
    let ghost views = header_views(headers@);
    let mut peer = PeerId::default();
    let mut i: usize = 0;
    assert(views.take(0) =~= Seq::<HeaderView>::empty());
    while i < headers.len()
        invariant
            i <= headers@.len(),
            views == header_views(headers@),
            peer@ == header_peer(views.take(i as int)),
        decreases headers@.len() - i,
    {
        assert(views.take(i + 1).drop_last() =~= views.take(i as int));
        assert(views.take(i + 1).last() == headers@[i as int]@);
        if let Some(p) = peer_of_line(&headers[i]) {
            peer = p;
        }
        i = i + 1;
    }
    assert(views.take(i as int) =~= views);
    peer
}

/// How far a connection has come. `S` is the handle that takes the answer to its request.
#[derive(Debug)]
pub enum HttpStage<S> {
    /// Nothing was read yet.
    Head(S),
    /// The body was read in part: how long it is, and what came of it.
    Body(S, usize, Vec<u8>),
    /// An answer is awaited. The handle is still here where the request was refused, and
    /// no answer can come.
    Answer(Option<S>),
    /// The connection is at its end.
    Done,
}

/// [`HttpStage`] as mathematical values.
pub enum HttpStageView<S> {
    Head(S),
    Body(S, usize, Seq<u8>),
    Answer(Option<S>),
    Done,
}

impl<S> View for HttpStage<S> {
    type V = HttpStageView<S>;

    open spec fn view(&self) -> HttpStageView<S> {
        match *self {
            HttpStage::Head(sender) => HttpStageView::Head(sender),
            HttpStage::Body(sender, need, body) => HttpStageView::Body(sender, need, body@),
            HttpStage::Answer(sender) => HttpStageView::Answer(sender),
            HttpStage::Done => HttpStageView::Done,
        }
    }
}

/// A connection reads on only while part of the body is missing.
pub open spec fn is_sound<S>(stage: HttpStageView<S>) -> bool {
    stage matches HttpStageView::Body(_, need, body) ==> body.len() < need
}

/// What happens to a connection.
#[derive(Debug)]
pub enum HttpEvent<W, S> {
    /// These bytes were read; none at the end of the stream.
    Read(Vec<u8>),
    /// This message came for the request.
    Answered(RpcMessage<W, S>),
    /// No message will come for the request any more.
    Abandoned,
}

/// [`HttpEvent`] as mathematical values.
pub enum HttpEventView<W, S> {
    Read(Seq<u8>),
    Answered(RpcMessageView<W, S>),
    Abandoned,
}

impl<W, S> View for HttpEvent<W, S> {
    type V = HttpEventView<W, S>;

    open spec fn view(&self) -> HttpEventView<W, S> {
        match *self {
            HttpEvent::Read(bytes) => HttpEventView::Read(bytes@),
            HttpEvent::Answered(message) => HttpEventView::Answered(message@),
            HttpEvent::Abandoned => HttpEventView::Abandoned,
        }
    }
}

/// What a connection does next.
#[derive(Debug)]
pub enum HttpAction<W, S> {
    /// Read at most [`READ_SIZE`] bytes.
    Read,
    /// Pass this request on to the router, and wait for the answer.
    Forward(RpcMessage<W, S>),
    /// Write this text, end the stream, and wait on.
    Refuse(String),
    /// Write this text, end the stream, and stop.
    Finish(String),
    /// Wait for the answer.
    Wait,
    /// Stop, since what was read is no request, for this reason.
    Reject(&'static str),
    /// Stop.
    Stop,
}

/// [`HttpAction`] as mathematical values.
pub enum HttpActionView<W, S> {
    Read,
    Forward(RpcMessageView<W, S>),
    Refuse(Seq<char>),
    Finish(Seq<char>),
    Wait,
    Reject(Seq<char>),
    Stop,
}

impl<W, S> View for HttpAction<W, S> {
    type V = HttpActionView<W, S>;

    open spec fn view(&self) -> HttpActionView<W, S> {
        match *self {
            HttpAction::Read => HttpActionView::Read,
            HttpAction::Forward(message) => HttpActionView::Forward(message@),
            HttpAction::Refuse(text) => HttpActionView::Refuse(text@),
            HttpAction::Finish(text) => HttpActionView::Finish(text@),
            HttpAction::Wait => HttpActionView::Wait,
            HttpAction::Reject(reason) => HttpActionView::Reject(reason@),
            HttpAction::Stop => HttpActionView::Stop,
        }
    }
}

/// What follows once the body was read as a JSON-RPC request: a request is passed on, with
/// the handle for its answer; anything else is refused in writing.
pub open spec fn http_parsed<W, S>(
    id: u64,
    sender: S,
    carried: Seq<u8>,
    parsed: Parsed,
) -> (HttpStageView<S>, HttpActionView<W, S>) {
    match parsed {
        Ok((named, param)) => (
            HttpStageView::Answer(None),
            HttpActionView::Forward(
                RpcMessageView::Request(id, acting_peer(named@, carried), param, Some(sender)),
            ),
        ),
        Err((error, number)) => (
            HttpStageView::Answer(Some(sender)),
            HttpActionView::Refuse(RESPONSE_HEAD@ + refusal(error, number)),
        ),
    }
}

/// What follows once the body is complete: it is read as text, and as a request.
pub open spec fn http_body<W, S>(id: u64, sender: S, carried: Seq<u8>, body: Seq<u8>) -> (
    HttpStageView<S>,
    HttpActionView<W, S>,
) {
    http_parsed(id, sender, carried, jsonrpc_parsed(text_of(body)))
}

/// What follows once the first bytes are known to be this request.
pub open spec fn http_request<W, S>(
    id: u64,
    sender: S,
    bytes: Seq<u8>,
    request: Result<HttpView, Seq<char>>,
) -> (HttpStageView<S>, HttpActionView<W, S>) {
    match request {
        Ok(HttpView::Complete(amt, headers)) => http_body(
            id,
            sender,
            header_peer(headers),
            bytes.skip(amt as int),
        ),
        Ok(HttpView::NeedMore(amt, need)) => (
            HttpStageView::Body(sender, need, bytes.skip(amt as int)),
            HttpActionView::Read,
        ),
        Err(reason) => (HttpStageView::Done, HttpActionView::Reject(reason)),
    }
}

/// One step of the connection `id`: the stage it comes to, and what it does. An event that
/// the stage does not wait for changes nothing.
pub open spec fn http_step<W, S>(
    id: u64,
    stage: HttpStageView<S>,
    event: HttpEventView<W, S>,
) -> (HttpStageView<S>, HttpActionView<W, S>) {
    match (stage, event) {
        (HttpStageView::Head(sender), HttpEventView::Read(bytes)) => http_request(
            id,
            sender,
            bytes,
            request_of(request_head(bytes, MAX_HEADERS), bytes.len() as int),
        ),
        (HttpStageView::Body(sender, need, body), HttpEventView::Read(bytes)) => if (body
            + bytes).len() >= need {
            http_body(id, sender, no_peer(), body + bytes)
        } else {
            (HttpStageView::Body(sender, need, body + bytes), HttpActionView::Read)
        },
        (HttpStageView::Answer(_), HttpEventView::Answered(message)) => (
            HttpStageView::Done,
            HttpActionView::Finish(RESPONSE_HEAD@ + carried_text(message)),
        ),
        (HttpStageView::Answer(_), HttpEventView::Abandoned) => (
            HttpStageView::Done,
            HttpActionView::Stop,
        ),
        (HttpStageView::Head(_), _) => (stage, HttpActionView::Read),
        (HttpStageView::Body(_, _, _), _) => (stage, HttpActionView::Read),
        (HttpStageView::Answer(_), _) => (stage, HttpActionView::Wait),
        (HttpStageView::Done, _) => (stage, HttpActionView::Stop),
    }
}

/// Puts an answer together.
fn response(content: String) -> (r: String)
    ensures
        r@ == RESPONSE_HEAD@ + content@,
{
    RESPONSE_HEAD.to_owned().concat(content.as_str())
}

/// Passes a request on, or refuses what is none.
pub fn take_parsed<W, S>(id: u64, sender: S, carried: PeerId, parsed: Parsed) -> (r: (
    HttpStage<S>,
    HttpAction<W, S>,
))
    ensures
        (r.0@, r.1@) == http_parsed::<W, S>(id, sender, carried@, parsed),
{
    match parsed {
        Ok((named, param)) => (
            HttpStage::Answer(None),
            HttpAction::Forward(
                RpcMessage::Request(id, real_peer(named, carried), param, Some(sender)),
            ),
        ),
        Err((error, number)) => (
            HttpStage::Answer(Some(sender)),
            HttpAction::Refuse(response(refusal_text(&error, number))),
        ),
    }
}

/// Reads a complete body as a request.
fn take_body<W, S>(id: u64, sender: S, carried: PeerId, body: &[u8]) -> (r: (
    HttpStage<S>,
    HttpAction<W, S>,
))
    ensures
        (r.0@, r.1@) == http_body::<W, S>(id, sender, carried@, body@),
{
    take_parsed(id, sender, carried, parse_jsonrpc(lossy_text(body)))
}

/// Goes on from the first bytes of a connection, which were found to be `request`.
pub fn take_request<W, S>(
    id: u64,
    sender: S,
    bytes: Vec<u8>,
    request: Result<HTTP, &'static str>,
) -> (r: (HttpStage<S>, HttpAction<W, S>))
    requires
        request matches Ok(HTTP::Complete(amt, _)) ==> amt <= bytes@.len(),
        request matches Ok(HTTP::NeedMore(amt, _)) ==> amt <= bytes@.len(),
    ensures
        (r.0@, r.1@) == http_request::<W, S>(id, sender, bytes@, request_view(request)),
{
    let ghost whole = bytes@;
    let mut bytes = bytes;
    match request {
        Ok(HTTP::Complete(amt, headers)) => {
            let carried = peer_of_headers(&headers);
            let body = bytes.split_off(amt);
            assert(body@ =~= whole.skip(amt as int));
            take_body(id, sender, carried, body.as_slice())
        },
        Ok(HTTP::NeedMore(amt, need)) => {
            let body = bytes.split_off(amt);
            assert(body@ =~= whole.skip(amt as int));
            (HttpStage::Body(sender, need, body), HttpAction::Read)
        },
        Err(reason) => (HttpStage::Done, HttpAction::Reject(reason)),
    }
}

/// A connection over which one request comes in.
#[derive(Debug)]
pub struct HttpConnection<S> {
    pub id: u64,
    pub stage: HttpStage<S>,
}

impl<S> HttpConnection<S> {
    /// A new connection, under a number drawn at random. The first thing it does is to read.
    pub fn new(sender: S) -> (r: HttpConnection<S>)
        ensures
            r.stage@ == HttpStageView::Head(sender),
            is_sound(r.stage@),
    {
        HttpConnection { id: fresh_id(), stage: HttpStage::Head(sender) }
    }

    /// Takes one step: what happened, and what to do.
    pub fn step<W>(self, event: HttpEvent<W, S>) -> (r: (HttpConnection<S>, HttpAction<W, S>))
        ensures
            r.0.id == self.id,
            (r.0.stage@, r.1@) == http_step(self.id, self.stage@, event@),
            is_sound(self.stage@) ==> is_sound(r.0.stage@),
    {
        let id = self.id;
        let (stage, action) = match (self.stage, event) {
            (HttpStage::Head(sender), HttpEvent::Read(bytes)) => {
                let request = parse_req(bytes.as_slice(), MAX_HEADERS);
                take_request(id, sender, bytes, request)
            },
            (HttpStage::Body(sender, need, body), HttpEvent::Read(bytes)) => {
                let mut body = body;
                let mut bytes = bytes;
                body.append(&mut bytes);
                if body.len() >= need {
                    take_body(id, sender, PeerId::default(), body.as_slice())
                } else {
                    (HttpStage::Body(sender, need, body), HttpAction::Read)
                }
            },
            (HttpStage::Answer(_), HttpEvent::Answered(message)) => (
                HttpStage::Done,
                HttpAction::Finish(response(reply_text(message))),
            ),
            (HttpStage::Answer(_), HttpEvent::Abandoned) => (HttpStage::Done, HttpAction::Stop),
            (HttpStage::Head(sender), _) => (HttpStage::Head(sender), HttpAction::Read),
            (HttpStage::Body(sender, need, body), _) => (
                HttpStage::Body(sender, need, body),
                HttpAction::Read,
            ),
            (HttpStage::Answer(sender), _) => (HttpStage::Answer(sender), HttpAction::Wait),
            (HttpStage::Done, _) => (HttpStage::Done, HttpAction::Stop),
        };
        (HttpConnection { id, stage }, action)
    }
}

} // verus!
