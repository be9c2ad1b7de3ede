//! The response dispatcher: one fetch's worth of decisions, from a resource
//! kind and a transport outcome to a typed, tagged result.
//!
//! The decoder and schema used are always the pair the catalog declares for
//! the requested kind — never inferred from the raw bytes — and a payload is
//! only ever returned under the tag of the kind that was requested. A
//! transport failure is fatal for the one request: no decoder runs on it.

use vstd::prelude::*;
use crate::catalog::{ResourceKind, WireFormat, spec_wire_format};
use crate::json::{parse_json, json_of};
use crate::xml::{parse_xml, xml_of};
use crate::payloads::{
    VersionResponse, BrokerResponse, HeapMemoryUsageResponse, QueuesResponse, TopicsResponse,
    SubscribersResponse, QueueBrowseResponse, QueueFeedAtomResponse, QueueFeedRssResponse,
    VersionResponseView, BrokerResponseView, HeapMemoryUsageResponseView, QueuesResponseView,
    TopicsResponseView, SubscribersResponseView, QueueBrowseResponseView,
    QueueFeedAtomResponseView, QueueFeedRssResponseView,
};
use crate::decode_json::{version_ok, version_of, decode_version, heap_ok, heap_of, decode_heap,
    broker_ok, broker_of, decode_broker};
use crate::decode_xml::{queues_ok, queues_of, decode_queues, topics_ok, topics_of, decode_topics,
    subscribers_ok, subscribers_of, decode_subscribers, queue_browse_ok, queue_browse_of,
    decode_queue_browse, atom_ok, atom_of, decode_atom, rss_ok, rss_of, decode_rss};

verus! {

/// A decoded response, tagged by the resource kind it answers.
#[derive(Debug, Clone, PartialEq)]
pub enum ResponseType {
    Version(VersionResponse),
    Broker(BrokerResponse),
    HeapMemoryUsage(HeapMemoryUsageResponse),
    Queues(QueuesResponse),
    Topics(TopicsResponse),
    Subscribers(SubscribersResponse),
    QueueBrowse(QueueBrowseResponse),
    QueueFeedAtom(QueueFeedAtomResponse),
    QueueFeedRss(QueueFeedRssResponse),
}

/// The mathematical value of a `ResponseType`.
pub enum ResponseTypeView {
    Version(VersionResponseView),
    Broker(BrokerResponseView),
    HeapMemoryUsage(HeapMemoryUsageResponseView),
    Queues(QueuesResponseView),
    Topics(TopicsResponseView),
    Subscribers(SubscribersResponseView),
    QueueBrowse(QueueBrowseResponseView),
    QueueFeedAtom(QueueFeedAtomResponseView),
    QueueFeedRss(QueueFeedRssResponseView),
}

impl View for ResponseType {
    type V = ResponseTypeView;

    open spec fn view(&self) -> ResponseTypeView {
        match self {
            ResponseType::Version(p) => ResponseTypeView::Version(p@),
            ResponseType::Broker(p) => ResponseTypeView::Broker(p@),
            ResponseType::HeapMemoryUsage(p) => ResponseTypeView::HeapMemoryUsage(p@),
            ResponseType::Queues(p) => ResponseTypeView::Queues(p@),
            ResponseType::Topics(p) => ResponseTypeView::Topics(p@),
            ResponseType::Subscribers(p) => ResponseTypeView::Subscribers(p@),
            ResponseType::QueueBrowse(p) => ResponseTypeView::QueueBrowse(p@),
            ResponseType::QueueFeedAtom(p) => ResponseTypeView::QueueFeedAtom(p@),
            ResponseType::QueueFeedRss(p) => ResponseTypeView::QueueFeedRss(p@),
        }
    }
}

/// The tag of a response: the resource kind whose payload it carries.
pub open spec fn kind_of(r: ResponseTypeView) -> ResourceKind {
    match r {
        ResponseTypeView::Version(_) => ResourceKind::Version,
        ResponseTypeView::Broker(_) => ResourceKind::Broker,
        ResponseTypeView::HeapMemoryUsage(_) => ResourceKind::HeapMemoryUsage,
        ResponseTypeView::Queues(_) => ResourceKind::Queues,
        ResponseTypeView::Topics(_) => ResourceKind::Topics,
        ResponseTypeView::Subscribers(_) => ResourceKind::Subscribers,
        ResponseTypeView::QueueBrowse(_) => ResourceKind::QueueBrowse,
        ResponseTypeView::QueueFeedAtom(_) => ResourceKind::QueueFeedAtom,
        ResponseTypeView::QueueFeedRss(_) => ResourceKind::QueueFeedRss,
    }
}

impl ResponseType {
    /// The resource kind whose payload this response carries.
    pub fn kind(&self) -> (k: ResourceKind)
        ensures
            k == kind_of(self@),
    {
        match self {
            ResponseType::Version(_) => ResourceKind::Version,
            ResponseType::Broker(_) => ResourceKind::Broker,
            ResponseType::HeapMemoryUsage(_) => ResourceKind::HeapMemoryUsage,
            ResponseType::Queues(_) => ResourceKind::Queues,
            ResponseType::Topics(_) => ResourceKind::Topics,
            ResponseType::Subscribers(_) => ResourceKind::Subscribers,
            ResponseType::QueueBrowse(_) => ResourceKind::QueueBrowse,
            ResponseType::QueueFeedAtom(_) => ResourceKind::QueueFeedAtom,
            ResponseType::QueueFeedRss(_) => ResourceKind::QueueFeedRss,
        }
    }
}

/// A decode failure: the kind and wire format attempted, and the cause.
#[derive(Debug, Clone, PartialEq)]
pub struct DecodeFailure {
    pub kind: ResourceKind,
    pub format: WireFormat,
    pub cause: String,
}

/// A transport failure, as the caller that performed the request reports
/// it. The dispatcher treats any of these as fatal for the one request.
#[derive(Debug, Clone, Copy, PartialEq, Eq, Structural)]
pub enum TransportFailure {
    AuthRejected,
    Unreachable,
    NonSuccessStatus(u16),
    BodyReadError,
}

/// Everything that can fail one fetch, tagged by the stage that failed.
#[derive(Debug, Clone, PartialEq)]
pub enum FetchError {
    /// Resolving failed: a required connection parameter was absent.
    Config { kind: ResourceKind, error: crate::catalog::ConfigError },
    /// The request itself failed; no decoder was run.
    Transport { kind: ResourceKind, failure: TransportFailure },
    /// The response arrived but did not match the kind's schema.
    Decode(DecodeFailure),
}

/// Whether a raw text decodes, under the wire format and schema the catalog
/// declares for the kind.
pub open spec fn text_decodes(kind: ResourceKind, t: Seq<char>) -> bool {
    match kind {
        ResourceKind::Version => json_of(t) matches Some(v) && version_ok(v),
        ResourceKind::Broker => json_of(t) matches Some(v) && broker_ok(v),
        ResourceKind::HeapMemoryUsage => json_of(t) matches Some(v) && heap_ok(v),
        ResourceKind::Queues => xml_of(t) matches Some(n) && queues_ok(n),
        ResourceKind::Topics => xml_of(t) matches Some(n) && topics_ok(n),
        ResourceKind::Subscribers => xml_of(t) matches Some(n) && subscribers_ok(n),
        ResourceKind::QueueBrowse => xml_of(t) matches Some(n) && queue_browse_ok(n),
        ResourceKind::QueueFeedAtom => xml_of(t) matches Some(n) && atom_ok(n),
        ResourceKind::QueueFeedRss => xml_of(t) matches Some(n) && rss_ok(n),
    }
}

/// The tagged response a raw text decodes to, for a kind whose schema it
/// matches.
pub open spec fn decoded(kind: ResourceKind, t: Seq<char>) -> ResponseTypeView
    recommends
        text_decodes(kind, t),
{
    match kind {
        ResourceKind::Version => ResponseTypeView::Version(version_of(json_of(t)->Some_0)),
        ResourceKind::Broker => ResponseTypeView::Broker(broker_of(json_of(t)->Some_0)),
        ResourceKind::HeapMemoryUsage => ResponseTypeView::HeapMemoryUsage(
            heap_of(json_of(t)->Some_0),
        ),
        ResourceKind::Queues => ResponseTypeView::Queues(queues_of(xml_of(t)->Some_0)),
        ResourceKind::Topics => ResponseTypeView::Topics(topics_of(xml_of(t)->Some_0)),
        ResourceKind::Subscribers => ResponseTypeView::Subscribers(
            subscribers_of(xml_of(t)->Some_0),
        ),
        ResourceKind::QueueBrowse => ResponseTypeView::QueueBrowse(
            queue_browse_of(xml_of(t)->Some_0),
        ),
        ResourceKind::QueueFeedAtom => ResponseTypeView::QueueFeedAtom(atom_of(xml_of(t)->Some_0)),
        ResourceKind::QueueFeedRss => ResponseTypeView::QueueFeedRss(rss_of(xml_of(t)->Some_0)),
    }
}

/// A payload decodes under the tag of the kind it was decoded for: the
/// dispatcher can never return a payload under the wrong tag.
pub proof fn lemma_tag_matches_kind(kind: ResourceKind, t: Seq<char>)
    ensures
        kind_of(decoded(kind, t)) == kind,
{
}

/// Decoding is total and deterministic: whether a text decodes, and what it
/// decodes to, are functions of the kind and the text alone, so decoding
/// the same text against the same schema twice yields equal results.
pub proof fn lemma_decode_deterministic(kind: ResourceKind, t1: Seq<char>, t2: Seq<char>)
    requires
        t1 == t2,
    ensures
        text_decodes(kind, t1) == text_decodes(kind, t2),
        text_decodes(kind, t1) ==> decoded(kind, t1) == decoded(kind, t2),
{
}

fn decode_failure(kind: ResourceKind, cause: String) -> (r: DecodeFailure)
    ensures
        r.kind == kind,
        r.format == spec_wire_format(kind),
        r.cause == cause,
{
    DecodeFailure { kind, format: kind.wire_format(), cause }
}

/// Decode a raw response body for a resource kind, under the wire format
/// and schema the catalog declares for that kind — never sniffed from the
/// content. Succeeds exactly when the text matches the kind's schema, and
/// then returns exactly the payload the text denotes, tagged with the
/// requested kind; fails all-or-nothing otherwise, naming the kind and the
/// format attempted.
pub fn decode_response(kind: ResourceKind, text: &str) -> (r: Result<ResponseType, DecodeFailure>)
    ensures
        r is Ok <==> text_decodes(kind, text@),
        r matches Ok(resp) ==> resp@ == decoded(kind, text@) && kind_of(resp@) == kind,
        r matches Err(f) ==> f.kind == kind && f.format == spec_wire_format(kind),
{
    match kind {
        ResourceKind::Version => {
            let v = match parse_json(text) {
                Ok(v) => v,
                Err(c) => {
                    return Err(decode_failure(kind, c));
                },
            };
            match decode_version(&v) {
                Ok(p) => Ok(ResponseType::Version(p)),
                Err(c) => Err(decode_failure(kind, c)),
            }
        },
        ResourceKind::Broker => {
            let v = match parse_json(text) {
                Ok(v) => v,
                Err(c) => {
                    return Err(decode_failure(kind, c));
                },
            };
            match decode_broker(&v) {
                Ok(p) => Ok(ResponseType::Broker(p)),
                Err(c) => Err(decode_failure(kind, c)),
            }
        },
        ResourceKind::HeapMemoryUsage => {
            let v = match parse_json(text) {
                Ok(v) => v,
                Err(c) => {
                    return Err(decode_failure(kind, c));
                },
            };
            match decode_heap(&v) {
                Ok(p) => Ok(ResponseType::HeapMemoryUsage(p)),
                Err(c) => Err(decode_failure(kind, c)),
            }
        },
        ResourceKind::Queues => {
            let n = match parse_xml(text) {
                Ok(n) => n,
                Err(c) => {
                    return Err(decode_failure(kind, c));
                },
            };
            match decode_queues(&n) {
                Ok(p) => Ok(ResponseType::Queues(p)),
                Err(c) => Err(decode_failure(kind, c)),
            }
        },
        ResourceKind::Topics => {
            let n = match parse_xml(text) {
                Ok(n) => n,
                Err(c) => {
                    return Err(decode_failure(kind, c));
                },
            };
            match decode_topics(&n) {
                Ok(p) => Ok(ResponseType::Topics(p)),
                Err(c) => Err(decode_failure(kind, c)),
            }
        },
        ResourceKind::Subscribers => {
            let n = match parse_xml(text) {
                Ok(n) => n,
                Err(c) => {
                    return Err(decode_failure(kind, c));
                },
            };
            match decode_subscribers(&n) {
                Ok(p) => Ok(ResponseType::Subscribers(p)),
                Err(c) => Err(decode_failure(kind, c)),
            }
        },
        ResourceKind::QueueBrowse => {
            let n = match parse_xml(text) {
                Ok(n) => n,
                Err(c) => {
                    return Err(decode_failure(kind, c));
                },
            };
            match decode_queue_browse(&n) {
                Ok(p) => Ok(ResponseType::QueueBrowse(p)),
                Err(c) => Err(decode_failure(kind, c)),
            }
        },
        ResourceKind::QueueFeedAtom => {
            let n = match parse_xml(text) {
                Ok(n) => n,
                Err(c) => {
                    return Err(decode_failure(kind, c));
                },
            };
            match decode_atom(&n) {
                Ok(p) => Ok(ResponseType::QueueFeedAtom(p)),
                Err(c) => Err(decode_failure(kind, c)),
            }
        },
        ResourceKind::QueueFeedRss => {
            let n = match parse_xml(text) {
                Ok(n) => n,
                Err(c) => {
                    return Err(decode_failure(kind, c));
                },
            };
            match decode_rss(&n) {
                Ok(p) => Ok(ResponseType::QueueFeedRss(p)),
                Err(c) => Err(decode_failure(kind, c)),
            }
        },
    }
}

/// One fetch's worth of dispatch, after the transport ran: a transport
/// failure is passed through, tagged with the kind and the requesting
/// stage, and no decoder ever runs on it; a body is decoded under the
/// catalog's declared format and schema for the kind. A payload is only
/// ever returned under the requested kind's tag.
pub fn dispatch(kind: ResourceKind, transport: Result<String, TransportFailure>) -> (r: Result<
    ResponseType,
    FetchError,
>)
    ensures
        transport matches Err(tf) ==> r == Err::<ResponseType, FetchError>(
            FetchError::Transport { kind, failure: tf },
        ),
        transport matches Ok(text) ==> {
            &&& r is Ok <==> text_decodes(kind, text@)
            &&& (r matches Ok(resp) ==> resp@ == decoded(kind, text@))
            &&& (r matches Err(e) ==> e matches FetchError::Decode(f) && f.kind == kind
                && f.format == spec_wire_format(kind))
        },
        r matches Ok(resp) ==> kind_of(resp@) == kind,
{
    match transport {
        Ok(text) => {
            match decode_response(kind, text.as_str()) {
                Ok(resp) => Ok(resp),
                Err(f) => Err(FetchError::Decode(f)),
            }
        },
        Err(failure) => Err(FetchError::Transport { kind, failure }),
    }
}

/// Classify an HTTP status for the transport: success carries no failure,
/// status 401 is a rejected authentication, and any other non-success
/// status is reported as such.
pub fn classify_status(status: u16) -> (r: Option<TransportFailure>)
    ensures
        status == 401 ==> r == Some(TransportFailure::AuthRejected),
        200 <= status < 300 ==> r is None,
        !(200 <= status < 300) && status != 401 ==> r == Some(
            TransportFailure::NonSuccessStatus(status),
        ),
{
    if status >= 200 && status < 300 {
        None
    } else if status == 401 {
        Some(TransportFailure::AuthRejected)
    } else {
        Some(TransportFailure::NonSuccessStatus(status))
    }
}

} // verus!
