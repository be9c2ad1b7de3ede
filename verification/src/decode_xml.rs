//! Decoding the XML-encoded resource kinds — the admin console's queue,
//! topic and subscriber listings, a queue's browse page, and its Atom and
//! RSS feeds — from a parsed tree into their typed payloads.
//!
//! Each decoder is all-or-nothing, with one deliberate default: a repeated
//! element that is entirely absent decodes to an empty sequence, never to a
//! failure.

use vstd::prelude::*;
use crate::xml::{
    XmlNode, XmlChild, xfield, xnum, xtext, attr_of, first_elem, elems_named, xml_field, xml_num,
    xml_text, xml_attr, xml_child, lemma_elems_named_snoc, lemma_elems_named_take_prefix,
};
use crate::payloads::{
    QueuesResponse, QueuesQueue, QueuesQueueStats, QueuesQueueFeed, QueuesResponseView,
    QueuesQueueView, QueuesQueueFeedView, TopicsResponse, TopicsTopic, TopicsTopicStats,
    TopicsResponseView, TopicsTopicView, SubscribersResponse, SubscribersSubscriber,
    SubscribersSubscriberStats, SubscribersResponseView, SubscribersSubscriberView,
    QueueBrowseResponse, QueueBrowseMessagesMessage, QueueBrowseResponseView,
    QueueBrowseMessagesMessageView, QueueFeedAtomResponse, QueueFeedAtomEntriesEntry,
    QueueFeedAtomEntriesEntryLink, QueueFeedAtomEntriesEntryAuthor,
    QueueFeedAtomEntriesEntrySummary, QueueFeedAtomResponseView, QueueFeedAtomEntriesEntryView,
    QueueFeedAtomEntriesEntryLinkView, QueueFeedAtomEntriesEntryAuthorView,
    QueueFeedAtomEntriesEntrySummaryView, QueueFeedRssResponse, QueueFeedRssChannel,
    QueueFeedRssItemsItem, QueueFeedRssResponseView, QueueFeedRssChannelView,
    QueueFeedRssItemsItemView, views_of,
};
use crate::util::field_err;
use crate::util::seq_decode;
use crate::util::lemma_seq_decode_none;

verus! {

// ---------------------------------------------------------------------------
// Queues
// ---------------------------------------------------------------------------
/// A queue's counters, as the four numeric fields of its `stats` node.
pub open spec fn queue_stats_of(n: XmlNode) -> Option<QueuesQueueStats> {
    if {
        &&& xnum(n, "size"@) is Some
        &&& xnum(n, "consumerCount"@) is Some
        &&& xnum(n, "enqueueCount"@) is Some
        &&& xnum(n, "dequeueCount"@) is Some
    } {
        Some(
            QueuesQueueStats {
                size: xnum(n, "size"@)->Some_0,
                consumer_count: xnum(n, "consumerCount"@)->Some_0,
                enqueue_count: xnum(n, "enqueueCount"@)->Some_0,
                dequeue_count: xnum(n, "dequeueCount"@)->Some_0,
            },
        )
    } else {
        None
    }
}

/// A queue's feed links, as the two fields of its `feed` node.
pub open spec fn queue_feed_of(n: XmlNode) -> Option<QueuesQueueFeedView> {
    if xfield(n, "atom"@) is Some && xfield(n, "rss"@) is Some {
        Some(
            QueuesQueueFeedView {
                atom: xfield(n, "atom"@)->Some_0,
                rss: xfield(n, "rss"@)->Some_0,
            },
        )
    } else {
        None
    }
}

/// One queue of the listing: its name, its `stats` node, its `feed` node.
pub open spec fn queue_of(n: XmlNode) -> Option<QueuesQueueView> {
    if {
        &&& xfield(n, "name"@) is Some
        &&& first_elem(n.children@, "stats"@) matches Some(st)
        &&& queue_stats_of(st) is Some
        &&& first_elem(n.children@, "feed"@) matches Some(fd)
        &&& queue_feed_of(fd) is Some
    } {
        Some(
            QueuesQueueView {
                name: xfield(n, "name"@)->Some_0,
                stats: queue_stats_of(first_elem(n.children@, "stats"@)->Some_0)->Some_0,
                feed: queue_feed_of(first_elem(n.children@, "feed"@)->Some_0)->Some_0,
            },
        )
    } else {
        None
    }
}

/// The shape a queue listing must have: every `queue` child a well-shaped
/// queue. A listing without `queue` children is well-shaped and empty.
pub open spec fn queues_ok(root: XmlNode) -> bool {
    seq_decode(elems_named(root.children@, "queue"@), |q: XmlNode| queue_of(q)) is Some
}

/// The queue listing a well-shaped tree decodes to.
pub open spec fn queues_of(root: XmlNode) -> QueuesResponseView
    recommends
        queues_ok(root),
{
    QueuesResponseView {
        queues: seq_decode(elems_named(root.children@, "queue"@), |q: XmlNode| queue_of(q))->Some_0,
    }
}

/// Decode a queue's `stats` node.
pub fn decode_queue_stats(n: &XmlNode) -> (r: Result<QueuesQueueStats, String>)
    ensures
        r is Ok <==> queue_stats_of(*n) is Some,
        r matches Ok(s) ==> queue_stats_of(*n) == Some(s),
{
    let size = xml_num(n, "size")?;
    let consumer_count = xml_num(n, "consumerCount")?;
    let enqueue_count = xml_num(n, "enqueueCount")?;
    let dequeue_count = xml_num(n, "dequeueCount")?;
    Ok(QueuesQueueStats { size, consumer_count, enqueue_count, dequeue_count })
}

/// Decode a queue's `feed` node.
pub fn decode_queue_feed(n: &XmlNode) -> (r: Result<QueuesQueueFeed, String>)
    ensures
        r is Ok <==> queue_feed_of(*n) is Some,
        r matches Ok(f) ==> queue_feed_of(*n) == Some(f@),
{
    let atom = xml_field(n, "atom")?;
    let rss = xml_field(n, "rss")?;
    Ok(QueuesQueueFeed { atom, rss })
}

/// Decode one queue of the listing.
pub fn decode_queue(n: &XmlNode) -> (r: Result<QueuesQueue, String>)
    ensures
        r is Ok <==> queue_of(*n) is Some,
        r matches Ok(q) ==> queue_of(*n) == Some(q@),
{
    let name = xml_field(n, "name")?;
    let stats = match xml_child(n, "stats") {
        Some(st) => decode_queue_stats(st)?,
        None => {
            return Err(field_err("stats"));
        },
    };
    let feed = match xml_child(n, "feed") {
        Some(fd) => decode_queue_feed(fd)?,
        None => {
            return Err(field_err("feed"));
        },
    };
    Ok(QueuesQueue { name, stats, feed })
}

/// Decode a queue listing: succeeds exactly when every `queue` child is
/// well-shaped, and then returns them all in document order; a listing
/// without `queue` children decodes to the empty sequence, never a failure.
pub fn decode_queues(root: &XmlNode) -> (r: Result<QueuesResponse, String>)
    ensures
        r is Ok <==> queues_ok(*root),
        r matches Ok(p) ==> p@ == queues_of(*root),
{
    let cs = &root.children;
    let n = cs.len();
    let mut out: Vec<QueuesQueue> = Vec::new();
    let mut i: usize = 0;
    while i < n
        invariant
            n == cs.len(),
            i <= n,
            cs@ == root.children@,
            seq_decode(elems_named(cs@.take(i as int), "queue"@), |q: XmlNode| queue_of(q))
                == Some(views_of(out@)),
        decreases n - i,
    {
        proof {
            lemma_elems_named_snoc(cs@, "queue"@, i as int);
        }
        match &cs[i] {
            XmlChild::Elem(e) => {
                if e.name.as_str().eq("queue") {
                    match decode_queue(e) {
                        Ok(q) => {
                            let ghost prev_elems = elems_named(cs@.take(i as int), "queue"@);
                            let ghost prev = out@;
                            out.push(q);
                            proof {
                                let elems = elems_named(cs@.take(i as int + 1), "queue"@);
                                assert(elems == prev_elems.push(*e));
                                assert(elems.drop_last() =~= prev_elems);
                                assert(views_of(out@) =~= views_of(prev).push(q@));
                            }
                        },
                        Err(err) => {
                            proof {
                                lemma_elems_named_take_prefix(cs@, "queue"@, i as int + 1);
                                let elems = elems_named(cs@.take(i as int + 1), "queue"@);
                                let k = elems.len() - 1;
                                assert(elems_named(cs@, "queue"@)[k] == *e);
                                lemma_seq_decode_none(
                                    elems_named(cs@, "queue"@),
                                    |q: XmlNode| queue_of(q),
                                    k,
                                );
                            }
                            return Err(err);
                        },
                    }
                }
            },
            _ => {},
        }
        i += 1;
    }
    proof {
        assert(cs@.take(n as int) =~= cs@);
    }
    Ok(QueuesResponse { queues: out })
}

/// Absence of the repeated `queue` element is an empty listing, never a
/// failure.
pub proof fn lemma_no_queues_decodes_empty(root: XmlNode)
    requires
        elems_named(root.children@, "queue"@) == Seq::<XmlNode>::empty(),
    ensures
        queues_ok(root),
        queues_of(root).queues == Seq::<QueuesQueueView>::empty(),
{
}

/// Absence of the repeated `topic` element is an empty listing, never a
/// failure.
pub proof fn lemma_no_topics_decodes_empty(root: XmlNode)
    requires
        elems_named(root.children@, "topic"@) == Seq::<XmlNode>::empty(),
    ensures
        topics_ok(root),
        topics_of(root).topics == Seq::<TopicsTopicView>::empty(),
{
}

/// Absence of the repeated `subscriber` element is an empty listing, never
/// a failure.
pub proof fn lemma_no_subscribers_decodes_empty(root: XmlNode)
    requires
        elems_named(root.children@, "subscriber"@) == Seq::<XmlNode>::empty(),
    ensures
        subscribers_ok(root),
        subscribers_of(root).subscribers == Seq::<SubscribersSubscriberView>::empty(),
{
}

/// Absence of the repeated `message` element is an empty browse page, never
/// a failure.
pub proof fn lemma_no_messages_decodes_empty(root: XmlNode)
    requires
        elems_named(root.children@, "message"@) == Seq::<XmlNode>::empty(),
    ensures
        queue_browse_ok(root),
        queue_browse_of(root).messages == Seq::<QueueBrowseMessagesMessageView>::empty(),
{
}

/// Absence of the repeated `entry` element leaves a feed whose own fields
/// are well-shaped with an empty entry sequence, never a failure.
pub proof fn lemma_no_entries_decodes_empty(root: XmlNode)
    requires
        xfield(root, "title"@) is Some,
        first_elem(root.children@, "link"@) matches Some(lk) && link_of(lk) is Some,
        xfield(root, "subtitle"@) is Some,
        elems_named(root.children@, "entry"@) == Seq::<XmlNode>::empty(),
    ensures
        atom_ok(root),
        atom_of(root).feed == Seq::<QueueFeedAtomEntriesEntryView>::empty(),
{
}

/// Absence of the repeated `channel` element is an empty feed, never a
/// failure; so is absence of the repeated `item` element within a
/// well-shaped channel.
pub proof fn lemma_no_channels_decodes_empty(root: XmlNode)
    requires
        elems_named(root.children@, "channel"@) == Seq::<XmlNode>::empty(),
    ensures
        rss_ok(root),
        rss_of(root).channel == Seq::<QueueFeedRssChannelView>::empty(),
{
}

/// Within one RSS channel whose own fields are present, absence of `item`
/// children is an empty item sequence, never a failure.
pub proof fn lemma_no_items_decodes_empty(n: XmlNode)
    requires
        xfield(n, "title"@) is Some,
        xfield(n, "link"@) is Some,
        xfield(n, "description"@) is Some,
        elems_named(n.children@, "item"@) == Seq::<XmlNode>::empty(),
    ensures
        channel_of(n) matches Some(c) && c.feed == Seq::<QueueFeedRssItemsItemView>::empty(),
{
}

// ---------------------------------------------------------------------------
// Topics
// ---------------------------------------------------------------------------
/// A topic's counters, as the four numeric fields of its `stats` node.
pub open spec fn topic_stats_of(n: XmlNode) -> Option<TopicsTopicStats> {
    if {
        &&& xnum(n, "size"@) is Some
        &&& xnum(n, "consumerCount"@) is Some
        &&& xnum(n, "enqueueCount"@) is Some
        &&& xnum(n, "dequeueCount"@) is Some
    } {
        Some(
            TopicsTopicStats {
                size: xnum(n, "size"@)->Some_0,
                consumer_count: xnum(n, "consumerCount"@)->Some_0,
                enqueue_count: xnum(n, "enqueueCount"@)->Some_0,
                dequeue_count: xnum(n, "dequeueCount"@)->Some_0,
            },
        )
    } else {
        None
    }
}

/// One topic of the listing: its name and its `stats` node.
pub open spec fn topic_of(n: XmlNode) -> Option<TopicsTopicView> {
    if {
        &&& xfield(n, "name"@) is Some
        &&& first_elem(n.children@, "stats"@) matches Some(st)
        &&& topic_stats_of(st) is Some
    } {
        Some(
            TopicsTopicView {
                name: xfield(n, "name"@)->Some_0,
                stats: topic_stats_of(first_elem(n.children@, "stats"@)->Some_0)->Some_0,
            },
        )
    } else {
        None
    }
}

/// The shape a topic listing must have; one without `topic` children is
/// well-shaped and empty.
pub open spec fn topics_ok(root: XmlNode) -> bool {
    seq_decode(elems_named(root.children@, "topic"@), |t: XmlNode| topic_of(t)) is Some
}

/// The topic listing a well-shaped tree decodes to.
pub open spec fn topics_of(root: XmlNode) -> TopicsResponseView
    recommends
        topics_ok(root),
{
    TopicsResponseView {
        topics: seq_decode(elems_named(root.children@, "topic"@), |t: XmlNode| topic_of(t))->Some_0,
    }
}

/// Decode a topic's `stats` node.
pub fn decode_topic_stats(n: &XmlNode) -> (r: Result<TopicsTopicStats, String>)
    ensures
        r is Ok <==> topic_stats_of(*n) is Some,
        r matches Ok(s) ==> topic_stats_of(*n) == Some(s),
{
    let size = xml_num(n, "size")?;
    let consumer_count = xml_num(n, "consumerCount")?;
    let enqueue_count = xml_num(n, "enqueueCount")?;
    let dequeue_count = xml_num(n, "dequeueCount")?;
    Ok(TopicsTopicStats { size, consumer_count, enqueue_count, dequeue_count })
}

/// Decode one topic of the listing.
pub fn decode_topic(n: &XmlNode) -> (r: Result<TopicsTopic, String>)
    ensures
        r is Ok <==> topic_of(*n) is Some,
        r matches Ok(t) ==> topic_of(*n) == Some(t@),
{
    let name = xml_field(n, "name")?;
    let stats = match xml_child(n, "stats") {
        Some(st) => decode_topic_stats(st)?,
        None => {
            return Err(field_err("stats"));
        },
    };
    Ok(TopicsTopic { name, stats })
}

/// Decode a topic listing: every `topic` child in document order; a listing
/// without `topic` children decodes to the empty sequence, never a failure.
pub fn decode_topics(root: &XmlNode) -> (r: Result<TopicsResponse, String>)
    ensures
        r is Ok <==> topics_ok(*root),
        r matches Ok(p) ==> p@ == topics_of(*root),
{
    let cs = &root.children;
    let n = cs.len();
    let mut out: Vec<TopicsTopic> = Vec::new();
    let mut i: usize = 0;
    while i < n
        invariant
            n == cs.len(),
            i <= n,
            cs@ == root.children@,
            seq_decode(elems_named(cs@.take(i as int), "topic"@), |t: XmlNode| topic_of(t))
                == Some(views_of(out@)),
        decreases n - i,
    {
        proof {
            lemma_elems_named_snoc(cs@, "topic"@, i as int);
        }
        match &cs[i] {
            XmlChild::Elem(e) => {
                if e.name.as_str().eq("topic") {
                    match decode_topic(e) {
                        Ok(t) => {
                            let ghost prev_elems = elems_named(cs@.take(i as int), "topic"@);
                            let ghost prev = out@;
                            out.push(t);
                            proof {
                                let elems = elems_named(cs@.take(i as int + 1), "topic"@);
                                assert(elems == prev_elems.push(*e));
                                assert(elems.drop_last() =~= prev_elems);
                                assert(views_of(out@) =~= views_of(prev).push(t@));
                            }
                        },
                        Err(err) => {
                            proof {
                                lemma_elems_named_take_prefix(cs@, "topic"@, i as int + 1);
                                let elems = elems_named(cs@.take(i as int + 1), "topic"@);
                                let k = elems.len() - 1;
                                assert(elems_named(cs@, "topic"@)[k] == *e);
                                lemma_seq_decode_none(
                                    elems_named(cs@, "topic"@),
                                    |t: XmlNode| topic_of(t),
                                    k,
                                );
                            }
                            return Err(err);
                        },
                    }
                }
            },
            _ => {},
        }
        i += 1;
    }
    proof {
        assert(cs@.take(n as int) =~= cs@);
    }
    Ok(TopicsResponse { topics: out })
}

// ---------------------------------------------------------------------------
// Subscribers
// ---------------------------------------------------------------------------
/// A subscriber's counters, as the five numeric fields of its `stats` node.
pub open spec fn subscriber_stats_of(n: XmlNode) -> Option<SubscribersSubscriberStats> {
    if {
        &&& xnum(n, "pendingQueueSize"@) is Some
        &&& xnum(n, "dispatchedQueueSize"@) is Some
        &&& xnum(n, "dispatchedCounter"@) is Some
        &&& xnum(n, "enqueueCounter"@) is Some
        &&& xnum(n, "dequeueCounter"@) is Some
    } {
        Some(
            SubscribersSubscriberStats {
                pending_queue_size: xnum(n, "pendingQueueSize"@)->Some_0,
                dispatched_queue_size: xnum(n, "dispatchedQueueSize"@)->Some_0,
                dispatched_counter: xnum(n, "dispatchedCounter"@)->Some_0,
                enqueue_counter: xnum(n, "enqueueCounter"@)->Some_0,
                dequeue_counter: xnum(n, "dequeueCounter"@)->Some_0,
            },
        )
    } else {
        None
    }
}

/// One subscriber of the listing.
pub open spec fn subscriber_of(n: XmlNode) -> Option<SubscribersSubscriberView> {
    if {
        &&& xfield(n, "clientId"@) is Some
        &&& xfield(n, "subscriptionName"@) is Some
        &&& xfield(n, "connectionId"@) is Some
        &&& xfield(n, "destinationName"@) is Some
        &&& xfield(n, "selector"@) is Some
        &&& xfield(n, "active"@) is Some
        &&& first_elem(n.children@, "stats"@) matches Some(st)
        &&& subscriber_stats_of(st) is Some
    } {
        Some(
            SubscribersSubscriberView {
                client_id: xfield(n, "clientId"@)->Some_0,
                subscription_name: xfield(n, "subscriptionName"@)->Some_0,
                connection_id: xfield(n, "connectionId"@)->Some_0,
                destination_name: xfield(n, "destinationName"@)->Some_0,
                selector: xfield(n, "selector"@)->Some_0,
                active: xfield(n, "active"@)->Some_0,
                stats: subscriber_stats_of(first_elem(n.children@, "stats"@)->Some_0)->Some_0,
            },
        )
    } else {
        None
    }
}

/// The shape a subscriber listing must have; one without `subscriber`
/// children is well-shaped and empty.
pub open spec fn subscribers_ok(root: XmlNode) -> bool {
    seq_decode(
        elems_named(root.children@, "subscriber"@),
        |s: XmlNode| subscriber_of(s),
    ) is Some
}

/// The subscriber listing a well-shaped tree decodes to.
pub open spec fn subscribers_of(root: XmlNode) -> SubscribersResponseView
    recommends
        subscribers_ok(root),
{
    SubscribersResponseView {
        subscribers: seq_decode(
            elems_named(root.children@, "subscriber"@),
            |s: XmlNode| subscriber_of(s),
        )->Some_0,
    }
}

/// Decode a subscriber's `stats` node.
pub fn decode_subscriber_stats(n: &XmlNode) -> (r: Result<SubscribersSubscriberStats, String>)
    ensures
        r is Ok <==> subscriber_stats_of(*n) is Some,
        r matches Ok(s) ==> subscriber_stats_of(*n) == Some(s),
{
    let pending_queue_size = xml_num(n, "pendingQueueSize")?;
    let dispatched_queue_size = xml_num(n, "dispatchedQueueSize")?;
    let dispatched_counter = xml_num(n, "dispatchedCounter")?;
    let enqueue_counter = xml_num(n, "enqueueCounter")?;
    let dequeue_counter = xml_num(n, "dequeueCounter")?;
    Ok(
        SubscribersSubscriberStats {
            pending_queue_size,
            dispatched_queue_size,
            dispatched_counter,
            enqueue_counter,
            dequeue_counter,
        },
    )
}

/// Decode one subscriber of the listing.
pub fn decode_subscriber(n: &XmlNode) -> (r: Result<SubscribersSubscriber, String>)
    ensures
        r is Ok <==> subscriber_of(*n) is Some,
        r matches Ok(s) ==> subscriber_of(*n) == Some(s@),
{
    let client_id = xml_field(n, "clientId")?;
    let subscription_name = xml_field(n, "subscriptionName")?;
    let connection_id = xml_field(n, "connectionId")?;
    let destination_name = xml_field(n, "destinationName")?;
    let selector = xml_field(n, "selector")?;
    let active = xml_field(n, "active")?;
    let stats = match xml_child(n, "stats") {
        Some(st) => decode_subscriber_stats(st)?,
        None => {
            return Err(field_err("stats"));
        },
    };
    Ok(
        SubscribersSubscriber {
            client_id,
            subscription_name,
            connection_id,
            destination_name,
            selector,
            active,
            stats,
        },
    )
}

/// Decode a subscriber listing: every `subscriber` child in document order;
/// a listing without `subscriber` children decodes to the empty sequence,
/// never a failure.
pub fn decode_subscribers(root: &XmlNode) -> (r: Result<SubscribersResponse, String>)
    ensures
        r is Ok <==> subscribers_ok(*root),
        r matches Ok(p) ==> p@ == subscribers_of(*root),
{
    let cs = &root.children;
    let n = cs.len();
    let mut out: Vec<SubscribersSubscriber> = Vec::new();
    let mut i: usize = 0;
    while i < n
        invariant
            n == cs.len(),
            i <= n,
            cs@ == root.children@,
            seq_decode(
                elems_named(cs@.take(i as int), "subscriber"@),
                |s: XmlNode| subscriber_of(s),
            ) == Some(views_of(out@)),
        decreases n - i,
    {
        proof {
            lemma_elems_named_snoc(cs@, "subscriber"@, i as int);
        }
        match &cs[i] {
            XmlChild::Elem(e) => {
                if e.name.as_str().eq("subscriber") {
                    match decode_subscriber(e) {
                        Ok(s) => {
                            let ghost prev_elems = elems_named(cs@.take(i as int), "subscriber"@);
                            let ghost prev = out@;
                            out.push(s);
                            proof {
                                let elems = elems_named(cs@.take(i as int + 1), "subscriber"@);
                                assert(elems == prev_elems.push(*e));
                                assert(elems.drop_last() =~= prev_elems);
                                assert(views_of(out@) =~= views_of(prev).push(s@));
                            }
                        },
                        Err(err) => {
                            proof {
                                lemma_elems_named_take_prefix(cs@, "subscriber"@, i as int + 1);
                                let elems = elems_named(cs@.take(i as int + 1), "subscriber"@);
                                let k = elems.len() - 1;
                                assert(elems_named(cs@, "subscriber"@)[k] == *e);
                                lemma_seq_decode_none(
                                    elems_named(cs@, "subscriber"@),
                                    |s: XmlNode| subscriber_of(s),
                                    k,
                                );
                            }
                            return Err(err);
                        },
                    }
                }
            },
            _ => {},
        }
        i += 1;
    }
    proof {
        assert(cs@.take(n as int) =~= cs@);
    }
    Ok(SubscribersResponse { subscribers: out })
}

// ---------------------------------------------------------------------------
// Queue browse
// ---------------------------------------------------------------------------
/// One browsed message: its identifier.
pub open spec fn message_of(n: XmlNode) -> Option<QueueBrowseMessagesMessageView> {
    match xfield(n, "id"@) {
        Some(s) => Some(QueueBrowseMessagesMessageView { id: s }),
        None => None,
    }
}

/// The shape a browse page must have; one without `message` children is
/// well-shaped and empty.
pub open spec fn queue_browse_ok(root: XmlNode) -> bool {
    seq_decode(elems_named(root.children@, "message"@), |m: XmlNode| message_of(m)) is Some
}

/// The browsed messages a well-shaped tree decodes to.
pub open spec fn queue_browse_of(root: XmlNode) -> QueueBrowseResponseView
    recommends
        queue_browse_ok(root),
{
    QueueBrowseResponseView {
        messages: seq_decode(
            elems_named(root.children@, "message"@),
            |m: XmlNode| message_of(m),
        )->Some_0,
    }
}

/// Decode one browsed message.
pub fn decode_message(n: &XmlNode) -> (r: Result<QueueBrowseMessagesMessage, String>)
    ensures
        r is Ok <==> message_of(*n) is Some,
        r matches Ok(m) ==> message_of(*n) == Some(m@),
{
    let id = xml_field(n, "id")?;
    Ok(QueueBrowseMessagesMessage { id })
}

/// Decode a browse page: every `message` child in document order; a page
/// without `message` children decodes to the empty sequence, never a
/// failure.
pub fn decode_queue_browse(root: &XmlNode) -> (r: Result<QueueBrowseResponse, String>)
    ensures
        r is Ok <==> queue_browse_ok(*root),
        r matches Ok(p) ==> p@ == queue_browse_of(*root),
{
    let cs = &root.children;
    let n = cs.len();
    let mut out: Vec<QueueBrowseMessagesMessage> = Vec::new();
    let mut i: usize = 0;
    while i < n
        invariant
            n == cs.len(),
            i <= n,
            cs@ == root.children@,
            seq_decode(elems_named(cs@.take(i as int), "message"@), |m: XmlNode| message_of(m))
                == Some(views_of(out@)),
        decreases n - i,
    {
        proof {
            lemma_elems_named_snoc(cs@, "message"@, i as int);
        }
        match &cs[i] {
            XmlChild::Elem(e) => {
                if e.name.as_str().eq("message") {
                    match decode_message(e) {
                        Ok(m) => {
                            let ghost prev_elems = elems_named(cs@.take(i as int), "message"@);
                            let ghost prev = out@;
                            out.push(m);
                            proof {
                                let elems = elems_named(cs@.take(i as int + 1), "message"@);
                                assert(elems == prev_elems.push(*e));
                                assert(elems.drop_last() =~= prev_elems);
                                assert(views_of(out@) =~= views_of(prev).push(m@));
                            }
                        },
                        Err(err) => {
                            proof {
                                lemma_elems_named_take_prefix(cs@, "message"@, i as int + 1);
                                let elems = elems_named(cs@.take(i as int + 1), "message"@);
                                let k = elems.len() - 1;
                                assert(elems_named(cs@, "message"@)[k] == *e);
                                lemma_seq_decode_none(
                                    elems_named(cs@, "message"@),
                                    |m: XmlNode| message_of(m),
                                    k,
                                );
                            }
                            return Err(err);
                        },
                    }
                }
            },
            _ => {},
        }
        i += 1;
    }
    proof {
        assert(cs@.take(n as int) =~= cs@);
    }
    Ok(QueueBrowseResponse { messages: out })
}

// ---------------------------------------------------------------------------
// Queue feed, Atom flavor
// ---------------------------------------------------------------------------
/// A feed link: its `rel` and `href` fields.
pub open spec fn link_of(n: XmlNode) -> Option<QueueFeedAtomEntriesEntryLinkView> {
    if xfield(n, "rel"@) is Some && xfield(n, "href"@) is Some {
        Some(
            QueueFeedAtomEntriesEntryLinkView {
                rel: xfield(n, "rel"@)->Some_0,
                href: xfield(n, "href"@)->Some_0,
            },
        )
    } else {
        None
    }
}

/// An entry's author: its `name` field.
pub open spec fn author_of(n: XmlNode) -> Option<QueueFeedAtomEntriesEntryAuthorView> {
    match xfield(n, "name"@) {
        Some(s) => Some(QueueFeedAtomEntriesEntryAuthorView { name: s }),
        None => None,
    }
}

/// An entry's summary: mixed content, the `type` attribute and the node's
/// own text as two separate fields. The text is always there, possibly
/// empty, so only the attribute decides well-shapedness.
pub open spec fn summary_of(n: XmlNode) -> Option<QueueFeedAtomEntriesEntrySummaryView> {
    match attr_of(n, "type"@) {
        Some(t) => Some(
            QueueFeedAtomEntriesEntrySummaryView { summary_type: t@, value: xtext(n) },
        ),
        None => None,
    }
}

/// One feed entry.
pub open spec fn entry_of(n: XmlNode) -> Option<QueueFeedAtomEntriesEntryView> {
    if {
        &&& xfield(n, "title"@) is Some
        &&& first_elem(n.children@, "link"@) matches Some(lk)
        &&& link_of(lk) is Some
        &&& first_elem(n.children@, "author"@) matches Some(au)
        &&& author_of(au) is Some
        &&& xfield(n, "updated"@) is Some
        &&& xfield(n, "published"@) is Some
        &&& first_elem(n.children@, "summary"@) matches Some(su)
        &&& summary_of(su) is Some
        &&& xfield(n, "date"@) is Some
    } {
        Some(
            QueueFeedAtomEntriesEntryView {
                title: xfield(n, "title"@)->Some_0,
                link: link_of(first_elem(n.children@, "link"@)->Some_0)->Some_0,
                author: author_of(first_elem(n.children@, "author"@)->Some_0)->Some_0,
                updated: xfield(n, "updated"@)->Some_0,
                published: xfield(n, "published"@)->Some_0,
                summary: summary_of(first_elem(n.children@, "summary"@)->Some_0)->Some_0,
                date: xfield(n, "date"@)->Some_0,
            },
        )
    } else {
        None
    }
}

/// The shape an Atom feed must have: its own title, link and subtitle, and
/// every `entry` child well-shaped; a feed without `entry` children carries
/// the empty sequence.
pub open spec fn atom_ok(root: XmlNode) -> bool {
    &&& xfield(root, "title"@) is Some
    &&& first_elem(root.children@, "link"@) matches Some(lk)
    &&& link_of(lk) is Some
    &&& xfield(root, "subtitle"@) is Some
    &&& seq_decode(elems_named(root.children@, "entry"@), |e: XmlNode| entry_of(e)) is Some
}

/// The Atom feed a well-shaped tree decodes to.
pub open spec fn atom_of(root: XmlNode) -> QueueFeedAtomResponseView
    recommends
        atom_ok(root),
{
    QueueFeedAtomResponseView {
        feed: seq_decode(elems_named(root.children@, "entry"@), |e: XmlNode| entry_of(e))->Some_0,
        title: xfield(root, "title"@)->Some_0,
        link: link_of(first_elem(root.children@, "link"@)->Some_0)->Some_0,
        subtitle: xfield(root, "subtitle"@)->Some_0,
    }
}

/// Decode a feed link.
pub fn decode_link(n: &XmlNode) -> (r: Result<QueueFeedAtomEntriesEntryLink, String>)
    ensures
        r is Ok <==> link_of(*n) is Some,
        r matches Ok(l) ==> link_of(*n) == Some(l@),
{
    let rel = xml_field(n, "rel")?;
    let href = xml_field(n, "href")?;
    Ok(QueueFeedAtomEntriesEntryLink { rel, href })
}

/// Decode an entry's author.
pub fn decode_author(n: &XmlNode) -> (r: Result<QueueFeedAtomEntriesEntryAuthor, String>)
    ensures
        r is Ok <==> author_of(*n) is Some,
        r matches Ok(a) ==> author_of(*n) == Some(a@),
{
    let name = xml_field(n, "name")?;
    Ok(QueueFeedAtomEntriesEntryAuthor { name })
}

/// Decode an entry's summary: the `type` attribute and the node's own text,
/// kept as two separate fields of the one node.
pub fn decode_summary(n: &XmlNode) -> (r: Result<QueueFeedAtomEntriesEntrySummary, String>)
    ensures
        r is Ok <==> summary_of(*n) is Some,
        r matches Ok(s) ==> summary_of(*n) == Some(s@),
{
    let summary_type = match xml_attr(n, "type") {
        Some(t) => t.clone(),
        None => {
            return Err(field_err("type"));
        },
    };
    let value = xml_text(n);
    Ok(QueueFeedAtomEntriesEntrySummary { summary_type, value })
}

/// Decode one feed entry.
pub fn decode_entry(n: &XmlNode) -> (r: Result<QueueFeedAtomEntriesEntry, String>)
    ensures
        r is Ok <==> entry_of(*n) is Some,
        r matches Ok(e) ==> entry_of(*n) == Some(e@),
{
    let title = xml_field(n, "title")?;
    let link = match xml_child(n, "link") {
        Some(lk) => decode_link(lk)?,
        None => {
            return Err(field_err("link"));
        },
    };
    let author = match xml_child(n, "author") {
        Some(au) => decode_author(au)?,
        None => {
            return Err(field_err("author"));
        },
    };
    let updated = xml_field(n, "updated")?;
    let published = xml_field(n, "published")?;
    let summary = match xml_child(n, "summary") {
        Some(su) => decode_summary(su)?,
        None => {
            return Err(field_err("summary"));
        },
    };
    let date = xml_field(n, "date")?;
    Ok(QueueFeedAtomEntriesEntry { title, link, author, updated, published, summary, date })
}

/// Decode an Atom feed: the feed's own fields and every `entry` child in
/// document order; a feed without `entry` children decodes to the empty
/// sequence, never a failure.
pub fn decode_atom(root: &XmlNode) -> (r: Result<QueueFeedAtomResponse, String>)
    ensures
        r is Ok <==> atom_ok(*root),
        r matches Ok(p) ==> p@ == atom_of(*root),
{
    let title = xml_field(root, "title")?;
    let link = match xml_child(root, "link") {
        Some(lk) => decode_link(lk)?,
        None => {
            return Err(field_err("link"));
        },
    };
    let subtitle = xml_field(root, "subtitle")?;
    let cs = &root.children;
    let n = cs.len();
    let mut out: Vec<QueueFeedAtomEntriesEntry> = Vec::new();
    let mut i: usize = 0;
    while i < n
        invariant
            n == cs.len(),
            i <= n,
            cs@ == root.children@,
            seq_decode(elems_named(cs@.take(i as int), "entry"@), |e: XmlNode| entry_of(e))
                == Some(views_of(out@)),
        decreases n - i,
    {
        proof {
            lemma_elems_named_snoc(cs@, "entry"@, i as int);
        }
        match &cs[i] {
            XmlChild::Elem(e) => {
                if e.name.as_str().eq("entry") {
                    match decode_entry(e) {
                        Ok(en) => {
                            let ghost prev_elems = elems_named(cs@.take(i as int), "entry"@);
                            let ghost prev = out@;
                            out.push(en);
                            proof {
                                let elems = elems_named(cs@.take(i as int + 1), "entry"@);
                                assert(elems == prev_elems.push(*e));
                                assert(elems.drop_last() =~= prev_elems);
                                assert(views_of(out@) =~= views_of(prev).push(en@));
                            }
                        },
                        Err(err) => {
                            proof {
                                lemma_elems_named_take_prefix(cs@, "entry"@, i as int + 1);
                                let elems = elems_named(cs@.take(i as int + 1), "entry"@);
                                let k = elems.len() - 1;
                                assert(elems_named(cs@, "entry"@)[k] == *e);
                                lemma_seq_decode_none(
                                    elems_named(cs@, "entry"@),
                                    |e: XmlNode| entry_of(e),
                                    k,
                                );
                            }
                            return Err(err);
                        },
                    }
                }
            },
            _ => {},
        }
        i += 1;
    }
    proof {
        assert(cs@.take(n as int) =~= cs@);
    }
    Ok(QueueFeedAtomResponse { feed: out, title, link, subtitle })
}

// ---------------------------------------------------------------------------
// Queue feed, RSS flavor
// ---------------------------------------------------------------------------
/// One item of an RSS channel.
pub open spec fn item_of(n: XmlNode) -> Option<QueueFeedRssItemsItemView> {
    if {
        &&& xfield(n, "title"@) is Some
        &&& xfield(n, "link"@) is Some
        &&& xfield(n, "guid"@) is Some
        &&& xfield(n, "pubDate"@) is Some
        &&& xfield(n, "description"@) is Some
        &&& xfield(n, "date"@) is Some
    } {
        Some(
            QueueFeedRssItemsItemView {
                title: xfield(n, "title"@)->Some_0,
                link: xfield(n, "link"@)->Some_0,
                guid: xfield(n, "guid"@)->Some_0,
                pub_date: xfield(n, "pubDate"@)->Some_0,
                description: xfield(n, "description"@)->Some_0,
                date: xfield(n, "date"@)->Some_0,
            },
        )
    } else {
        None
    }
}

/// One RSS channel: its own fields, and every `item` child; a channel
/// without `item` children carries the empty sequence.
pub open spec fn channel_of(n: XmlNode) -> Option<QueueFeedRssChannelView> {
    if {
        &&& xfield(n, "title"@) is Some
        &&& xfield(n, "link"@) is Some
        &&& xfield(n, "description"@) is Some
        &&& seq_decode(elems_named(n.children@, "item"@), |it: XmlNode| item_of(it)) is Some
    } {
        Some(
            QueueFeedRssChannelView {
                feed: seq_decode(
                    elems_named(n.children@, "item"@),
                    |it: XmlNode| item_of(it),
                )->Some_0,
                title: xfield(n, "title"@)->Some_0,
                link: xfield(n, "link"@)->Some_0,
                description: xfield(n, "description"@)->Some_0,
            },
        )
    } else {
        None
    }
}

/// The shape an RSS feed must have; one without `channel` children is
/// well-shaped and empty.
pub open spec fn rss_ok(root: XmlNode) -> bool {
    seq_decode(elems_named(root.children@, "channel"@), |c: XmlNode| channel_of(c)) is Some
}

/// The RSS feed a well-shaped tree decodes to.
pub open spec fn rss_of(root: XmlNode) -> QueueFeedRssResponseView
    recommends
        rss_ok(root),
{
    QueueFeedRssResponseView {
        channel: seq_decode(
            elems_named(root.children@, "channel"@),
            |c: XmlNode| channel_of(c),
        )->Some_0,
    }
}

/// Decode one item of an RSS channel.
pub fn decode_item(n: &XmlNode) -> (r: Result<QueueFeedRssItemsItem, String>)
    ensures
        r is Ok <==> item_of(*n) is Some,
        r matches Ok(it) ==> item_of(*n) == Some(it@),
{
    let title = xml_field(n, "title")?;
    let link = xml_field(n, "link")?;
    let guid = xml_field(n, "guid")?;
    let pub_date = xml_field(n, "pubDate")?;
    let description = xml_field(n, "description")?;
    let date = xml_field(n, "date")?;
    Ok(QueueFeedRssItemsItem { title, link, guid, pub_date, description, date })
}

/// Decode one RSS channel: its own fields and every `item` child in
/// document order; a channel without `item` children decodes to the empty
/// sequence, never a failure.
pub fn decode_channel(root: &XmlNode) -> (r: Result<QueueFeedRssChannel, String>)
    ensures
        r is Ok <==> channel_of(*root) is Some,
        r matches Ok(c) ==> channel_of(*root) == Some(c@),
{
    let title = xml_field(root, "title")?;
    let link = xml_field(root, "link")?;
    let description = xml_field(root, "description")?;
    let cs = &root.children;
    let n = cs.len();
    let mut out: Vec<QueueFeedRssItemsItem> = Vec::new();
    let mut i: usize = 0;
    while i < n
        invariant
            n == cs.len(),
            i <= n,
            cs@ == root.children@,
            seq_decode(elems_named(cs@.take(i as int), "item"@), |it: XmlNode| item_of(it))
                == Some(views_of(out@)),
        decreases n - i,
    {
        proof {
            lemma_elems_named_snoc(cs@, "item"@, i as int);
        }
        match &cs[i] {
            XmlChild::Elem(e) => {
                if e.name.as_str().eq("item") {
                    match decode_item(e) {
                        Ok(it) => {
                            let ghost prev_elems = elems_named(cs@.take(i as int), "item"@);
                            let ghost prev = out@;
                            out.push(it);
                            proof {
                                let elems = elems_named(cs@.take(i as int + 1), "item"@);
                                assert(elems == prev_elems.push(*e));
                                assert(elems.drop_last() =~= prev_elems);
                                assert(views_of(out@) =~= views_of(prev).push(it@));
                            }
                        },
                        Err(err) => {
                            proof {
                                lemma_elems_named_take_prefix(cs@, "item"@, i as int + 1);
                                let elems = elems_named(cs@.take(i as int + 1), "item"@);
                                let k = elems.len() - 1;
                                assert(elems_named(cs@, "item"@)[k] == *e);
                                lemma_seq_decode_none(
                                    elems_named(cs@, "item"@),
                                    |it: XmlNode| item_of(it),
                                    k,
                                );
                            }
                            return Err(err);
                        },
                    }
                }
            },
            _ => {},
        }
        i += 1;
    }
    proof {
        assert(cs@.take(n as int) =~= cs@);
    }
    Ok(QueueFeedRssChannel { feed: out, title, link, description })
}

/// Decode an RSS feed: every `channel` child in document order; a feed
/// without `channel` children decodes to the empty sequence, never a
/// failure.
pub fn decode_rss(root: &XmlNode) -> (r: Result<QueueFeedRssResponse, String>)
    ensures
        r is Ok <==> rss_ok(*root),
        r matches Ok(p) ==> p@ == rss_of(*root),
{
    let cs = &root.children;
    let n = cs.len();
    let mut out: Vec<QueueFeedRssChannel> = Vec::new();
    let mut i: usize = 0;
    while i < n
        invariant
            n == cs.len(),
            i <= n,
            cs@ == root.children@,
            seq_decode(elems_named(cs@.take(i as int), "channel"@), |c: XmlNode| channel_of(c))
                == Some(views_of(out@)),
        decreases n - i,
    {
        proof {
            lemma_elems_named_snoc(cs@, "channel"@, i as int);
        }
        match &cs[i] {
            XmlChild::Elem(e) => {
                if e.name.as_str().eq("channel") {
                    match decode_channel(e) {
                        Ok(c) => {
                            let ghost prev_elems = elems_named(cs@.take(i as int), "channel"@);
                            let ghost prev = out@;
                            out.push(c);
                            proof {
                                let elems = elems_named(cs@.take(i as int + 1), "channel"@);
                                assert(elems == prev_elems.push(*e));
                                assert(elems.drop_last() =~= prev_elems);
                                assert(views_of(out@) =~= views_of(prev).push(c@));
                            }
                        },
                        Err(err) => {
                            proof {
                                lemma_elems_named_take_prefix(cs@, "channel"@, i as int + 1);
                                let elems = elems_named(cs@.take(i as int + 1), "channel"@);
                                let k = elems.len() - 1;
                                assert(elems_named(cs@, "channel"@)[k] == *e);
                                lemma_seq_decode_none(
                                    elems_named(cs@, "channel"@),
                                    |c: XmlNode| channel_of(c),
                                    k,
                                );
                            }
                            return Err(err);
                        },
                    }
                }
            },
            _ => {},
        }
        i += 1;
    }
    proof {
        assert(cs@.take(n as int) =~= cs@);
    }
    Ok(QueueFeedRssResponse { channel: out })
}

} // verus!
