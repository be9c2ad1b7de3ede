//! The typed payloads of the management surface, one per resource kind, and
//! the mathematical view of each.
//!
//! Every payload is an immutable value object populated entirely by
//! decoding. A type whose fields are all fixed-width integers is its own
//! view; every other type views as a structurally equal record over `Seq`.

use vstd::prelude::*;

verus! {

// ---------------------------------------------------------------------------
// API version (JSON)
// ---------------------------------------------------------------------------
#[derive(Debug, Clone, PartialEq)]
pub struct VersionResponse {
    pub request: VersionRequest,
    pub status: i32,
    pub timestamp: u64,
    pub value: VersionValue,
}

#[derive(Debug, Clone, PartialEq)]
pub struct VersionRequest {
    pub request_type: String,
}

#[derive(Debug, Clone, PartialEq)]
pub struct VersionValue {
    pub agent: String,
    pub protocol: String,
    pub config: VersionValueConfig,
    pub info: VersionValueInfo,
}

#[derive(Debug, Clone, PartialEq)]
pub struct VersionValueConfig {
    pub agent_id: String,
    pub agent_type: String,
    pub allow_error_details: String,
}

#[derive(Debug, Clone, PartialEq)]
pub struct VersionValueInfo {
    pub product: String,
    pub vendor: String,
    pub version: String,
}

pub struct VersionResponseView {
    pub request: VersionRequestView,
    pub status: i32,
    pub timestamp: u64,
    pub value: VersionValueView,
}

pub struct VersionRequestView {
    pub request_type: Seq<char>,
}

pub struct VersionValueView {
    pub agent: Seq<char>,
    pub protocol: Seq<char>,
    pub config: VersionValueConfigView,
    pub info: VersionValueInfoView,
}

pub struct VersionValueConfigView {
    pub agent_id: Seq<char>,
    pub agent_type: Seq<char>,
    pub allow_error_details: Seq<char>,
}

pub struct VersionValueInfoView {
    pub product: Seq<char>,
    pub vendor: Seq<char>,
    pub version: Seq<char>,
}

impl View for VersionRequest {
    type V = VersionRequestView;

    open spec fn view(&self) -> VersionRequestView {
        VersionRequestView { request_type: self.request_type@ }
    }
}

impl View for VersionValueConfig {
    type V = VersionValueConfigView;

    open spec fn view(&self) -> VersionValueConfigView {
        VersionValueConfigView {
            agent_id: self.agent_id@,
            agent_type: self.agent_type@,
            allow_error_details: self.allow_error_details@,
        }
    }
}

impl View for VersionValueInfo {
    type V = VersionValueInfoView;

    open spec fn view(&self) -> VersionValueInfoView {
        VersionValueInfoView {
            product: self.product@,
            vendor: self.vendor@,
            version: self.version@,
        }
    }
}

impl View for VersionValue {
    type V = VersionValueView;

    open spec fn view(&self) -> VersionValueView {
        VersionValueView {
            agent: self.agent@,
            protocol: self.protocol@,
            config: self.config@,
            info: self.info@,
        }
    }
}

impl View for VersionResponse {
    type V = VersionResponseView;

    open spec fn view(&self) -> VersionResponseView {
        VersionResponseView {
            request: self.request@,
            status: self.status,
            timestamp: self.timestamp,
            value: self.value@,
        }
    }
}

// ---------------------------------------------------------------------------
// Heap memory usage (JSON)
// ---------------------------------------------------------------------------
#[derive(Debug, Clone, PartialEq)]
pub struct HeapMemoryUsageResponse {
    pub request: HeapMemoryUsageRequest,
    pub status: i32,
    pub timestamp: u64,
    pub value: HeapMemoryUsageValue,
}

#[derive(Debug, Clone, PartialEq)]
pub struct HeapMemoryUsageRequest {
    pub mbean: String,
    pub attribute: String,
    pub request_type: String,
}

#[derive(Debug, Clone, Copy, PartialEq, Eq, Structural)]
pub struct HeapMemoryUsageValue {
    pub init: usize,
    pub committed: usize,
    pub max: usize,
    pub used: usize,
}

pub struct HeapMemoryUsageResponseView {
    pub request: HeapMemoryUsageRequestView,
    pub status: i32,
    pub timestamp: u64,
    pub value: HeapMemoryUsageValue,
}

pub struct HeapMemoryUsageRequestView {
    pub mbean: Seq<char>,
    pub attribute: Seq<char>,
    pub request_type: Seq<char>,
}

impl View for HeapMemoryUsageRequest {
    type V = HeapMemoryUsageRequestView;

    open spec fn view(&self) -> HeapMemoryUsageRequestView {
        HeapMemoryUsageRequestView {
            mbean: self.mbean@,
            attribute: self.attribute@,
            request_type: self.request_type@,
        }
    }
}

impl View for HeapMemoryUsageResponse {
    type V = HeapMemoryUsageResponseView;

    open spec fn view(&self) -> HeapMemoryUsageResponseView {
        HeapMemoryUsageResponseView {
            request: self.request@,
            status: self.status,
            timestamp: self.timestamp,
            value: self.value,
        }
    }
}

// ---------------------------------------------------------------------------
// Broker (JSON)
// ---------------------------------------------------------------------------
#[derive(Debug, Clone, PartialEq)]
pub struct BrokerResponse {
    pub request: BrokerRequest,
    pub value: BrokerValue,
    pub timestamp: u64,
    pub status: i32,
}

#[derive(Debug, Clone, PartialEq)]
pub struct BrokerRequest {
    pub mbean: String,
    pub request_type: String,
}

/// A JMX object reference among the broker's collection metrics.
#[derive(Debug, Clone, PartialEq)]
pub struct Object {
    pub object_name: String,
}

#[derive(Debug, Clone, PartialEq)]
pub struct TransportConnector {
    pub amqp: String,
    pub mqtt: String,
    pub openwire: String,
    pub stomp: String,
    pub ws: String,
}

#[derive(Debug, Clone, PartialEq)]
pub struct BrokerValue {
    pub average_message_size: u64,
    pub broker_id: String,
    pub broker_name: String,
    pub broker_version: String,
    pub current_connections_count: u16,
    pub data_directory: String,
    pub durable_topic_subscribers: Vec<Object>,
    pub dynamic_destination_producers: Vec<Object>,
    pub inactive_durable_topic_subscribers: Vec<Object>,
    pub jms_job_scheduler: Option<String>,
    pub job_scheduler_store_limit: u64,
    pub job_scheduler_store_percent_usage: u8,
    pub max_message_size: u64,
    pub memory_limit: u64,
    pub memory_percent_usage: u8,
    pub min_message_size: u16,
    pub persistent: bool,
    pub queue_producers: Vec<Object>,
    pub queue_subscribers: Vec<Object>,
    pub queues: Vec<Object>,
    pub slave: bool,
    pub statistics_enabled: bool,
    pub store_limit: u64,
    pub store_percent_usage: u8,
    pub temp_limit: u64,
    pub temp_percent_usage: u8,
    pub temporary_queue_producers: Vec<Object>,
    pub temporary_queue_subscribers: Vec<Object>,
    pub temporary_queues: Vec<Object>,
    pub temporary_topic_producers: Vec<Object>,
    pub temporary_topic_subscribers: Vec<Object>,
    pub temporary_topics: Vec<Object>,
    pub topic_producers: Vec<Object>,
    pub topic_subscribers: Vec<Object>,
    pub topics: Vec<Object>,
    pub total_connections_count: u64,
    pub total_consumer_count: u16,
    pub total_dequeue_count: u64,
    pub total_enqueue_count: u64,
    pub total_message_count: u64,
    pub total_producer_count: u64,
    pub transport_connectors: TransportConnector,
    pub uptime: String,
    pub uptime_millis: u64,
    pub vm_url: String,
}

pub struct BrokerResponseView {
    pub request: BrokerRequestView,
    pub value: BrokerValueView,
    pub timestamp: u64,
    pub status: i32,
}

pub struct BrokerRequestView {
    pub mbean: Seq<char>,
    pub request_type: Seq<char>,
}

pub struct ObjectView {
    pub object_name: Seq<char>,
}

pub struct TransportConnectorView {
    pub amqp: Seq<char>,
    pub mqtt: Seq<char>,
    pub openwire: Seq<char>,
    pub stomp: Seq<char>,
    pub ws: Seq<char>,
}

pub struct BrokerValueView {
    pub average_message_size: u64,
    pub broker_id: Seq<char>,
    pub broker_name: Seq<char>,
    pub broker_version: Seq<char>,
    pub current_connections_count: u16,
    pub data_directory: Seq<char>,
    pub durable_topic_subscribers: Seq<ObjectView>,
    pub dynamic_destination_producers: Seq<ObjectView>,
    pub inactive_durable_topic_subscribers: Seq<ObjectView>,
    pub jms_job_scheduler: Option<Seq<char>>,
    pub job_scheduler_store_limit: u64,
    pub job_scheduler_store_percent_usage: u8,
    pub max_message_size: u64,
    pub memory_limit: u64,
    pub memory_percent_usage: u8,
    pub min_message_size: u16,
    pub persistent: bool,
    pub queue_producers: Seq<ObjectView>,
    pub queue_subscribers: Seq<ObjectView>,
    pub queues: Seq<ObjectView>,
    pub slave: bool,
    pub statistics_enabled: bool,
    pub store_limit: u64,
    pub store_percent_usage: u8,
    pub temp_limit: u64,
    pub temp_percent_usage: u8,
    pub temporary_queue_producers: Seq<ObjectView>,
    pub temporary_queue_subscribers: Seq<ObjectView>,
    pub temporary_queues: Seq<ObjectView>,
    pub temporary_topic_producers: Seq<ObjectView>,
    pub temporary_topic_subscribers: Seq<ObjectView>,
    pub temporary_topics: Seq<ObjectView>,
    pub topic_producers: Seq<ObjectView>,
    pub topic_subscribers: Seq<ObjectView>,
    pub topics: Seq<ObjectView>,
    pub total_connections_count: u64,
    pub total_consumer_count: u16,
    pub total_dequeue_count: u64,
    pub total_enqueue_count: u64,
    pub total_message_count: u64,
    pub total_producer_count: u64,
    pub transport_connectors: TransportConnectorView,
    pub uptime: Seq<char>,
    pub uptime_millis: u64,
    pub vm_url: Seq<char>,
}

impl View for BrokerRequest {
    type V = BrokerRequestView;

    open spec fn view(&self) -> BrokerRequestView {
        BrokerRequestView { mbean: self.mbean@, request_type: self.request_type@ }
    }
}

impl View for Object {
    type V = ObjectView;

    open spec fn view(&self) -> ObjectView {
        ObjectView { object_name: self.object_name@ }
    }
}

impl View for TransportConnector {
    type V = TransportConnectorView;

    open spec fn view(&self) -> TransportConnectorView {
        TransportConnectorView {
            amqp: self.amqp@,
            mqtt: self.mqtt@,
            openwire: self.openwire@,
            stomp: self.stomp@,
            ws: self.ws@,
        }
    }
}

/// The views of a sequence of values, elementwise.
pub open spec fn views_of<T: View>(s: Seq<T>) -> Seq<T::V> {
    s.map_values(|x: T| x@)
}

impl View for BrokerValue {
    type V = BrokerValueView;

    open spec fn view(&self) -> BrokerValueView {
        BrokerValueView {
            average_message_size: self.average_message_size,
            broker_id: self.broker_id@,
            broker_name: self.broker_name@,
            broker_version: self.broker_version@,
            current_connections_count: self.current_connections_count,
            data_directory: self.data_directory@,
            durable_topic_subscribers: views_of(self.durable_topic_subscribers@),
            dynamic_destination_producers: views_of(self.dynamic_destination_producers@),
            inactive_durable_topic_subscribers: views_of(self.inactive_durable_topic_subscribers@),
            jms_job_scheduler: match self.jms_job_scheduler {
                Some(s) => Some(s@),
                None => None,
            },
            job_scheduler_store_limit: self.job_scheduler_store_limit,
            job_scheduler_store_percent_usage: self.job_scheduler_store_percent_usage,
            max_message_size: self.max_message_size,
            memory_limit: self.memory_limit,
            memory_percent_usage: self.memory_percent_usage,
            min_message_size: self.min_message_size,
            persistent: self.persistent,
            queue_producers: views_of(self.queue_producers@),
            queue_subscribers: views_of(self.queue_subscribers@),
            queues: views_of(self.queues@),
            slave: self.slave,
            statistics_enabled: self.statistics_enabled,
            store_limit: self.store_limit,
            store_percent_usage: self.store_percent_usage,
            temp_limit: self.temp_limit,
            temp_percent_usage: self.temp_percent_usage,
            temporary_queue_producers: views_of(self.temporary_queue_producers@),
            temporary_queue_subscribers: views_of(self.temporary_queue_subscribers@),
            temporary_queues: views_of(self.temporary_queues@),
            temporary_topic_producers: views_of(self.temporary_topic_producers@),
            temporary_topic_subscribers: views_of(self.temporary_topic_subscribers@),
            temporary_topics: views_of(self.temporary_topics@),
            topic_producers: views_of(self.topic_producers@),
            topic_subscribers: views_of(self.topic_subscribers@),
            topics: views_of(self.topics@),
            total_connections_count: self.total_connections_count,
            total_consumer_count: self.total_consumer_count,
            total_dequeue_count: self.total_dequeue_count,
            total_enqueue_count: self.total_enqueue_count,
            total_message_count: self.total_message_count,
            total_producer_count: self.total_producer_count,
            transport_connectors: self.transport_connectors@,
            uptime: self.uptime@,
            uptime_millis: self.uptime_millis,
            vm_url: self.vm_url@,
        }
    }
}

impl View for BrokerResponse {
    type V = BrokerResponseView;

    open spec fn view(&self) -> BrokerResponseView {
        BrokerResponseView {
            request: self.request@,
            value: self.value@,
            timestamp: self.timestamp,
            status: self.status,
        }
    }
}

// ---------------------------------------------------------------------------
// Queues (XML)
// ---------------------------------------------------------------------------
#[derive(Debug, Clone, PartialEq)]
pub struct QueuesResponse {
    pub queues: Vec<QueuesQueue>,
}

#[derive(Debug, Clone, PartialEq)]
pub struct QueuesQueue {
    pub name: String,
    pub stats: QueuesQueueStats,
    pub feed: QueuesQueueFeed,
}

#[derive(Debug, Clone, Copy, PartialEq, Eq, Structural)]
pub struct QueuesQueueStats {
    pub size: usize,
    pub consumer_count: usize,
    pub enqueue_count: usize,
    pub dequeue_count: usize,
}

#[derive(Debug, Clone, PartialEq)]
pub struct QueuesQueueFeed {
    pub atom: String,
    pub rss: String,
}

pub struct QueuesResponseView {
    pub queues: Seq<QueuesQueueView>,
}

pub struct QueuesQueueView {
    pub name: Seq<char>,
    pub stats: QueuesQueueStats,
    pub feed: QueuesQueueFeedView,
}

pub struct QueuesQueueFeedView {
    pub atom: Seq<char>,
    pub rss: Seq<char>,
}

impl View for QueuesQueueFeed {
    type V = QueuesQueueFeedView;

    open spec fn view(&self) -> QueuesQueueFeedView {
        QueuesQueueFeedView { atom: self.atom@, rss: self.rss@ }
    }
}

impl View for QueuesQueue {
    type V = QueuesQueueView;

    open spec fn view(&self) -> QueuesQueueView {
        QueuesQueueView { name: self.name@, stats: self.stats, feed: self.feed@ }
    }
}

impl View for QueuesResponse {
    type V = QueuesResponseView;

    open spec fn view(&self) -> QueuesResponseView {
        QueuesResponseView { queues: views_of(self.queues@) }
    }
}

// ---------------------------------------------------------------------------
// Topics (XML)
// ---------------------------------------------------------------------------
#[derive(Debug, Clone, PartialEq)]
pub struct TopicsResponse {
    pub topics: Vec<TopicsTopic>,
}

#[derive(Debug, Clone, PartialEq)]
pub struct TopicsTopic {
    pub name: String,
    pub stats: TopicsTopicStats,
}

#[derive(Debug, Clone, Copy, PartialEq, Eq, Structural)]
pub struct TopicsTopicStats {
    pub size: usize,
    pub consumer_count: usize,
    pub enqueue_count: usize,
    pub dequeue_count: usize,
}

pub struct TopicsResponseView {
    pub topics: Seq<TopicsTopicView>,
}

pub struct TopicsTopicView {
    pub name: Seq<char>,
    pub stats: TopicsTopicStats,
}

impl View for TopicsTopic {
    type V = TopicsTopicView;

    open spec fn view(&self) -> TopicsTopicView {
        TopicsTopicView { name: self.name@, stats: self.stats }
    }
}

impl View for TopicsResponse {
    type V = TopicsResponseView;

    open spec fn view(&self) -> TopicsResponseView {
        TopicsResponseView { topics: views_of(self.topics@) }
    }
}

// ---------------------------------------------------------------------------
// Subscribers (XML)
// ---------------------------------------------------------------------------
#[derive(Debug, Clone, PartialEq)]
pub struct SubscribersResponse {
    pub subscribers: Vec<SubscribersSubscriber>,
}

#[derive(Debug, Clone, PartialEq)]
pub struct SubscribersSubscriber {
    pub client_id: String,
    pub subscription_name: String,
    pub connection_id: String,
    pub destination_name: String,
    pub selector: String,
    pub active: String,
    pub stats: SubscribersSubscriberStats,
}

#[derive(Debug, Clone, Copy, PartialEq, Eq, Structural)]
pub struct SubscribersSubscriberStats {
    pub pending_queue_size: usize,
    pub dispatched_queue_size: usize,
    pub dispatched_counter: usize,
    pub enqueue_counter: usize,
    pub dequeue_counter: usize,
}

pub struct SubscribersResponseView {
    pub subscribers: Seq<SubscribersSubscriberView>,
}

pub struct SubscribersSubscriberView {
    pub client_id: Seq<char>,
    pub subscription_name: Seq<char>,
    pub connection_id: Seq<char>,
    pub destination_name: Seq<char>,
    pub selector: Seq<char>,
    pub active: Seq<char>,
    pub stats: SubscribersSubscriberStats,
}

impl View for SubscribersSubscriber {
    type V = SubscribersSubscriberView;

    open spec fn view(&self) -> SubscribersSubscriberView {
        SubscribersSubscriberView {
            client_id: self.client_id@,
            subscription_name: self.subscription_name@,
            connection_id: self.connection_id@,
            destination_name: self.destination_name@,
            selector: self.selector@,
            active: self.active@,
            stats: self.stats,
        }
    }
}

impl View for SubscribersResponse {
    type V = SubscribersResponseView;

    open spec fn view(&self) -> SubscribersResponseView {
        SubscribersResponseView { subscribers: views_of(self.subscribers@) }
    }
}

// ---------------------------------------------------------------------------
// Queue browse (XML)
// ---------------------------------------------------------------------------
#[derive(Debug, Clone, PartialEq)]
pub struct QueueBrowseResponse {
    pub messages: Vec<QueueBrowseMessagesMessage>,
}

#[derive(Debug, Clone, PartialEq)]
pub struct QueueBrowseMessagesMessage {
    pub id: String,
}

pub struct QueueBrowseResponseView {
    pub messages: Seq<QueueBrowseMessagesMessageView>,
}

pub struct QueueBrowseMessagesMessageView {
    pub id: Seq<char>,
}

impl View for QueueBrowseMessagesMessage {
    type V = QueueBrowseMessagesMessageView;

    open spec fn view(&self) -> QueueBrowseMessagesMessageView {
        QueueBrowseMessagesMessageView { id: self.id@ }
    }
}

impl View for QueueBrowseResponse {
    type V = QueueBrowseResponseView;

    open spec fn view(&self) -> QueueBrowseResponseView {
        QueueBrowseResponseView { messages: views_of(self.messages@) }
    }
}

// ---------------------------------------------------------------------------
// Queue feed, Atom flavor (XML)
// ---------------------------------------------------------------------------
#[derive(Debug, Clone, PartialEq)]
pub struct QueueFeedAtomResponse {
    pub feed: Vec<QueueFeedAtomEntriesEntry>,
    pub title: String,
    pub link: QueueFeedAtomEntriesEntryLink,
    pub subtitle: String,
}

#[derive(Debug, Clone, PartialEq)]
pub struct QueueFeedAtomEntriesEntry {
    pub title: String,
    pub link: QueueFeedAtomEntriesEntryLink,
    pub author: QueueFeedAtomEntriesEntryAuthor,
    pub updated: String,
    pub published: String,
    pub summary: QueueFeedAtomEntriesEntrySummary,
    pub date: String,
}

#[derive(Debug, Clone, PartialEq)]
pub struct QueueFeedAtomEntriesEntryLink {
    pub rel: String,
    pub href: String,
}

#[derive(Debug, Clone, PartialEq)]
pub struct QueueFeedAtomEntriesEntryAuthor {
    pub name: String,
}

/// A feed entry's summary: mixed content, an attribute and the node's own
/// text kept as two separate fields.
#[derive(Debug, Clone, PartialEq)]
pub struct QueueFeedAtomEntriesEntrySummary {
    pub summary_type: String,
    pub value: String,
}

pub struct QueueFeedAtomResponseView {
    pub feed: Seq<QueueFeedAtomEntriesEntryView>,
    pub title: Seq<char>,
    pub link: QueueFeedAtomEntriesEntryLinkView,
    pub subtitle: Seq<char>,
}

pub struct QueueFeedAtomEntriesEntryView {
    pub title: Seq<char>,
    pub link: QueueFeedAtomEntriesEntryLinkView,
    pub author: QueueFeedAtomEntriesEntryAuthorView,
    pub updated: Seq<char>,
    pub published: Seq<char>,
    pub summary: QueueFeedAtomEntriesEntrySummaryView,
    pub date: Seq<char>,
}

pub struct QueueFeedAtomEntriesEntryLinkView {
    pub rel: Seq<char>,
    pub href: Seq<char>,
}

pub struct QueueFeedAtomEntriesEntryAuthorView {
    pub name: Seq<char>,
}

pub struct QueueFeedAtomEntriesEntrySummaryView {
    pub summary_type: Seq<char>,
    pub value: Seq<char>,
}

impl View for QueueFeedAtomEntriesEntryLink {
    type V = QueueFeedAtomEntriesEntryLinkView;

    open spec fn view(&self) -> QueueFeedAtomEntriesEntryLinkView {
        QueueFeedAtomEntriesEntryLinkView { rel: self.rel@, href: self.href@ }
    }
}

impl View for QueueFeedAtomEntriesEntryAuthor {
    type V = QueueFeedAtomEntriesEntryAuthorView;

    open spec fn view(&self) -> QueueFeedAtomEntriesEntryAuthorView {
        QueueFeedAtomEntriesEntryAuthorView { name: self.name@ }
    }
}

impl View for QueueFeedAtomEntriesEntrySummary {
    type V = QueueFeedAtomEntriesEntrySummaryView;

    open spec fn view(&self) -> QueueFeedAtomEntriesEntrySummaryView {
        QueueFeedAtomEntriesEntrySummaryView {
            summary_type: self.summary_type@,
            value: self.value@,
        }
    }
}

impl View for QueueFeedAtomEntriesEntry {
    type V = QueueFeedAtomEntriesEntryView;

    open spec fn view(&self) -> QueueFeedAtomEntriesEntryView {
        QueueFeedAtomEntriesEntryView {
            title: self.title@,
            link: self.link@,
            author: self.author@,
            updated: self.updated@,
            published: self.published@,
            summary: self.summary@,
            date: self.date@,
        }
    }
}

impl View for QueueFeedAtomResponse {
    type V = QueueFeedAtomResponseView;

    open spec fn view(&self) -> QueueFeedAtomResponseView {
        QueueFeedAtomResponseView {
            feed: views_of(self.feed@),
            title: self.title@,
            link: self.link@,
            subtitle: self.subtitle@,
        }
    }
}

// ---------------------------------------------------------------------------
// Queue feed, RSS flavor (XML)
// ---------------------------------------------------------------------------
#[derive(Debug, Clone, PartialEq)]
pub struct QueueFeedRssResponse {
    pub channel: Vec<QueueFeedRssChannel>,
}

#[derive(Debug, Clone, PartialEq)]
pub struct QueueFeedRssChannel {
    pub feed: Vec<QueueFeedRssItemsItem>,
    pub title: String,
    pub link: String,
    pub description: String,
}

#[derive(Debug, Clone, PartialEq)]
pub struct QueueFeedRssItemsItem {
    pub title: String,
    pub link: String,
    pub guid: String,
    pub pub_date: String,
    pub description: String,
    pub date: String,
}

pub struct QueueFeedRssResponseView {
    pub channel: Seq<QueueFeedRssChannelView>,
}

pub struct QueueFeedRssChannelView {
    pub feed: Seq<QueueFeedRssItemsItemView>,
    pub title: Seq<char>,
    pub link: Seq<char>,
    pub description: Seq<char>,
}

pub struct QueueFeedRssItemsItemView {
    pub title: Seq<char>,
    pub link: Seq<char>,
    pub guid: Seq<char>,
    pub pub_date: Seq<char>,
    pub description: Seq<char>,
    pub date: Seq<char>,
}

impl View for QueueFeedRssItemsItem {
    type V = QueueFeedRssItemsItemView;

    open spec fn view(&self) -> QueueFeedRssItemsItemView {
        QueueFeedRssItemsItemView {
            title: self.title@,
            link: self.link@,
            guid: self.guid@,
            pub_date: self.pub_date@,
            description: self.description@,
            date: self.date@,
        }
    }
}

impl View for QueueFeedRssChannel {
    type V = QueueFeedRssChannelView;

    open spec fn view(&self) -> QueueFeedRssChannelView {
        QueueFeedRssChannelView {
            feed: views_of(self.feed@),
            title: self.title@,
            link: self.link@,
            description: self.description@,
        }
    }
}

impl View for QueueFeedRssResponse {
    type V = QueueFeedRssResponseView;

    open spec fn view(&self) -> QueueFeedRssResponseView {
        QueueFeedRssResponseView { channel: views_of(self.channel@) }
    }
}

} // verus!
