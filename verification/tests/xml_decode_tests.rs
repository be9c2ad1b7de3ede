use amqmon::catalog::{ResourceKind, WireFormat};
use amqmon::dispatch::{decode_response, DecodeFailure, ResponseType};
use amqmon::xml::{XmlNode, XmlChild};
use amqmon::decode_xml::decode_summary;
use amqmon::payloads::{QueuesResponse, TopicsResponse, SubscribersResponse, QueueBrowseResponse};

const QUEUES_XML: &str = r#"<queues>
  <queue name="Q1">
    <stats size="3" consumerCount="1" enqueueCount="10" dequeueCount="7"/>
    <feed>
      <atom>queueBrowse/Q1?view=rss&amp;feedType=atom_1.0</atom>
      <rss>queueBrowse/Q1?view=rss&amp;feedType=rss_2.0</rss>
    </feed>
  </queue>
  <queue name="Q2">
    <stats size="0" consumerCount="0" enqueueCount="0" dequeueCount="0"/>
    <feed>
      <atom>queueBrowse/Q2?view=rss&amp;feedType=atom_1.0</atom>
      <rss>queueBrowse/Q2?view=rss&amp;feedType=rss_2.0</rss>
    </feed>
  </queue>
</queues>"#;

const TOPICS_XML: &str = r#"<topics>
  <topic name="ActiveMQ.Advisory.MasterBroker">
    <stats size="0" consumerCount="0" enqueueCount="1" dequeueCount="0"/>
  </topic>
</topics>"#;

const SUBSCRIBERS_XML: &str = r#"<subscribers>
  <subscriber clientId="c1" subscriptionName="s1" connectionId="conn1"
              destinationName="Q1" selector="colour = 'red'" active="true">
    <stats pendingQueueSize="0" dispatchedQueueSize="1" dispatchedCounter="2"
           enqueueCounter="3" dequeueCounter="4"/>
  </subscriber>
</subscribers>"#;

const BROWSE_XML: &str = r#"<messages>
  <message id="ID:host-1-m1"/>
  <message id="ID:host-1-m2"/>
</messages>"#;

const ATOM_XML: &str = r#"<feed xmlns="http://www.w3.org/2005/Atom">
  <title>Browse Q1</title>
  <link rel="alternate" href="http://localhost:8161/admin/browse.jsp?JMSDestination=Q1"/>
  <subtitle>Messages in queue Q1</subtitle>
  <entry>
    <title>ID:host-1-m1</title>
    <link rel="alternate" href="http://localhost:8161/admin/message.jsp?id=ID:host-1-m1"/>
    <author>
      <name>ActiveMQ</name>
    </author>
    <updated>2020-01-01T00:00:00Z</updated>
    <published>2020-01-01T00:00:00Z</published>
    <summary type="text/plain">Hello</summary>
    <date>2020-01-01</date>
  </entry>
</feed>"#;

const RSS_XML: &str = r#"<rss version="2.0">
  <channel>
    <title>Browse Q1</title>
    <link>http://localhost:8161/admin/browse.jsp?JMSDestination=Q1</link>
    <description>Messages in queue Q1</description>
    <item>
      <title>ID:host-1-m1</title>
      <link>http://localhost:8161/admin/message.jsp?id=ID:host-1-m1</link>
      <guid>ID:host-1-m1</guid>
      <pubDate>Wed, 01 Jan 2020 00:00:00 GMT</pubDate>
      <description>Hello</description>
      <date>2020-01-01</date>
    </item>
  </channel>
</rss>"#;

fn decode_queues_text(text: &str) -> Result<QueuesResponse, DecodeFailure> {
    match decode_response(ResourceKind::Queues, text)? {
        ResponseType::Queues(p) => Ok(p),
        other => panic!("wrong tag: {:?}", other),
    }
}

fn decode_topics_text(text: &str) -> Result<TopicsResponse, DecodeFailure> {
    match decode_response(ResourceKind::Topics, text)? {
        ResponseType::Topics(p) => Ok(p),
        other => panic!("wrong tag: {:?}", other),
    }
}

fn decode_subscribers_text(text: &str) -> Result<SubscribersResponse, DecodeFailure> {
    match decode_response(ResourceKind::Subscribers, text)? {
        ResponseType::Subscribers(p) => Ok(p),
        other => panic!("wrong tag: {:?}", other),
    }
}

fn decode_browse_text(text: &str) -> Result<QueueBrowseResponse, DecodeFailure> {
    match decode_response(ResourceKind::QueueBrowse, text)? {
        ResponseType::QueueBrowse(p) => Ok(p),
        other => panic!("wrong tag: {:?}", other),
    }
}

#[test]
fn queues_fixture_decodes_exactly() {
    let p = decode_queues_text(QUEUES_XML).unwrap();
    assert_eq!(p.queues.len(), 2);
    assert_eq!(p.queues[0].name, "Q1");
    assert_eq!(p.queues[0].stats.size, 3);
    assert_eq!(p.queues[0].stats.consumer_count, 1);
    assert_eq!(p.queues[0].stats.enqueue_count, 10);
    assert_eq!(p.queues[0].stats.dequeue_count, 7);
    assert_eq!(p.queues[0].feed.atom, "queueBrowse/Q1?view=rss&feedType=atom_1.0");
    assert_eq!(p.queues[0].feed.rss, "queueBrowse/Q1?view=rss&feedType=rss_2.0");
    assert_eq!(p.queues[1].name, "Q2");
    assert_eq!(p.queues[1].stats.size, 0);
}

// absence of the repeated element yields an empty sequence, not a failure
#[test]
fn queues_without_queue_elements_decode_empty() {
    let p = decode_queues_text("<queues></queues>").unwrap();
    assert_eq!(p.queues.len(), 0);
}

#[test]
fn other_listings_without_elements_decode_empty() {
    assert_eq!(decode_topics_text("<topics/>").unwrap().topics.len(), 0);
    assert_eq!(decode_subscribers_text("<subscribers/>").unwrap().subscribers.len(), 0);
    assert_eq!(decode_browse_text("<messages/>").unwrap().messages.len(), 0);
}

#[test]
fn topics_fixture_decodes_exactly() {
    let p = decode_topics_text(TOPICS_XML).unwrap();
    assert_eq!(p.topics.len(), 1);
    assert_eq!(p.topics[0].name, "ActiveMQ.Advisory.MasterBroker");
    assert_eq!(p.topics[0].stats.enqueue_count, 1);
}

#[test]
fn subscribers_fixture_decodes_exactly() {
    let p = decode_subscribers_text(SUBSCRIBERS_XML).unwrap();
    assert_eq!(p.subscribers.len(), 1);
    let s = &p.subscribers[0];
    assert_eq!(s.client_id, "c1");
    assert_eq!(s.subscription_name, "s1");
    assert_eq!(s.connection_id, "conn1");
    assert_eq!(s.destination_name, "Q1");
    assert_eq!(s.selector, "colour = 'red'");
    assert_eq!(s.active, "true");
    assert_eq!(s.stats.pending_queue_size, 0);
    assert_eq!(s.stats.dispatched_queue_size, 1);
    assert_eq!(s.stats.dispatched_counter, 2);
    assert_eq!(s.stats.enqueue_counter, 3);
    assert_eq!(s.stats.dequeue_counter, 4);
}

#[test]
fn browse_fixture_decodes_exactly() {
    let p = decode_browse_text(BROWSE_XML).unwrap();
    assert_eq!(p.messages.len(), 2);
    assert_eq!(p.messages[0].id, "ID:host-1-m1");
    assert_eq!(p.messages[1].id, "ID:host-1-m2");
}

// mixed content: the attribute and the node's own text are two fields
#[test]
fn summary_mixed_content_decodes_both_fields() {
    let n = XmlNode {
        name: String::from("summary"),
        attrs: vec![(String::from("type"), String::from("text/plain"))],
        children: vec![XmlChild::Text(String::from("Hello"))],
    };
    let s = decode_summary(&n).unwrap();
    assert_eq!(s.summary_type, "text/plain");
    assert_eq!(s.value, "Hello");
}

#[test]
fn atom_fixture_decodes_exactly() {
    match decode_response(ResourceKind::QueueFeedAtom, ATOM_XML).unwrap() {
        ResponseType::QueueFeedAtom(p) => {
            assert_eq!(p.title, "Browse Q1");
            assert_eq!(p.link.rel, "alternate");
            assert_eq!(
                p.link.href,
                "http://localhost:8161/admin/browse.jsp?JMSDestination=Q1"
            );
            assert_eq!(p.subtitle, "Messages in queue Q1");
            assert_eq!(p.feed.len(), 1);
            let e = &p.feed[0];
            assert_eq!(e.title, "ID:host-1-m1");
            assert_eq!(e.author.name, "ActiveMQ");
            assert_eq!(e.updated, "2020-01-01T00:00:00Z");
            assert_eq!(e.published, "2020-01-01T00:00:00Z");
            assert_eq!(e.summary.summary_type, "text/plain");
            assert_eq!(e.summary.value, "Hello");
            assert_eq!(e.date, "2020-01-01");
        },
        other => panic!("wrong tag: {:?}", other),
    }
}

#[test]
fn rss_fixture_decodes_exactly() {
    match decode_response(ResourceKind::QueueFeedRss, RSS_XML).unwrap() {
        ResponseType::QueueFeedRss(p) => {
            assert_eq!(p.channel.len(), 1);
            let c = &p.channel[0];
            assert_eq!(c.title, "Browse Q1");
            assert_eq!(c.description, "Messages in queue Q1");
            assert_eq!(c.feed.len(), 1);
            let it = &c.feed[0];
            assert_eq!(it.title, "ID:host-1-m1");
            assert_eq!(it.guid, "ID:host-1-m1");
            assert_eq!(it.pub_date, "Wed, 01 Jan 2020 00:00:00 GMT");
            assert_eq!(it.description, "Hello");
            assert_eq!(it.date, "2020-01-01");
        },
        other => panic!("wrong tag: {:?}", other),
    }
}

// an RSS feed without channels, and a channel without items, decode empty
#[test]
fn rss_empty_levels_decode_empty() {
    match decode_response(ResourceKind::QueueFeedRss, "<rss version=\"2.0\"/>").unwrap() {
        ResponseType::QueueFeedRss(p) => assert_eq!(p.channel.len(), 0),
        other => panic!("wrong tag: {:?}", other),
    }
    let no_items = r#"<rss><channel><title>t</title><link>l</link><description>d</description></channel></rss>"#;
    match decode_response(ResourceKind::QueueFeedRss, no_items).unwrap() {
        ResponseType::QueueFeedRss(p) => {
            assert_eq!(p.channel.len(), 1);
            assert_eq!(p.channel[0].feed.len(), 0);
        },
        other => panic!("wrong tag: {:?}", other),
    }
}

// a malformed numeric attribute is a decode failure, never a zero
#[test]
fn malformed_xml_number_is_rejected() {
    let text = QUEUES_XML.replace("size=\"3\"", "size=\"lots\"");
    assert!(decode_queues_text(&text).is_err());
    let over = QUEUES_XML.replace("size=\"3\"", "size=\"99999999999999999999999999\"");
    assert!(decode_queues_text(&over).is_err());
    let signed = QUEUES_XML.replace("size=\"3\"", "size=\"-1\"");
    assert!(decode_queues_text(&signed).is_err());
    let empty = QUEUES_XML.replace("size=\"3\"", "size=\"\"");
    assert!(decode_queues_text(&empty).is_err());
}

// text that is not XML at all is a decode failure naming the kind and format
#[test]
fn unparsable_xml_is_rejected() {
    let f = decode_queues_text("<queues>").unwrap_err();
    assert_eq!(f.kind, ResourceKind::Queues);
    assert_eq!(f.format, WireFormat::Xml);
}

// decoding the same raw text against the same schema twice yields
// value-equal results
#[test]
fn xml_decoding_is_deterministic() {
    let a = decode_response(ResourceKind::Queues, QUEUES_XML).unwrap();
    let b = decode_response(ResourceKind::Queues, QUEUES_XML).unwrap();
    assert_eq!(a, b);
}
