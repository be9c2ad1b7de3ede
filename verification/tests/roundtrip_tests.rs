use amqmon::payloads::{
    HeapMemoryUsageResponse, HeapMemoryUsageRequest, HeapMemoryUsageValue, QueueBrowseResponse,
    QueueBrowseMessagesMessage,
};
use amqmon::encode::{encode_heap, encode_queue_browse};
use amqmon::decode_json::decode_heap;
use amqmon::decode_xml::decode_queue_browse;

// round trip: encoding a sample payload back to its wire tree and decoding
// it again yields an equal value
#[test]
fn heap_round_trips_through_its_json_tree() {
    let p = HeapMemoryUsageResponse {
        request: HeapMemoryUsageRequest {
            mbean: String::from("java.lang:type=Memory"),
            attribute: String::from("HeapMemoryUsage"),
            request_type: String::from("read"),
        },
        status: 200,
        timestamp: 1500000001,
        value: HeapMemoryUsageValue {
            init: 268435456,
            committed: 518979584,
            max: 518979584,
            used: 59662760,
        },
    };
    let tree = encode_heap(&p);
    assert_eq!(decode_heap(&tree).unwrap(), p);
}

#[test]
fn heap_with_negative_status_round_trips() {
    let p = HeapMemoryUsageResponse {
        request: HeapMemoryUsageRequest {
            mbean: String::from("java.lang:type=Memory"),
            attribute: String::from("HeapMemoryUsage"),
            request_type: String::from("read"),
        },
        status: -1,
        timestamp: 0,
        value: HeapMemoryUsageValue { init: 0, committed: 0, max: 0, used: 0 },
    };
    let tree = encode_heap(&p);
    assert_eq!(decode_heap(&tree).unwrap(), p);
}

#[test]
fn queue_browse_round_trips_through_its_xml_tree() {
    let p = QueueBrowseResponse {
        messages: vec![
            QueueBrowseMessagesMessage { id: String::from("ID:host-1-m1") },
            QueueBrowseMessagesMessage { id: String::from("ID:host-1-m2") },
        ],
    };
    let tree = encode_queue_browse(&p);
    assert_eq!(decode_queue_browse(&tree).unwrap(), p);
}

#[test]
fn empty_queue_browse_round_trips() {
    let p = QueueBrowseResponse { messages: Vec::new() };
    let tree = encode_queue_browse(&p);
    assert_eq!(decode_queue_browse(&tree).unwrap(), p);
}
