//! Encoders for test fixtures: build the wire tree a payload would have
//! arrived as, one per wire format.
//!
//! Each encoder carries the round-trip law in its contract: the tree it
//! builds is well-shaped for the payload's kind and decodes back to a value
//! equal to the payload, so encoding a sample payload and decoding it again
//! is proven to yield an equal value.

use vstd::prelude::*;
use vstd::string::*;
use crate::json::{JsonValue, jget, jstr, ji32, ju64, jusize};
use crate::xml::{XmlNode, XmlChild, attr_of, elems_named};
use crate::payloads::{HeapMemoryUsageResponse, QueueBrowseResponse, views_of};
use crate::decode_json::{heap_ok, heap_of};
use crate::decode_xml::{queue_browse_ok, queue_browse_of, message_of};
use crate::xml::lemma_elems_named_snoc;
use crate::util::{lemma_lookup_pairs_index, seq_decode};

verus! {

/// Encode a heap memory payload back to its JSON tree. The tree is
/// well-shaped and decodes to a value equal to the payload: the round trip
/// through `decode_heap` is the identity.
pub fn encode_heap(p: &HeapMemoryUsageResponse) -> (j: JsonValue)
    ensures
        heap_ok(j),
        heap_of(j) == p@,
{
    let mut req_fields: Vec<(String, JsonValue)> = Vec::new();
    req_fields.push((String::from_str("mbean"), JsonValue::Str(p.request.mbean.clone())));
    req_fields.push((String::from_str("attribute"), JsonValue::Str(p.request.attribute.clone())));
    req_fields.push((String::from_str("type"), JsonValue::Str(p.request.request_type.clone())));
    let ghost grf = req_fields@;
    let req = JsonValue::Obj(req_fields);
    let ghost greq = req;
    let mut val_fields: Vec<(String, JsonValue)> = Vec::new();
    val_fields.push((String::from_str("init"), JsonValue::UInt(p.value.init as u64)));
    val_fields.push((String::from_str("committed"), JsonValue::UInt(p.value.committed as u64)));
    val_fields.push((String::from_str("max"), JsonValue::UInt(p.value.max as u64)));
    val_fields.push((String::from_str("used"), JsonValue::UInt(p.value.used as u64)));
    let ghost gvf = val_fields@;
    let val = JsonValue::Obj(val_fields);
    let ghost gval = val;
    let status_j = if p.status >= 0 {
        JsonValue::UInt(p.status as u64)
    } else {
        JsonValue::Int(p.status as i64)
    };
    let ghost gstatus = status_j;
    let mut fields: Vec<(String, JsonValue)> = Vec::new();
    fields.push((String::from_str("request"), req));
    fields.push((String::from_str("status"), status_j));
    fields.push((String::from_str("timestamp"), JsonValue::UInt(p.timestamp)));
    fields.push((String::from_str("value"), val));
    let ghost gf = fields@;
    let j = JsonValue::Obj(fields);
    proof {
        reveal_strlit("mbean");
        reveal_strlit("attribute");
        reveal_strlit("type");
        reveal_strlit("init");
        reveal_strlit("committed");
        reveal_strlit("max");
        reveal_strlit("used");
        reveal_strlit("request");
        reveal_strlit("status");
        reveal_strlit("timestamp");
        reveal_strlit("value");
        assert(grf.len() == 3);
        assert(grf[0].0@ == "mbean"@);
        assert(grf[1].0@ == "attribute"@);
        assert(grf[2].0@ == "type"@);
        assert(gvf.len() == 4);
        assert(gvf[0].0@ == "init"@);
        assert(gvf[1].0@ == "committed"@);
        assert(gvf[2].0@ == "max"@);
        assert(gvf[3].0@ == "used"@);
        assert(gf.len() == 4);
        assert(gf[0].0@ == "request"@);
        assert(gf[1].0@ == "status"@);
        assert(gf[2].0@ == "timestamp"@);
        assert(gf[3].0@ == "value"@);
        assert(("init"@)[0] == 'i' && ("max"@)[0] == 'm' && ("used"@)[0] == 'u');
        lemma_lookup_pairs_index(grf, "mbean"@, 0);
        lemma_lookup_pairs_index(grf, "attribute"@, 1);
        lemma_lookup_pairs_index(grf, "type"@, 2);
        lemma_lookup_pairs_index(gvf, "init"@, 0);
        lemma_lookup_pairs_index(gvf, "committed"@, 1);
        lemma_lookup_pairs_index(gvf, "max"@, 2);
        lemma_lookup_pairs_index(gvf, "used"@, 3);
        lemma_lookup_pairs_index(gf, "request"@, 0);
        lemma_lookup_pairs_index(gf, "status"@, 1);
        lemma_lookup_pairs_index(gf, "timestamp"@, 2);
        lemma_lookup_pairs_index(gf, "value"@, 3);
        assert(jget(j, "request"@) == Some(greq));
        assert(jget(j, "status"@) == Some(gstatus));
        assert(ju64(j, "timestamp"@) == Some(p.timestamp));
        assert(jget(j, "value"@) == Some(gval));
        assert(jstr(greq, "mbean"@) == Some(p.request.mbean));
        assert(jstr(greq, "attribute"@) == Some(p.request.attribute));
        assert(jstr(greq, "type"@) == Some(p.request.request_type));
        assert(jusize(gval, "init"@) == Some(p.value.init));
        assert(jusize(gval, "committed"@) == Some(p.value.committed));
        assert(jusize(gval, "max"@) == Some(p.value.max));
        assert(jusize(gval, "used"@) == Some(p.value.used));
        assert(ji32(j, "status"@) == Some(p.status));
    }
    j
}

/// Encode a browse page back to its XML tree. The tree is well-shaped and
/// decodes to a value equal to the payload: the round trip through
/// `decode_queue_browse` is the identity.
pub fn encode_queue_browse(p: &QueueBrowseResponse) -> (x: XmlNode)
    ensures
        queue_browse_ok(x),
        queue_browse_of(x) == p@,
{
    let ms = &p.messages;
    let n = ms.len();
    let mut children: Vec<XmlChild> = Vec::new();
    let mut i: usize = 0;
    while i < n
        invariant
            n == ms.len(),
            i <= n,
            ms@ == p.messages@,
            seq_decode(elems_named(children@, "message"@), |m: XmlNode| message_of(m)) == Some(
                views_of(ms@.take(i as int)),
            ),
        decreases n - i,
    {
        let mut attrs: Vec<(String, String)> = Vec::new();
        attrs.push((String::from_str("id"), ms[i].id.clone()));
        let node = XmlNode { name: String::from_str("message"), attrs, children: Vec::new() };
        let ghost gnode = node;
        let ghost prev = children@;
        children.push(XmlChild::Elem(node));
        proof {
            let cl = children@.len() as int;
            assert(children@.take(cl - 1) =~= prev);
            assert(children@.take(cl) =~= children@);
            lemma_elems_named_snoc(children@, "message"@, cl - 1);
            let elems = elems_named(children@, "message"@);
            let prev_elems = elems_named(prev, "message"@);
            assert(elems == prev_elems.push(gnode));
            assert(elems.drop_last() =~= prev_elems);
            assert(gnode.attrs@[0].0@ == "id"@);
            assert(attr_of(gnode, "id"@) == Some(gnode.attrs@[0].1));
            assert(message_of(gnode) == Some(ms@[i as int]@));
            assert(views_of(ms@.take(i as int + 1)) =~= views_of(ms@.take(i as int)).push(
                ms@[i as int]@,
            ));
        }
        i += 1;
    }
    proof {
        assert(ms@.take(n as int) =~= ms@);
    }
    XmlNode { name: String::from_str("messages"), attrs: Vec::new(), children }
}

} // verus!
