//! An XML document as a tree of plain values, and accessors into it.
//!
//! Parsing raw text into the tree is entrusted to `xmltree`; everything that
//! reads the tree — attribute lookup, finding child elements by name, the
//! text content of a node, reading a decimal number out of a field — is
//! verified.

use vstd::prelude::*;
use vstd::string::*;
use crate::util::lookup_pairs;
use crate::util::lemma_lookup_pairs_skip;

verus! {

/// A parsed XML element: its (local) name, its attributes in document
/// order, and its children in document order.
pub struct XmlNode {
    pub name: String,
    pub attrs: Vec<(String, String)>,
    pub children: Vec<XmlChild>,
}

/// One child of an element: a child element, a run of character data
/// (CDATA included), or a node the schemas ignore (a comment, a processing
/// instruction).
pub enum XmlChild {
    Elem(XmlNode),
    Text(String),
    Other,
}

/// What `xmltree` parses a given text to: the root element when the text is
/// well-formed XML, nothing otherwise.
pub uninterp spec fn xml_of(s: Seq<char>) -> Option<XmlNode>;

/// The value of the attribute named `key`, if present.
pub open spec fn attr_of(n: XmlNode, key: Seq<char>) -> Option<String> {
    lookup_pairs(n.attrs@, key)
}

/// Whether a child is an element named `name`.
pub open spec fn child_matches(c: XmlChild, name: Seq<char>) -> bool {
    c matches XmlChild::Elem(e) && e.name@ == name
}

/// The first child element named `name`, if any.
pub open spec fn first_elem(cs: Seq<XmlChild>, name: Seq<char>) -> Option<XmlNode>
    decreases cs.len(),
{
    if cs.len() == 0 {
        None
    } else if child_matches(cs[0], name) {
        match cs[0] {
            XmlChild::Elem(e) => Some(e),
            _ => None,
        }
    } else {
        first_elem(cs.skip(1), name)
    }
}

/// Every child element named `name`, in document order.
pub open spec fn elems_named(cs: Seq<XmlChild>, name: Seq<char>) -> Seq<XmlNode>
    decreases cs.len(),
{
    if cs.len() == 0 {
        Seq::empty()
    } else {
        let rest = elems_named(cs.drop_last(), name);
        match cs.last() {
            XmlChild::Elem(e) => if e.name@ == name {
                rest.push(e)
            } else {
                rest
            },
            _ => rest,
        }
    }
}

/// The text content of a run of children: every text child, concatenated in
/// document order.
pub open spec fn texts_of(cs: Seq<XmlChild>) -> Seq<char>
    decreases cs.len(),
{
    if cs.len() == 0 {
        Seq::empty()
    } else {
        texts_of(cs.drop_last()) + (match cs.last() {
            XmlChild::Text(s) => s@,
            _ => Seq::<char>::empty(),
        })
    }
}

/// The text content of an element.
pub open spec fn xtext(n: XmlNode) -> Seq<char> {
    texts_of(n.children@)
}

/// The text content of the first child element named `name`, if any.
pub open spec fn xchild_text(n: XmlNode, name: Seq<char>) -> Option<Seq<char>> {
    match first_elem(n.children@, name) {
        Some(e) => Some(xtext(e)),
        None => None,
    }
}

/// A named field of an element, the way the admin console's documents carry
/// one: as an attribute when present, else as the text of a child element of
/// that name.
pub open spec fn xfield(n: XmlNode, name: Seq<char>) -> Option<Seq<char>> {
    match attr_of(n, name) {
        Some(s) => Some(s@),
        None => xchild_text(n, name),
    }
}

/// The number a text denotes as a width-checked `usize`: every character a
/// digit and the value in range, or nothing.
pub open spec fn num_of(s: Seq<char>) -> Option<usize> {
    if is_digits(s) && digits_val(s) <= usize::MAX as int {
        Some(digits_val(s) as usize)
    } else {
        None
    }
}

/// A numeric field of an element: its text read as a width-checked number.
pub open spec fn xnum(n: XmlNode, name: Seq<char>) -> Option<usize> {
    match xfield(n, name) {
        Some(s) => num_of(s),
        None => None,
    }
}

/// Walking one more child extends the elements found so far by that child
/// exactly when it is an element of the sought name.
pub proof fn lemma_elems_named_snoc(cs: Seq<XmlChild>, name: Seq<char>, i: int)
    requires
        0 <= i < cs.len(),
    ensures
        child_matches(cs[i], name) ==> (cs[i] matches XmlChild::Elem(e) ==> elems_named(
            cs.take(i + 1),
            name,
        ) == elems_named(cs.take(i), name).push(e)),
        !child_matches(cs[i], name) ==> elems_named(cs.take(i + 1), name) == elems_named(
            cs.take(i),
            name,
        ),
{
    assert(cs.take(i + 1).drop_last() =~= cs.take(i));
    assert(cs.take(i + 1).last() == cs[i]);
}

/// The elements of a name among the first `i` children open the sequence of
/// all elements of that name.
pub proof fn lemma_elems_named_take_prefix(cs: Seq<XmlChild>, name: Seq<char>, i: int)
    requires
        0 <= i <= cs.len(),
    ensures
        elems_named(cs.take(i), name).len() <= elems_named(cs, name).len(),
        forall|k: int|
            0 <= k < elems_named(cs.take(i), name).len() ==> elems_named(cs, name)[k]
                == elems_named(cs.take(i), name)[k],
    decreases cs.len() - i,
{
    if i == cs.len() {
        assert(cs.take(i) =~= cs);
    } else {
        lemma_elems_named_snoc(cs, name, i);
        lemma_elems_named_take_prefix(cs, name, i + 1);
    }
}

/// Finding the first element named `name` past `i` non-matching children is
/// finding it among the rest.
pub proof fn lemma_first_elem_skip(cs: Seq<XmlChild>, name: Seq<char>, i: int)
    requires
        0 <= i <= cs.len(),
        forall|j: int| 0 <= j < i ==> !child_matches(#[trigger] cs[j], name),
    ensures
        first_elem(cs, name) == first_elem(cs.skip(i), name),
    decreases i,
{
    if i > 0 {
        assert(forall|j: int| 0 <= j < i - 1 ==> !child_matches(#[trigger] cs.skip(1)[j], name));
        lemma_first_elem_skip(cs.skip(1), name, i - 1);
        assert(cs.skip(1).skip(i - 1) =~= cs.skip(i));
    } else {
        assert(cs.skip(0) =~= cs);
    }
}

/// The value of the attribute named `key`, if present.
pub fn xml_attr<'a>(n: &'a XmlNode, key: &str) -> (r: Option<&'a String>)
    ensures
        match r {
            Some(s) => attr_of(*n, key@) == Some(*s),
            None => attr_of(*n, key@) is None,
        },
{
    let pairs = &n.attrs;
    let count = pairs.len();
    let mut i: usize = 0;
    while i < count
        invariant
            count == pairs.len(),
            i <= count,
            attr_of(*n, key@) == lookup_pairs(pairs@, key@),
            forall|j: int| 0 <= j < i ==> pairs@[j].0@ != key@,
        decreases count - i,
    {
        if pairs[i].0.as_str().eq(key) {
            proof {
                lemma_lookup_pairs_skip(pairs@, key@, i as int);
                assert(pairs@.skip(i as int)[0] == pairs@[i as int]);
                assert(lookup_pairs(pairs@.skip(i as int), key@) == Some(pairs@[i as int].1));
            }
            return Some(&pairs[i].1);
        }
        i += 1;
    }
    proof {
        lemma_lookup_pairs_skip(pairs@, key@, count as int);
    }
    None
}

/// The first child element named `name`, if any.
pub fn xml_child<'a>(n: &'a XmlNode, name: &str) -> (r: Option<&'a XmlNode>)
    ensures
        match r {
            Some(e) => first_elem(n.children@, name@) == Some(*e),
            None => first_elem(n.children@, name@) is None,
        },
{
    let cs = &n.children;
    let count = cs.len();
    let mut i: usize = 0;
    while i < count
        invariant
            count == cs.len(),
            i <= count,
            cs@ == n.children@,
            forall|j: int| 0 <= j < i ==> !child_matches(#[trigger] cs@[j], name@),
        decreases count - i,
    {
        match &cs[i] {
            XmlChild::Elem(e) => {
                if e.name.as_str().eq(name) {
                    proof {
                        lemma_first_elem_skip(cs@, name@, i as int);
                        assert(cs@.skip(i as int)[0] == cs@[i as int]);
                        assert(child_matches(cs@[i as int], name@));
                    }
                    return Some(e);
                }
            },
            _ => {},
        }
        i += 1;
    }
    proof {
        lemma_first_elem_skip(cs@, name@, count as int);
    }
    None
}

/// The text content of an element: every text child concatenated.
pub fn xml_text(n: &XmlNode) -> (r: String)
    ensures
        r@ == xtext(*n),
{
    let cs = &n.children;
    let count = cs.len();
    let mut out = String::new();
    let mut i: usize = 0;
    while i < count
        invariant
            count == cs.len(),
            i <= count,
            out@ == texts_of(cs@.take(i as int)),
        decreases count - i,
    {
        proof {
            assert(cs@.take(i as int + 1).drop_last() =~= cs@.take(i as int));
            assert(cs@.take(i as int + 1).last() == cs@[i as int]);
        }
        match &cs[i] {
            XmlChild::Text(s) => {
                out.append(s.as_str());
            },
            _ => {
                proof {
                    assert(out@ + Seq::<char>::empty() =~= out@);
                }
            },
        }
        i += 1;
    }
    proof {
        assert(cs@.take(count as int) =~= cs@);
    }
    out
}

/// A named field of an element: the attribute when present, else the text
/// of the first child element of that name; absence of both is a failure.
pub fn xml_field(n: &XmlNode, name: &str) -> (r: Result<String, String>)
    ensures
        r is Ok <==> xfield(*n, name@) is Some,
        r matches Ok(s) ==> xfield(*n, name@) == Some(s@),
{
    match xml_attr(n, name) {
        Some(s) => Ok(s.clone()),
        None => {
            match xml_child(n, name) {
                Some(e) => Ok(xml_text(e)),
                None => Err(crate::util::field_err(name)),
            }
        },
    }
}

/// Whether every character of a non-empty text is a decimal digit.
pub open spec fn is_digits(s: Seq<char>) -> bool {
    s.len() > 0 && forall|i: int| 0 <= i < s.len() ==> 48 <= #[trigger] s[i] as int <= 57
}

/// The number a text of decimal digits denotes.
pub open spec fn digits_val(s: Seq<char>) -> int
    decreases s.len(),
{
    if s.len() == 0 {
        0
    } else {
        digits_val(s.drop_last()) * 10 + (s.last() as int - 48)
    }
}

/// A text of digits denotes a number no smaller than any prefix denotes.
proof fn lemma_digits_val_grows(s: Seq<char>, i: int)
    requires
        0 <= i <= s.len(),
        forall|j: int| 0 <= j < s.len() ==> 48 <= #[trigger] s[j] as int <= 57,
        digits_val(s.take(i)) >= 0,
    ensures
        digits_val(s) >= digits_val(s.take(i)),
        digits_val(s) >= 0,
    decreases s.len() - i,
{
    if i == s.len() {
        assert(s.take(i) =~= s);
    } else {
        assert(s.take(i + 1).drop_last() =~= s.take(i));
        assert(s.take(i + 1).last() == s[i]);
        assert(digits_val(s.take(i + 1)) == digits_val(s.take(i)) * 10 + (s[i] as int - 48));
        lemma_digits_val_grows(s, i + 1);
    }
}

/// Read an unsigned decimal number, the width-checked way the schemas'
/// numeric fields demand: every character a digit, and the value within
/// `usize` range; anything else — an empty text, a stray character, a value
/// out of range — is rejected, never truncated.
pub fn parse_usize(s: &str) -> (r: Option<usize>)
    ensures
        r matches Some(u) ==> is_digits(s@) && digits_val(s@) == u as int,
        r is None ==> !(is_digits(s@) && digits_val(s@) <= usize::MAX as int),
{
    let n = s.unicode_len();
    if n == 0 {
        return None;
    }
    let mut acc: usize = 0;
    let mut i: usize = 0;
    while i < n
        invariant
            n == s@.len(),
            0 < n,
            i <= n,
            forall|j: int| 0 <= j < i ==> 48 <= #[trigger] s@[j] as int <= 57,
            acc as int == digits_val(s@.take(i as int)),
        decreases n - i,
    {
        let c = s.get_char(i);
        let x = c as u32;
        if x < 48 || x > 57 {
            return None;
        }
        let d = (x - 48) as usize;
        proof {
            assert(s@.take(i as int + 1).drop_last() =~= s@.take(i as int));
            assert(s@.take(i as int + 1).last() == s@[i as int]);
            assert(digits_val(s@.take(i as int + 1)) == acc as int * 10 + d as int);
        }
        if acc > usize::MAX / 10 {
            proof {
                assert(acc as int * 10 > usize::MAX as int - 9) by (nonlinear_arith)
                    requires
                        acc as int > usize::MAX as int / 10,
                ;
                if is_digits(s@) {
                    lemma_digits_val_grows(s@, i as int + 1);
                }
            }
            return None;
        }
        let acc10 = {
            proof {
                assert(acc as int * 10 <= usize::MAX as int) by (nonlinear_arith)
                    requires
                        acc as int <= usize::MAX as int / 10,
                ;
            }
            acc * 10
        };
        if d > usize::MAX - acc10 {
            proof {
                if is_digits(s@) {
                    lemma_digits_val_grows(s@, i as int + 1);
                }
            }
            return None;
        }
        acc = acc10 + d;
        i += 1;
    }
    proof {
        assert(s@.take(n as int) =~= s@);
    }
    Some(acc)
}

/// A numeric field of an element, read the width-checked way the schemas
/// demand: rejected, never truncated, when malformed or out of range.
pub fn xml_num(n: &XmlNode, name: &str) -> (r: Result<usize, String>)
    ensures
        r is Ok <==> xnum(*n, name@) is Some,
        r matches Ok(u) ==> xnum(*n, name@) == Some(u),
{
    let s = xml_field(n, name)?;
    match parse_usize(s.as_str()) {
        Some(u) => Ok(u),
        None => Err(crate::util::field_err(name)),
    }
}

#[verifier::external_type_specification]
#[verifier::external_body]
pub struct ExXmlTreeElement(xmltree::Element);

#[verifier::external_type_specification]
#[verifier::external_body]
pub struct ExXmlTreeNode(xmltree::XMLNode);

/// Relies on `xmltree::Element`'s public fields only: mirrors an already
/// parsed element into the library's `XmlNode`, keeping the local name, the
/// attributes in document order, and the children in document order.
#[verifier::external_body]
fn xml_elem_of(e: &xmltree::Element) -> XmlNode {
    XmlNode {
        name: e.name.clone(),
        attrs: e.attributes.iter().map(|(k, v)| (k.clone(), v.clone())).collect(),
        children: e.children.iter().map(xml_child_of).collect(),
    }
}

/// Relies on `xmltree::XMLNode`'s variants only: one arm per variant,
/// moving the payload across; character data and CDATA both read as text,
/// comments and processing instructions as nodes the schemas ignore.
#[verifier::external_body]
fn xml_child_of(c: &xmltree::XMLNode) -> XmlChild {
    match c {
        xmltree::XMLNode::Element(e) => XmlChild::Elem(xml_elem_of(e)),
        xmltree::XMLNode::Text(s) => XmlChild::Text(s.clone()),
        xmltree::XMLNode::CData(s) => XmlChild::Text(s.clone()),
        xmltree::XMLNode::Comment(_) => XmlChild::Other,
        xmltree::XMLNode::ProcessingInstruction(_, _) => XmlChild::Other,
    }
}

/// Relies on `xmltree::Element::parse`: whether a text parses, and the root
/// element it parses to, depend on the text alone (attributes are kept in
/// document order).
#[verifier::external_body]
pub(crate) fn parse_xml(text: &str) -> (r: Result<XmlNode, String>)
    ensures
        r matches Ok(n) ==> xml_of(text@) == Some(n),
        r is Err ==> xml_of(text@) is None,
{
    match xmltree::Element::parse(text.as_bytes()) {
        Ok(e) => Ok(xml_elem_of(&e)),
        Err(e) => Err(e.to_string()),
    }
}

} // verus!
