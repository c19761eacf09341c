//! Node identity and the order every node agrees on.
//!
//! Identifiers are ordered by the bytes of their UTF-8 text. The order is
//! total, so a set of identifiers has exactly one ascending arrangement.

use vstd::prelude::*;
use vstd::utf8::*;

verus! {

/// Lexicographic "at most" on byte strings: a proper prefix comes first, and
/// otherwise the first differing byte decides.
pub open spec fn bytes_le(a: Seq<u8>, b: Seq<u8>) -> bool
    decreases a.len(),
{
    if a.len() == 0 {
        true
    } else if b.len() == 0 {
        false
    } else if a[0] != b[0] {
        a[0] < b[0]
    } else {
        bytes_le(a.drop_first(), b.drop_first())
    }
}

/// The order on identifiers: byte order of their UTF-8 text.
pub open spec fn id_le(a: Seq<char>, b: Seq<char>) -> bool {
    bytes_le(encode_utf8(a), encode_utf8(b))
}

/// Strictly before in the identifier order.
pub open spec fn id_lt(a: Seq<char>, b: Seq<char>) -> bool {
    id_le(a, b) && a != b
}

pub proof fn lemma_bytes_le_reflexive(a: Seq<u8>)
    ensures
        bytes_le(a, a),
    decreases a.len(),
{
    if a.len() > 0 {
        lemma_bytes_le_reflexive(a.drop_first());
    }
}

pub proof fn lemma_bytes_le_antisymmetric(a: Seq<u8>, b: Seq<u8>)
    requires
        bytes_le(a, b),
        bytes_le(b, a),
    ensures
        a == b,
    decreases a.len(),
{
    if a.len() == 0 {
        assert(b.len() == 0);
        assert(a =~= b);
    } else {
        assert(b.len() > 0);
        assert(a[0] == b[0]);
        lemma_bytes_le_antisymmetric(a.drop_first(), b.drop_first());
        assert(a =~= seq![a[0]] + a.drop_first());
        assert(b =~= seq![b[0]] + b.drop_first());
    }
}

pub proof fn lemma_bytes_le_transitive(a: Seq<u8>, b: Seq<u8>, c: Seq<u8>)
    requires
        bytes_le(a, b),
        bytes_le(b, c),
    ensures
        bytes_le(a, c),
    decreases a.len(),
{
    if a.len() > 0 && a[0] == b[0] && b[0] == c[0] {
        lemma_bytes_le_transitive(a.drop_first(), b.drop_first(), c.drop_first());
    }
}

pub proof fn lemma_bytes_le_total(a: Seq<u8>, b: Seq<u8>)
    ensures
        bytes_le(a, b) || bytes_le(b, a),
    decreases a.len(),
{
    if a.len() > 0 && b.len() > 0 && a[0] == b[0] {
        lemma_bytes_le_total(a.drop_first(), b.drop_first());
    }
}

/// Distinct identifiers have distinct UTF-8 text.
pub proof fn lemma_encoding_injective(a: Seq<char>, b: Seq<char>)
    requires
        encode_utf8(a) == encode_utf8(b),
    ensures
        a == b,
{
    encode_utf8_decode_utf8(a);
    encode_utf8_decode_utf8(b);
}

/// The identifier order is a total order: reflexive, antisymmetric,
/// transitive, and any two identifiers are comparable.
pub proof fn lemma_id_order_total()
    ensures
        vstd::relations::total_ordering(|a: Seq<char>, b: Seq<char>| id_le(a, b)),
{
    let leq = |a: Seq<char>, b: Seq<char>| id_le(a, b);
    assert forall|x: Seq<char>| #[trigger] leq(x, x) by {
        lemma_bytes_le_reflexive(encode_utf8(x));
    }
    assert forall|x: Seq<char>, y: Seq<char>| #[trigger] leq(x, y) && #[trigger] leq(y, x) implies x
        == y by {
        lemma_bytes_le_antisymmetric(encode_utf8(x), encode_utf8(y));
        lemma_encoding_injective(x, y);
    }
    assert forall|x: Seq<char>, y: Seq<char>, z: Seq<char>| #[trigger]
        leq(x, y) && #[trigger] leq(y, z) implies leq(x, z) by {
        lemma_bytes_le_transitive(encode_utf8(x), encode_utf8(y), encode_utf8(z));
    }
    assert forall|x: Seq<char>, y: Seq<char>| #[trigger] leq(x, y) || #[trigger] leq(y, x) by {
        lemma_bytes_le_total(encode_utf8(x), encode_utf8(y));
    }
}

/// Decides the byte order on two slices.
pub fn bytes_at_most(a: &[u8], b: &[u8]) -> (r: bool)
    ensures
        r == bytes_le(a@, b@),
{
    let mut i: usize = 0;
    assert(a@.skip(0) =~= a@ && b@.skip(0) =~= b@);
    while i < a.len() && i < b.len()
        invariant
            i <= a.len(),
            i <= b.len(),
            bytes_le(a@, b@) == bytes_le(a@.skip(i as int), b@.skip(i as int)),
        decreases a.len() - i,
    {
        let x: u8 = a[i];
        let y: u8 = b[i];
        proof {
            assert(a@.skip(i as int)[0] == x);
            assert(b@.skip(i as int)[0] == y);
            assert(a@.skip(i as int).drop_first() =~= a@.skip(i + 1));
            assert(b@.skip(i as int).drop_first() =~= b@.skip(i + 1));
        }
        if x != y {
            return x < y;
        }
        i += 1;
    }
    i == a.len()
}

/// Unique identifier of a node in the cluster.
///
/// Two identifiers are the same node exactly when their text is the same,
/// and they are ordered by the bytes of that text.
#[derive(Debug, PartialEq, Eq, PartialOrd, Ord, Hash)]
pub struct NodeId(pub String);

impl View for NodeId {
    type V = Seq<char>;

    open spec fn view(&self) -> Seq<char> {
        self.0@
    }
}

impl Clone for NodeId {
    fn clone(&self) -> (copy: NodeId)
        ensures
            copy@ == self@,
    {
        NodeId(self.0.clone())
    }
}

impl NodeId {
    /// Wraps an identifier.
    pub fn new(id: &str) -> (node: NodeId)
        ensures
            node@ == id@,
    {
        NodeId(id.to_owned())
    }

    /// The identifier as a string slice.
    pub fn as_str(&self) -> (s: &str)
        ensures
            s@ == self@,
    {
        self.0.as_str()
    }

    /// The identifier as owned text.
    pub fn to_string(&self) -> (s: String)
        ensures
            s@ == self@,
    {
        self.0.clone()
    }

    /// Whether both identifiers name the same node.
    pub fn same_as(&self, other: &NodeId) -> (r: bool)
        ensures
            r == (self@ == other@),
    {
        self.0 == other.0
    }

    /// Whether this identifier comes at or before `other` in the order all
    /// nodes agree on.
    pub fn at_most(&self, other: &NodeId) -> (r: bool)
        ensures
            r == id_le(self@, other@),
    {
        bytes_at_most(self.0.as_str().as_bytes(), other.0.as_str().as_bytes())
    }

    /// Whether this identifier comes strictly before `other`.
    pub fn before(&self, other: &NodeId) -> (r: bool)
        ensures
            r == id_lt(self@, other@),
    {
        let le = self.at_most(other);
        let same = self.same_as(other);
        le && !same
    }
}

impl From<String> for NodeId {
    fn from(id: String) -> (node: NodeId) {
        NodeId(id)
    }
}

impl vstd::std_specs::convert::FromSpecImpl<String> for NodeId {
    open spec fn obeys_from_spec() -> bool {
        true
    }

    open spec fn from_spec(id: String) -> NodeId {
        NodeId(id)
    }
}

impl<'a> From<&'a str> for NodeId {
    fn from(id: &'a str) -> (node: NodeId)
        ensures
            node@ == id@,
    {
        NodeId::new(id)
    }
}

impl<'a> vstd::std_specs::convert::FromSpecImpl<&'a str> for NodeId {
    /// The identifier made has the text it was made from; which of the
    /// equal texts it holds is not fixed, so `from_spec` does not name it.
    open spec fn obeys_from_spec() -> bool {
        false
    }

    open spec fn from_spec(id: &'a str) -> NodeId {
        choose|node: NodeId| node@ == id@
    }
}

} // verus!
