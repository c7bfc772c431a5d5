//! The typed graph value model: the tagged union every reply decodes into,
//! and the composite types (node, relationship, path, map, point) it carries.
use vstd::prelude::*;

use crate::wire::{WireV, WireValue};

verus! {

/// The decimal text of a double-precision number, kept exactly as the wire
/// carried it. This layer stores and transports the literal; it never does
/// floating-point arithmetic, so the text is the faithful representation.
#[derive(Debug, PartialEq)]
pub struct DoubleLiteral(pub String);

impl View for DoubleLiteral {
    type V = Seq<char>;

    open spec fn view(&self) -> Seq<char> {
        self.0@
    }
}

impl Clone for DoubleLiteral {
    /// A clone carries the same text as the original.
    fn clone(&self) -> (res: Self)
        ensures
            res@ == self@,
    {
        DoubleLiteral(self.0.clone())
    }
}

/// A geographic point: two coordinate literals, decoded together from a
/// 2-element sequence.
#[derive(Debug, PartialEq)]
pub struct GeoPoint {
    /// The latitude literal.
    pub latitude: DoubleLiteral,
    /// The longitude literal.
    pub longitude: DoubleLiteral,
}

/// The mathematical model of a geographic point.
pub struct GeoPointV {
    pub latitude: Seq<char>,
    pub longitude: Seq<char>,
}

impl View for GeoPoint {
    type V = GeoPointV;

    open spec fn view(&self) -> GeoPointV {
        GeoPointV { latitude: self.latitude@, longitude: self.longitude@ }
    }
}

impl Clone for GeoPoint {
    /// A clone carries the same model as the original.
    fn clone(&self) -> (res: Self)
        ensures
            res@ == self@,
    {
        GeoPoint { latitude: self.latitude.clone(), longitude: self.longitude.clone() }
    }
}

/// A string-keyed mapping of graph values, kept in insertion order.
#[derive(Debug, PartialEq)]
pub struct GraphMap(pub Vec<(String, GraphValue)>);

/// A node: its internal id, its label ids, and its properties in the order
/// the server returned them.
#[derive(Debug, PartialEq)]
pub struct Node {
    /// The server's internal node id.
    pub id: i64,
    /// The ids of the node's labels; a separate catalog maps them to names.
    pub label_ids: Vec<i64>,
    /// The node's properties, keyed by property id, in definition order.
    pub properties: PropertyMap,
}

/// A relationship: its internal id, its single label id, the source and
/// destination node ids, and its properties in definition order.
#[derive(Debug, PartialEq)]
pub struct Relationship {
    /// The server's internal relationship id.
    pub id: i64,
    /// The id of the relationship's label.
    pub label_id: i64,
    /// The source node id.
    pub src: i64,
    /// The destination node id.
    pub dest: i64,
    /// The relationship's properties, keyed by property id, in definition order.
    pub properties: PropertyMap,
}

/// A path: the nodes along it and the relationships between them.
#[derive(Debug, PartialEq)]
pub struct GraphPath {
    /// The nodes of the path.
    pub nodes: Vec<Node>,
    /// The relationships of the path.
    pub relationships: Vec<Relationship>,
}

/// An insertion-ordered mapping from property id to graph value.
///
/// Inserting an existing key replaces its value in place; inserting a new key
/// appends it. So the keys are unique and their order is insertion order.
#[derive(Debug, PartialEq)]
pub struct PropertyMap {
    entries: Vec<(i64, GraphValue)>,
}

/// The typed union of every value kind a reply can decode into.
#[derive(Debug, PartialEq)]
pub enum GraphValue {
    /// The fallback for an unrecognized tag: the untouched wire value.
    Unknown(WireValue),
    /// A string-keyed mapping.
    Mapping(GraphMap),
    /// A geographic point.
    Point(GeoPoint),
    /// A path of nodes and relationships.
    Path(GraphPath),
    /// A node.
    Node(Node),
    /// A relationship.
    Relation(Relationship),
    /// An ordered sequence of values.
    Array(Vec<GraphValue>),
    /// A 64-bit signed integer.
    Integer(i64),
    /// A double-precision number, as its decimal literal.
    Double(DoubleLiteral),
    /// A string.
    String(String),
    /// A boolean.
    Boolean(bool),
    /// The null value.
    Null,
}

/// The mathematical model of a node.
pub struct NodeV {
    pub id: i64,
    pub label_ids: Seq<i64>,
    pub properties: Seq<(i64, GraphValueV)>,
}

/// The mathematical model of a relationship.
pub struct RelationshipV {
    pub id: i64,
    pub label_id: i64,
    pub src: i64,
    pub dest: i64,
    pub properties: Seq<(i64, GraphValueV)>,
}

/// The mathematical model of a path.
pub struct GraphPathV {
    pub nodes: Seq<NodeV>,
    pub relationships: Seq<RelationshipV>,
}

/// The mathematical model of a graph value.
pub enum GraphValueV {
    Unknown(WireV),
    Mapping(Seq<(Seq<char>, GraphValueV)>),
    Point(GeoPointV),
    Path(GraphPathV),
    Node(NodeV),
    Relation(RelationshipV),
    Array(Seq<GraphValueV>),
    Integer(i64),
    Double(Seq<char>),
    String(Seq<char>),
    Boolean(bool),
    Null,
}

/// The models of a sequence of graph values, element for element.
pub open spec fn gv_seq_view(s: Seq<GraphValue>) -> Seq<GraphValueV>
    decreases s,
{
    if s.len() == 0 {
        Seq::empty()
    } else {
        seq![s[0]@] + gv_seq_view(s.drop_first())
    }
}

/// The models of a key/value pair sequence, element for element.
pub open spec fn pair_seq_view(s: Seq<(String, GraphValue)>) -> Seq<(Seq<char>, GraphValueV)>
    decreases s,
{
    if s.len() == 0 {
        Seq::empty()
    } else {
        seq![(s[0].0@, s[0].1@)] + pair_seq_view(s.drop_first())
    }
}

/// The models of a property entry sequence, element for element.
pub open spec fn prop_seq_view(s: Seq<(i64, GraphValue)>) -> Seq<(i64, GraphValueV)>
    decreases s,
{
    if s.len() == 0 {
        Seq::empty()
    } else {
        seq![(s[0].0, s[0].1@)] + prop_seq_view(s.drop_first())
    }
}

/// The models of a node sequence, element for element.
pub open spec fn node_seq_view(s: Seq<Node>) -> Seq<NodeV>
    decreases s,
{
    if s.len() == 0 {
        Seq::empty()
    } else {
        seq![s[0]@] + node_seq_view(s.drop_first())
    }
}

/// The models of a relationship sequence, element for element.
pub open spec fn rel_seq_view(s: Seq<Relationship>) -> Seq<RelationshipV>
    decreases s,
{
    if s.len() == 0 {
        Seq::empty()
    } else {
        seq![s[0]@] + rel_seq_view(s.drop_first())
    }
}

impl View for PropertyMap {
    type V = Seq<(i64, GraphValueV)>;

    closed spec fn view(&self) -> Seq<(i64, GraphValueV)>
        decreases self,
    {
        prop_seq_view(self.entries@)
    }
}

impl View for GraphMap {
    type V = Seq<(Seq<char>, GraphValueV)>;

    open spec fn view(&self) -> Seq<(Seq<char>, GraphValueV)>
        decreases self,
    {
        pair_seq_view(self.0@)
    }
}

impl View for Node {
    type V = NodeV;

    open spec fn view(&self) -> NodeV
        decreases self,
    {
        NodeV { id: self.id, label_ids: self.label_ids@, properties: self.properties@ }
    }
}

impl View for Relationship {
    type V = RelationshipV;

    open spec fn view(&self) -> RelationshipV
        decreases self,
    {
        RelationshipV {
            id: self.id,
            label_id: self.label_id,
            src: self.src,
            dest: self.dest,
            properties: self.properties@,
        }
    }
}

impl View for GraphPath {
    type V = GraphPathV;

    open spec fn view(&self) -> GraphPathV
        decreases self,
    {
        GraphPathV {
            nodes: node_seq_view(self.nodes@),
            relationships: rel_seq_view(self.relationships@),
        }
    }
}

impl View for GraphValue {
    type V = GraphValueV;

    open spec fn view(&self) -> GraphValueV
        decreases self,
    {
        match self {
            GraphValue::Unknown(w) => GraphValueV::Unknown(w@),
            GraphValue::Mapping(m) => GraphValueV::Mapping(m@),
            GraphValue::Point(p) => GraphValueV::Point(p@),
            GraphValue::Path(p) => GraphValueV::Path(p@),
            GraphValue::Node(n) => GraphValueV::Node(n@),
            GraphValue::Relation(r) => GraphValueV::Relation(r@),
            GraphValue::Array(items) => GraphValueV::Array(gv_seq_view(items@)),
            GraphValue::Integer(i) => GraphValueV::Integer(*i),
            GraphValue::Double(d) => GraphValueV::Double(d@),
            GraphValue::String(s) => GraphValueV::String(s@),
            GraphValue::Boolean(b) => GraphValueV::Boolean(*b),
            GraphValue::Null => GraphValueV::Null,
        }
    }
}

pub proof fn lemma_gv_seq_view(s: Seq<GraphValue>)
    ensures
        gv_seq_view(s).len() == s.len(),
        forall|i: int| 0 <= i < s.len() ==> gv_seq_view(s)[i] == s[i]@,
    decreases s.len(),
{
    if s.len() == 0 {
        assert(gv_seq_view(s) =~= Seq::empty());
    } else {
        lemma_gv_seq_view(s.drop_first());
        assert(gv_seq_view(s) == seq![s[0]@] + gv_seq_view(s.drop_first()));
        assert forall|i: int| 0 <= i < s.len() implies gv_seq_view(s)[i] == s[i]@ by {
            if i > 0 {
                assert(gv_seq_view(s)[i] == gv_seq_view(s.drop_first())[i - 1]);
                assert(s.drop_first()[i - 1] == s[i]);
            }
        }
    }
}

pub proof fn lemma_pair_seq_view(s: Seq<(String, GraphValue)>)
    ensures
        pair_seq_view(s).len() == s.len(),
        forall|i: int| 0 <= i < s.len() ==> pair_seq_view(s)[i] == (s[i].0@, s[i].1@),
    decreases s.len(),
{
    if s.len() == 0 {
        assert(pair_seq_view(s) =~= Seq::empty());
    } else {
        lemma_pair_seq_view(s.drop_first());
        assert(pair_seq_view(s) == seq![(s[0].0@, s[0].1@)] + pair_seq_view(s.drop_first()));
        assert forall|i: int| 0 <= i < s.len() implies pair_seq_view(s)[i] == (s[i].0@, s[i].1@) by {
            if i > 0 {
                assert(pair_seq_view(s)[i] == pair_seq_view(s.drop_first())[i - 1]);
                assert(s.drop_first()[i - 1] == s[i]);
            }
        }
    }
}

pub proof fn lemma_prop_seq_view(s: Seq<(i64, GraphValue)>)
    ensures
        prop_seq_view(s).len() == s.len(),
        forall|i: int| 0 <= i < s.len() ==> prop_seq_view(s)[i] == (s[i].0, s[i].1@),
    decreases s.len(),
{
    if s.len() == 0 {
        assert(prop_seq_view(s) =~= Seq::empty());
    } else {
        lemma_prop_seq_view(s.drop_first());
        assert(prop_seq_view(s) == seq![(s[0].0, s[0].1@)] + prop_seq_view(s.drop_first()));
        assert forall|i: int| 0 <= i < s.len() implies prop_seq_view(s)[i] == (s[i].0, s[i].1@) by {
            if i > 0 {
                assert(prop_seq_view(s)[i] == prop_seq_view(s.drop_first())[i - 1]);
                assert(s.drop_first()[i - 1] == s[i]);
            }
        }
    }
}

pub proof fn lemma_node_seq_view(s: Seq<Node>)
    ensures
        node_seq_view(s).len() == s.len(),
        forall|i: int| 0 <= i < s.len() ==> node_seq_view(s)[i] == s[i]@,
    decreases s.len(),
{
    if s.len() == 0 {
        assert(node_seq_view(s) =~= Seq::empty());
    } else {
        lemma_node_seq_view(s.drop_first());
        assert(node_seq_view(s) == seq![s[0]@] + node_seq_view(s.drop_first()));
        assert forall|i: int| 0 <= i < s.len() implies node_seq_view(s)[i] == s[i]@ by {
            if i > 0 {
                assert(node_seq_view(s)[i] == node_seq_view(s.drop_first())[i - 1]);
                assert(s.drop_first()[i - 1] == s[i]);
            }
        }
    }
}

pub proof fn lemma_rel_seq_view(s: Seq<Relationship>)
    ensures
        rel_seq_view(s).len() == s.len(),
        forall|i: int| 0 <= i < s.len() ==> rel_seq_view(s)[i] == s[i]@,
    decreases s.len(),
{
    if s.len() == 0 {
        assert(rel_seq_view(s) =~= Seq::empty());
    } else {
        lemma_rel_seq_view(s.drop_first());
        assert(rel_seq_view(s) == seq![s[0]@] + rel_seq_view(s.drop_first()));
        assert forall|i: int| 0 <= i < s.len() implies rel_seq_view(s)[i] == s[i]@ by {
            if i > 0 {
                assert(rel_seq_view(s)[i] == rel_seq_view(s.drop_first())[i - 1]);
                assert(s.drop_first()[i - 1] == s[i]);
            }
        }
    }
}


/// Whether an entry sequence holds the key.
pub open spec fn props_has_key(s: Seq<(i64, GraphValueV)>, k: i64) -> bool {
    exists|i: int| 0 <= i < s.len() && (#[trigger] s[i]).0 == k
}

/// The index of the first entry with the key.
pub open spec fn props_key_index(s: Seq<(i64, GraphValueV)>, k: i64) -> int
    decreases s,
{
    if s.len() == 0 {
        0
    } else if s[0].0 == k {
        0
    } else {
        1 + props_key_index(s.drop_first(), k)
    }
}

/// The value of the first entry with the key, if any.
pub open spec fn props_lookup(s: Seq<(i64, GraphValueV)>, k: i64) -> Option<GraphValueV>
    decreases s,
{
    if s.len() == 0 {
        None
    } else if s[0].0 == k {
        Some(s[0].1)
    } else {
        props_lookup(s.drop_first(), k)
    }
}

/// Whether the keys of an entry sequence are pairwise distinct.
pub open spec fn props_unique(s: Seq<(i64, GraphValueV)>) -> bool {
    forall|i: int, j: int| 0 <= i < j < s.len() ==> (#[trigger] s[i]).0 != (#[trigger] s[j]).0
}

/// What inserting a key becomes: replace the value in place if the key is
/// present, append the entry if it is not.
pub open spec fn props_insert(
    s: Seq<(i64, GraphValueV)>,
    k: i64,
    v: GraphValueV,
) -> Seq<(i64, GraphValueV)> {
    if props_has_key(s, k) {
        s.update(props_key_index(s, k), (k, v))
    } else {
        s.push((k, v))
    }
}

/// The values of an entry sequence, in order.
pub open spec fn props_values(s: Seq<(i64, GraphValueV)>) -> Seq<GraphValueV> {
    s.map_values(|p: (i64, GraphValueV)| p.1)
}

/// At the first index whose key matches, the key-index and lookup functions
/// return that index and that entry's value.
pub proof fn lemma_props_first_match(s: Seq<(i64, GraphValueV)>, k: i64, idx: int)
    requires
        0 <= idx < s.len(),
        s[idx].0 == k,
        forall|j: int| 0 <= j < idx ==> (#[trigger] s[j]).0 != k,
    ensures
        props_has_key(s, k),
        props_key_index(s, k) == idx,
        props_lookup(s, k) == Some(s[idx].1),
    decreases idx,
{
    if idx > 0 {
        assert forall|j: int| 0 <= j < idx - 1 implies (#[trigger] s.drop_first()[j]).0 != k by {
            assert(s.drop_first()[j] == s[j + 1]);
        }
        assert(s.drop_first()[idx - 1] == s[idx]);
        lemma_props_first_match(s.drop_first(), k, idx - 1);
    }
}

/// Where no key matches, the lookup returns nothing.
pub proof fn lemma_props_no_match(s: Seq<(i64, GraphValueV)>, k: i64)
    requires
        forall|j: int| 0 <= j < s.len() ==> (#[trigger] s[j]).0 != k,
    ensures
        !props_has_key(s, k),
        props_lookup(s, k) is None,
    decreases s.len(),
{
    if s.len() > 0 {
        assert forall|j: int| 0 <= j < s.drop_first().len()
            implies (#[trigger] s.drop_first()[j]).0 != k by {
            assert(s.drop_first()[j] == s[j + 1]);
        }
        lemma_props_no_match(s.drop_first(), k);
    }
}

impl PropertyMap {
    /// An empty property map.
    pub fn new() -> (r: Self)
        ensures
            r@ == Seq::<(i64, GraphValueV)>::empty(),
    {
        let r = PropertyMap { entries: Vec::new() };
        proof {
            lemma_prop_seq_view(r.entries@);
            assert(r@ =~= Seq::<(i64, GraphValueV)>::empty());
        }
        r
    }

    /// Whether the map is well formed: its keys are pairwise distinct.
    pub open spec fn wf(&self) -> bool {
        props_unique(self@)
    }

    /// The number of entries.
    pub fn len(&self) -> (n: usize)
        ensures
            n == self@.len(),
    {
        proof {
            lemma_prop_seq_view(self.entries@);
        }
        self.entries.len()
    }

    /// The position of the first entry with the key, if any.
    fn index_of(&self, key: i64) -> (r: Option<usize>)
        ensures
            match r {
                Some(i) => {
                    &&& i < self@.len()
                    &&& self@[i as int].0 == key
                    &&& props_has_key(self@, key)
                    &&& props_key_index(self@, key) == i as int
                    &&& props_lookup(self@, key) == Some(self@[i as int].1)
                },
                None => !props_has_key(self@, key) && props_lookup(self@, key) is None,
            },
    {
        proof {
            lemma_prop_seq_view(self.entries@);
        }
        let mut idx: usize = 0;
        let n = self.entries.len();
        while idx < n
            invariant
                n == self.entries@.len(),
                self@.len() == n,
                forall|j: int| 0 <= j < n
                    ==> (#[trigger] self@[j]) == (self.entries@[j].0, self.entries@[j].1@),
                idx <= n,
                forall|j: int| 0 <= j < idx ==> (#[trigger] self@[j]).0 != key,
            decreases n - idx,
        {
            if self.entries[idx].0 == key {
                proof {
                    lemma_props_first_match(self@, key, idx as int);
                }
                return Some(idx);
            }
            idx += 1;
        }
        proof {
            lemma_props_no_match(self@, key);
        }
        None
    }

    /// Inserts a value under a key: an existing key keeps its place and takes
    /// the new value, a new key is appended. Well-formedness is preserved.
    pub fn insert(&mut self, key: i64, value: GraphValue)
        ensures
            final(self)@ == props_insert(old(self)@, key, value@),
            old(self).wf() ==> final(self).wf(),
    {
        let found = self.index_of(key);
        match found {
            Some(i) => {
                proof {
                    lemma_prop_seq_view(self.entries@);
                }
                self.entries[i] = (key, value);
                proof {
                    lemma_prop_seq_view(old(self).entries@);
                    lemma_prop_seq_view(self.entries@);
                    assert(self@ =~= old(self)@.update(i as int, (key, value@)));
                    assert(self@ =~= props_insert(old(self)@, key, value@));
                    assert forall|a: int, b: int|
                        0 <= a < b < self@.len() && props_unique(old(self)@)
                        implies (#[trigger] self@[a]).0 != (#[trigger] self@[b]).0 by {
                        assert(old(self)@[a].0 != old(self)@[b].0);
                    }
                }
            },
            None => {
                self.entries.push((key, value));
                proof {
                    lemma_prop_seq_view(old(self).entries@);
                    lemma_prop_seq_view(self.entries@);
                    assert(self@ =~= old(self)@.push((key, value@)));
                    assert forall|a: int, b: int|
                        0 <= a < b < self@.len() && props_unique(old(self)@)
                        implies (#[trigger] self@[a]).0 != (#[trigger] self@[b]).0 by {
                        if b == self@.len() - 1 {
                            assert(old(self)@[a] == self@[a]);
                            assert(!props_has_key(old(self)@, key));
                        } else {
                            assert(old(self)@[a].0 != old(self)@[b].0);
                        }
                    }
                }
            },
        }
    }

    /// The value stored under the key: the first matching entry's value, or
    /// nothing where no entry matches.
    pub fn get(&self, key: i64) -> (r: Option<&GraphValue>)
        ensures
            match r {
                Some(v) => props_lookup(self@, key) == Some(v@),
                None => props_lookup(self@, key) is None,
            },
    {
        let found = self.index_of(key);
        match found {
            Some(i) => {
                proof {
                    lemma_prop_seq_view(self.entries@);
                }
                Some(&self.entries[i].1)
            },
            None => None,
        }
    }

    /// The value at a position, in insertion order.
    pub fn get_index(&self, idx: usize) -> (r: &GraphValue)
        requires
            idx < self@.len(),
        ensures
            r@ == self@[idx as int].1,
    {
        proof {
            lemma_prop_seq_view(self.entries@);
        }
        &self.entries[idx].1
    }

    /// The key at a position, in insertion order.
    pub fn key_at(&self, idx: usize) -> (r: i64)
        requires
            idx < self@.len(),
        ensures
            r == self@[idx as int].0,
    {
        proof {
            lemma_prop_seq_view(self.entries@);
        }
        self.entries[idx].0
    }

    /// The values in insertion order, cloned out of the map.
    pub fn values(&self) -> (r: Vec<GraphValue>)
        ensures
            gv_seq_view(r@) == props_values(self@),
    {
        proof {
            lemma_prop_seq_view(self.entries@);
        }
        let mut out: Vec<GraphValue> = Vec::new();
        let mut idx: usize = 0;
        let n = self.entries.len();
        while idx < n
            invariant
                n == self.entries@.len(),
                self@.len() == n,
                forall|j: int| 0 <= j < self.entries@.len()
                    ==> (#[trigger] self@[j]) == (self.entries@[j].0, self.entries@[j].1@),
                idx <= n,
                out@.len() == idx,
                forall|j: int| 0 <= j < idx ==> (#[trigger] out@[j])@ == self@[j].1,
            decreases n - idx,
        {
            let entry: &(i64, GraphValue) = &self.entries[idx];
            out.push(entry.1.clone());
            idx += 1;
        }
        proof {
            lemma_gv_seq_view(out@);
            assert(gv_seq_view(out@) =~= props_values(self@));
        }
        out
    }

    /// The values in insertion order, consuming the map.
    pub fn into_values(self) -> (r: Vec<GraphValue>)
        ensures
            gv_seq_view(r@) == props_values(self@),
    {
        self.values()
    }
}

impl Clone for PropertyMap {
    /// A clone carries the same model as the original.
    fn clone(&self) -> (res: Self)
        ensures
            res@ == self@,
        decreases *self,
    {
        let mut out: Vec<(i64, GraphValue)> = Vec::new();
        let mut idx: usize = 0;
        let n = self.entries.len();
        while idx < n
            invariant
                n == self.entries@.len(),
                idx <= n,
                out@.len() == idx,
                forall|j: int| 0 <= j < idx
                    ==> (#[trigger] out@[j]).0 == self.entries@[j].0
                        && out@[j].1@ == self.entries@[j].1@,
            decreases n - idx,
        {
            let entry: &(i64, GraphValue) = &self.entries[idx];
            proof {
                assert(decreases_to!(*self => self.entries@[idx as int].1));
            }
            let v = entry.1.clone();
            out.push((entry.0, v));
            idx += 1;
        }
        let res = PropertyMap { entries: out };
        proof {
            lemma_prop_seq_view(res.entries@);
            lemma_prop_seq_view(self.entries@);
            assert(res@ =~= self@);
        }
        res
    }
}

impl Clone for GraphMap {
    /// A clone carries the same model as the original.
    fn clone(&self) -> (res: Self)
        ensures
            res@ == self@,
        decreases *self,
    {
        let mut out: Vec<(String, GraphValue)> = Vec::new();
        let mut idx: usize = 0;
        let n = self.0.len();
        while idx < n
            invariant
                n == self.0@.len(),
                idx <= n,
                out@.len() == idx,
                forall|j: int| 0 <= j < idx
                    ==> (#[trigger] out@[j]).0@ == self.0@[j].0@
                        && out@[j].1@ == self.0@[j].1@,
            decreases n - idx,
        {
            let entry: &(String, GraphValue) = &self.0[idx];
            proof {
                assert(decreases_to!(*self => self.0@[idx as int].1));
            }
            let v = entry.1.clone();
            out.push((entry.0.clone(), v));
            idx += 1;
        }
        let res = GraphMap(out);
        proof {
            lemma_pair_seq_view(res.0@);
            lemma_pair_seq_view(self.0@);
            assert(res@ =~= self@);
        }
        res
    }
}

impl Clone for Node {
    /// A clone carries the same model as the original.
    fn clone(&self) -> (res: Self)
        ensures
            res@ == self@,
        decreases *self,
    {
        let mut labels: Vec<i64> = Vec::new();
        let mut idx: usize = 0;
        let n = self.label_ids.len();
        while idx < n
            invariant
                n == self.label_ids@.len(),
                idx <= n,
                labels@ =~= self.label_ids@.subrange(0, idx as int),
            decreases n - idx,
        {
            labels.push(self.label_ids[idx]);
            idx += 1;
        }
        proof {
            assert(labels@ =~= self.label_ids@);
            assert(decreases_to!(*self => self.properties));
        }
        Node { id: self.id, label_ids: labels, properties: self.properties.clone() }
    }
}

impl Clone for Relationship {
    /// A clone carries the same model as the original.
    fn clone(&self) -> (res: Self)
        ensures
            res@ == self@,
        decreases *self,
    {
        proof {
            assert(decreases_to!(*self => self.properties));
        }
        Relationship {
            id: self.id,
            label_id: self.label_id,
            src: self.src,
            dest: self.dest,
            properties: self.properties.clone(),
        }
    }
}

impl Clone for GraphPath {
    /// A clone carries the same model as the original.
    fn clone(&self) -> (res: Self)
        ensures
            res@ == self@,
        decreases *self,
    {
        let mut nodes: Vec<Node> = Vec::new();
        let mut idx: usize = 0;
        let n = self.nodes.len();
        while idx < n
            invariant
                n == self.nodes@.len(),
                idx <= n,
                nodes@.len() == idx,
                forall|j: int| 0 <= j < idx ==> (#[trigger] nodes@[j])@ == self.nodes@[j]@,
            decreases n - idx,
        {
            let elem: &Node = &self.nodes[idx];
            proof {
                assert(decreases_to!(*self => self.nodes@[idx as int]));
            }
            nodes.push(elem.clone());
            idx += 1;
        }
        let mut rels: Vec<Relationship> = Vec::new();
        let mut ridx: usize = 0;
        let rn = self.relationships.len();
        while ridx < rn
            invariant
                rn == self.relationships@.len(),
                ridx <= rn,
                rels@.len() == ridx,
                forall|j: int| 0 <= j < ridx
                    ==> (#[trigger] rels@[j])@ == self.relationships@[j]@,
            decreases rn - ridx,
        {
            let elem: &Relationship = &self.relationships[ridx];
            proof {
                assert(decreases_to!(*self => self.relationships@[ridx as int]));
            }
            rels.push(elem.clone());
            ridx += 1;
        }
        let res = GraphPath { nodes, relationships: rels };
        proof {
            lemma_node_seq_view(res.nodes@);
            lemma_node_seq_view(self.nodes@);
            lemma_rel_seq_view(res.relationships@);
            lemma_rel_seq_view(self.relationships@);
            assert(res@.nodes =~= self@.nodes);
            assert(res@.relationships =~= self@.relationships);
        }
        res
    }
}

impl Clone for GraphValue {
    /// A clone carries the same model as the original.
    fn clone(&self) -> (res: Self)
        ensures
            res@ == self@,
        decreases *self,
    {
        match self {
            GraphValue::Unknown(w) => GraphValue::Unknown(w.clone()),
            GraphValue::Mapping(m) => {
                proof {
                    assert(decreases_to!(*self => *m));
                }
                GraphValue::Mapping(m.clone())
            },
            GraphValue::Point(p) => GraphValue::Point(p.clone()),
            GraphValue::Path(p) => {
                proof {
                    assert(decreases_to!(*self => *p));
                }
                GraphValue::Path(p.clone())
            },
            GraphValue::Node(n) => {
                proof {
                    assert(decreases_to!(*self => *n));
                }
                GraphValue::Node(n.clone())
            },
            GraphValue::Relation(r) => {
                proof {
                    assert(decreases_to!(*self => *r));
                }
                GraphValue::Relation(r.clone())
            },
            GraphValue::Array(items) => {
                let mut out: Vec<GraphValue> = Vec::new();
                let mut idx: usize = 0;
                let n = items.len();
                while idx < n
                    invariant
                        *self == GraphValue::Array(*items),
                        n == items@.len(),
                        idx <= n,
                        out@.len() == idx,
                        forall|j: int| 0 <= j < idx ==> (#[trigger] out@[j])@ == items@[j]@,
                    decreases n - idx,
                {
                    let elem: &GraphValue = &items[idx];
                    proof {
                        assert(decreases_to!(*self => self->Array_0@[idx as int]));
                    }
                    out.push(elem.clone());
                    idx += 1;
                }
                let res = GraphValue::Array(out);
                proof {
                    lemma_gv_seq_view(out@);
                    lemma_gv_seq_view(items@);
                    assert(gv_seq_view(out@) =~= gv_seq_view(items@));
                }
                res
            },
            GraphValue::Integer(i) => GraphValue::Integer(*i),
            GraphValue::Double(d) => GraphValue::Double(d.clone()),
            GraphValue::String(s) => GraphValue::String(s.clone()),
            GraphValue::Boolean(b) => GraphValue::Boolean(*b),
            GraphValue::Null => GraphValue::Null,
        }
    }
}


/// The value under a string key: the first matching entry's value, if any.
pub open spec fn map_lookup(
    s: Seq<(Seq<char>, GraphValueV)>,
    k: Seq<char>,
) -> Option<GraphValueV>
    decreases s,
{
    if s.len() == 0 {
        None
    } else if s[0].0 == k {
        Some(s[0].1)
    } else {
        map_lookup(s.drop_first(), k)
    }
}

/// At the first entry whose key matches, the lookup returns its value.
pub proof fn lemma_map_lookup_first_match(
    s: Seq<(Seq<char>, GraphValueV)>,
    k: Seq<char>,
    idx: int,
)
    requires
        0 <= idx < s.len(),
        s[idx].0 == k,
        forall|j: int| 0 <= j < idx ==> (#[trigger] s[j]).0 != k,
    ensures
        map_lookup(s, k) == Some(s[idx].1),
    decreases idx,
{
    if idx > 0 {
        assert forall|j: int| 0 <= j < idx - 1
            implies (#[trigger] s.drop_first()[j]).0 != k by {
            assert(s.drop_first()[j] == s[j + 1]);
        }
        assert(s.drop_first()[idx - 1] == s[idx]);
        lemma_map_lookup_first_match(s.drop_first(), k, idx - 1);
    }
}

/// Where no entry's key matches, the lookup returns nothing.
pub proof fn lemma_map_lookup_no_match(s: Seq<(Seq<char>, GraphValueV)>, k: Seq<char>)
    requires
        forall|j: int| 0 <= j < s.len() ==> (#[trigger] s[j]).0 != k,
    ensures
        map_lookup(s, k) is None,
    decreases s.len(),
{
    if s.len() > 0 {
        assert forall|j: int| 0 <= j < s.drop_first().len()
            implies (#[trigger] s.drop_first()[j]).0 != k by {
            assert(s.drop_first()[j] == s[j + 1]);
        }
        lemma_map_lookup_no_match(s.drop_first(), k);
    }
}

impl GraphMap {
    /// Takes ownership of the underlying key/value entries.
    pub fn into_inner(self) -> (r: Vec<(String, GraphValue)>)
        ensures
            pair_seq_view(r@) == self@,
    {
        self.0
    }
}

/// Whether a string-keyed entry sequence holds the key.
pub open spec fn map_has_key(s: Seq<(Seq<char>, GraphValueV)>, k: Seq<char>) -> bool {
    exists|i: int| 0 <= i < s.len() && (#[trigger] s[i]).0 == k
}

/// The index of the first entry with the string key.
pub open spec fn map_key_index(s: Seq<(Seq<char>, GraphValueV)>, k: Seq<char>) -> int
    decreases s,
{
    if s.len() == 0 {
        0
    } else if s[0].0 == k {
        0
    } else {
        1 + map_key_index(s.drop_first(), k)
    }
}

/// Whether the string keys of an entry sequence are pairwise distinct.
pub open spec fn map_unique(s: Seq<(Seq<char>, GraphValueV)>) -> bool {
    forall|i: int, j: int| 0 <= i < j < s.len() ==> (#[trigger] s[i]).0 != (#[trigger] s[j]).0
}

/// What inserting a string key becomes: replace the value in place if the
/// key is present, append the entry if it is not.
pub open spec fn map_insert(
    s: Seq<(Seq<char>, GraphValueV)>,
    k: Seq<char>,
    v: GraphValueV,
) -> Seq<(Seq<char>, GraphValueV)> {
    if map_has_key(s, k) {
        s.update(map_key_index(s, k), (k, v))
    } else {
        s.push((k, v))
    }
}

/// At the first index whose key matches, the key-index function returns it.
pub proof fn lemma_map_first_match(s: Seq<(Seq<char>, GraphValueV)>, k: Seq<char>, idx: int)
    requires
        0 <= idx < s.len(),
        s[idx].0 == k,
        forall|j: int| 0 <= j < idx ==> (#[trigger] s[j]).0 != k,
    ensures
        map_has_key(s, k),
        map_key_index(s, k) == idx,
    decreases idx,
{
    if idx > 0 {
        assert forall|j: int| 0 <= j < idx - 1
            implies (#[trigger] s.drop_first()[j]).0 != k by {
            assert(s.drop_first()[j] == s[j + 1]);
        }
        assert(s.drop_first()[idx - 1] == s[idx]);
        lemma_map_first_match(s.drop_first(), k, idx - 1);
    }
}

impl GraphMap {
    /// An empty mapping.
    pub fn new() -> (r: Self)
        ensures
            r@ == Seq::<(Seq<char>, GraphValueV)>::empty(),
    {
        let r = GraphMap(Vec::new());
        proof {
            lemma_pair_seq_view(r.0@);
            assert(r@ =~= Seq::<(Seq<char>, GraphValueV)>::empty());
        }
        r
    }

    /// Whether the mapping is well formed: its keys are pairwise distinct.
    pub open spec fn wf(&self) -> bool {
        map_unique(self@)
    }

    /// The position of the first entry with the key, if any.
    pub(crate) fn index_of(&self, key: &str) -> (r: Option<usize>)
        ensures
            match r {
                Some(i) => {
                    &&& i < self@.len()
                    &&& self@[i as int].0 == key@
                    &&& map_has_key(self@, key@)
                    &&& map_key_index(self@, key@) == i as int
                    &&& map_lookup(self@, key@) == Some(self@[i as int].1)
                },
                None => !map_has_key(self@, key@) && map_lookup(self@, key@) is None,
            },
    {
        proof {
            lemma_pair_seq_view(self.0@);
        }
        let mut idx: usize = 0;
        let n = self.0.len();
        while idx < n
            invariant
                n == self.0@.len(),
                self@.len() == n,
                forall|j: int| 0 <= j < n
                    ==> (#[trigger] self@[j]) == (self.0@[j].0@, self.0@[j].1@),
                idx <= n,
                forall|j: int| 0 <= j < idx ==> (#[trigger] self@[j]).0 != key@,
            decreases n - idx,
        {
            if crate::text::text_eq(self.0[idx].0.as_str(), key) {
                proof {
                    lemma_map_first_match(self@, key@, idx as int);
                    lemma_map_lookup_first_match(self@, key@, idx as int);
                }
                return Some(idx);
            }
            idx += 1;
        }
        proof {
            lemma_map_lookup_no_match(self@, key@);
        }
        None
    }

    /// Inserts a value under a string key: an existing key keeps its place
    /// and takes the new value, a new key is appended. Well-formedness is
    /// preserved.
    pub fn insert(&mut self, key: String, value: GraphValue)
        ensures
            final(self)@ == map_insert(old(self)@, key@, value@),
            old(self).wf() ==> final(self).wf(),
    {
        let found = self.index_of(key.as_str());
        match found {
            Some(i) => {
                proof {
                    lemma_pair_seq_view(self.0@);
                }
                self.0[i] = (key, value);
                proof {
                    lemma_pair_seq_view(old(self).0@);
                    lemma_pair_seq_view(self.0@);
                    assert(self@ =~= old(self)@.update(i as int, (key@, value@)));
                    assert forall|a: int, b: int|
                        0 <= a < b < self@.len() && map_unique(old(self)@)
                        implies (#[trigger] self@[a]).0 != (#[trigger] self@[b]).0 by {
                        assert(old(self)@[a].0 != old(self)@[b].0);
                    }
                }
            },
            None => {
                self.0.push((key, value));
                proof {
                    lemma_pair_seq_view(old(self).0@);
                    lemma_pair_seq_view(self.0@);
                    assert(self@ =~= old(self)@.push((key@, value@)));
                    assert forall|a: int, b: int|
                        0 <= a < b < self@.len() && map_unique(old(self)@)
                        implies (#[trigger] self@[a]).0 != (#[trigger] self@[b]).0 by {
                        if b == self@.len() - 1 {
                            assert(old(self)@[a] == self@[a]);
                            assert(!map_has_key(old(self)@, key@));
                        } else {
                            assert(old(self)@[a].0 != old(self)@[b].0);
                        }
                    }
                }
            },
        }
    }
}

impl Node {
    /// The full constructor.
    pub fn new(id: i64, label_ids: Vec<i64>, properties: PropertyMap) -> (r: Self)
        ensures
            r@ == (NodeV { id, label_ids: label_ids@, properties: properties@ }),
    {
        Node { id, label_ids, properties }
    }
}

impl Relationship {
    /// The full constructor.
    pub fn new(id: i64, label_id: i64, src: i64, dest: i64, properties: PropertyMap) -> (r: Self)
        ensures
            r@ == (RelationshipV {
                id,
                label_id,
                src,
                dest,
                properties: properties@,
            }),
    {
        Relationship { id, label_id, src, dest, properties }
    }
}
} // verus!
