//! The tag dispatcher: turns a numeric type tag and a raw wire value into a
//! typed graph value, recursing into composite shapes, and the property list
//! decoder that nodes and relationships share.
use vstd::prelude::*;

use vstd::utf8::{decode_utf8, valid_utf8};

use crate::convert::FromGraphValue;
use crate::errors::{GraphError, GraphErrorV, WireKind};
use crate::text::{
    bytes_as_chars, bytes_chars, check_float_literal, i64_text, is_float_literal,
    parse_i64_chars, parse_i64_from_chars, str_chars, text_eq, utf8_to_string, i64_to_string,
    chars_to_string,
};
use crate::value::{
    lemma_gv_seq_view, lemma_node_seq_view, lemma_rel_seq_view, map_insert, props_insert,
    DoubleLiteral, GeoPoint, GeoPointV, GraphMap, GraphPath, GraphPathV, GraphValue, GraphValueV,
    Node, NodeV, PropertyMap, Relationship, RelationshipV,
};
use crate::wire::{lemma_wire_seq_view, WireV, WireValue};

verus! {

/// The tag that marks an unknown value.
pub const TAG_UNKNOWN: i64 = 0;

/// The tag that marks the null value.
pub const TAG_NULL: i64 = 1;

/// The tag that marks a string.
pub const TAG_STRING: i64 = 2;

/// The tag that marks an integer.
pub const TAG_INTEGER: i64 = 3;

/// The tag that marks a boolean.
pub const TAG_BOOLEAN: i64 = 4;

/// The tag that marks a double.
pub const TAG_DOUBLE: i64 = 5;

/// The tag that marks an array.
pub const TAG_ARRAY: i64 = 6;

/// The tag that marks a relationship.
pub const TAG_EDGE: i64 = 7;

/// The tag that marks a node.
pub const TAG_NODE: i64 = 8;

/// The tag that marks a path.
pub const TAG_PATH: i64 = 9;

/// The tag that marks a mapping.
pub const TAG_MAP: i64 = 10;

/// The tag that marks a geographic point.
pub const TAG_POINT: i64 = 11;

/// What reading an integer out of a wire value yields: an integer value
/// directly, or integer text parsed from a byte or line string.
pub open spec fn wire_int(w: WireV) -> Option<i64> {
    match w {
        WireV::Int(i) => Some(i),
        WireV::Data(b) => parse_i64_chars(bytes_as_chars(b)),
        WireV::Status(s) => parse_i64_chars(s),
        _ => None,
    }
}

/// What reading a string out of a wire value yields: the decoded bytes of a
/// byte string, a line string itself, the fixed text of the plain
/// acknowledgement, or an integer's decimal text.
pub open spec fn wire_text(w: WireV) -> Option<Seq<char>> {
    match w {
        WireV::Data(b) => if valid_utf8(b) {
            Some(decode_utf8(b))
        } else {
            None
        },
        WireV::Status(s) => Some(s),
        WireV::Okay => Some(seq!['O', 'K']),
        WireV::Int(i) => Some(i64_text(i as int)),
        _ => None,
    }
}

/// The characters of the boolean text for truth.
pub open spec fn true_chars() -> Seq<char> {
    seq!['t', 'r', 'u', 'e']
}

/// The characters of the boolean text for falsehood.
pub open spec fn false_chars() -> Seq<char> {
    seq!['f', 'a', 'l', 's', 'e']
}

/// What decoding a generic wire value yields: the value must be a 2-element
/// sequence of an integer tag and a raw value, dispatched on the tag.
pub open spec fn decode_value_spec(w: WireV) -> Result<GraphValueV, GraphErrorV>
    decreases w, 1int,
{
    match w {
        WireV::Bulk(data) => if data.len() == 2 {
            match data[0] {
                WireV::Int(tag) => decode_spec(tag, data[1]),
                _ => Err(GraphErrorV::Malformed { expected: WireKind::TaggedValue, found: w }),
            }
        } else {
            Err(GraphErrorV::Malformed { expected: WireKind::TaggedValue, found: w })
        },
        _ => Err(GraphErrorV::Malformed { expected: WireKind::TaggedValue, found: w }),
    }
}

/// What decoding a sequence of generic wire values yields: every element
/// decoded in order, or the first element's error.
pub open spec fn decode_values_spec(items: Seq<WireV>) -> Result<Seq<GraphValueV>, GraphErrorV>
    decreases items, 0int,
{
    if items.len() == 0 {
        Ok(Seq::empty())
    } else {
        match decode_values_spec(items.drop_last()) {
            Ok(pre) => match decode_value_spec(items.last()) {
                Ok(g) => Ok(pre.push(g)),
                Err(e) => Err(e),
            },
            Err(e) => Err(e),
        }
    }
}

/// What reading a sequence of integers out of a wire value yields.
pub open spec fn int_list_spec(w: WireV) -> Result<Seq<i64>, GraphErrorV>
    decreases w, 1int,
{
    match w {
        WireV::Bulk(items) => int_seq_spec(items),
        _ => Err(GraphErrorV::Malformed { expected: WireKind::List, found: w }),
    }
}

/// What reading integers out of a sequence of wire values yields.
pub open spec fn int_seq_spec(items: Seq<WireV>) -> Result<Seq<i64>, GraphErrorV>
    decreases items, 0int,
{
    if items.len() == 0 {
        Ok(Seq::empty())
    } else {
        match int_seq_spec(items.drop_last()) {
            Ok(pre) => match wire_int(items.last()) {
                Some(i) => Ok(pre.push(i)),
                None => Err(
                    GraphErrorV::Malformed { expected: WireKind::Integer, found: items.last() },
                ),
            },
            Err(e) => Err(e),
        }
    }
}

/// What decoding one property triple yields: a 3-element sequence of a
/// property id, a tag, and a raw value decoded under that tag.
pub open spec fn prop_triple_spec(w: WireV) -> Result<(i64, GraphValueV), GraphErrorV>
    decreases w, 1int,
{
    match w {
        WireV::Bulk(parts) => if parts.len() == 3 {
            match wire_int(parts[0]) {
                Some(id) => match wire_int(parts[1]) {
                    Some(tag) => match decode_spec(tag, parts[2]) {
                        Ok(g) => Ok((id, g)),
                        Err(e) => Err(e),
                    },
                    None => Err(
                        GraphErrorV::Malformed { expected: WireKind::Integer, found: parts[1] },
                    ),
                },
                None => Err(GraphErrorV::Malformed { expected: WireKind::Integer, found: parts[0] }),
            }
        } else {
            Err(GraphErrorV::Malformed { expected: WireKind::PropertyShape, found: w })
        },
        _ => Err(GraphErrorV::Malformed { expected: WireKind::PropertyShape, found: w }),
    }
}

/// What decoding a sequence of property triples yields: each decoded entry
/// inserted in order, an existing id replaced in place.
pub open spec fn prop_entries_spec(items: Seq<WireV>) -> Result<
    Seq<(i64, GraphValueV)>,
    GraphErrorV,
>
    decreases items, 0int,
{
    if items.len() == 0 {
        Ok(Seq::empty())
    } else {
        match prop_entries_spec(items.drop_last()) {
            Ok(pre) => match prop_triple_spec(items.last()) {
                Ok(p) => Ok(props_insert(pre, p.0, p.1)),
                Err(e) => Err(e),
            },
            Err(e) => Err(e),
        }
    }
}

/// What decoding a property list yields: a sequence of property triples.
pub open spec fn props_spec(w: WireV) -> Result<Seq<(i64, GraphValueV)>, GraphErrorV>
    decreases w, 1int,
{
    match w {
        WireV::Bulk(items) => prop_entries_spec(items),
        _ => Err(GraphErrorV::Malformed { expected: WireKind::List, found: w }),
    }
}

/// What decoding a node yields: a 3-element sequence of its id, its label
/// ids, and its property list.
pub open spec fn node_spec(w: WireV) -> Result<NodeV, GraphErrorV>
    decreases w, 1int,
{
    match w {
        WireV::Bulk(parts) => if parts.len() == 3 {
            match wire_int(parts[0]) {
                Some(id) => match int_list_spec(parts[1]) {
                    Ok(labels) => match props_spec(parts[2]) {
                        Ok(props) => Ok(NodeV { id, label_ids: labels, properties: props }),
                        Err(e) => Err(e),
                    },
                    Err(e) => Err(e),
                },
                None => Err(GraphErrorV::Malformed { expected: WireKind::Integer, found: parts[0] }),
            }
        } else {
            Err(GraphErrorV::Malformed { expected: WireKind::NodeShape, found: w })
        },
        _ => Err(GraphErrorV::Malformed { expected: WireKind::NodeShape, found: w }),
    }
}

/// What decoding a relationship yields: a 5-element sequence of its id, its
/// label id, its source and destination node ids, and its property list.
pub open spec fn relation_spec(w: WireV) -> Result<RelationshipV, GraphErrorV>
    decreases w, 1int,
{
    match w {
        WireV::Bulk(parts) => if parts.len() == 5 {
            match wire_int(parts[0]) {
                Some(id) => match wire_int(parts[1]) {
                    Some(label_id) => match wire_int(parts[2]) {
                        Some(src) => match wire_int(parts[3]) {
                            Some(dest) => match props_spec(parts[4]) {
                                Ok(props) => Ok(
                                    RelationshipV { id, label_id, src, dest, properties: props },
                                ),
                                Err(e) => Err(e),
                            },
                            None => Err(
                                GraphErrorV::Malformed {
                                    expected: WireKind::Integer,
                                    found: parts[3],
                                },
                            ),
                        },
                        None => Err(
                            GraphErrorV::Malformed { expected: WireKind::Integer, found: parts[2] },
                        ),
                    },
                    None => Err(
                        GraphErrorV::Malformed { expected: WireKind::Integer, found: parts[1] },
                    ),
                },
                None => Err(GraphErrorV::Malformed { expected: WireKind::Integer, found: parts[0] }),
            }
        } else {
            Err(GraphErrorV::Malformed { expected: WireKind::RelationShape, found: w })
        },
        _ => Err(GraphErrorV::Malformed { expected: WireKind::RelationShape, found: w }),
    }
}

/// What decoding a path yields: a 2-element sequence of two generic wire
/// values, the first an array of nodes and the second an array of
/// relationships.
pub open spec fn path_spec(w: WireV) -> Result<GraphPathV, GraphErrorV>
    decreases w, 1int,
{
    match w {
        WireV::Bulk(parts) => if parts.len() == 2 {
            match decode_value_spec(parts[0]) {
                Ok(nodes_value) => match decode_value_spec(parts[1]) {
                    Ok(rels_value) => if !<Vec<crate::value::Node> as FromGraphValue>::convertible(
                        nodes_value,
                    ) {
                        Err(
                            <Vec<crate::value::Node> as FromGraphValue>::convert_error(nodes_value),
                        )
                    } else if !<Vec<crate::value::Relationship> as FromGraphValue>::convertible(
                        rels_value,
                    ) {
                        Err(
                            <Vec<crate::value::Relationship> as FromGraphValue>::convert_error(
                                rels_value,
                            ),
                        )
                    } else {
                        Ok(
                            GraphPathV {
                                nodes: nodes_value->Array_0.map_values(
                                    |g: GraphValueV| g->Node_0,
                                ),
                                relationships: rels_value->Array_0.map_values(
                                    |g: GraphValueV| g->Relation_0,
                                ),
                            },
                        )
                    },
                    Err(e) => Err(e),
                },
                Err(e) => Err(e),
            }
        } else {
            Err(GraphErrorV::Malformed { expected: WireKind::PathShape, found: w })
        },
        _ => Err(GraphErrorV::Malformed { expected: WireKind::PathShape, found: w }),
    }
}

/// What decoding the pairs of a mapping yields: keys and generic values read
/// from an even-length alternation, inserted in order.
pub open spec fn map_pairs_spec(items: Seq<WireV>) -> Result<
    Seq<(Seq<char>, GraphValueV)>,
    GraphErrorV,
>
    recommends
        items.len() % 2 == 0,
    decreases items, 0int,
{
    if items.len() < 2 {
        Ok(Seq::empty())
    } else {
        match map_pairs_spec(items.drop_last().drop_last()) {
            Ok(pre) => match wire_text(items[items.len() - 2]) {
                Some(k) => match decode_value_spec(items.last()) {
                    Ok(g) => Ok(map_insert(pre, k, g)),
                    Err(e) => Err(e),
                },
                None => Err(
                    GraphErrorV::Malformed {
                        expected: WireKind::Text,
                        found: items[items.len() - 2],
                    },
                ),
            },
            Err(e) => Err(e),
        }
    }
}

/// What decoding a mapping yields: an even-length alternation of keys and
/// values.
pub open spec fn map_spec(w: WireV) -> Result<Seq<(Seq<char>, GraphValueV)>, GraphErrorV>
    decreases w, 1int,
{
    match w {
        WireV::Bulk(items) => if items.len() % 2 == 0 {
            map_pairs_spec(items)
        } else {
            Err(GraphErrorV::Malformed { expected: WireKind::MapShape, found: w })
        },
        _ => Err(GraphErrorV::Malformed { expected: WireKind::List, found: w }),
    }
}

/// What decoding a geographic point yields: a 2-element sequence of two
/// coordinate literals.
pub open spec fn point_spec(w: WireV) -> Result<GeoPointV, GraphErrorV>
    decreases w, 1int,
{
    match w {
        WireV::Bulk(parts) => if parts.len() == 2 {
            match wire_text(parts[0]) {
                Some(lat) => if is_float_literal(lat) {
                    match wire_text(parts[1]) {
                        Some(lon) => if is_float_literal(lon) {
                            Ok(GeoPointV { latitude: lat, longitude: lon })
                        } else {
                            Err(
                                GraphErrorV::Malformed {
                                    expected: WireKind::DoubleText,
                                    found: parts[1],
                                },
                            )
                        },
                        None => Err(
                            GraphErrorV::Malformed { expected: WireKind::Text, found: parts[1] },
                        ),
                    }
                } else {
                    Err(GraphErrorV::Malformed { expected: WireKind::DoubleText, found: parts[0] })
                },
                None => Err(GraphErrorV::Malformed { expected: WireKind::Text, found: parts[0] }),
            }
        } else {
            Err(GraphErrorV::Malformed { expected: WireKind::PointShape, found: w })
        },
        _ => Err(GraphErrorV::Malformed { expected: WireKind::PointShape, found: w }),
    }
}

/// What the tag dispatcher yields for a tag and a raw wire value. The tags
/// map to the value kinds in the server's fixed numbering; a tag outside the
/// known range yields the untouched wire value as an unknown, by the
/// forward-compatibility policy.
pub open spec fn decode_spec(tag: i64, w: WireV) -> Result<GraphValueV, GraphErrorV>
    decreases w, 2int,
{
    if tag == TAG_NULL {
        Ok(GraphValueV::Null)
    } else if tag == TAG_STRING {
        match wire_text(w) {
            Some(t) => Ok(GraphValueV::String(t)),
            None => Err(GraphErrorV::Malformed { expected: WireKind::Text, found: w }),
        }
    } else if tag == TAG_INTEGER {
        match wire_int(w) {
            Some(i) => Ok(GraphValueV::Integer(i)),
            None => Err(GraphErrorV::Malformed { expected: WireKind::Integer, found: w }),
        }
    } else if tag == TAG_BOOLEAN {
        match wire_text(w) {
            Some(t) => if t == true_chars() {
                Ok(GraphValueV::Boolean(true))
            } else if t == false_chars() {
                Ok(GraphValueV::Boolean(false))
            } else {
                Err(GraphErrorV::Malformed { expected: WireKind::BooleanText, found: w })
            },
            None => Err(GraphErrorV::Malformed { expected: WireKind::Text, found: w }),
        }
    } else if tag == TAG_DOUBLE {
        match wire_text(w) {
            Some(t) => if is_float_literal(t) {
                Ok(GraphValueV::Double(t))
            } else {
                Err(GraphErrorV::Malformed { expected: WireKind::DoubleText, found: w })
            },
            None => Err(GraphErrorV::Malformed { expected: WireKind::Text, found: w }),
        }
    } else if tag == TAG_ARRAY {
        match w {
            WireV::Bulk(items) => match decode_values_spec(items) {
                Ok(values) => Ok(GraphValueV::Array(values)),
                Err(e) => Err(e),
            },
            _ => Err(GraphErrorV::Malformed { expected: WireKind::List, found: w }),
        }
    } else if tag == TAG_EDGE {
        match relation_spec(w) {
            Ok(r) => Ok(GraphValueV::Relation(r)),
            Err(e) => Err(e),
        }
    } else if tag == TAG_NODE {
        match node_spec(w) {
            Ok(n) => Ok(GraphValueV::Node(n)),
            Err(e) => Err(e),
        }
    } else if tag == TAG_PATH {
        match path_spec(w) {
            Ok(p) => Ok(GraphValueV::Path(p)),
            Err(e) => Err(e),
        }
    } else if tag == TAG_MAP {
        match map_spec(w) {
            Ok(m) => Ok(GraphValueV::Mapping(m)),
            Err(e) => Err(e),
        }
    } else if tag == TAG_POINT {
        match point_spec(w) {
            Ok(p) => Ok(GraphValueV::Point(p)),
            Err(e) => Err(e),
        }
    } else {
        Ok(GraphValueV::Unknown(w))
    }
}


pub proof fn lemma_decode_values_extend(items: Seq<WireV>, k: int)
    requires
        0 <= k <= items.len(),
        decode_values_spec(items.subrange(0, k)) is Err,
    ensures
        decode_values_spec(items) == decode_values_spec(items.subrange(0, k)),
    decreases items.len() - k,
{
    if k == items.len() {
        assert(items.subrange(0, k) =~= items);
    } else {
        let t = items.drop_last();
        assert(t.subrange(0, k) =~= items.subrange(0, k));
        lemma_decode_values_extend(t, k);
    }
}

proof fn lemma_int_seq_extend(items: Seq<WireV>, k: int)
    requires
        0 <= k <= items.len(),
        int_seq_spec(items.subrange(0, k)) is Err,
    ensures
        int_seq_spec(items) == int_seq_spec(items.subrange(0, k)),
    decreases items.len() - k,
{
    if k == items.len() {
        assert(items.subrange(0, k) =~= items);
    } else {
        let t = items.drop_last();
        assert(t.subrange(0, k) =~= items.subrange(0, k));
        lemma_int_seq_extend(t, k);
    }
}

proof fn lemma_prop_entries_extend(items: Seq<WireV>, k: int)
    requires
        0 <= k <= items.len(),
        prop_entries_spec(items.subrange(0, k)) is Err,
    ensures
        prop_entries_spec(items) == prop_entries_spec(items.subrange(0, k)),
    decreases items.len() - k,
{
    if k == items.len() {
        assert(items.subrange(0, k) =~= items);
    } else {
        let t = items.drop_last();
        assert(t.subrange(0, k) =~= items.subrange(0, k));
        lemma_prop_entries_extend(t, k);
    }
}

proof fn lemma_map_pairs_extend(items: Seq<WireV>, k: int)
    requires
        0 <= k <= items.len(),
        k % 2 == 0,
        items.len() % 2 == 0,
        map_pairs_spec(items.subrange(0, k)) is Err,
    ensures
        map_pairs_spec(items) == map_pairs_spec(items.subrange(0, k)),
    decreases items.len() - k,
{
    if k == items.len() {
        assert(items.subrange(0, k) =~= items);
    } else {
        let t = items.drop_last().drop_last();
        assert(t.subrange(0, k) =~= items.subrange(0, k));
        lemma_map_pairs_extend(t, k);
    }
}

/// Reads an integer out of a wire value.
pub fn read_wire_int(w: &WireValue) -> (r: Result<i64, GraphError>)
    ensures
        match r {
            Ok(i) => wire_int(w@) == Some(i),
            Err(e) => {
                &&& wire_int(w@) is None
                &&& e@ == (GraphErrorV::Malformed { expected: WireKind::Integer, found: w@ })
            },
        },
{
    match w {
        WireValue::Int(i) => Ok(*i),
        WireValue::Data(b) => {
            let chars = bytes_chars(b.as_slice());
            match parse_i64_from_chars(&chars) {
                Some(i) => Ok(i),
                None => Err(
                    GraphError::Malformed { expected: WireKind::Integer, found: w.clone() },
                ),
            }
        },
        WireValue::Status(s) => {
            let chars = str_chars(s.as_str());
            match parse_i64_from_chars(&chars) {
                Some(i) => Ok(i),
                None => Err(
                    GraphError::Malformed { expected: WireKind::Integer, found: w.clone() },
                ),
            }
        },
        _ => Err(GraphError::Malformed { expected: WireKind::Integer, found: w.clone() }),
    }
}

/// Reads a string out of a wire value.
pub fn read_wire_string(w: &WireValue) -> (r: Result<String, GraphError>)
    ensures
        match r {
            Ok(s) => wire_text(w@) == Some(s@),
            Err(e) => {
                &&& wire_text(w@) is None
                &&& e@ == (GraphErrorV::Malformed { expected: WireKind::Text, found: w@ })
            },
        },
{
    match w {
        WireValue::Data(b) => {
            let copy = vstd::slice::slice_to_vec(b.as_slice());
            match utf8_to_string(copy) {
                Some(s) => Ok(s),
                None => Err(GraphError::Malformed { expected: WireKind::Text, found: w.clone() }),
            }
        },
        WireValue::Status(s) => Ok(s.clone()),
        WireValue::Okay => {
            let mut chars: Vec<char> = Vec::new();
            chars.push('O');
            chars.push('K');
            let s = chars_to_string(&chars);
            proof {
                assert(s@ =~= seq!['O', 'K']);
            }
            Ok(s)
        },
        WireValue::Int(i) => Ok(i64_to_string(*i)),
        _ => Err(GraphError::Malformed { expected: WireKind::Text, found: w.clone() }),
    }
}

/// Reads a sequence of integers out of a wire value.
pub fn read_int_list(w: &WireValue) -> (r: Result<Vec<i64>, GraphError>)
    ensures
        match r {
            Ok(v) => int_list_spec(w@) == Ok::<Seq<i64>, GraphErrorV>(v@),
            Err(e) => int_list_spec(w@) == Err::<Seq<i64>, GraphErrorV>(e@),
        },
{
    match w {
        WireValue::Bulk(items) => {
            proof {
                lemma_wire_seq_view(items@);
            }
            let ghost itemsv = w@->Bulk_0;
            let mut out: Vec<i64> = Vec::new();
            let mut idx: usize = 0;
            let n = items.len();
            while idx < n
                invariant
                    n == items@.len(),
                    *w == WireValue::Bulk(*items),
                    itemsv == crate::wire::wire_seq_view(items@),
                    itemsv.len() == n,
                    forall|j: int| 0 <= j < n ==> itemsv[j] == (#[trigger] items@[j])@,
                    idx <= n,
                    int_seq_spec(itemsv.subrange(0, idx as int)) == Ok::<Seq<i64>, GraphErrorV>(
                        out@,
                    ),
                decreases n - idx,
            {
                let ghost pre = itemsv.subrange(0, idx as int);
                let ghost pre1 = itemsv.subrange(0, idx as int + 1);
                proof {
                    assert(pre1.drop_last() =~= pre);
                    assert(pre1.last() == itemsv[idx as int]);
                }
                match read_wire_int(&items[idx]) {
                    Ok(i) => out.push(i),
                    Err(e) => {
                        proof {
                            lemma_int_seq_extend(itemsv, idx as int + 1);
                        }
                        return Err(e);
                    },
                }
                idx += 1;
            }
            proof {
                assert(itemsv.subrange(0, n as int) =~= itemsv);
            }
            Ok(out)
        },
        _ => Err(GraphError::Malformed { expected: WireKind::List, found: w.clone() }),
    }
}

/// Decodes one property triple: a property id, a tag, and a raw value
/// decoded under that tag.
fn decode_property(el: &WireValue) -> (r: Result<(i64, GraphValue), GraphError>)
    ensures
        match r {
            Ok(p) => prop_triple_spec(el@) == Ok::<(i64, GraphValueV), GraphErrorV>((p.0, p.1@)),
            Err(e) => prop_triple_spec(el@) == Err::<(i64, GraphValueV), GraphErrorV>(e@),
        },
    decreases *el, 3int,
{
    match el {
        WireValue::Bulk(parts) => {
            proof {
                lemma_wire_seq_view(parts@);
            }
            if parts.len() == 3 {
                let id = match read_wire_int(&parts[0]) {
                    Ok(i) => i,
                    Err(e) => {
                        return Err(e);
                    },
                };
                let tag = match read_wire_int(&parts[1]) {
                    Ok(i) => i,
                    Err(e) => {
                        return Err(e);
                    },
                };
                proof {
                    assert(decreases_to!(*el, 3int => el->Bulk_0@[2], 4int));
                }
                match convert_to_graphvalue(tag, &parts[2]) {
                    Ok(g) => Ok((id, g)),
                    Err(e) => Err(e),
                }
            } else {
                Err(GraphError::Malformed { expected: WireKind::PropertyShape, found: el.clone() })
            }
        },
        _ => Err(GraphError::Malformed { expected: WireKind::PropertyShape, found: el.clone() }),
    }
}

/// Decodes a property list: a sequence of property triples, collected into
/// an insertion-ordered map with unique keys.
pub fn parse_properties(raw: &WireValue) -> (r: Result<PropertyMap, GraphError>)
    ensures
        match r {
            Ok(m) => {
                &&& props_spec(raw@) == Ok::<Seq<(i64, GraphValueV)>, GraphErrorV>(m@)
                &&& m.wf()
            },
            Err(e) => props_spec(raw@) == Err::<Seq<(i64, GraphValueV)>, GraphErrorV>(e@),
        },
    decreases *raw, 2int,
{
    match raw {
        WireValue::Bulk(items) => {
            proof {
                lemma_wire_seq_view(items@);
            }
            let ghost itemsv = raw@->Bulk_0;
            let mut m = PropertyMap::new();
            let mut idx: usize = 0;
            let n = items.len();
            while idx < n
                invariant
                    n == items@.len(),
                    *raw == WireValue::Bulk(*items),
                    itemsv == crate::wire::wire_seq_view(items@),
                    itemsv.len() == n,
                    forall|j: int| 0 <= j < n ==> itemsv[j] == (#[trigger] items@[j])@,
                    idx <= n,
                    prop_entries_spec(itemsv.subrange(0, idx as int)) == Ok::<
                        Seq<(i64, GraphValueV)>,
                        GraphErrorV,
                    >(m@),
                    m.wf(),
                decreases n - idx,
            {
                let ghost pre = itemsv.subrange(0, idx as int);
                let ghost pre1 = itemsv.subrange(0, idx as int + 1);
                proof {
                    assert(pre1.drop_last() =~= pre);
                    assert(pre1.last() == itemsv[idx as int]);
                    assert(decreases_to!(*raw, 2int => raw->Bulk_0@[idx as int], 3int));
                }
                match decode_property(&items[idx]) {
                    Ok(p) => {
                        let (id, value) = p;
                        m.insert(id, value);
                    },
                    Err(e) => {
                        proof {
                            lemma_prop_entries_extend(itemsv, idx as int + 1);
                        }
                        return Err(e);
                    },
                }
                idx += 1;
            }
            proof {
                assert(itemsv.subrange(0, n as int) =~= itemsv);
            }
            Ok(m)
        },
        _ => Err(GraphError::Malformed { expected: WireKind::List, found: raw.clone() }),
    }
}

impl Node {
    /// Decodes a node: a 3-element sequence of its id, its label ids, and
    /// its property list.
    pub fn from_wire_value(w: &WireValue) -> (r: Result<Node, GraphError>)
        ensures
            match r {
                Ok(n) => node_spec(w@) == Ok::<NodeV, GraphErrorV>(n@) && n.properties.wf(),
                Err(e) => node_spec(w@) == Err::<NodeV, GraphErrorV>(e@),
            },
        decreases *w, 3int,
    {
        match w {
            WireValue::Bulk(parts) => {
                proof {
                    lemma_wire_seq_view(parts@);
                }
                if parts.len() == 3 {
                    let id = match read_wire_int(&parts[0]) {
                        Ok(i) => i,
                        Err(e) => {
                            return Err(e);
                        },
                    };
                    let labels = match read_int_list(&parts[1]) {
                        Ok(v) => v,
                        Err(e) => {
                            return Err(e);
                        },
                    };
                    proof {
                        assert(decreases_to!(*w, 3int => w->Bulk_0@[2], 2int));
                    }
                    let props = match parse_properties(&parts[2]) {
                        Ok(m) => m,
                        Err(e) => {
                            return Err(e);
                        },
                    };
                    Ok(Node::new(id, labels, props))
                } else {
                    Err(GraphError::Malformed { expected: WireKind::NodeShape, found: w.clone() })
                }
            },
            _ => Err(GraphError::Malformed { expected: WireKind::NodeShape, found: w.clone() }),
        }
    }
}

impl Relationship {
    /// Decodes a relationship: a 5-element sequence of its id, its label id,
    /// its source and destination node ids, and its property list.
    pub fn from_wire_value(w: &WireValue) -> (r: Result<Relationship, GraphError>)
        ensures
            match r {
                Ok(rel) => relation_spec(w@) == Ok::<RelationshipV, GraphErrorV>(rel@)
                    && rel.properties.wf(),
                Err(e) => relation_spec(w@) == Err::<RelationshipV, GraphErrorV>(e@),
            },
        decreases *w, 3int,
    {
        match w {
            WireValue::Bulk(parts) => {
                proof {
                    lemma_wire_seq_view(parts@);
                }
                if parts.len() == 5 {
                    let id = match read_wire_int(&parts[0]) {
                        Ok(i) => i,
                        Err(e) => {
                            return Err(e);
                        },
                    };
                    let label_id = match read_wire_int(&parts[1]) {
                        Ok(i) => i,
                        Err(e) => {
                            return Err(e);
                        },
                    };
                    let src = match read_wire_int(&parts[2]) {
                        Ok(i) => i,
                        Err(e) => {
                            return Err(e);
                        },
                    };
                    let dest = match read_wire_int(&parts[3]) {
                        Ok(i) => i,
                        Err(e) => {
                            return Err(e);
                        },
                    };
                    proof {
                        assert(decreases_to!(*w, 3int => w->Bulk_0@[4], 2int));
                    }
                    let props = match parse_properties(&parts[4]) {
                        Ok(m) => m,
                        Err(e) => {
                            return Err(e);
                        },
                    };
                    Ok(Relationship::new(id, label_id, src, dest, props))
                } else {
                    Err(
                        GraphError::Malformed {
                            expected: WireKind::RelationShape,
                            found: w.clone(),
                        },
                    )
                }
            },
            _ => Err(GraphError::Malformed { expected: WireKind::RelationShape, found: w.clone() }),
        }
    }
}

impl GeoPoint {
    /// Decodes a geographic point: a 2-element sequence of two coordinate
    /// literals.
    pub fn from_wire_value(w: &WireValue) -> (r: Result<GeoPoint, GraphError>)
        ensures
            match r {
                Ok(p) => point_spec(w@) == Ok::<GeoPointV, GraphErrorV>(p@),
                Err(e) => point_spec(w@) == Err::<GeoPointV, GraphErrorV>(e@),
            },
    {
        match w {
            WireValue::Bulk(parts) => {
                proof {
                    lemma_wire_seq_view(parts@);
                }
                if parts.len() == 2 {
                    let lat = match read_wire_string(&parts[0]) {
                        Ok(s) => s,
                        Err(e) => {
                            return Err(e);
                        },
                    };
                    let lat_chars = str_chars(lat.as_str());
                    if !check_float_literal(&lat_chars) {
                        return Err(
                            GraphError::Malformed {
                                expected: WireKind::DoubleText,
                                found: parts[0].clone(),
                            },
                        );
                    }
                    let lon = match read_wire_string(&parts[1]) {
                        Ok(s) => s,
                        Err(e) => {
                            return Err(e);
                        },
                    };
                    let lon_chars = str_chars(lon.as_str());
                    if !check_float_literal(&lon_chars) {
                        return Err(
                            GraphError::Malformed {
                                expected: WireKind::DoubleText,
                                found: parts[1].clone(),
                            },
                        );
                    }
                    Ok(GeoPoint { latitude: DoubleLiteral(lat), longitude: DoubleLiteral(lon) })
                } else {
                    Err(GraphError::Malformed { expected: WireKind::PointShape, found: w.clone() })
                }
            },
            _ => Err(GraphError::Malformed { expected: WireKind::PointShape, found: w.clone() }),
        }
    }
}

impl GraphMap {
    /// Decodes a mapping: an even-length alternation of keys and generic
    /// values, collected into an insertion-ordered map with unique keys.
    pub fn from_wire_value(w: &WireValue) -> (r: Result<GraphMap, GraphError>)
        ensures
            match r {
                Ok(m) => {
                    &&& map_spec(w@) == Ok::<Seq<(Seq<char>, GraphValueV)>, GraphErrorV>(m@)
                    &&& m.wf()
                },
                Err(e) => map_spec(w@) == Err::<Seq<(Seq<char>, GraphValueV)>, GraphErrorV>(e@),
            },
        decreases *w, 3int,
    {
        match w {
            WireValue::Bulk(items) => {
                proof {
                    lemma_wire_seq_view(items@);
                }
                let n = items.len();
                if n % 2 != 0 {
                    return Err(
                        GraphError::Malformed { expected: WireKind::MapShape, found: w.clone() },
                    );
                }
                let ghost itemsv = w@->Bulk_0;
                let mut m = GraphMap::new();
                let mut idx: usize = 0;
                while idx < n
                    invariant
                        n == items@.len(),
                        n % 2 == 0,
                        idx % 2 == 0,
                        *w == WireValue::Bulk(*items),
                        itemsv == crate::wire::wire_seq_view(items@),
                        itemsv.len() == n,
                        forall|j: int| 0 <= j < n ==> itemsv[j] == (#[trigger] items@[j])@,
                        idx <= n,
                        map_pairs_spec(itemsv.subrange(0, idx as int)) == Ok::<
                            Seq<(Seq<char>, GraphValueV)>,
                            GraphErrorV,
                        >(m@),
                        m.wf(),
                    decreases n - idx,
                {
                    let ghost pre = itemsv.subrange(0, idx as int);
                    let ghost pre2 = itemsv.subrange(0, idx as int + 2);
                    proof {
                        assert(pre2.drop_last().drop_last() =~= pre);
                        assert(pre2.last() == itemsv[idx as int + 1]);
                        assert(pre2[pre2.len() - 2] == itemsv[idx as int]);
                    }
                    let key = match read_wire_string(&items[idx]) {
                        Ok(s) => s,
                        Err(e) => {
                            proof {
                                lemma_map_pairs_extend(itemsv, idx as int + 2);
                            }
                            return Err(e);
                        },
                    };
                    proof {
                        assert(decreases_to!(*w, 3int => w->Bulk_0@[idx as int + 1], 1int));
                    }
                    let value = match GraphValue::from_wire_value(&items[idx + 1]) {
                        Ok(g) => g,
                        Err(e) => {
                            proof {
                                lemma_map_pairs_extend(itemsv, idx as int + 2);
                            }
                            return Err(e);
                        },
                    };
                    m.insert(key, value);
                    idx += 2;
                }
                proof {
                    assert(itemsv.subrange(0, n as int) =~= itemsv);
                }
                Ok(m)
            },
            _ => Err(GraphError::Malformed { expected: WireKind::List, found: w.clone() }),
        }
    }
}

impl GraphPath {
    /// Decodes a path: a 2-element sequence of two generic wire values, the
    /// first an array of nodes and the second an array of relationships.
    pub fn from_wire_value(w: &WireValue) -> (r: Result<GraphPath, GraphError>)
        ensures
            match r {
                Ok(p) => path_spec(w@) == Ok::<GraphPathV, GraphErrorV>(p@),
                Err(e) => path_spec(w@) == Err::<GraphPathV, GraphErrorV>(e@),
            },
        decreases *w, 3int,
    {
        match w {
            WireValue::Bulk(parts) => {
                proof {
                    lemma_wire_seq_view(parts@);
                }
                if parts.len() == 2 {
                    proof {
                        assert(decreases_to!(*w, 3int => w->Bulk_0@[0], 1int));
                        assert(decreases_to!(*w, 3int => w->Bulk_0@[1], 1int));
                    }
                    let nodes_value = match GraphValue::from_wire_value(&parts[0]) {
                        Ok(g) => g,
                        Err(e) => {
                            return Err(e);
                        },
                    };
                    let rels_value = match GraphValue::from_wire_value(&parts[1]) {
                        Ok(g) => g,
                        Err(e) => {
                            return Err(e);
                        },
                    };
                    let ghost nv = nodes_value@;
                    let ghost rv = rels_value@;
                    let nodes: Vec<Node> = match crate::convert::from_graph_value(nodes_value) {
                        Ok(v) => v,
                        Err(e) => {
                            return Err(e);
                        },
                    };
                    let relationships: Vec<Relationship> = match crate::convert::from_graph_value(
                        rels_value,
                    ) {
                        Ok(v) => v,
                        Err(e) => {
                            return Err(e);
                        },
                    };
                    let p = GraphPath { nodes, relationships };
                    proof {
                        lemma_node_seq_view(p.nodes@);
                        lemma_rel_seq_view(p.relationships@);
                        assert(p@.nodes =~= nv->Array_0.map_values(|g: GraphValueV| g->Node_0));
                        assert(p@.relationships =~= rv->Array_0.map_values(
                            |g: GraphValueV| g->Relation_0,
                        ));
                    }
                    Ok(p)
                } else {
                    Err(GraphError::Malformed { expected: WireKind::PathShape, found: w.clone() })
                }
            },
            _ => Err(GraphError::Malformed { expected: WireKind::PathShape, found: w.clone() }),
        }
    }
}

impl GraphValue {
    /// Decodes a generic wire value: a 2-element sequence of an integer tag
    /// and a raw value, dispatched on the tag.
    pub fn from_wire_value(w: &WireValue) -> (r: Result<GraphValue, GraphError>)
        ensures
            match r {
                Ok(g) => decode_value_spec(w@) == Ok::<GraphValueV, GraphErrorV>(g@),
                Err(e) => decode_value_spec(w@) == Err::<GraphValueV, GraphErrorV>(e@),
            },
        decreases *w, 1int,
    {
        match w {
            WireValue::Bulk(data) => {
                proof {
                    lemma_wire_seq_view(data@);
                }
                if data.len() == 2 {
                    let tag_value: &WireValue = &data[0];
                    match tag_value {
                        WireValue::Int(tag) => {
                            proof {
                                assert(decreases_to!(*w, 1int => w->Bulk_0@[1], 0int));
                            }
                            convert_to_graphvalue(*tag, &data[1])
                        },
                        _ => Err(
                            GraphError::Malformed {
                                expected: WireKind::TaggedValue,
                                found: w.clone(),
                            },
                        ),
                    }
                } else {
                    Err(
                        GraphError::Malformed { expected: WireKind::TaggedValue, found: w.clone() },
                    )
                }
            },
            _ => Err(GraphError::Malformed { expected: WireKind::TaggedValue, found: w.clone() }),
        }
    }
}

/// The tag dispatcher: decodes a raw wire value under a numeric type tag.
/// A tag outside the known range yields the untouched wire value as an
/// unknown, by the forward-compatibility policy.
pub fn convert_to_graphvalue(tag: i64, raw: &WireValue) -> (r: Result<GraphValue, GraphError>)
    ensures
        match r {
            Ok(g) => decode_spec(tag, raw@) == Ok::<GraphValueV, GraphErrorV>(g@),
            Err(e) => decode_spec(tag, raw@) == Err::<GraphValueV, GraphErrorV>(e@),
        },
    decreases *raw, 4int,
{
    if tag == TAG_NULL {
        Ok(GraphValue::Null)
    } else if tag == TAG_STRING {
        match read_wire_string(raw) {
            Ok(s) => Ok(GraphValue::String(s)),
            Err(e) => Err(e),
        }
    } else if tag == TAG_INTEGER {
        match read_wire_int(raw) {
            Ok(i) => Ok(GraphValue::Integer(i)),
            Err(e) => Err(e),
        }
    } else if tag == TAG_BOOLEAN {
        match read_wire_string(raw) {
            Ok(s) => {
                proof {
                    reveal_strlit("true");
                    reveal_strlit("false");
                    assert("true"@ =~= true_chars());
                    assert("false"@ =~= false_chars());
                }
                if text_eq(s.as_str(), "true") {
                    Ok(GraphValue::Boolean(true))
                } else if text_eq(s.as_str(), "false") {
                    Ok(GraphValue::Boolean(false))
                } else {
                    Err(
                        GraphError::Malformed {
                            expected: WireKind::BooleanText,
                            found: raw.clone(),
                        },
                    )
                }
            },
            Err(e) => Err(e),
        }
    } else if tag == TAG_DOUBLE {
        match read_wire_string(raw) {
            Ok(s) => {
                let chars = str_chars(s.as_str());
                if check_float_literal(&chars) {
                    Ok(GraphValue::Double(DoubleLiteral(s)))
                } else {
                    Err(
                        GraphError::Malformed { expected: WireKind::DoubleText, found: raw.clone() },
                    )
                }
            },
            Err(e) => Err(e),
        }
    } else if tag == TAG_ARRAY {
        match raw {
            WireValue::Bulk(items) => {
                proof {
                    lemma_wire_seq_view(items@);
                }
                let ghost itemsv = raw@->Bulk_0;
                let mut out: Vec<GraphValue> = Vec::new();
                let mut idx: usize = 0;
                let n = items.len();
                while idx < n
                    invariant
                        tag == TAG_ARRAY,
                        n == items@.len(),
                        *raw == WireValue::Bulk(*items),
                        itemsv == crate::wire::wire_seq_view(items@),
                        itemsv.len() == n,
                        forall|j: int| 0 <= j < n ==> itemsv[j] == (#[trigger] items@[j])@,
                        idx <= n,
                        decode_values_spec(itemsv.subrange(0, idx as int)) == Ok::<
                            Seq<GraphValueV>,
                            GraphErrorV,
                        >(crate::value::gv_seq_view(out@)),
                    decreases n - idx,
                {
                    let ghost pre = itemsv.subrange(0, idx as int);
                    let ghost pre1 = itemsv.subrange(0, idx as int + 1);
                    proof {
                        assert(pre1.drop_last() =~= pre);
                        assert(pre1.last() == itemsv[idx as int]);
                        assert(decreases_to!(*raw, 4int => raw->Bulk_0@[idx as int], 1int));
                    }
                    match GraphValue::from_wire_value(&items[idx]) {
                        Ok(g) => {
                            let ghost out_pre = out@;
                            out.push(g);
                            proof {
                                lemma_gv_seq_view(out_pre);
                                lemma_gv_seq_view(out@);
                                assert(crate::value::gv_seq_view(out@) =~= crate::value::gv_seq_view(
                                    out_pre,
                                ).push(out@[out@.len() - 1]@));
                            }
                        },
                        Err(e) => {
                            proof {
                                lemma_decode_values_extend(itemsv, idx as int + 1);
                            }
                            return Err(e);
                        },
                    }
                    idx += 1;
                }
                proof {
                    assert(itemsv.subrange(0, n as int) =~= itemsv);
                }
                Ok(GraphValue::Array(out))
            },
            _ => Err(GraphError::Malformed { expected: WireKind::List, found: raw.clone() }),
        }
    } else if tag == TAG_EDGE {
        match Relationship::from_wire_value(raw) {
            Ok(rel) => Ok(GraphValue::Relation(rel)),
            Err(e) => Err(e),
        }
    } else if tag == TAG_NODE {
        match Node::from_wire_value(raw) {
            Ok(n) => Ok(GraphValue::Node(n)),
            Err(e) => Err(e),
        }
    } else if tag == TAG_PATH {
        match GraphPath::from_wire_value(raw) {
            Ok(p) => Ok(GraphValue::Path(p)),
            Err(e) => Err(e),
        }
    } else if tag == TAG_MAP {
        match GraphMap::from_wire_value(raw) {
            Ok(m) => Ok(GraphValue::Mapping(m)),
            Err(e) => Err(e),
        }
    } else if tag == TAG_POINT {
        match GeoPoint::from_wire_value(raw) {
            Ok(p) => Ok(GraphValue::Point(p)),
            Err(e) => Err(e),
        }
    } else {
        Ok(GraphValue::Unknown(raw.clone()))
    }
}

/// The tag a decoded value kind corresponds to, in the server's fixed
/// numbering.
pub open spec fn variant_tag(g: GraphValueV) -> i64 {
    match g {
        GraphValueV::Unknown(_) => TAG_UNKNOWN,
        GraphValueV::Null => TAG_NULL,
        GraphValueV::String(_) => TAG_STRING,
        GraphValueV::Integer(_) => TAG_INTEGER,
        GraphValueV::Boolean(_) => TAG_BOOLEAN,
        GraphValueV::Double(_) => TAG_DOUBLE,
        GraphValueV::Array(_) => TAG_ARRAY,
        GraphValueV::Relation(_) => TAG_EDGE,
        GraphValueV::Node(_) => TAG_NODE,
        GraphValueV::Path(_) => TAG_PATH,
        GraphValueV::Mapping(_) => TAG_MAP,
        GraphValueV::Point(_) => TAG_POINT,
    }
}

/// Tag dispatch law: whenever decoding under a known tag succeeds, the
/// result is that tag's value kind, so no two known tags can produce the
/// same kind. A tag outside the known range always succeeds and yields the
/// unknown kind.
pub proof fn lemma_tag_determines_variant(tag: i64, w: WireV)
    ensures
        0 <= tag <= 11 && decode_spec(tag, w) is Ok ==> variant_tag(
            decode_spec(tag, w)->Ok_0,
        ) == tag,
        !(0 <= tag <= 11) ==> decode_spec(tag, w) == Ok::<GraphValueV, GraphErrorV>(
            GraphValueV::Unknown(w),
        ),
{
}

/// Tag dispatch injectivity law: two different known tags never decode to
/// the same value kind.
pub proof fn lemma_decoding_injective(tag1: i64, tag2: i64, w1: WireV, w2: WireV)
    requires
        0 <= tag1 <= 11,
        0 <= tag2 <= 11,
        tag1 != tag2,
        decode_spec(tag1, w1) is Ok,
        decode_spec(tag2, w2) is Ok,
    ensures
        variant_tag(decode_spec(tag1, w1)->Ok_0) != variant_tag(decode_spec(tag2, w2)->Ok_0),
{
    lemma_tag_determines_variant(tag1, w1);
    lemma_tag_determines_variant(tag2, w2);
}
} // verus!
