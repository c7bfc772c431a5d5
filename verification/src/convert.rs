//! The conversion capability: every target shape an application may request
//! from a decoded graph value implements it. Success and failure are pinned
//! exactly: a conversion succeeds precisely on its matching variant (with
//! every part converting in turn), and a failure reports the first offender.
use vstd::prelude::*;

use crate::errors::{GraphError, GraphErrorV, TargetKind};
use crate::value::{
    DoubleLiteral, GeoPoint, GraphMap, GraphPath, GraphValue, GraphValueV, Node, Relationship,
};

verus! {

/// The capability of being converted out of a decoded graph value.
pub trait FromGraphValue: Sized {
    /// Whether the value converts to this type.
    spec fn convertible(v: GraphValueV) -> bool;

    /// How a successful conversion's result relates to the value.
    spec fn converted(v: GraphValueV, r: Self) -> bool;

    /// The error a failed conversion reports.
    spec fn convert_error(v: GraphValueV) -> GraphErrorV;

    /// Converts the value: succeeds exactly on convertible values, with the
    /// stated result; fails with the stated error on all others.
    fn from_graph_value(value: GraphValue) -> (r: Result<Self, GraphError>)
        ensures
            match r {
                Ok(t) => Self::convertible(value@) && Self::converted(value@, t),
                Err(e) => !Self::convertible(value@) && e@ == Self::convert_error(value@),
            },
    ;
}

/// Converts a graph value to any target of the conversion capability.
pub fn from_graph_value<T: FromGraphValue>(value: GraphValue) -> (r: Result<T, GraphError>)
    ensures
        match r {
            Ok(t) => T::convertible(value@) && T::converted(value@, t),
            Err(e) => !T::convertible(value@) && e@ == T::convert_error(value@),
        },
{
    T::from_graph_value(value)
}

impl FromGraphValue for i64 {
    open spec fn convertible(v: GraphValueV) -> bool {
        v is Integer
    }

    open spec fn converted(v: GraphValueV, r: i64) -> bool {
        r == v->Integer_0
    }

    open spec fn convert_error(v: GraphValueV) -> GraphErrorV {
        GraphErrorV::Mismatch { expected: TargetKind::I64, found: v }
    }

    fn from_graph_value(value: GraphValue) -> (r: Result<Self, GraphError>) {
        match value {
            GraphValue::Integer(i) => Ok(i),
            other => Err(GraphError::Mismatch { expected: TargetKind::I64, found: other }),
        }
    }
}

impl FromGraphValue for i8 {
    open spec fn convertible(v: GraphValueV) -> bool {
        v is Integer && i8::MIN <= v->Integer_0 <= i8::MAX
    }

    open spec fn converted(v: GraphValueV, r: i8) -> bool {
        r == v->Integer_0 as i8
    }

    open spec fn convert_error(v: GraphValueV) -> GraphErrorV {
        if v is Integer {
            GraphErrorV::OutOfRange { expected: TargetKind::I8, found: v->Integer_0 }
        } else {
            GraphErrorV::Mismatch { expected: TargetKind::I8, found: v }
        }
    }

    fn from_graph_value(value: GraphValue) -> (r: Result<Self, GraphError>) {
        match value {
            GraphValue::Integer(i) => match i8::try_from(i) {
                Ok(x) => Ok(x),
                Err(_) => Err(GraphError::OutOfRange { expected: TargetKind::I8, found: i }),
            },
            other => Err(GraphError::Mismatch { expected: TargetKind::I8, found: other }),
        }
    }
}

impl FromGraphValue for i16 {
    open spec fn convertible(v: GraphValueV) -> bool {
        v is Integer && i16::MIN <= v->Integer_0 <= i16::MAX
    }

    open spec fn converted(v: GraphValueV, r: i16) -> bool {
        r == v->Integer_0 as i16
    }

    open spec fn convert_error(v: GraphValueV) -> GraphErrorV {
        if v is Integer {
            GraphErrorV::OutOfRange { expected: TargetKind::I16, found: v->Integer_0 }
        } else {
            GraphErrorV::Mismatch { expected: TargetKind::I16, found: v }
        }
    }

    fn from_graph_value(value: GraphValue) -> (r: Result<Self, GraphError>) {
        match value {
            GraphValue::Integer(i) => match i16::try_from(i) {
                Ok(x) => Ok(x),
                Err(_) => Err(GraphError::OutOfRange { expected: TargetKind::I16, found: i }),
            },
            other => Err(GraphError::Mismatch { expected: TargetKind::I16, found: other }),
        }
    }
}

impl FromGraphValue for i32 {
    open spec fn convertible(v: GraphValueV) -> bool {
        v is Integer && i32::MIN <= v->Integer_0 <= i32::MAX
    }

    open spec fn converted(v: GraphValueV, r: i32) -> bool {
        r == v->Integer_0 as i32
    }

    open spec fn convert_error(v: GraphValueV) -> GraphErrorV {
        if v is Integer {
            GraphErrorV::OutOfRange { expected: TargetKind::I32, found: v->Integer_0 }
        } else {
            GraphErrorV::Mismatch { expected: TargetKind::I32, found: v }
        }
    }

    fn from_graph_value(value: GraphValue) -> (r: Result<Self, GraphError>) {
        match value {
            GraphValue::Integer(i) => match i32::try_from(i) {
                Ok(x) => Ok(x),
                Err(_) => Err(GraphError::OutOfRange { expected: TargetKind::I32, found: i }),
            },
            other => Err(GraphError::Mismatch { expected: TargetKind::I32, found: other }),
        }
    }
}

impl FromGraphValue for u8 {
    open spec fn convertible(v: GraphValueV) -> bool {
        v is Integer && 0 <= v->Integer_0 <= u8::MAX
    }

    open spec fn converted(v: GraphValueV, r: u8) -> bool {
        r == v->Integer_0 as u8
    }

    open spec fn convert_error(v: GraphValueV) -> GraphErrorV {
        if v is Integer {
            GraphErrorV::OutOfRange { expected: TargetKind::U8, found: v->Integer_0 }
        } else {
            GraphErrorV::Mismatch { expected: TargetKind::U8, found: v }
        }
    }

    fn from_graph_value(value: GraphValue) -> (r: Result<Self, GraphError>) {
        match value {
            GraphValue::Integer(i) => match u8::try_from(i) {
                Ok(x) => Ok(x),
                Err(_) => Err(GraphError::OutOfRange { expected: TargetKind::U8, found: i }),
            },
            other => Err(GraphError::Mismatch { expected: TargetKind::U8, found: other }),
        }
    }
}

impl FromGraphValue for u16 {
    open spec fn convertible(v: GraphValueV) -> bool {
        v is Integer && 0 <= v->Integer_0 <= u16::MAX
    }

    open spec fn converted(v: GraphValueV, r: u16) -> bool {
        r == v->Integer_0 as u16
    }

    open spec fn convert_error(v: GraphValueV) -> GraphErrorV {
        if v is Integer {
            GraphErrorV::OutOfRange { expected: TargetKind::U16, found: v->Integer_0 }
        } else {
            GraphErrorV::Mismatch { expected: TargetKind::U16, found: v }
        }
    }

    fn from_graph_value(value: GraphValue) -> (r: Result<Self, GraphError>) {
        match value {
            GraphValue::Integer(i) => match u16::try_from(i) {
                Ok(x) => Ok(x),
                Err(_) => Err(GraphError::OutOfRange { expected: TargetKind::U16, found: i }),
            },
            other => Err(GraphError::Mismatch { expected: TargetKind::U16, found: other }),
        }
    }
}

impl FromGraphValue for u32 {
    open spec fn convertible(v: GraphValueV) -> bool {
        v is Integer && 0 <= v->Integer_0 <= u32::MAX
    }

    open spec fn converted(v: GraphValueV, r: u32) -> bool {
        r == v->Integer_0 as u32
    }

    open spec fn convert_error(v: GraphValueV) -> GraphErrorV {
        if v is Integer {
            GraphErrorV::OutOfRange { expected: TargetKind::U32, found: v->Integer_0 }
        } else {
            GraphErrorV::Mismatch { expected: TargetKind::U32, found: v }
        }
    }

    fn from_graph_value(value: GraphValue) -> (r: Result<Self, GraphError>) {
        match value {
            GraphValue::Integer(i) => match u32::try_from(i) {
                Ok(x) => Ok(x),
                Err(_) => Err(GraphError::OutOfRange { expected: TargetKind::U32, found: i }),
            },
            other => Err(GraphError::Mismatch { expected: TargetKind::U32, found: other }),
        }
    }
}

impl FromGraphValue for u64 {
    open spec fn convertible(v: GraphValueV) -> bool {
        v is Integer && 0 <= v->Integer_0
    }

    open spec fn converted(v: GraphValueV, r: u64) -> bool {
        r == v->Integer_0 as u64
    }

    open spec fn convert_error(v: GraphValueV) -> GraphErrorV {
        if v is Integer {
            GraphErrorV::OutOfRange { expected: TargetKind::U64, found: v->Integer_0 }
        } else {
            GraphErrorV::Mismatch { expected: TargetKind::U64, found: v }
        }
    }

    fn from_graph_value(value: GraphValue) -> (r: Result<Self, GraphError>) {
        match value {
            GraphValue::Integer(i) => match u64::try_from(i) {
                Ok(x) => Ok(x),
                Err(_) => Err(GraphError::OutOfRange { expected: TargetKind::U64, found: i }),
            },
            other => Err(GraphError::Mismatch { expected: TargetKind::U64, found: other }),
        }
    }
}

impl FromGraphValue for DoubleLiteral {
    open spec fn convertible(v: GraphValueV) -> bool {
        v is Double
    }

    open spec fn converted(v: GraphValueV, r: DoubleLiteral) -> bool {
        r@ == v->Double_0
    }

    open spec fn convert_error(v: GraphValueV) -> GraphErrorV {
        GraphErrorV::Mismatch { expected: TargetKind::Double, found: v }
    }

    fn from_graph_value(value: GraphValue) -> (r: Result<Self, GraphError>) {
        match value {
            GraphValue::Double(d) => Ok(d),
            other => Err(GraphError::Mismatch { expected: TargetKind::Double, found: other }),
        }
    }
}

impl FromGraphValue for bool {
    open spec fn convertible(v: GraphValueV) -> bool {
        v is Boolean
    }

    open spec fn converted(v: GraphValueV, r: bool) -> bool {
        r == v->Boolean_0
    }

    open spec fn convert_error(v: GraphValueV) -> GraphErrorV {
        GraphErrorV::Mismatch { expected: TargetKind::Boolean, found: v }
    }

    fn from_graph_value(value: GraphValue) -> (r: Result<Self, GraphError>) {
        match value {
            GraphValue::Boolean(b) => Ok(b),
            other => Err(GraphError::Mismatch { expected: TargetKind::Boolean, found: other }),
        }
    }
}

impl FromGraphValue for String {
    open spec fn convertible(v: GraphValueV) -> bool {
        v is String
    }

    open spec fn converted(v: GraphValueV, r: String) -> bool {
        r@ == v->String_0
    }

    open spec fn convert_error(v: GraphValueV) -> GraphErrorV {
        GraphErrorV::Mismatch { expected: TargetKind::Text, found: v }
    }

    fn from_graph_value(value: GraphValue) -> (r: Result<Self, GraphError>) {
        match value {
            GraphValue::String(s) => Ok(s),
            other => Err(GraphError::Mismatch { expected: TargetKind::Text, found: other }),
        }
    }
}

impl FromGraphValue for () {
    open spec fn convertible(v: GraphValueV) -> bool {
        true
    }

    open spec fn converted(v: GraphValueV, r: ()) -> bool {
        true
    }

    open spec fn convert_error(v: GraphValueV) -> GraphErrorV {
        arbitrary()
    }

    fn from_graph_value(value: GraphValue) -> (r: Result<Self, GraphError>) {
        Ok(())
    }
}

impl FromGraphValue for GraphValue {
    open spec fn convertible(v: GraphValueV) -> bool {
        true
    }

    open spec fn converted(v: GraphValueV, r: GraphValue) -> bool {
        r@ == v
    }

    open spec fn convert_error(v: GraphValueV) -> GraphErrorV {
        arbitrary()
    }

    fn from_graph_value(value: GraphValue) -> (r: Result<Self, GraphError>) {
        Ok(value)
    }
}

impl FromGraphValue for GraphMap {
    open spec fn convertible(v: GraphValueV) -> bool {
        v is Mapping
    }

    open spec fn converted(v: GraphValueV, r: GraphMap) -> bool {
        r@ == v->Mapping_0
    }

    open spec fn convert_error(v: GraphValueV) -> GraphErrorV {
        GraphErrorV::Mismatch { expected: TargetKind::Mapping, found: v }
    }

    fn from_graph_value(value: GraphValue) -> (r: Result<Self, GraphError>) {
        match value {
            GraphValue::Mapping(m) => Ok(m),
            other => Err(GraphError::Mismatch { expected: TargetKind::Mapping, found: other }),
        }
    }
}

impl FromGraphValue for GeoPoint {
    open spec fn convertible(v: GraphValueV) -> bool {
        v is Point
    }

    open spec fn converted(v: GraphValueV, r: GeoPoint) -> bool {
        r@ == v->Point_0
    }

    open spec fn convert_error(v: GraphValueV) -> GraphErrorV {
        GraphErrorV::Mismatch { expected: TargetKind::Point, found: v }
    }

    fn from_graph_value(value: GraphValue) -> (r: Result<Self, GraphError>) {
        match value {
            GraphValue::Point(p) => Ok(p),
            other => Err(GraphError::Mismatch { expected: TargetKind::Point, found: other }),
        }
    }
}

impl FromGraphValue for GraphPath {
    open spec fn convertible(v: GraphValueV) -> bool {
        v is Path
    }

    open spec fn converted(v: GraphValueV, r: GraphPath) -> bool {
        r@ == v->Path_0
    }

    open spec fn convert_error(v: GraphValueV) -> GraphErrorV {
        GraphErrorV::Mismatch { expected: TargetKind::Path, found: v }
    }

    fn from_graph_value(value: GraphValue) -> (r: Result<Self, GraphError>) {
        match value {
            GraphValue::Path(p) => Ok(p),
            other => Err(GraphError::Mismatch { expected: TargetKind::Path, found: other }),
        }
    }
}

impl FromGraphValue for Node {
    open spec fn convertible(v: GraphValueV) -> bool {
        v is Node
    }

    open spec fn converted(v: GraphValueV, r: Node) -> bool {
        r@ == v->Node_0
    }

    open spec fn convert_error(v: GraphValueV) -> GraphErrorV {
        GraphErrorV::Mismatch { expected: TargetKind::Node, found: v }
    }

    fn from_graph_value(value: GraphValue) -> (r: Result<Self, GraphError>) {
        match value {
            GraphValue::Node(n) => Ok(n),
            other => Err(GraphError::Mismatch { expected: TargetKind::Node, found: other }),
        }
    }
}

impl FromGraphValue for Relationship {
    open spec fn convertible(v: GraphValueV) -> bool {
        v is Relation
    }

    open spec fn converted(v: GraphValueV, r: Relationship) -> bool {
        r@ == v->Relation_0
    }

    open spec fn convert_error(v: GraphValueV) -> GraphErrorV {
        GraphErrorV::Mismatch { expected: TargetKind::Relation, found: v }
    }

    fn from_graph_value(value: GraphValue) -> (r: Result<Self, GraphError>) {
        match value {
            GraphValue::Relation(rel) => Ok(rel),
            other => Err(GraphError::Mismatch { expected: TargetKind::Relation, found: other }),
        }
    }
}

impl<T: FromGraphValue> FromGraphValue for Option<T> {
    /// Null always converts to "absent"; anything else converts exactly when
    /// the wrapped target accepts it.
    open spec fn convertible(v: GraphValueV) -> bool {
        v is Null || T::convertible(v)
    }

    open spec fn converted(v: GraphValueV, r: Option<T>) -> bool {
        if v is Null {
            r is None
        } else {
            r matches Some(t) && T::converted(v, t)
        }
    }

    open spec fn convert_error(v: GraphValueV) -> GraphErrorV {
        T::convert_error(v)
    }

    fn from_graph_value(value: GraphValue) -> (r: Result<Self, GraphError>) {
        match value {
            GraphValue::Null => Ok(None),
            other => match T::from_graph_value(other) {
                Ok(t) => Ok(Some(t)),
                Err(e) => Err(e),
            },
        }
    }
}

/// The position of the first element the target does not accept.
pub open spec fn first_unconvertible<T: FromGraphValue>(s: Seq<GraphValueV>) -> int
    decreases s,
{
    if s.len() == 0 {
        0
    } else if !T::convertible(s[0]) {
        0
    } else {
        1 + first_unconvertible::<T>(s.drop_first())
    }
}

/// At the first unconvertible position, the position function returns it.
pub proof fn lemma_first_unconvertible<T: FromGraphValue>(s: Seq<GraphValueV>, idx: int)
    requires
        0 <= idx < s.len(),
        !T::convertible(s[idx]),
        forall|j: int| 0 <= j < idx ==> T::convertible(#[trigger] s[j]),
    ensures
        first_unconvertible::<T>(s) == idx,
    decreases idx,
{
    if idx > 0 {
        assert forall|j: int| 0 <= j < idx - 1
            implies T::convertible(#[trigger] s.drop_first()[j]) by {
            assert(s.drop_first()[j] == s[j + 1]);
        }
        assert(s.drop_first()[idx - 1] == s[idx]);
        lemma_first_unconvertible::<T>(s.drop_first(), idx - 1);
    }
}

impl<T: FromGraphValue> FromGraphValue for Vec<T> {
    /// A sequence converts exactly when the value is an array and every
    /// element converts; the conversion is atomic, and a failure reports the
    /// first offending element's error.
    open spec fn convertible(v: GraphValueV) -> bool {
        &&& v is Array
        &&& forall|i: int| 0 <= i < v->Array_0.len() ==> T::convertible(#[trigger] v->Array_0[i])
    }

    open spec fn converted(v: GraphValueV, r: Vec<T>) -> bool {
        &&& r@.len() == v->Array_0.len()
        &&& forall|i: int| 0 <= i < r@.len() ==> T::converted(v->Array_0[i], #[trigger] r@[i])
    }

    open spec fn convert_error(v: GraphValueV) -> GraphErrorV {
        if v is Array {
            T::convert_error(v->Array_0[first_unconvertible::<T>(v->Array_0)])
        } else {
            GraphErrorV::Mismatch { expected: TargetKind::Sequence, found: v }
        }
    }

    fn from_graph_value(value: GraphValue) -> (r: Result<Self, GraphError>) {
        let ghost vv = value@;
        match value {
            GraphValue::Array(items) => {
                proof {
                    crate::value::lemma_gv_seq_view(items@);
                }
                let mut out: Vec<T> = Vec::new();
                let mut idx: usize = 0;
                let n = items.len();
                while idx < n
                    invariant
                        n == items@.len(),
                        vv == value@,
                        vv == GraphValueV::Array(crate::value::gv_seq_view(items@)),
                        vv->Array_0.len() == n,
                        forall|j: int| 0 <= j < n ==> vv->Array_0[j] == (#[trigger] items@[j])@,
                        idx <= n,
                        out@.len() == idx,
                        forall|j: int| 0 <= j < idx ==> T::convertible(#[trigger] vv->Array_0[j]),
                        forall|j: int|
                            0 <= j < idx ==> T::converted(vv->Array_0[j], #[trigger] out@[j]),
                    decreases n - idx,
                {
                    let elem: &GraphValue = &items[idx];
                    match T::from_graph_value(elem.clone()) {
                        Ok(t) => out.push(t),
                        Err(e) => {
                            proof {
                                lemma_first_unconvertible::<T>(vv->Array_0, idx as int);
                            }
                            return Err(e);
                        },
                    }
                    idx += 1;
                }
                Ok(out)
            },
            other => Err(GraphError::Mismatch { expected: TargetKind::Sequence, found: other }),
        }
    }
}


impl<T1: FromGraphValue> FromGraphValue for (T1,) {
    /// A tuple conversion is arity-exact: the value must be an array of
    /// exactly this many elements, each converting to its position's target.
    open spec fn convertible(v: GraphValueV) -> bool {
        &&& v is Array
        &&& v->Array_0.len() == 1
        &&& T1::convertible(v->Array_0[0])
    }

    open spec fn converted(v: GraphValueV, r: (T1,)) -> bool {
        &&& T1::converted(v->Array_0[0], r.0)
    }

    open spec fn convert_error(v: GraphValueV) -> GraphErrorV {
        if !(v is Array) {
            GraphErrorV::Mismatch { expected: TargetKind::Tuple, found: v }
        } else if v->Array_0.len() != 1 {
            GraphErrorV::WrongLength { expected: 1, found: v->Array_0.len() as usize }
        } else {
            T1::convert_error(v->Array_0[0])
        }
    }

    fn from_graph_value(value: GraphValue) -> (r: Result<Self, GraphError>) {
        let ghost vv = value@;
        match value {
            GraphValue::Array(items) => {
                proof {
                    crate::value::lemma_gv_seq_view(items@);
                }
                if items.len() != 1 {
                    return Err(GraphError::WrongLength { expected: 1, found: items.len() });
                }
                let e0 = match T1::from_graph_value(items[0].clone()) {
                    Ok(t) => t,
                    Err(e) => {
                        return Err(e);
                    },
                };
                Ok((e0,))
            },
            other => Err(GraphError::Mismatch { expected: TargetKind::Tuple, found: other }),
        }
    }
}

impl<T1: FromGraphValue, T2: FromGraphValue> FromGraphValue for (T1, T2) {
    /// A tuple conversion is arity-exact: the value must be an array of
    /// exactly this many elements, each converting to its position's target.
    open spec fn convertible(v: GraphValueV) -> bool {
        &&& v is Array
        &&& v->Array_0.len() == 2
        &&& T1::convertible(v->Array_0[0])
        &&& T2::convertible(v->Array_0[1])
    }

    open spec fn converted(v: GraphValueV, r: (T1, T2)) -> bool {
        &&& T1::converted(v->Array_0[0], r.0)
        &&& T2::converted(v->Array_0[1], r.1)
    }

    open spec fn convert_error(v: GraphValueV) -> GraphErrorV {
        if !(v is Array) {
            GraphErrorV::Mismatch { expected: TargetKind::Tuple, found: v }
        } else if v->Array_0.len() != 2 {
            GraphErrorV::WrongLength { expected: 2, found: v->Array_0.len() as usize }
        } else {
        if !T1::convertible(v->Array_0[0]) {
            T1::convert_error(v->Array_0[0])
        } else {
            T2::convert_error(v->Array_0[1])
        }
        }
    }

    fn from_graph_value(value: GraphValue) -> (r: Result<Self, GraphError>) {
        let ghost vv = value@;
        match value {
            GraphValue::Array(items) => {
                proof {
                    crate::value::lemma_gv_seq_view(items@);
                }
                if items.len() != 2 {
                    return Err(GraphError::WrongLength { expected: 2, found: items.len() });
                }
                let e0 = match T1::from_graph_value(items[0].clone()) {
                    Ok(t) => t,
                    Err(e) => {
                        return Err(e);
                    },
                };
                let e1 = match T2::from_graph_value(items[1].clone()) {
                    Ok(t) => t,
                    Err(e) => {
                        return Err(e);
                    },
                };
                Ok((e0, e1))
            },
            other => Err(GraphError::Mismatch { expected: TargetKind::Tuple, found: other }),
        }
    }
}

impl<T1: FromGraphValue, T2: FromGraphValue, T3: FromGraphValue> FromGraphValue for (T1, T2, T3) {
    /// A tuple conversion is arity-exact: the value must be an array of
    /// exactly this many elements, each converting to its position's target.
    open spec fn convertible(v: GraphValueV) -> bool {
        &&& v is Array
        &&& v->Array_0.len() == 3
        &&& T1::convertible(v->Array_0[0])
        &&& T2::convertible(v->Array_0[1])
        &&& T3::convertible(v->Array_0[2])
    }

    open spec fn converted(v: GraphValueV, r: (T1, T2, T3)) -> bool {
        &&& T1::converted(v->Array_0[0], r.0)
        &&& T2::converted(v->Array_0[1], r.1)
        &&& T3::converted(v->Array_0[2], r.2)
    }

    open spec fn convert_error(v: GraphValueV) -> GraphErrorV {
        if !(v is Array) {
            GraphErrorV::Mismatch { expected: TargetKind::Tuple, found: v }
        } else if v->Array_0.len() != 3 {
            GraphErrorV::WrongLength { expected: 3, found: v->Array_0.len() as usize }
        } else {
        if !T1::convertible(v->Array_0[0]) {
            T1::convert_error(v->Array_0[0])
        } else if !T2::convertible(v->Array_0[1]) {
            T2::convert_error(v->Array_0[1])
        } else {
            T3::convert_error(v->Array_0[2])
        }
        }
    }

    fn from_graph_value(value: GraphValue) -> (r: Result<Self, GraphError>) {
        let ghost vv = value@;
        match value {
            GraphValue::Array(items) => {
                proof {
                    crate::value::lemma_gv_seq_view(items@);
                }
                if items.len() != 3 {
                    return Err(GraphError::WrongLength { expected: 3, found: items.len() });
                }
                let e0 = match T1::from_graph_value(items[0].clone()) {
                    Ok(t) => t,
                    Err(e) => {
                        return Err(e);
                    },
                };
                let e1 = match T2::from_graph_value(items[1].clone()) {
                    Ok(t) => t,
                    Err(e) => {
                        return Err(e);
                    },
                };
                let e2 = match T3::from_graph_value(items[2].clone()) {
                    Ok(t) => t,
                    Err(e) => {
                        return Err(e);
                    },
                };
                Ok((e0, e1, e2))
            },
            other => Err(GraphError::Mismatch { expected: TargetKind::Tuple, found: other }),
        }
    }
}

impl<T1: FromGraphValue, T2: FromGraphValue, T3: FromGraphValue, T4: FromGraphValue> FromGraphValue for (T1, T2, T3, T4) {
    /// A tuple conversion is arity-exact: the value must be an array of
    /// exactly this many elements, each converting to its position's target.
    open spec fn convertible(v: GraphValueV) -> bool {
        &&& v is Array
        &&& v->Array_0.len() == 4
        &&& T1::convertible(v->Array_0[0])
        &&& T2::convertible(v->Array_0[1])
        &&& T3::convertible(v->Array_0[2])
        &&& T4::convertible(v->Array_0[3])
    }

    open spec fn converted(v: GraphValueV, r: (T1, T2, T3, T4)) -> bool {
        &&& T1::converted(v->Array_0[0], r.0)
        &&& T2::converted(v->Array_0[1], r.1)
        &&& T3::converted(v->Array_0[2], r.2)
        &&& T4::converted(v->Array_0[3], r.3)
    }

    open spec fn convert_error(v: GraphValueV) -> GraphErrorV {
        if !(v is Array) {
            GraphErrorV::Mismatch { expected: TargetKind::Tuple, found: v }
        } else if v->Array_0.len() != 4 {
            GraphErrorV::WrongLength { expected: 4, found: v->Array_0.len() as usize }
        } else {
        if !T1::convertible(v->Array_0[0]) {
            T1::convert_error(v->Array_0[0])
        } else if !T2::convertible(v->Array_0[1]) {
            T2::convert_error(v->Array_0[1])
        } else if !T3::convertible(v->Array_0[2]) {
            T3::convert_error(v->Array_0[2])
        } else {
            T4::convert_error(v->Array_0[3])
        }
        }
    }

    fn from_graph_value(value: GraphValue) -> (r: Result<Self, GraphError>) {
        let ghost vv = value@;
        match value {
            GraphValue::Array(items) => {
                proof {
                    crate::value::lemma_gv_seq_view(items@);
                }
                if items.len() != 4 {
                    return Err(GraphError::WrongLength { expected: 4, found: items.len() });
                }
                let e0 = match T1::from_graph_value(items[0].clone()) {
                    Ok(t) => t,
                    Err(e) => {
                        return Err(e);
                    },
                };
                let e1 = match T2::from_graph_value(items[1].clone()) {
                    Ok(t) => t,
                    Err(e) => {
                        return Err(e);
                    },
                };
                let e2 = match T3::from_graph_value(items[2].clone()) {
                    Ok(t) => t,
                    Err(e) => {
                        return Err(e);
                    },
                };
                let e3 = match T4::from_graph_value(items[3].clone()) {
                    Ok(t) => t,
                    Err(e) => {
                        return Err(e);
                    },
                };
                Ok((e0, e1, e2, e3))
            },
            other => Err(GraphError::Mismatch { expected: TargetKind::Tuple, found: other }),
        }
    }
}

impl<T1: FromGraphValue, T2: FromGraphValue, T3: FromGraphValue, T4: FromGraphValue, T5: FromGraphValue> FromGraphValue for (T1, T2, T3, T4, T5) {
    /// A tuple conversion is arity-exact: the value must be an array of
    /// exactly this many elements, each converting to its position's target.
    open spec fn convertible(v: GraphValueV) -> bool {
        &&& v is Array
        &&& v->Array_0.len() == 5
        &&& T1::convertible(v->Array_0[0])
        &&& T2::convertible(v->Array_0[1])
        &&& T3::convertible(v->Array_0[2])
        &&& T4::convertible(v->Array_0[3])
        &&& T5::convertible(v->Array_0[4])
    }

    open spec fn converted(v: GraphValueV, r: (T1, T2, T3, T4, T5)) -> bool {
        &&& T1::converted(v->Array_0[0], r.0)
        &&& T2::converted(v->Array_0[1], r.1)
        &&& T3::converted(v->Array_0[2], r.2)
        &&& T4::converted(v->Array_0[3], r.3)
        &&& T5::converted(v->Array_0[4], r.4)
    }

    open spec fn convert_error(v: GraphValueV) -> GraphErrorV {
        if !(v is Array) {
            GraphErrorV::Mismatch { expected: TargetKind::Tuple, found: v }
        } else if v->Array_0.len() != 5 {
            GraphErrorV::WrongLength { expected: 5, found: v->Array_0.len() as usize }
        } else {
        if !T1::convertible(v->Array_0[0]) {
            T1::convert_error(v->Array_0[0])
        } else if !T2::convertible(v->Array_0[1]) {
            T2::convert_error(v->Array_0[1])
        } else if !T3::convertible(v->Array_0[2]) {
            T3::convert_error(v->Array_0[2])
        } else if !T4::convertible(v->Array_0[3]) {
            T4::convert_error(v->Array_0[3])
        } else {
            T5::convert_error(v->Array_0[4])
        }
        }
    }

    fn from_graph_value(value: GraphValue) -> (r: Result<Self, GraphError>) {
        let ghost vv = value@;
        match value {
            GraphValue::Array(items) => {
                proof {
                    crate::value::lemma_gv_seq_view(items@);
                }
                if items.len() != 5 {
                    return Err(GraphError::WrongLength { expected: 5, found: items.len() });
                }
                let e0 = match T1::from_graph_value(items[0].clone()) {
                    Ok(t) => t,
                    Err(e) => {
                        return Err(e);
                    },
                };
                let e1 = match T2::from_graph_value(items[1].clone()) {
                    Ok(t) => t,
                    Err(e) => {
                        return Err(e);
                    },
                };
                let e2 = match T3::from_graph_value(items[2].clone()) {
                    Ok(t) => t,
                    Err(e) => {
                        return Err(e);
                    },
                };
                let e3 = match T4::from_graph_value(items[3].clone()) {
                    Ok(t) => t,
                    Err(e) => {
                        return Err(e);
                    },
                };
                let e4 = match T5::from_graph_value(items[4].clone()) {
                    Ok(t) => t,
                    Err(e) => {
                        return Err(e);
                    },
                };
                Ok((e0, e1, e2, e3, e4))
            },
            other => Err(GraphError::Mismatch { expected: TargetKind::Tuple, found: other }),
        }
    }
}

impl<T1: FromGraphValue, T2: FromGraphValue, T3: FromGraphValue, T4: FromGraphValue, T5: FromGraphValue, T6: FromGraphValue> FromGraphValue for (T1, T2, T3, T4, T5, T6) {
    /// A tuple conversion is arity-exact: the value must be an array of
    /// exactly this many elements, each converting to its position's target.
    open spec fn convertible(v: GraphValueV) -> bool {
        &&& v is Array
        &&& v->Array_0.len() == 6
        &&& T1::convertible(v->Array_0[0])
        &&& T2::convertible(v->Array_0[1])
        &&& T3::convertible(v->Array_0[2])
        &&& T4::convertible(v->Array_0[3])
        &&& T5::convertible(v->Array_0[4])
        &&& T6::convertible(v->Array_0[5])
    }

    open spec fn converted(v: GraphValueV, r: (T1, T2, T3, T4, T5, T6)) -> bool {
        &&& T1::converted(v->Array_0[0], r.0)
        &&& T2::converted(v->Array_0[1], r.1)
        &&& T3::converted(v->Array_0[2], r.2)
        &&& T4::converted(v->Array_0[3], r.3)
        &&& T5::converted(v->Array_0[4], r.4)
        &&& T6::converted(v->Array_0[5], r.5)
    }

    open spec fn convert_error(v: GraphValueV) -> GraphErrorV {
        if !(v is Array) {
            GraphErrorV::Mismatch { expected: TargetKind::Tuple, found: v }
        } else if v->Array_0.len() != 6 {
            GraphErrorV::WrongLength { expected: 6, found: v->Array_0.len() as usize }
        } else {
        if !T1::convertible(v->Array_0[0]) {
            T1::convert_error(v->Array_0[0])
        } else if !T2::convertible(v->Array_0[1]) {
            T2::convert_error(v->Array_0[1])
        } else if !T3::convertible(v->Array_0[2]) {
            T3::convert_error(v->Array_0[2])
        } else if !T4::convertible(v->Array_0[3]) {
            T4::convert_error(v->Array_0[3])
        } else if !T5::convertible(v->Array_0[4]) {
            T5::convert_error(v->Array_0[4])
        } else {
            T6::convert_error(v->Array_0[5])
        }
        }
    }

    fn from_graph_value(value: GraphValue) -> (r: Result<Self, GraphError>) {
        let ghost vv = value@;
        match value {
            GraphValue::Array(items) => {
                proof {
                    crate::value::lemma_gv_seq_view(items@);
                }
                if items.len() != 6 {
                    return Err(GraphError::WrongLength { expected: 6, found: items.len() });
                }
                let e0 = match T1::from_graph_value(items[0].clone()) {
                    Ok(t) => t,
                    Err(e) => {
                        return Err(e);
                    },
                };
                let e1 = match T2::from_graph_value(items[1].clone()) {
                    Ok(t) => t,
                    Err(e) => {
                        return Err(e);
                    },
                };
                let e2 = match T3::from_graph_value(items[2].clone()) {
                    Ok(t) => t,
                    Err(e) => {
                        return Err(e);
                    },
                };
                let e3 = match T4::from_graph_value(items[3].clone()) {
                    Ok(t) => t,
                    Err(e) => {
                        return Err(e);
                    },
                };
                let e4 = match T5::from_graph_value(items[4].clone()) {
                    Ok(t) => t,
                    Err(e) => {
                        return Err(e);
                    },
                };
                let e5 = match T6::from_graph_value(items[5].clone()) {
                    Ok(t) => t,
                    Err(e) => {
                        return Err(e);
                    },
                };
                Ok((e0, e1, e2, e3, e4, e5))
            },
            other => Err(GraphError::Mismatch { expected: TargetKind::Tuple, found: other }),
        }
    }
}

impl<T1: FromGraphValue, T2: FromGraphValue, T3: FromGraphValue, T4: FromGraphValue, T5: FromGraphValue, T6: FromGraphValue, T7: FromGraphValue> FromGraphValue for (T1, T2, T3, T4, T5, T6, T7) {
    /// A tuple conversion is arity-exact: the value must be an array of
    /// exactly this many elements, each converting to its position's target.
    open spec fn convertible(v: GraphValueV) -> bool {
        &&& v is Array
        &&& v->Array_0.len() == 7
        &&& T1::convertible(v->Array_0[0])
        &&& T2::convertible(v->Array_0[1])
        &&& T3::convertible(v->Array_0[2])
        &&& T4::convertible(v->Array_0[3])
        &&& T5::convertible(v->Array_0[4])
        &&& T6::convertible(v->Array_0[5])
        &&& T7::convertible(v->Array_0[6])
    }

    open spec fn converted(v: GraphValueV, r: (T1, T2, T3, T4, T5, T6, T7)) -> bool {
        &&& T1::converted(v->Array_0[0], r.0)
        &&& T2::converted(v->Array_0[1], r.1)
        &&& T3::converted(v->Array_0[2], r.2)
        &&& T4::converted(v->Array_0[3], r.3)
        &&& T5::converted(v->Array_0[4], r.4)
        &&& T6::converted(v->Array_0[5], r.5)
        &&& T7::converted(v->Array_0[6], r.6)
    }

    open spec fn convert_error(v: GraphValueV) -> GraphErrorV {
        if !(v is Array) {
            GraphErrorV::Mismatch { expected: TargetKind::Tuple, found: v }
        } else if v->Array_0.len() != 7 {
            GraphErrorV::WrongLength { expected: 7, found: v->Array_0.len() as usize }
        } else {
        if !T1::convertible(v->Array_0[0]) {
            T1::convert_error(v->Array_0[0])
        } else if !T2::convertible(v->Array_0[1]) {
            T2::convert_error(v->Array_0[1])
        } else if !T3::convertible(v->Array_0[2]) {
            T3::convert_error(v->Array_0[2])
        } else if !T4::convertible(v->Array_0[3]) {
            T4::convert_error(v->Array_0[3])
        } else if !T5::convertible(v->Array_0[4]) {
            T5::convert_error(v->Array_0[4])
        } else if !T6::convertible(v->Array_0[5]) {
            T6::convert_error(v->Array_0[5])
        } else {
            T7::convert_error(v->Array_0[6])
        }
        }
    }

    fn from_graph_value(value: GraphValue) -> (r: Result<Self, GraphError>) {
        let ghost vv = value@;
        match value {
            GraphValue::Array(items) => {
                proof {
                    crate::value::lemma_gv_seq_view(items@);
                }
                if items.len() != 7 {
                    return Err(GraphError::WrongLength { expected: 7, found: items.len() });
                }
                let e0 = match T1::from_graph_value(items[0].clone()) {
                    Ok(t) => t,
                    Err(e) => {
                        return Err(e);
                    },
                };
                let e1 = match T2::from_graph_value(items[1].clone()) {
                    Ok(t) => t,
                    Err(e) => {
                        return Err(e);
                    },
                };
                let e2 = match T3::from_graph_value(items[2].clone()) {
                    Ok(t) => t,
                    Err(e) => {
                        return Err(e);
                    },
                };
                let e3 = match T4::from_graph_value(items[3].clone()) {
                    Ok(t) => t,
                    Err(e) => {
                        return Err(e);
                    },
                };
                let e4 = match T5::from_graph_value(items[4].clone()) {
                    Ok(t) => t,
                    Err(e) => {
                        return Err(e);
                    },
                };
                let e5 = match T6::from_graph_value(items[5].clone()) {
                    Ok(t) => t,
                    Err(e) => {
                        return Err(e);
                    },
                };
                let e6 = match T7::from_graph_value(items[6].clone()) {
                    Ok(t) => t,
                    Err(e) => {
                        return Err(e);
                    },
                };
                Ok((e0, e1, e2, e3, e4, e5, e6))
            },
            other => Err(GraphError::Mismatch { expected: TargetKind::Tuple, found: other }),
        }
    }
}

impl<T1: FromGraphValue, T2: FromGraphValue, T3: FromGraphValue, T4: FromGraphValue, T5: FromGraphValue, T6: FromGraphValue, T7: FromGraphValue, T8: FromGraphValue> FromGraphValue for (T1, T2, T3, T4, T5, T6, T7, T8) {
    /// A tuple conversion is arity-exact: the value must be an array of
    /// exactly this many elements, each converting to its position's target.
    open spec fn convertible(v: GraphValueV) -> bool {
        &&& v is Array
        &&& v->Array_0.len() == 8
        &&& T1::convertible(v->Array_0[0])
        &&& T2::convertible(v->Array_0[1])
        &&& T3::convertible(v->Array_0[2])
        &&& T4::convertible(v->Array_0[3])
        &&& T5::convertible(v->Array_0[4])
        &&& T6::convertible(v->Array_0[5])
        &&& T7::convertible(v->Array_0[6])
        &&& T8::convertible(v->Array_0[7])
    }

    open spec fn converted(v: GraphValueV, r: (T1, T2, T3, T4, T5, T6, T7, T8)) -> bool {
        &&& T1::converted(v->Array_0[0], r.0)
        &&& T2::converted(v->Array_0[1], r.1)
        &&& T3::converted(v->Array_0[2], r.2)
        &&& T4::converted(v->Array_0[3], r.3)
        &&& T5::converted(v->Array_0[4], r.4)
        &&& T6::converted(v->Array_0[5], r.5)
        &&& T7::converted(v->Array_0[6], r.6)
        &&& T8::converted(v->Array_0[7], r.7)
    }

    open spec fn convert_error(v: GraphValueV) -> GraphErrorV {
        if !(v is Array) {
            GraphErrorV::Mismatch { expected: TargetKind::Tuple, found: v }
        } else if v->Array_0.len() != 8 {
            GraphErrorV::WrongLength { expected: 8, found: v->Array_0.len() as usize }
        } else {
        if !T1::convertible(v->Array_0[0]) {
            T1::convert_error(v->Array_0[0])
        } else if !T2::convertible(v->Array_0[1]) {
            T2::convert_error(v->Array_0[1])
        } else if !T3::convertible(v->Array_0[2]) {
            T3::convert_error(v->Array_0[2])
        } else if !T4::convertible(v->Array_0[3]) {
            T4::convert_error(v->Array_0[3])
        } else if !T5::convertible(v->Array_0[4]) {
            T5::convert_error(v->Array_0[4])
        } else if !T6::convertible(v->Array_0[5]) {
            T6::convert_error(v->Array_0[5])
        } else if !T7::convertible(v->Array_0[6]) {
            T7::convert_error(v->Array_0[6])
        } else {
            T8::convert_error(v->Array_0[7])
        }
        }
    }

    fn from_graph_value(value: GraphValue) -> (r: Result<Self, GraphError>) {
        let ghost vv = value@;
        match value {
            GraphValue::Array(items) => {
                proof {
                    crate::value::lemma_gv_seq_view(items@);
                }
                if items.len() != 8 {
                    return Err(GraphError::WrongLength { expected: 8, found: items.len() });
                }
                let e0 = match T1::from_graph_value(items[0].clone()) {
                    Ok(t) => t,
                    Err(e) => {
                        return Err(e);
                    },
                };
                let e1 = match T2::from_graph_value(items[1].clone()) {
                    Ok(t) => t,
                    Err(e) => {
                        return Err(e);
                    },
                };
                let e2 = match T3::from_graph_value(items[2].clone()) {
                    Ok(t) => t,
                    Err(e) => {
                        return Err(e);
                    },
                };
                let e3 = match T4::from_graph_value(items[3].clone()) {
                    Ok(t) => t,
                    Err(e) => {
                        return Err(e);
                    },
                };
                let e4 = match T5::from_graph_value(items[4].clone()) {
                    Ok(t) => t,
                    Err(e) => {
                        return Err(e);
                    },
                };
                let e5 = match T6::from_graph_value(items[5].clone()) {
                    Ok(t) => t,
                    Err(e) => {
                        return Err(e);
                    },
                };
                let e6 = match T7::from_graph_value(items[6].clone()) {
                    Ok(t) => t,
                    Err(e) => {
                        return Err(e);
                    },
                };
                let e7 = match T8::from_graph_value(items[7].clone()) {
                    Ok(t) => t,
                    Err(e) => {
                        return Err(e);
                    },
                };
                Ok((e0, e1, e2, e3, e4, e5, e6, e7))
            },
            other => Err(GraphError::Mismatch { expected: TargetKind::Tuple, found: other }),
        }
    }
}

impl<T1: FromGraphValue, T2: FromGraphValue, T3: FromGraphValue, T4: FromGraphValue, T5: FromGraphValue, T6: FromGraphValue, T7: FromGraphValue, T8: FromGraphValue, T9: FromGraphValue> FromGraphValue for (T1, T2, T3, T4, T5, T6, T7, T8, T9) {
    /// A tuple conversion is arity-exact: the value must be an array of
    /// exactly this many elements, each converting to its position's target.
    open spec fn convertible(v: GraphValueV) -> bool {
        &&& v is Array
        &&& v->Array_0.len() == 9
        &&& T1::convertible(v->Array_0[0])
        &&& T2::convertible(v->Array_0[1])
        &&& T3::convertible(v->Array_0[2])
        &&& T4::convertible(v->Array_0[3])
        &&& T5::convertible(v->Array_0[4])
        &&& T6::convertible(v->Array_0[5])
        &&& T7::convertible(v->Array_0[6])
        &&& T8::convertible(v->Array_0[7])
        &&& T9::convertible(v->Array_0[8])
    }

    open spec fn converted(v: GraphValueV, r: (T1, T2, T3, T4, T5, T6, T7, T8, T9)) -> bool {
        &&& T1::converted(v->Array_0[0], r.0)
        &&& T2::converted(v->Array_0[1], r.1)
        &&& T3::converted(v->Array_0[2], r.2)
        &&& T4::converted(v->Array_0[3], r.3)
        &&& T5::converted(v->Array_0[4], r.4)
        &&& T6::converted(v->Array_0[5], r.5)
        &&& T7::converted(v->Array_0[6], r.6)
        &&& T8::converted(v->Array_0[7], r.7)
        &&& T9::converted(v->Array_0[8], r.8)
    }

    open spec fn convert_error(v: GraphValueV) -> GraphErrorV {
        if !(v is Array) {
            GraphErrorV::Mismatch { expected: TargetKind::Tuple, found: v }
        } else if v->Array_0.len() != 9 {
            GraphErrorV::WrongLength { expected: 9, found: v->Array_0.len() as usize }
        } else {
        if !T1::convertible(v->Array_0[0]) {
            T1::convert_error(v->Array_0[0])
        } else if !T2::convertible(v->Array_0[1]) {
            T2::convert_error(v->Array_0[1])
        } else if !T3::convertible(v->Array_0[2]) {
            T3::convert_error(v->Array_0[2])
        } else if !T4::convertible(v->Array_0[3]) {
            T4::convert_error(v->Array_0[3])
        } else if !T5::convertible(v->Array_0[4]) {
            T5::convert_error(v->Array_0[4])
        } else if !T6::convertible(v->Array_0[5]) {
            T6::convert_error(v->Array_0[5])
        } else if !T7::convertible(v->Array_0[6]) {
            T7::convert_error(v->Array_0[6])
        } else if !T8::convertible(v->Array_0[7]) {
            T8::convert_error(v->Array_0[7])
        } else {
            T9::convert_error(v->Array_0[8])
        }
        }
    }

    fn from_graph_value(value: GraphValue) -> (r: Result<Self, GraphError>) {
        let ghost vv = value@;
        match value {
            GraphValue::Array(items) => {
                proof {
                    crate::value::lemma_gv_seq_view(items@);
                }
                if items.len() != 9 {
                    return Err(GraphError::WrongLength { expected: 9, found: items.len() });
                }
                let e0 = match T1::from_graph_value(items[0].clone()) {
                    Ok(t) => t,
                    Err(e) => {
                        return Err(e);
                    },
                };
                let e1 = match T2::from_graph_value(items[1].clone()) {
                    Ok(t) => t,
                    Err(e) => {
                        return Err(e);
                    },
                };
                let e2 = match T3::from_graph_value(items[2].clone()) {
                    Ok(t) => t,
                    Err(e) => {
                        return Err(e);
                    },
                };
                let e3 = match T4::from_graph_value(items[3].clone()) {
                    Ok(t) => t,
                    Err(e) => {
                        return Err(e);
                    },
                };
                let e4 = match T5::from_graph_value(items[4].clone()) {
                    Ok(t) => t,
                    Err(e) => {
                        return Err(e);
                    },
                };
                let e5 = match T6::from_graph_value(items[5].clone()) {
                    Ok(t) => t,
                    Err(e) => {
                        return Err(e);
                    },
                };
                let e6 = match T7::from_graph_value(items[6].clone()) {
                    Ok(t) => t,
                    Err(e) => {
                        return Err(e);
                    },
                };
                let e7 = match T8::from_graph_value(items[7].clone()) {
                    Ok(t) => t,
                    Err(e) => {
                        return Err(e);
                    },
                };
                let e8 = match T9::from_graph_value(items[8].clone()) {
                    Ok(t) => t,
                    Err(e) => {
                        return Err(e);
                    },
                };
                Ok((e0, e1, e2, e3, e4, e5, e6, e7, e8))
            },
            other => Err(GraphError::Mismatch { expected: TargetKind::Tuple, found: other }),
        }
    }
}

impl<T1: FromGraphValue, T2: FromGraphValue, T3: FromGraphValue, T4: FromGraphValue, T5: FromGraphValue, T6: FromGraphValue, T7: FromGraphValue, T8: FromGraphValue, T9: FromGraphValue, T10: FromGraphValue> FromGraphValue for (T1, T2, T3, T4, T5, T6, T7, T8, T9, T10) {
    /// A tuple conversion is arity-exact: the value must be an array of
    /// exactly this many elements, each converting to its position's target.
    open spec fn convertible(v: GraphValueV) -> bool {
        &&& v is Array
        &&& v->Array_0.len() == 10
        &&& T1::convertible(v->Array_0[0])
        &&& T2::convertible(v->Array_0[1])
        &&& T3::convertible(v->Array_0[2])
        &&& T4::convertible(v->Array_0[3])
        &&& T5::convertible(v->Array_0[4])
        &&& T6::convertible(v->Array_0[5])
        &&& T7::convertible(v->Array_0[6])
        &&& T8::convertible(v->Array_0[7])
        &&& T9::convertible(v->Array_0[8])
        &&& T10::convertible(v->Array_0[9])
    }

    open spec fn converted(v: GraphValueV, r: (T1, T2, T3, T4, T5, T6, T7, T8, T9, T10)) -> bool {
        &&& T1::converted(v->Array_0[0], r.0)
        &&& T2::converted(v->Array_0[1], r.1)
        &&& T3::converted(v->Array_0[2], r.2)
        &&& T4::converted(v->Array_0[3], r.3)
        &&& T5::converted(v->Array_0[4], r.4)
        &&& T6::converted(v->Array_0[5], r.5)
        &&& T7::converted(v->Array_0[6], r.6)
        &&& T8::converted(v->Array_0[7], r.7)
        &&& T9::converted(v->Array_0[8], r.8)
        &&& T10::converted(v->Array_0[9], r.9)
    }

    open spec fn convert_error(v: GraphValueV) -> GraphErrorV {
        if !(v is Array) {
            GraphErrorV::Mismatch { expected: TargetKind::Tuple, found: v }
        } else if v->Array_0.len() != 10 {
            GraphErrorV::WrongLength { expected: 10, found: v->Array_0.len() as usize }
        } else {
        if !T1::convertible(v->Array_0[0]) {
            T1::convert_error(v->Array_0[0])
        } else if !T2::convertible(v->Array_0[1]) {
            T2::convert_error(v->Array_0[1])
        } else if !T3::convertible(v->Array_0[2]) {
            T3::convert_error(v->Array_0[2])
        } else if !T4::convertible(v->Array_0[3]) {
            T4::convert_error(v->Array_0[3])
        } else if !T5::convertible(v->Array_0[4]) {
            T5::convert_error(v->Array_0[4])
        } else if !T6::convertible(v->Array_0[5]) {
            T6::convert_error(v->Array_0[5])
        } else if !T7::convertible(v->Array_0[6]) {
            T7::convert_error(v->Array_0[6])
        } else if !T8::convertible(v->Array_0[7]) {
            T8::convert_error(v->Array_0[7])
        } else if !T9::convertible(v->Array_0[8]) {
            T9::convert_error(v->Array_0[8])
        } else {
            T10::convert_error(v->Array_0[9])
        }
        }
    }

    fn from_graph_value(value: GraphValue) -> (r: Result<Self, GraphError>) {
        let ghost vv = value@;
        match value {
            GraphValue::Array(items) => {
                proof {
                    crate::value::lemma_gv_seq_view(items@);
                }
                if items.len() != 10 {
                    return Err(GraphError::WrongLength { expected: 10, found: items.len() });
                }
                let e0 = match T1::from_graph_value(items[0].clone()) {
                    Ok(t) => t,
                    Err(e) => {
                        return Err(e);
                    },
                };
                let e1 = match T2::from_graph_value(items[1].clone()) {
                    Ok(t) => t,
                    Err(e) => {
                        return Err(e);
                    },
                };
                let e2 = match T3::from_graph_value(items[2].clone()) {
                    Ok(t) => t,
                    Err(e) => {
                        return Err(e);
                    },
                };
                let e3 = match T4::from_graph_value(items[3].clone()) {
                    Ok(t) => t,
                    Err(e) => {
                        return Err(e);
                    },
                };
                let e4 = match T5::from_graph_value(items[4].clone()) {
                    Ok(t) => t,
                    Err(e) => {
                        return Err(e);
                    },
                };
                let e5 = match T6::from_graph_value(items[5].clone()) {
                    Ok(t) => t,
                    Err(e) => {
                        return Err(e);
                    },
                };
                let e6 = match T7::from_graph_value(items[6].clone()) {
                    Ok(t) => t,
                    Err(e) => {
                        return Err(e);
                    },
                };
                let e7 = match T8::from_graph_value(items[7].clone()) {
                    Ok(t) => t,
                    Err(e) => {
                        return Err(e);
                    },
                };
                let e8 = match T9::from_graph_value(items[8].clone()) {
                    Ok(t) => t,
                    Err(e) => {
                        return Err(e);
                    },
                };
                let e9 = match T10::from_graph_value(items[9].clone()) {
                    Ok(t) => t,
                    Err(e) => {
                        return Err(e);
                    },
                };
                Ok((e0, e1, e2, e3, e4, e5, e6, e7, e8, e9))
            },
            other => Err(GraphError::Mismatch { expected: TargetKind::Tuple, found: other }),
        }
    }
}

impl<T1: FromGraphValue, T2: FromGraphValue, T3: FromGraphValue, T4: FromGraphValue, T5: FromGraphValue, T6: FromGraphValue, T7: FromGraphValue, T8: FromGraphValue, T9: FromGraphValue, T10: FromGraphValue, T11: FromGraphValue> FromGraphValue for (T1, T2, T3, T4, T5, T6, T7, T8, T9, T10, T11) {
    /// A tuple conversion is arity-exact: the value must be an array of
    /// exactly this many elements, each converting to its position's target.
    open spec fn convertible(v: GraphValueV) -> bool {
        &&& v is Array
        &&& v->Array_0.len() == 11
        &&& T1::convertible(v->Array_0[0])
        &&& T2::convertible(v->Array_0[1])
        &&& T3::convertible(v->Array_0[2])
        &&& T4::convertible(v->Array_0[3])
        &&& T5::convertible(v->Array_0[4])
        &&& T6::convertible(v->Array_0[5])
        &&& T7::convertible(v->Array_0[6])
        &&& T8::convertible(v->Array_0[7])
        &&& T9::convertible(v->Array_0[8])
        &&& T10::convertible(v->Array_0[9])
        &&& T11::convertible(v->Array_0[10])
    }

    open spec fn converted(v: GraphValueV, r: (T1, T2, T3, T4, T5, T6, T7, T8, T9, T10, T11)) -> bool {
        &&& T1::converted(v->Array_0[0], r.0)
        &&& T2::converted(v->Array_0[1], r.1)
        &&& T3::converted(v->Array_0[2], r.2)
        &&& T4::converted(v->Array_0[3], r.3)
        &&& T5::converted(v->Array_0[4], r.4)
        &&& T6::converted(v->Array_0[5], r.5)
        &&& T7::converted(v->Array_0[6], r.6)
        &&& T8::converted(v->Array_0[7], r.7)
        &&& T9::converted(v->Array_0[8], r.8)
        &&& T10::converted(v->Array_0[9], r.9)
        &&& T11::converted(v->Array_0[10], r.10)
    }

    open spec fn convert_error(v: GraphValueV) -> GraphErrorV {
        if !(v is Array) {
            GraphErrorV::Mismatch { expected: TargetKind::Tuple, found: v }
        } else if v->Array_0.len() != 11 {
            GraphErrorV::WrongLength { expected: 11, found: v->Array_0.len() as usize }
        } else {
        if !T1::convertible(v->Array_0[0]) {
            T1::convert_error(v->Array_0[0])
        } else if !T2::convertible(v->Array_0[1]) {
            T2::convert_error(v->Array_0[1])
        } else if !T3::convertible(v->Array_0[2]) {
            T3::convert_error(v->Array_0[2])
        } else if !T4::convertible(v->Array_0[3]) {
            T4::convert_error(v->Array_0[3])
        } else if !T5::convertible(v->Array_0[4]) {
            T5::convert_error(v->Array_0[4])
        } else if !T6::convertible(v->Array_0[5]) {
            T6::convert_error(v->Array_0[5])
        } else if !T7::convertible(v->Array_0[6]) {
            T7::convert_error(v->Array_0[6])
        } else if !T8::convertible(v->Array_0[7]) {
            T8::convert_error(v->Array_0[7])
        } else if !T9::convertible(v->Array_0[8]) {
            T9::convert_error(v->Array_0[8])
        } else if !T10::convertible(v->Array_0[9]) {
            T10::convert_error(v->Array_0[9])
        } else {
            T11::convert_error(v->Array_0[10])
        }
        }
    }

    fn from_graph_value(value: GraphValue) -> (r: Result<Self, GraphError>) {
        let ghost vv = value@;
        match value {
            GraphValue::Array(items) => {
                proof {
                    crate::value::lemma_gv_seq_view(items@);
                }
                if items.len() != 11 {
                    return Err(GraphError::WrongLength { expected: 11, found: items.len() });
                }
                let e0 = match T1::from_graph_value(items[0].clone()) {
                    Ok(t) => t,
                    Err(e) => {
                        return Err(e);
                    },
                };
                let e1 = match T2::from_graph_value(items[1].clone()) {
                    Ok(t) => t,
                    Err(e) => {
                        return Err(e);
                    },
                };
                let e2 = match T3::from_graph_value(items[2].clone()) {
                    Ok(t) => t,
                    Err(e) => {
                        return Err(e);
                    },
                };
                let e3 = match T4::from_graph_value(items[3].clone()) {
                    Ok(t) => t,
                    Err(e) => {
                        return Err(e);
                    },
                };
                let e4 = match T5::from_graph_value(items[4].clone()) {
                    Ok(t) => t,
                    Err(e) => {
                        return Err(e);
                    },
                };
                let e5 = match T6::from_graph_value(items[5].clone()) {
                    Ok(t) => t,
                    Err(e) => {
                        return Err(e);
                    },
                };
                let e6 = match T7::from_graph_value(items[6].clone()) {
                    Ok(t) => t,
                    Err(e) => {
                        return Err(e);
                    },
                };
                let e7 = match T8::from_graph_value(items[7].clone()) {
                    Ok(t) => t,
                    Err(e) => {
                        return Err(e);
                    },
                };
                let e8 = match T9::from_graph_value(items[8].clone()) {
                    Ok(t) => t,
                    Err(e) => {
                        return Err(e);
                    },
                };
                let e9 = match T10::from_graph_value(items[9].clone()) {
                    Ok(t) => t,
                    Err(e) => {
                        return Err(e);
                    },
                };
                let e10 = match T11::from_graph_value(items[10].clone()) {
                    Ok(t) => t,
                    Err(e) => {
                        return Err(e);
                    },
                };
                Ok((e0, e1, e2, e3, e4, e5, e6, e7, e8, e9, e10))
            },
            other => Err(GraphError::Mismatch { expected: TargetKind::Tuple, found: other }),
        }
    }
}

impl<T1: FromGraphValue, T2: FromGraphValue, T3: FromGraphValue, T4: FromGraphValue, T5: FromGraphValue, T6: FromGraphValue, T7: FromGraphValue, T8: FromGraphValue, T9: FromGraphValue, T10: FromGraphValue, T11: FromGraphValue, T12: FromGraphValue> FromGraphValue for (T1, T2, T3, T4, T5, T6, T7, T8, T9, T10, T11, T12) {
    /// A tuple conversion is arity-exact: the value must be an array of
    /// exactly this many elements, each converting to its position's target.
    open spec fn convertible(v: GraphValueV) -> bool {
        &&& v is Array
        &&& v->Array_0.len() == 12
        &&& T1::convertible(v->Array_0[0])
        &&& T2::convertible(v->Array_0[1])
        &&& T3::convertible(v->Array_0[2])
        &&& T4::convertible(v->Array_0[3])
        &&& T5::convertible(v->Array_0[4])
        &&& T6::convertible(v->Array_0[5])
        &&& T7::convertible(v->Array_0[6])
        &&& T8::convertible(v->Array_0[7])
        &&& T9::convertible(v->Array_0[8])
        &&& T10::convertible(v->Array_0[9])
        &&& T11::convertible(v->Array_0[10])
        &&& T12::convertible(v->Array_0[11])
    }

    open spec fn converted(v: GraphValueV, r: (T1, T2, T3, T4, T5, T6, T7, T8, T9, T10, T11, T12)) -> bool {
        &&& T1::converted(v->Array_0[0], r.0)
        &&& T2::converted(v->Array_0[1], r.1)
        &&& T3::converted(v->Array_0[2], r.2)
        &&& T4::converted(v->Array_0[3], r.3)
        &&& T5::converted(v->Array_0[4], r.4)
        &&& T6::converted(v->Array_0[5], r.5)
        &&& T7::converted(v->Array_0[6], r.6)
        &&& T8::converted(v->Array_0[7], r.7)
        &&& T9::converted(v->Array_0[8], r.8)
        &&& T10::converted(v->Array_0[9], r.9)
        &&& T11::converted(v->Array_0[10], r.10)
        &&& T12::converted(v->Array_0[11], r.11)
    }

    open spec fn convert_error(v: GraphValueV) -> GraphErrorV {
        if !(v is Array) {
            GraphErrorV::Mismatch { expected: TargetKind::Tuple, found: v }
        } else if v->Array_0.len() != 12 {
            GraphErrorV::WrongLength { expected: 12, found: v->Array_0.len() as usize }
        } else {
        if !T1::convertible(v->Array_0[0]) {
            T1::convert_error(v->Array_0[0])
        } else if !T2::convertible(v->Array_0[1]) {
            T2::convert_error(v->Array_0[1])
        } else if !T3::convertible(v->Array_0[2]) {
            T3::convert_error(v->Array_0[2])
        } else if !T4::convertible(v->Array_0[3]) {
            T4::convert_error(v->Array_0[3])
        } else if !T5::convertible(v->Array_0[4]) {
            T5::convert_error(v->Array_0[4])
        } else if !T6::convertible(v->Array_0[5]) {
            T6::convert_error(v->Array_0[5])
        } else if !T7::convertible(v->Array_0[6]) {
            T7::convert_error(v->Array_0[6])
        } else if !T8::convertible(v->Array_0[7]) {
            T8::convert_error(v->Array_0[7])
        } else if !T9::convertible(v->Array_0[8]) {
            T9::convert_error(v->Array_0[8])
        } else if !T10::convertible(v->Array_0[9]) {
            T10::convert_error(v->Array_0[9])
        } else if !T11::convertible(v->Array_0[10]) {
            T11::convert_error(v->Array_0[10])
        } else {
            T12::convert_error(v->Array_0[11])
        }
        }
    }

    fn from_graph_value(value: GraphValue) -> (r: Result<Self, GraphError>) {
        let ghost vv = value@;
        match value {
            GraphValue::Array(items) => {
                proof {
                    crate::value::lemma_gv_seq_view(items@);
                }
                if items.len() != 12 {
                    return Err(GraphError::WrongLength { expected: 12, found: items.len() });
                }
                let e0 = match T1::from_graph_value(items[0].clone()) {
                    Ok(t) => t,
                    Err(e) => {
                        return Err(e);
                    },
                };
                let e1 = match T2::from_graph_value(items[1].clone()) {
                    Ok(t) => t,
                    Err(e) => {
                        return Err(e);
                    },
                };
                let e2 = match T3::from_graph_value(items[2].clone()) {
                    Ok(t) => t,
                    Err(e) => {
                        return Err(e);
                    },
                };
                let e3 = match T4::from_graph_value(items[3].clone()) {
                    Ok(t) => t,
                    Err(e) => {
                        return Err(e);
                    },
                };
                let e4 = match T5::from_graph_value(items[4].clone()) {
                    Ok(t) => t,
                    Err(e) => {
                        return Err(e);
                    },
                };
                let e5 = match T6::from_graph_value(items[5].clone()) {
                    Ok(t) => t,
                    Err(e) => {
                        return Err(e);
                    },
                };
                let e6 = match T7::from_graph_value(items[6].clone()) {
                    Ok(t) => t,
                    Err(e) => {
                        return Err(e);
                    },
                };
                let e7 = match T8::from_graph_value(items[7].clone()) {
                    Ok(t) => t,
                    Err(e) => {
                        return Err(e);
                    },
                };
                let e8 = match T9::from_graph_value(items[8].clone()) {
                    Ok(t) => t,
                    Err(e) => {
                        return Err(e);
                    },
                };
                let e9 = match T10::from_graph_value(items[9].clone()) {
                    Ok(t) => t,
                    Err(e) => {
                        return Err(e);
                    },
                };
                let e10 = match T11::from_graph_value(items[10].clone()) {
                    Ok(t) => t,
                    Err(e) => {
                        return Err(e);
                    },
                };
                let e11 = match T12::from_graph_value(items[11].clone()) {
                    Ok(t) => t,
                    Err(e) => {
                        return Err(e);
                    },
                };
                Ok((e0, e1, e2, e3, e4, e5, e6, e7, e8, e9, e10, e11))
            },
            other => Err(GraphError::Mismatch { expected: TargetKind::Tuple, found: other }),
        }
    }
}


impl GraphMap {
    /// The value under the key, converted to the requested optional target:
    /// an absent key converts to "absent"; a present value converts under the
    /// optional rule, so a stored null is "absent" too.
    pub fn get<T: FromGraphValue>(&self, key: &str) -> (r: Result<Option<T>, GraphError>)
        ensures
            match crate::value::map_lookup(self@, key@) {
                Option::None => r matches Ok(o) && o is None,
                Option::Some(v) => match r {
                    Ok(o) => {
                        &&& <Option<T> as FromGraphValue>::convertible(v)
                        &&& <Option<T> as FromGraphValue>::converted(v, o)
                    },
                    Err(e) => {
                        &&& !<Option<T> as FromGraphValue>::convertible(v)
                        &&& e@ == <Option<T> as FromGraphValue>::convert_error(v)
                    },
                },
            },
    {
        let found = self.index_of(key);
        match found {
            Some(i) => {
                proof {
                    crate::value::lemma_pair_seq_view(self.0@);
                }
                let stored: &GraphValue = &self.0[i].1;
                <Option<T> as FromGraphValue>::from_graph_value(stored.clone())
            },
            None => Ok(None),
        }
    }
}

/// Uniform access to the ordered properties of a node or a relationship.
pub trait PropertyAccess: Sized {
    /// The model of the properties this value carries.
    spec fn props(&self) -> Seq<(i64, GraphValueV)>;

    /// The properties, in definition order, keyed by property id.
    fn properties(&self) -> (r: &crate::value::PropertyMap)
        ensures
            r@ == self.props(),
    ;

    /// The values of the properties, in definition order, converted to the
    /// requested target; consumes the value.
    fn into_property_values<T: FromGraphValue>(self) -> (r: Result<T, GraphError>)
        ensures
            match r {
                Ok(t) => {
                    &&& T::convertible(GraphValueV::Array(crate::value::props_values(self.props())))
                    &&& T::converted(
                        GraphValueV::Array(crate::value::props_values(self.props())),
                        t,
                    )
                },
                Err(e) => {
                    &&& !T::convertible(
                        GraphValueV::Array(crate::value::props_values(self.props())),
                    )
                    &&& e@ == T::convert_error(
                        GraphValueV::Array(crate::value::props_values(self.props())),
                    )
                },
            },
    ;

    /// The value stored under a property id, converted to the requested
    /// optional target: an absent id converts to "absent"; a present value
    /// converts under the optional rule, so a stored null is "absent" too.
    fn get_property_by_label_id<T: FromGraphValue>(&self, label_id: i64) -> (r: Result<
        Option<T>,
        GraphError,
    >)
        ensures
            match crate::value::props_lookup(self.props(), label_id) {
                Option::None => r matches Ok(o) && o is None,
                Option::Some(v) => match r {
                    Ok(o) => {
                        &&& <Option<T> as FromGraphValue>::convertible(v)
                        &&& <Option<T> as FromGraphValue>::converted(v, o)
                    },
                    Err(e) => {
                        &&& !<Option<T> as FromGraphValue>::convertible(v)
                        &&& e@ == <Option<T> as FromGraphValue>::convert_error(v)
                    },
                },
            },
    {
        let stored = self.properties().get(label_id);
        match stored {
            Some(val) => <Option<T> as FromGraphValue>::from_graph_value(val.clone()),
            None => Ok(None),
        }
    }

    /// The property value at a position, in definition order, converted to
    /// the requested target.
    fn get_property_by_index<T: FromGraphValue>(&self, idx: usize) -> (r: Result<T, GraphError>)
        requires
            idx < self.props().len(),
        ensures
            match r {
                Ok(t) => {
                    &&& T::convertible(self.props()[idx as int].1)
                    &&& T::converted(self.props()[idx as int].1, t)
                },
                Err(e) => {
                    &&& !T::convertible(self.props()[idx as int].1)
                    &&& e@ == T::convert_error(self.props()[idx as int].1)
                },
            },
    {
        let val = self.properties().get_index(idx);
        T::from_graph_value(val.clone())
    }

    /// The values of the properties, in definition order, converted to the
    /// requested target.
    fn property_values<T: FromGraphValue>(&self) -> (r: Result<T, GraphError>)
        ensures
            match r {
                Ok(t) => {
                    &&& T::convertible(GraphValueV::Array(crate::value::props_values(self.props())))
                    &&& T::converted(
                        GraphValueV::Array(crate::value::props_values(self.props())),
                        t,
                    )
                },
                Err(e) => {
                    &&& !T::convertible(
                        GraphValueV::Array(crate::value::props_values(self.props())),
                    )
                    &&& e@ == T::convert_error(
                        GraphValueV::Array(crate::value::props_values(self.props())),
                    )
                },
            },
    {
        let values = self.properties().values();
        T::from_graph_value(GraphValue::Array(values))
    }
}

impl PropertyAccess for Node {
    open spec fn props(&self) -> Seq<(i64, GraphValueV)> {
        self@.properties
    }

    #[inline(always)]
    fn properties(&self) -> (r: &crate::value::PropertyMap) {
        &self.properties
    }

    fn into_property_values<T: FromGraphValue>(self) -> (r: Result<T, GraphError>) {
        let values = self.properties.into_values();
        T::from_graph_value(GraphValue::Array(values))
    }
}

impl PropertyAccess for Relationship {
    open spec fn props(&self) -> Seq<(i64, GraphValueV)> {
        self@.properties
    }

    #[inline(always)]
    fn properties(&self) -> (r: &crate::value::PropertyMap) {
        &self.properties
    }

    fn into_property_values<T: FromGraphValue>(self) -> (r: Result<T, GraphError>) {
        let values = self.properties.into_values();
        T::from_graph_value(GraphValue::Array(values))
    }
}

/// Optional conversion law: the null value always converts to "absent", for
/// every wrapped target; any other value converts to "present" exactly when
/// the wrapped target accepts it, with the wrapped rule deciding the result.
pub proof fn lemma_optional_conversion<T: FromGraphValue>(v: GraphValueV)
    ensures
        <Option<T> as FromGraphValue>::convertible(GraphValueV::Null),
        forall|r: Option<T>|
            #[trigger] <Option<T> as FromGraphValue>::converted(GraphValueV::Null, r) <==> r
                is None,
        !(v is Null) ==> (<Option<T> as FromGraphValue>::convertible(v) <==> T::convertible(v)),
        !(v is Null) ==> forall|r: Option<T>|
            #[trigger] <Option<T> as FromGraphValue>::converted(v, r) <==> (r matches Some(t)
                && T::converted(v, t)),
{
}

/// Tuple conversion law, arity 1: an array of any other length never
/// converts, and one of exactly this length converts exactly when every
/// element converts to its position's target.
pub proof fn lemma_tuple1_arity_exact<T1: FromGraphValue>(v: GraphValueV)
    ensures
        v is Array && v->Array_0.len() != 1 ==> !<(T1,) as FromGraphValue>::convertible(v),
        v is Array && v->Array_0.len() == 1 ==> (<(T1,) as FromGraphValue>::convertible(v)
            <==> T1::convertible(v->Array_0[0])),
{
}

/// Tuple conversion law, arity 2: an array of any other length never
/// converts, and one of exactly this length converts exactly when every
/// element converts to its position's target.
pub proof fn lemma_tuple2_arity_exact<T1: FromGraphValue, T2: FromGraphValue>(v: GraphValueV)
    ensures
        v is Array && v->Array_0.len() != 2 ==> !<(T1, T2) as FromGraphValue>::convertible(v),
        v is Array && v->Array_0.len() == 2 ==> (<(T1, T2) as FromGraphValue>::convertible(v)
            <==> T1::convertible(v->Array_0[0]) && T2::convertible(v->Array_0[1])),
{
}

/// Tuple conversion law, arity 3: an array of any other length never
/// converts, and one of exactly this length converts exactly when every
/// element converts to its position's target.
pub proof fn lemma_tuple3_arity_exact<T1: FromGraphValue, T2: FromGraphValue, T3: FromGraphValue>(v: GraphValueV)
    ensures
        v is Array && v->Array_0.len() != 3 ==> !<(T1, T2, T3) as FromGraphValue>::convertible(v),
        v is Array && v->Array_0.len() == 3 ==> (<(T1, T2, T3) as FromGraphValue>::convertible(v)
            <==> T1::convertible(v->Array_0[0]) && T2::convertible(v->Array_0[1]) && T3::convertible(v->Array_0[2])),
{
}

/// Tuple conversion law, arity 4: an array of any other length never
/// converts, and one of exactly this length converts exactly when every
/// element converts to its position's target.
pub proof fn lemma_tuple4_arity_exact<T1: FromGraphValue, T2: FromGraphValue, T3: FromGraphValue, T4: FromGraphValue>(v: GraphValueV)
    ensures
        v is Array && v->Array_0.len() != 4 ==> !<(T1, T2, T3, T4) as FromGraphValue>::convertible(v),
        v is Array && v->Array_0.len() == 4 ==> (<(T1, T2, T3, T4) as FromGraphValue>::convertible(v)
            <==> T1::convertible(v->Array_0[0]) && T2::convertible(v->Array_0[1]) && T3::convertible(v->Array_0[2]) && T4::convertible(v->Array_0[3])),
{
}

/// Tuple conversion law, arity 5: an array of any other length never
/// converts, and one of exactly this length converts exactly when every
/// element converts to its position's target.
pub proof fn lemma_tuple5_arity_exact<T1: FromGraphValue, T2: FromGraphValue, T3: FromGraphValue, T4: FromGraphValue, T5: FromGraphValue>(v: GraphValueV)
    ensures
        v is Array && v->Array_0.len() != 5 ==> !<(T1, T2, T3, T4, T5) as FromGraphValue>::convertible(v),
        v is Array && v->Array_0.len() == 5 ==> (<(T1, T2, T3, T4, T5) as FromGraphValue>::convertible(v)
            <==> T1::convertible(v->Array_0[0]) && T2::convertible(v->Array_0[1]) && T3::convertible(v->Array_0[2]) && T4::convertible(v->Array_0[3]) && T5::convertible(v->Array_0[4])),
{
}

/// Tuple conversion law, arity 6: an array of any other length never
/// converts, and one of exactly this length converts exactly when every
/// element converts to its position's target.
pub proof fn lemma_tuple6_arity_exact<T1: FromGraphValue, T2: FromGraphValue, T3: FromGraphValue, T4: FromGraphValue, T5: FromGraphValue, T6: FromGraphValue>(v: GraphValueV)
    ensures
        v is Array && v->Array_0.len() != 6 ==> !<(T1, T2, T3, T4, T5, T6) as FromGraphValue>::convertible(v),
        v is Array && v->Array_0.len() == 6 ==> (<(T1, T2, T3, T4, T5, T6) as FromGraphValue>::convertible(v)
            <==> T1::convertible(v->Array_0[0]) && T2::convertible(v->Array_0[1]) && T3::convertible(v->Array_0[2]) && T4::convertible(v->Array_0[3]) && T5::convertible(v->Array_0[4]) && T6::convertible(v->Array_0[5])),
{
}

/// Tuple conversion law, arity 7: an array of any other length never
/// converts, and one of exactly this length converts exactly when every
/// element converts to its position's target.
pub proof fn lemma_tuple7_arity_exact<T1: FromGraphValue, T2: FromGraphValue, T3: FromGraphValue, T4: FromGraphValue, T5: FromGraphValue, T6: FromGraphValue, T7: FromGraphValue>(v: GraphValueV)
    ensures
        v is Array && v->Array_0.len() != 7 ==> !<(T1, T2, T3, T4, T5, T6, T7) as FromGraphValue>::convertible(v),
        v is Array && v->Array_0.len() == 7 ==> (<(T1, T2, T3, T4, T5, T6, T7) as FromGraphValue>::convertible(v)
            <==> T1::convertible(v->Array_0[0]) && T2::convertible(v->Array_0[1]) && T3::convertible(v->Array_0[2]) && T4::convertible(v->Array_0[3]) && T5::convertible(v->Array_0[4]) && T6::convertible(v->Array_0[5]) && T7::convertible(v->Array_0[6])),
{
}

/// Tuple conversion law, arity 8: an array of any other length never
/// converts, and one of exactly this length converts exactly when every
/// element converts to its position's target.
pub proof fn lemma_tuple8_arity_exact<T1: FromGraphValue, T2: FromGraphValue, T3: FromGraphValue, T4: FromGraphValue, T5: FromGraphValue, T6: FromGraphValue, T7: FromGraphValue, T8: FromGraphValue>(v: GraphValueV)
    ensures
        v is Array && v->Array_0.len() != 8 ==> !<(T1, T2, T3, T4, T5, T6, T7, T8) as FromGraphValue>::convertible(v),
        v is Array && v->Array_0.len() == 8 ==> (<(T1, T2, T3, T4, T5, T6, T7, T8) as FromGraphValue>::convertible(v)
            <==> T1::convertible(v->Array_0[0]) && T2::convertible(v->Array_0[1]) && T3::convertible(v->Array_0[2]) && T4::convertible(v->Array_0[3]) && T5::convertible(v->Array_0[4]) && T6::convertible(v->Array_0[5]) && T7::convertible(v->Array_0[6]) && T8::convertible(v->Array_0[7])),
{
}

/// Tuple conversion law, arity 9: an array of any other length never
/// converts, and one of exactly this length converts exactly when every
/// element converts to its position's target.
pub proof fn lemma_tuple9_arity_exact<T1: FromGraphValue, T2: FromGraphValue, T3: FromGraphValue, T4: FromGraphValue, T5: FromGraphValue, T6: FromGraphValue, T7: FromGraphValue, T8: FromGraphValue, T9: FromGraphValue>(v: GraphValueV)
    ensures
        v is Array && v->Array_0.len() != 9 ==> !<(T1, T2, T3, T4, T5, T6, T7, T8, T9) as FromGraphValue>::convertible(v),
        v is Array && v->Array_0.len() == 9 ==> (<(T1, T2, T3, T4, T5, T6, T7, T8, T9) as FromGraphValue>::convertible(v)
            <==> T1::convertible(v->Array_0[0]) && T2::convertible(v->Array_0[1]) && T3::convertible(v->Array_0[2]) && T4::convertible(v->Array_0[3]) && T5::convertible(v->Array_0[4]) && T6::convertible(v->Array_0[5]) && T7::convertible(v->Array_0[6]) && T8::convertible(v->Array_0[7]) && T9::convertible(v->Array_0[8])),
{
}

/// Tuple conversion law, arity 10: an array of any other length never
/// converts, and one of exactly this length converts exactly when every
/// element converts to its position's target.
pub proof fn lemma_tuple10_arity_exact<T1: FromGraphValue, T2: FromGraphValue, T3: FromGraphValue, T4: FromGraphValue, T5: FromGraphValue, T6: FromGraphValue, T7: FromGraphValue, T8: FromGraphValue, T9: FromGraphValue, T10: FromGraphValue>(v: GraphValueV)
    ensures
        v is Array && v->Array_0.len() != 10 ==> !<(T1, T2, T3, T4, T5, T6, T7, T8, T9, T10) as FromGraphValue>::convertible(v),
        v is Array && v->Array_0.len() == 10 ==> (<(T1, T2, T3, T4, T5, T6, T7, T8, T9, T10) as FromGraphValue>::convertible(v)
            <==> T1::convertible(v->Array_0[0]) && T2::convertible(v->Array_0[1]) && T3::convertible(v->Array_0[2]) && T4::convertible(v->Array_0[3]) && T5::convertible(v->Array_0[4]) && T6::convertible(v->Array_0[5]) && T7::convertible(v->Array_0[6]) && T8::convertible(v->Array_0[7]) && T9::convertible(v->Array_0[8]) && T10::convertible(v->Array_0[9])),
{
}

/// Tuple conversion law, arity 11: an array of any other length never
/// converts, and one of exactly this length converts exactly when every
/// element converts to its position's target.
pub proof fn lemma_tuple11_arity_exact<T1: FromGraphValue, T2: FromGraphValue, T3: FromGraphValue, T4: FromGraphValue, T5: FromGraphValue, T6: FromGraphValue, T7: FromGraphValue, T8: FromGraphValue, T9: FromGraphValue, T10: FromGraphValue, T11: FromGraphValue>(v: GraphValueV)
    ensures
        v is Array && v->Array_0.len() != 11 ==> !<(T1, T2, T3, T4, T5, T6, T7, T8, T9, T10, T11) as FromGraphValue>::convertible(v),
        v is Array && v->Array_0.len() == 11 ==> (<(T1, T2, T3, T4, T5, T6, T7, T8, T9, T10, T11) as FromGraphValue>::convertible(v)
            <==> T1::convertible(v->Array_0[0]) && T2::convertible(v->Array_0[1]) && T3::convertible(v->Array_0[2]) && T4::convertible(v->Array_0[3]) && T5::convertible(v->Array_0[4]) && T6::convertible(v->Array_0[5]) && T7::convertible(v->Array_0[6]) && T8::convertible(v->Array_0[7]) && T9::convertible(v->Array_0[8]) && T10::convertible(v->Array_0[9]) && T11::convertible(v->Array_0[10])),
{
}

/// Tuple conversion law, arity 12: an array of any other length never
/// converts, and one of exactly this length converts exactly when every
/// element converts to its position's target.
pub proof fn lemma_tuple12_arity_exact<T1: FromGraphValue, T2: FromGraphValue, T3: FromGraphValue, T4: FromGraphValue, T5: FromGraphValue, T6: FromGraphValue, T7: FromGraphValue, T8: FromGraphValue, T9: FromGraphValue, T10: FromGraphValue, T11: FromGraphValue, T12: FromGraphValue>(v: GraphValueV)
    ensures
        v is Array && v->Array_0.len() != 12 ==> !<(T1, T2, T3, T4, T5, T6, T7, T8, T9, T10, T11, T12) as FromGraphValue>::convertible(v),
        v is Array && v->Array_0.len() == 12 ==> (<(T1, T2, T3, T4, T5, T6, T7, T8, T9, T10, T11, T12) as FromGraphValue>::convertible(v)
            <==> T1::convertible(v->Array_0[0]) && T2::convertible(v->Array_0[1]) && T3::convertible(v->Array_0[2]) && T4::convertible(v->Array_0[3]) && T5::convertible(v->Array_0[4]) && T6::convertible(v->Array_0[5]) && T7::convertible(v->Array_0[6]) && T8::convertible(v->Array_0[7]) && T9::convertible(v->Array_0[8]) && T10::convertible(v->Array_0[9]) && T11::convertible(v->Array_0[10]) && T12::convertible(v->Array_0[11])),
{
}
} // verus!
