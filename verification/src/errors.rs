//! The error model: every failure names what was expected and carries the
//! offending value, so a caller can diagnose a reply without re-running the
//! query.
use vstd::prelude::*;

use crate::value::{GraphValue, GraphValueV};
use crate::wire::{WireV, WireValue};

verus! {

/// The target shape a conversion expected.
#[derive(Debug, PartialEq, Eq, Clone, Copy)]
pub enum TargetKind {
    /// An 8-bit signed integer.
    I8,
    /// A 16-bit signed integer.
    I16,
    /// A 32-bit signed integer.
    I32,
    /// A 64-bit signed integer.
    I64,
    /// An 8-bit unsigned integer.
    U8,
    /// A 16-bit unsigned integer.
    U16,
    /// A 32-bit unsigned integer.
    U32,
    /// A 64-bit unsigned integer.
    U64,
    /// A double-precision literal.
    Double,
    /// A boolean.
    Boolean,
    /// A string.
    Text,
    /// A homogeneous sequence.
    Sequence,
    /// A fixed-arity tuple.
    Tuple,
    /// A string-keyed mapping.
    Mapping,
    /// A geographic point.
    Point,
    /// A path.
    Path,
    /// A node.
    Node,
    /// A relationship.
    Relation,
}

/// The wire shape a decode step expected.
#[derive(Debug, PartialEq, Eq, Clone, Copy)]
pub enum WireKind {
    /// An integer value, or integer text.
    Integer,
    /// A string.
    Text,
    /// A nested sequence.
    List,
    /// A 2-element sequence of an integer tag and a raw value.
    TaggedValue,
    /// The text "true" or "false".
    BooleanText,
    /// Decimal floating-point text.
    DoubleText,
    /// A 3-element sequence: id, label ids, properties.
    NodeShape,
    /// A 5-element sequence: id, label id, source, destination, properties.
    RelationShape,
    /// A 2-element sequence of coordinate texts.
    PointShape,
    /// A 2-element sequence of a node array and a relationship array.
    PathShape,
    /// A 3-element sequence: property id, tag, raw value.
    PropertyShape,
    /// A 2-element sequence of a column type id and a column name.
    HeaderShape,
    /// An even-length alternation of keys and values.
    MapShape,
}

/// What went wrong while decoding a reply or converting a decoded value.
#[derive(Debug, PartialEq)]
pub enum GraphError {
    /// A conversion target did not match the value's variant.
    Mismatch {
        /// The shape the conversion expected.
        expected: TargetKind,
        /// The value that did not match.
        found: GraphValue,
    },
    /// An integer did not fit the requested width.
    OutOfRange {
        /// The integer type the conversion expected.
        expected: TargetKind,
        /// The integer that did not fit.
        found: i64,
    },
    /// A sequence had the wrong number of elements for the requested tuple.
    WrongLength {
        /// The arity the tuple required.
        expected: usize,
        /// The number of elements found.
        found: usize,
    },
    /// A wire value did not have the shape a decode step required.
    Malformed {
        /// The shape the decode step expected.
        expected: WireKind,
        /// The wire value that did not match.
        found: WireValue,
    },
    /// A reply's top level had a length other than the two valid ones.
    BadReplyLength {
        /// The number of top-level elements found.
        found: usize,
    },
}

/// The mathematical model of an error.
pub enum GraphErrorV {
    Mismatch { expected: TargetKind, found: GraphValueV },
    OutOfRange { expected: TargetKind, found: i64 },
    WrongLength { expected: usize, found: usize },
    Malformed { expected: WireKind, found: WireV },
    BadReplyLength { found: usize },
}

impl View for GraphError {
    type V = GraphErrorV;

    open spec fn view(&self) -> GraphErrorV {
        match self {
            GraphError::Mismatch { expected, found } => GraphErrorV::Mismatch {
                expected: *expected,
                found: found@,
            },
            GraphError::OutOfRange { expected, found } => GraphErrorV::OutOfRange {
                expected: *expected,
                found: *found,
            },
            GraphError::WrongLength { expected, found } => GraphErrorV::WrongLength {
                expected: *expected,
                found: *found,
            },
            GraphError::Malformed { expected, found } => GraphErrorV::Malformed {
                expected: *expected,
                found: found@,
            },
            GraphError::BadReplyLength { found } => GraphErrorV::BadReplyLength { found: *found },
        }
    }
}

} // verus!
