//! The response assembler: splits a reply into header, rows and statistics,
//! converts each row through the conversion capability, and recovers named
//! execution statistics from the free-text statistics lines.
use vstd::prelude::*;

use crate::convert::{first_unconvertible, FromGraphValue};
use crate::decode::wire_text;
use crate::errors::{GraphError, GraphErrorV, WireKind};
use crate::text::is_float_literal;
use crate::value::{DoubleLiteral, GraphValue, GraphValueV};
use crate::wire::{lemma_wire_seq_view, WireV, WireValue};

verus! {

/// The views of a sequence of strings, element for element.
pub open spec fn str_seq_view(s: Seq<String>) -> Seq<Seq<char>>
    decreases s,
{
    if s.len() == 0 {
        Seq::empty()
    } else {
        seq![s[0]@] + str_seq_view(s.drop_first())
    }
}

pub proof fn lemma_str_seq_view(s: Seq<String>)
    ensures
        str_seq_view(s).len() == s.len(),
        forall|i: int| 0 <= i < s.len() ==> str_seq_view(s)[i] == s[i]@,
    decreases s.len(),
{
    if s.len() == 0 {
        assert(str_seq_view(s) =~= Seq::empty());
    } else {
        lemma_str_seq_view(s.drop_first());
        assert(str_seq_view(s) == seq![s[0]@] + str_seq_view(s.drop_first()));
        assert forall|i: int| 0 <= i < s.len() implies str_seq_view(s)[i] == s[i]@ by {
            if i > 0 {
                assert(str_seq_view(s)[i] == str_seq_view(s.drop_first())[i - 1]);
                assert(s.drop_first()[i - 1] == s[i]);
            }
        }
    }
}

/// What reading one header entry yields: a 2-element sequence of a column
/// type id and a column name; only the name is kept.
pub open spec fn header_entry_spec(w: WireV) -> Result<Seq<char>, GraphErrorV> {
    match w {
        WireV::Bulk(parts) => if parts.len() == 2 {
            match crate::decode::wire_int(parts[0]) {
                Some(_) => match wire_text(parts[1]) {
                    Some(name) => Ok(name),
                    None => Err(GraphErrorV::Malformed { expected: WireKind::Text, found: parts[1] }),
                },
                None => Err(GraphErrorV::Malformed { expected: WireKind::Integer, found: parts[0] }),
            }
        } else {
            Err(GraphErrorV::Malformed { expected: WireKind::HeaderShape, found: w })
        },
        _ => Err(GraphErrorV::Malformed { expected: WireKind::HeaderShape, found: w }),
    }
}

/// What reading a header yields: the column names, in order.
pub open spec fn header_seq_spec(items: Seq<WireV>) -> Result<Seq<Seq<char>>, GraphErrorV>
    decreases items,
{
    if items.len() == 0 {
        Ok(Seq::empty())
    } else {
        match header_seq_spec(items.drop_last()) {
            Ok(pre) => match header_entry_spec(items.last()) {
                Ok(name) => Ok(pre.push(name)),
                Err(e) => Err(e),
            },
            Err(e) => Err(e),
        }
    }
}

/// What reading the statistics lines yields: the text of each line, in order.
pub open spec fn stats_seq_spec(items: Seq<WireV>) -> Result<Seq<Seq<char>>, GraphErrorV>
    decreases items,
{
    if items.len() == 0 {
        Ok(Seq::empty())
    } else {
        match stats_seq_spec(items.drop_last()) {
            Ok(pre) => match wire_text(items.last()) {
                Some(line) => Ok(pre.push(line)),
                None => Err(
                    GraphErrorV::Malformed { expected: WireKind::Text, found: items.last() },
                ),
            },
            Err(e) => Err(e),
        }
    }
}

/// What decoding one row yields: a sequence of generic wire values,
/// assembled into one array value.
pub open spec fn row_spec(w: WireV) -> Result<GraphValueV, GraphErrorV> {
    match w {
        WireV::Bulk(cells) => match crate::decode::decode_values_spec(cells) {
            Ok(values) => Ok(GraphValueV::Array(values)),
            Err(e) => Err(e),
        },
        _ => Err(GraphErrorV::Malformed { expected: WireKind::List, found: w }),
    }
}

/// What decoding the row list yields: one array value per row, in order.
pub open spec fn rows_seq_spec(items: Seq<WireV>) -> Result<Seq<GraphValueV>, GraphErrorV>
    decreases items,
{
    if items.len() == 0 {
        Ok(Seq::empty())
    } else {
        match rows_seq_spec(items.drop_last()) {
            Ok(pre) => match row_spec(items.last()) {
                Ok(g) => Ok(pre.push(g)),
                Err(e) => Err(e),
            },
            Err(e) => Err(e),
        }
    }
}

/// What splitting a reply envelope yields: the header names, the row values
/// and the statistics lines. A 1-element reply holds only statistics; a
/// 3-element reply holds header, rows and statistics; anything else is an
/// error naming the unexpected length, or the reply's shape.
pub open spec fn envelope_spec(w: WireV) -> Result<
    (Seq<Seq<char>>, Seq<GraphValueV>, Seq<Seq<char>>),
    GraphErrorV,
> {
    match w {
        WireV::Bulk(parts) => if parts.len() == 1 {
            match parts[0] {
                WireV::Bulk(stat_items) => match stats_seq_spec(stat_items) {
                    Ok(stats) => Ok((Seq::empty(), Seq::empty(), stats)),
                    Err(e) => Err(e),
                },
                _ => Err(GraphErrorV::Malformed { expected: WireKind::List, found: parts[0] }),
            }
        } else if parts.len() == 3 {
            match parts[0] {
                WireV::Bulk(header_items) => match header_seq_spec(header_items) {
                    Ok(header) => match parts[1] {
                        WireV::Bulk(row_items) => match rows_seq_spec(row_items) {
                            Ok(rows) => match parts[2] {
                                WireV::Bulk(stat_items) => match stats_seq_spec(stat_items) {
                                    Ok(stats) => Ok((header, rows, stats)),
                                    Err(e) => Err(e),
                                },
                                _ => Err(
                                    GraphErrorV::Malformed {
                                        expected: WireKind::List,
                                        found: parts[2],
                                    },
                                ),
                            },
                            Err(e) => Err(e),
                        },
                        _ => Err(
                            GraphErrorV::Malformed { expected: WireKind::List, found: parts[1] },
                        ),
                    },
                    Err(e) => Err(e),
                },
                _ => Err(GraphErrorV::Malformed { expected: WireKind::List, found: parts[0] }),
            }
        } else {
            Err(GraphErrorV::BadReplyLength { found: parts.len() as usize })
        },
        _ => Err(GraphErrorV::Malformed { expected: WireKind::List, found: w }),
    }
}

/// Whether every row value converts to the row target.
pub open spec fn rows_convertible<T: FromGraphValue>(rows: Seq<GraphValueV>) -> bool {
    forall|i: int| 0 <= i < rows.len() ==> T::convertible(#[trigger] rows[i])
}

/// How converted rows relate to the row values.
pub open spec fn rows_converted<T: FromGraphValue>(rows: Seq<GraphValueV>, data: Seq<T>) -> bool {
    &&& data.len() == rows.len()
    &&& forall|i: int| 0 <= i < rows.len() ==> T::converted(rows[i], #[trigger] data[i])
}

/// The error reported for the first row that does not convert.
pub open spec fn rows_convert_error<T: FromGraphValue>(rows: Seq<GraphValueV>) -> GraphErrorV {
    T::convert_error(rows[first_unconvertible::<T>(rows)])
}

/// One reply to a query: the column display names, the converted rows, and
/// the free-text execution statistics.
#[derive(Debug, PartialEq)]
pub struct GraphResponse<T = GraphValue> {
    /// The column display names. Informational only.
    pub header: Vec<String>,
    /// The converted rows, one per matched row.
    pub data: Vec<T>,
    /// The execution statistics lines.
    pub statistics: Vec<String>,
}

impl<T: FromGraphValue> GraphResponse<T> {
    /// Assembles a reply: splits the envelope, decodes each row and converts
    /// it to the row target. Succeeds exactly when the envelope is well
    /// formed and every row converts; a failure reports the envelope's error
    /// or the first offending row's conversion error.
    pub fn parse_response(value: &WireValue) -> (r: Result<GraphResponse<T>, GraphError>)
        ensures
            match r {
                Ok(resp) => {
                    &&& envelope_spec(value@) matches Ok(env)
                    &&& str_seq_view(resp.header@) == env.0
                    &&& rows_convertible::<T>(env.1)
                    &&& rows_converted::<T>(env.1, resp.data@)
                    &&& str_seq_view(resp.statistics@) == env.2
                },
                Err(e) => match envelope_spec(value@) {
                    Ok(env) => !rows_convertible::<T>(env.1) && e@ == rows_convert_error::<T>(
                        env.1,
                    ),
                    Err(ev) => e@ == ev,
                },
            },
    {
        match value {
            WireValue::Bulk(parts) => {
                proof {
                    lemma_wire_seq_view(parts@);
                }
                if parts.len() == 1 {
                    let statistics = read_string_list(&parts[0])?;
                    let resp = GraphResponse { header: Vec::new(), data: Vec::new(), statistics };
                    proof {
                        lemma_str_seq_view(resp.header@);
                        assert(str_seq_view(resp.header@) =~= Seq::<Seq<char>>::empty());
                        assert(crate::value::gv_seq_view(Seq::<GraphValue>::empty())
                            =~= Seq::<GraphValueV>::empty());
                    }
                    Ok(resp)
                } else if parts.len() == 3 {
                    let header_items = match &parts[0] {
                        WireValue::Bulk(items) => items,
                        _ => {
                            return Err(
                                GraphError::Malformed {
                                    expected: WireKind::List,
                                    found: parts[0].clone(),
                                },
                            );
                        },
                    };
                    let header = read_header(header_items, Ghost(parts@[0]@))?;
                    let row_items = match &parts[1] {
                        WireValue::Bulk(items) => items,
                        _ => {
                            return Err(
                                GraphError::Malformed {
                                    expected: WireKind::List,
                                    found: parts[1].clone(),
                                },
                            );
                        },
                    };
                    let rows = read_rows(row_items, Ghost(parts@[1]@))?;
                    let statistics = read_string_list(&parts[2])?;
                    let ghost rowsv = crate::value::gv_seq_view(rows@);
                    let data = convert_rows::<T>(rows)?;
                    Ok(GraphResponse { header, data, statistics })
                } else {
                    Err(GraphError::BadReplyLength { found: parts.len() })
                }
            },
            _ => Err(GraphError::Malformed { expected: WireKind::List, found: value.clone() }),
        }
    }
}

/// Reads a list of strings out of a wire value.
fn read_string_list(w: &WireValue) -> (r: Result<Vec<String>, GraphError>)
    ensures
        match r {
            Ok(v) => {
                &&& w@ is Bulk
                &&& stats_seq_spec(w@->Bulk_0) == Ok::<Seq<Seq<char>>, GraphErrorV>(
                    str_seq_view(v@),
                )
            },
            Err(e) => match w@ {
                WireV::Bulk(items) => stats_seq_spec(items) == Err::<Seq<Seq<char>>, GraphErrorV>(
                    e@,
                ),
                _ => e@ == (GraphErrorV::Malformed { expected: WireKind::List, found: w@ }),
            },
        },
{
    match w {
        WireValue::Bulk(items) => {
            proof {
                lemma_wire_seq_view(items@);
            }
            let ghost itemsv = w@->Bulk_0;
            let mut out: Vec<String> = Vec::new();
            let mut idx: usize = 0;
            let n = items.len();
            while idx < n
                invariant
                    n == items@.len(),
                    *w == WireValue::Bulk(*items),
                    itemsv == crate::wire::wire_seq_view(items@),
                    itemsv.len() == n,
                    forall|j: int| 0 <= j < n ==> itemsv[j] == (#[trigger] items@[j])@,
                    idx <= n,
                    stats_seq_spec(itemsv.subrange(0, idx as int)) == Ok::<
                        Seq<Seq<char>>,
                        GraphErrorV,
                    >(str_seq_view(out@)),
                decreases n - idx,
            {
                let ghost pre = itemsv.subrange(0, idx as int);
                let ghost pre1 = itemsv.subrange(0, idx as int + 1);
                proof {
                    assert(pre1.drop_last() =~= pre);
                    assert(pre1.last() == itemsv[idx as int]);
                }
                match crate::decode::read_wire_string(&items[idx]) {
                    Ok(s) => {
                        let ghost out_pre = out@;
                        out.push(s);
                        proof {
                            lemma_str_seq_view(out_pre);
                            lemma_str_seq_view(out@);
                            assert(str_seq_view(out@) =~= str_seq_view(out_pre).push(
                                out@[out@.len() - 1]@,
                            ));
                        }
                    },
                    Err(e) => {
                        proof {
                            lemma_stats_seq_extend(itemsv, idx as int + 1);
                        }
                        return Err(e);
                    },
                }
                idx += 1;
            }
            proof {
                assert(itemsv.subrange(0, n as int) =~= itemsv);
            }
            Ok(out)
        },
        _ => Err(GraphError::Malformed { expected: WireKind::List, found: w.clone() }),
    }
}

proof fn lemma_stats_seq_extend(items: Seq<WireV>, k: int)
    requires
        0 <= k <= items.len(),
        stats_seq_spec(items.subrange(0, k)) is Err,
    ensures
        stats_seq_spec(items) == stats_seq_spec(items.subrange(0, k)),
    decreases items.len() - k,
{
    if k == items.len() {
        assert(items.subrange(0, k) =~= items);
    } else {
        let t = items.drop_last();
        assert(t.subrange(0, k) =~= items.subrange(0, k));
        lemma_stats_seq_extend(t, k);
    }
}

proof fn lemma_header_seq_extend(items: Seq<WireV>, k: int)
    requires
        0 <= k <= items.len(),
        header_seq_spec(items.subrange(0, k)) is Err,
    ensures
        header_seq_spec(items) == header_seq_spec(items.subrange(0, k)),
    decreases items.len() - k,
{
    if k == items.len() {
        assert(items.subrange(0, k) =~= items);
    } else {
        let t = items.drop_last();
        assert(t.subrange(0, k) =~= items.subrange(0, k));
        lemma_header_seq_extend(t, k);
    }
}

proof fn lemma_rows_seq_extend(items: Seq<WireV>, k: int)
    requires
        0 <= k <= items.len(),
        rows_seq_spec(items.subrange(0, k)) is Err,
    ensures
        rows_seq_spec(items) == rows_seq_spec(items.subrange(0, k)),
    decreases items.len() - k,
{
    if k == items.len() {
        assert(items.subrange(0, k) =~= items);
    } else {
        let t = items.drop_last();
        assert(t.subrange(0, k) =~= items.subrange(0, k));
        lemma_rows_seq_extend(t, k);
    }
}

/// Reads the header's column names. The ghost argument carries the wire
/// value the items came from, for the contract alone.
fn read_header(items: &Vec<WireValue>, w: Ghost<WireV>) -> (r: Result<Vec<String>, GraphError>)
    requires
        w@ == WireV::Bulk(crate::wire::wire_seq_view(items@)),
    ensures
        match r {
            Ok(v) => header_seq_spec(w@->Bulk_0) == Ok::<Seq<Seq<char>>, GraphErrorV>(
                str_seq_view(v@),
            ),
            Err(e) => header_seq_spec(w@->Bulk_0) == Err::<Seq<Seq<char>>, GraphErrorV>(e@),
        },
{
    proof {
        lemma_wire_seq_view(items@);
    }
    let ghost itemsv = w@->Bulk_0;
    let mut out: Vec<String> = Vec::new();
    let mut idx: usize = 0;
    let n = items.len();
    while idx < n
        invariant
            n == items@.len(),
            w@ == WireV::Bulk(itemsv),
            itemsv == crate::wire::wire_seq_view(items@),
            itemsv.len() == n,
            forall|j: int| 0 <= j < n ==> itemsv[j] == (#[trigger] items@[j])@,
            idx <= n,
            header_seq_spec(itemsv.subrange(0, idx as int)) == Ok::<Seq<Seq<char>>, GraphErrorV>(
                str_seq_view(out@),
            ),
        decreases n - idx,
    {
        let ghost pre = itemsv.subrange(0, idx as int);
        let ghost pre1 = itemsv.subrange(0, idx as int + 1);
        proof {
            assert(pre1.drop_last() =~= pre);
            assert(pre1.last() == itemsv[idx as int]);
        }
        match read_header_entry(&items[idx]) {
            Ok(name) => {
                let ghost out_pre = out@;
                out.push(name);
                proof {
                    lemma_str_seq_view(out_pre);
                    lemma_str_seq_view(out@);
                    assert(str_seq_view(out@) =~= str_seq_view(out_pre).push(
                        out@[out@.len() - 1]@,
                    ));
                }
            },
            Err(e) => {
                proof {
                    lemma_header_seq_extend(itemsv, idx as int + 1);
                }
                return Err(e);
            },
        }
        idx += 1;
    }
    proof {
        assert(itemsv.subrange(0, n as int) =~= itemsv);
    }
    Ok(out)
}

/// Reads one header entry: a column type id, which is discarded, and a
/// column name, which is kept.
fn read_header_entry(w: &WireValue) -> (r: Result<String, GraphError>)
    ensures
        match r {
            Ok(name) => header_entry_spec(w@) == Ok::<Seq<char>, GraphErrorV>(name@),
            Err(e) => header_entry_spec(w@) == Err::<Seq<char>, GraphErrorV>(e@),
        },
{
    match w {
        WireValue::Bulk(parts) => {
            proof {
                lemma_wire_seq_view(parts@);
            }
            if parts.len() == 2 {
                match crate::decode::read_wire_int(&parts[0]) {
                    Ok(_) => (),
                    Err(e) => {
                        return Err(e);
                    },
                }
                match crate::decode::read_wire_string(&parts[1]) {
                    Ok(name) => Ok(name),
                    Err(e) => Err(e),
                }
            } else {
                Err(GraphError::Malformed { expected: WireKind::HeaderShape, found: w.clone() })
            }
        },
        _ => Err(GraphError::Malformed { expected: WireKind::HeaderShape, found: w.clone() }),
    }
}

/// Decodes the row list: every row becomes one array value.
fn read_rows(items: &Vec<WireValue>, w: Ghost<WireV>) -> (r: Result<Vec<GraphValue>, GraphError>)
    requires
        w@ == WireV::Bulk(crate::wire::wire_seq_view(items@)),
    ensures
        match r {
            Ok(v) => rows_seq_spec(w@->Bulk_0) == Ok::<Seq<GraphValueV>, GraphErrorV>(
                crate::value::gv_seq_view(v@),
            ),
            Err(e) => rows_seq_spec(w@->Bulk_0) == Err::<Seq<GraphValueV>, GraphErrorV>(e@),
        },
{
    proof {
        lemma_wire_seq_view(items@);
    }
    let ghost itemsv = w@->Bulk_0;
    let mut out: Vec<GraphValue> = Vec::new();
    let mut idx: usize = 0;
    let n = items.len();
    while idx < n
        invariant
            n == items@.len(),
            w@ == WireV::Bulk(itemsv),
            itemsv == crate::wire::wire_seq_view(items@),
            itemsv.len() == n,
            forall|j: int| 0 <= j < n ==> itemsv[j] == (#[trigger] items@[j])@,
            idx <= n,
            rows_seq_spec(itemsv.subrange(0, idx as int)) == Ok::<Seq<GraphValueV>, GraphErrorV>(
                crate::value::gv_seq_view(out@),
            ),
        decreases n - idx,
    {
        let ghost pre = itemsv.subrange(0, idx as int);
        let ghost pre1 = itemsv.subrange(0, idx as int + 1);
        proof {
            assert(pre1.drop_last() =~= pre);
            assert(pre1.last() == itemsv[idx as int]);
        }
        match read_row(&items[idx]) {
            Ok(g) => {
                let ghost out_pre = out@;
                out.push(g);
                proof {
                    crate::value::lemma_gv_seq_view(out_pre);
                    crate::value::lemma_gv_seq_view(out@);
                    assert(crate::value::gv_seq_view(out@) =~= crate::value::gv_seq_view(
                        out_pre,
                    ).push(out@[out@.len() - 1]@));
                }
            },
            Err(e) => {
                proof {
                    lemma_rows_seq_extend(itemsv, idx as int + 1);
                }
                return Err(e);
            },
        }
        idx += 1;
    }
    proof {
        assert(itemsv.subrange(0, n as int) =~= itemsv);
    }
    Ok(out)
}

/// Decodes one row: a sequence of generic wire values, one per column,
/// assembled into one array value.
fn read_row(w: &WireValue) -> (r: Result<GraphValue, GraphError>)
    ensures
        match r {
            Ok(g) => row_spec(w@) == Ok::<GraphValueV, GraphErrorV>(g@),
            Err(e) => row_spec(w@) == Err::<GraphValueV, GraphErrorV>(e@),
        },
{
    match w {
        WireValue::Bulk(cells) => {
            proof {
                lemma_wire_seq_view(cells@);
            }
            let ghost cellsv = w@->Bulk_0;
            let mut out: Vec<GraphValue> = Vec::new();
            let mut idx: usize = 0;
            let n = cells.len();
            while idx < n
                invariant
                    n == cells@.len(),
                    *w == WireValue::Bulk(*cells),
                    cellsv == crate::wire::wire_seq_view(cells@),
                    cellsv.len() == n,
                    forall|j: int| 0 <= j < n ==> cellsv[j] == (#[trigger] cells@[j])@,
                    idx <= n,
                    crate::decode::decode_values_spec(cellsv.subrange(0, idx as int)) == Ok::<
                        Seq<GraphValueV>,
                        GraphErrorV,
                    >(crate::value::gv_seq_view(out@)),
                decreases n - idx,
            {
                let ghost pre = cellsv.subrange(0, idx as int);
                let ghost pre1 = cellsv.subrange(0, idx as int + 1);
                proof {
                    assert(pre1.drop_last() =~= pre);
                    assert(pre1.last() == cellsv[idx as int]);
                }
                match GraphValue::from_wire_value(&cells[idx]) {
                    Ok(g) => {
                        let ghost out_pre = out@;
                        out.push(g);
                        proof {
                            crate::value::lemma_gv_seq_view(out_pre);
                            crate::value::lemma_gv_seq_view(out@);
                            assert(crate::value::gv_seq_view(out@) =~= crate::value::gv_seq_view(
                                out_pre,
                            ).push(out@[out@.len() - 1]@));
                        }
                    },
                    Err(e) => {
                        proof {
                            crate::decode::lemma_decode_values_extend(cellsv, idx as int + 1);
                        }
                        return Err(e);
                    },
                }
                idx += 1;
            }
            proof {
                assert(cellsv.subrange(0, n as int) =~= cellsv);
            }
            Ok(GraphValue::Array(out))
        },
        _ => Err(GraphError::Malformed { expected: WireKind::List, found: w.clone() }),
    }
}

/// Converts every row value to the row target, atomically.
fn convert_rows<T: FromGraphValue>(rows: Vec<GraphValue>) -> (r: Result<Vec<T>, GraphError>)
    ensures
        match r {
            Ok(data) => {
                &&& rows_convertible::<T>(crate::value::gv_seq_view(rows@))
                &&& rows_converted::<T>(crate::value::gv_seq_view(rows@), data@)
            },
            Err(e) => {
                &&& !rows_convertible::<T>(crate::value::gv_seq_view(rows@))
                &&& e@ == rows_convert_error::<T>(crate::value::gv_seq_view(rows@))
            },
        },
{
    proof {
        crate::value::lemma_gv_seq_view(rows@);
    }
    let ghost rowsv = crate::value::gv_seq_view(rows@);
    let mut out: Vec<T> = Vec::new();
    let mut idx: usize = 0;
    let n = rows.len();
    while idx < n
        invariant
            n == rows@.len(),
            rowsv == crate::value::gv_seq_view(rows@),
            rowsv.len() == n,
            forall|j: int| 0 <= j < n ==> rowsv[j] == (#[trigger] rows@[j])@,
            idx <= n,
            out@.len() == idx,
            forall|j: int| 0 <= j < idx ==> T::convertible(#[trigger] rowsv[j]),
            forall|j: int| 0 <= j < idx ==> T::converted(rowsv[j], #[trigger] out@[j]),
        decreases n - idx,
    {
        let row: &GraphValue = &rows[idx];
        match T::from_graph_value(row.clone()) {
            Ok(t) => out.push(t),
            Err(e) => {
                proof {
                    crate::convert::lemma_first_unconvertible::<T>(rowsv, idx as int);
                }
                return Err(e);
            },
        }
        idx += 1;
    }
    Ok(out)
}


/// The named execution statistics a reply can carry.
#[derive(Debug, PartialEq, Eq, Clone, Copy)]
pub enum GraphStatistic {
    /// Labels added by the query.
    LabelsAdded,
    /// Nodes created by the query.
    NodesCreated,
    /// Nodes deleted by the query.
    NodesDeleted,
    /// Relationships created by the query.
    RelationshipsCreated,
    /// Relationships deleted by the query.
    RelationshipsDeleted,
    /// Properties set by the query.
    PropertiesSet,
    /// Indices created by the query.
    IndicesCreated,
    /// Indices deleted by the query.
    IndicesDeleted,
    /// Whether the execution plan came from the cache.
    CachedExecution,
    /// The server-side execution time.
    ExecutionTime,
}

/// The fixed label text a statistic's line starts with.
pub open spec fn statistic_label(s: GraphStatistic) -> Seq<char> {
    match s {
        GraphStatistic::LabelsAdded => "Labels added"@,
        GraphStatistic::NodesCreated => "Nodes created"@,
        GraphStatistic::NodesDeleted => "Nodes deleted"@,
        GraphStatistic::RelationshipsCreated => "Relationships created"@,
        GraphStatistic::RelationshipsDeleted => "Relationships deleted"@,
        GraphStatistic::PropertiesSet => "Properties set"@,
        GraphStatistic::IndicesCreated => "Indices created"@,
        GraphStatistic::IndicesDeleted => "Indices deleted"@,
        GraphStatistic::CachedExecution => "Cached execution"@,
        GraphStatistic::ExecutionTime => "Query internal execution time"@,
    }
}

impl GraphStatistic {
    /// The fixed label text this statistic's line starts with.
    pub fn label(&self) -> (r: &'static str)
        ensures
            r@ == statistic_label(*self),
    {
        match self {
            GraphStatistic::LabelsAdded => "Labels added",
            GraphStatistic::NodesCreated => "Nodes created",
            GraphStatistic::NodesDeleted => "Nodes deleted",
            GraphStatistic::RelationshipsCreated => "Relationships created",
            GraphStatistic::RelationshipsDeleted => "Relationships deleted",
            GraphStatistic::PropertiesSet => "Properties set",
            GraphStatistic::IndicesCreated => "Indices created",
            GraphStatistic::IndicesDeleted => "Indices deleted",
            GraphStatistic::CachedExecution => "Cached execution",
            GraphStatistic::ExecutionTime => "Query internal execution time",
        }
    }
}

/// The first position at or after `i` that holds a space.
pub open spec fn first_space(s: Seq<char>, i: int) -> int
    decreases s.len() - i,
{
    if 0 <= i < s.len() && s[i] != ' ' {
        first_space(s, i + 1)
    } else {
        i
    }
}

proof fn lemma_first_space(s: Seq<char>, i: int, j: int)
    requires
        0 <= i <= j <= s.len(),
        forall|k: int| i <= k < j ==> s[k] != ' ',
        j == s.len() || s[j] == ' ',
    ensures
        first_space(s, i) == j,
    decreases j - i,
{
    if i < j {
        lemma_first_space(s, i + 1, j);
    }
}

/// What one statistics line yields for a label: where the line starts with
/// the label and a colon-space separator, the text after the separator up to
/// the first following space; nothing otherwise.
pub open spec fn line_stat_value(line: Seq<char>, label: Seq<char>) -> Option<Seq<char>> {
    if line.len() >= label.len() + 2 && line.subrange(0, label.len() as int) == label && line[label.len() as int]
        == ':' && line[label.len() as int + 1] == ' ' {
        Some(line.subrange(label.len() as int + 2, first_space(line, label.len() as int + 2)))
    } else {
        None
    }
}

/// What scanning the statistics lines yields for a label: the first line
/// that starts with it decides.
pub open spec fn stats_lookup(lines: Seq<Seq<char>>, label: Seq<char>) -> Option<Seq<char>>
    decreases lines,
{
    if lines.len() == 0 {
        None
    } else {
        match line_stat_value(lines[0], label) {
            Some(v) => Some(v),
            None => stats_lookup(lines.drop_first(), label),
        }
    }
}

proof fn lemma_stats_lookup_first(lines: Seq<Seq<char>>, label: Seq<char>, idx: int)
    requires
        0 <= idx < lines.len(),
        line_stat_value(lines[idx], label) is Some,
        forall|j: int| 0 <= j < idx ==> line_stat_value(#[trigger] lines[j], label) is None,
    ensures
        stats_lookup(lines, label) == line_stat_value(lines[idx], label),
    decreases idx,
{
    if idx > 0 {
        assert forall|j: int| 0 <= j < idx - 1
            implies line_stat_value(#[trigger] lines.drop_first()[j], label) is None by {
            assert(lines.drop_first()[j] == lines[j + 1]);
        }
        assert(lines.drop_first()[idx - 1] == lines[idx]);
        lemma_stats_lookup_first(lines.drop_first(), label, idx - 1);
    }
}

proof fn lemma_stats_lookup_none(lines: Seq<Seq<char>>, label: Seq<char>)
    requires
        forall|j: int| 0 <= j < lines.len() ==> line_stat_value(#[trigger] lines[j], label) is None,
    ensures
        stats_lookup(lines, label) is None,
    decreases lines.len(),
{
    if lines.len() > 0 {
        assert forall|j: int| 0 <= j < lines.drop_first().len()
            implies line_stat_value(#[trigger] lines.drop_first()[j], label) is None by {
            assert(lines.drop_first()[j] == lines[j + 1]);
        }
        lemma_stats_lookup_none(lines.drop_first(), label);
    }
}

/// Reads one statistics line's value for a label.
fn line_value(line: &str, label: &str) -> (r: Option<String>)
    ensures
        match r {
            Some(s) => line_stat_value(line@, label@) == Some(s@),
            None => line_stat_value(line@, label@) is None,
        },
{
    let chars = crate::text::str_chars(line);
    let lab = crate::text::str_chars(label);
    let n = chars.len();
    let m = lab.len();
    if n < 2 || n - 2 < m {
        return None;
    }
    let mut idx: usize = 0;
    while idx < m
        invariant
            n == line@.len(),
            m == label@.len(),
            chars@ == line@,
            lab@ == label@,
            n >= m + 2,
            idx <= m,
            forall|j: int| 0 <= j < idx ==> line@[j] == label@[j],
        decreases m - idx,
    {
        if chars[idx] != lab[idx] {
            proof {
                assert(line@.subrange(0, m as int)[idx as int] != label@[idx as int]);
            }
            return None;
        }
        idx += 1;
    }
    proof {
        assert(line@.subrange(0, m as int) =~= label@);
    }
    if chars[m] != ':' || chars[m + 1] != ' ' {
        return None;
    }
    let start = m + 2;
    let mut endpos: usize = start;
    while endpos < n && chars[endpos] != ' '
        invariant
            n == line@.len(),
            chars@ == line@,
            start <= endpos <= n,
            forall|k: int| start <= k < endpos ==> line@[k] != ' ',
        decreases n - endpos,
    {
        endpos += 1;
    }
    proof {
        lemma_first_space(line@, start as int, endpos as int);
    }
    let mut value: Vec<char> = Vec::new();
    let mut pos: usize = start;
    while pos < endpos
        invariant
            n == line@.len(),
            chars@ == line@,
            start <= pos <= endpos <= n,
            value@ =~= line@.subrange(start as int, pos as int),
        decreases endpos - pos,
    {
        value.push(chars[pos]);
        pos += 1;
    }
    proof {
        assert(value@ =~= line@.subrange(start as int, endpos as int));
    }
    Some(crate::text::chars_to_string(&value))
}

impl<T> GraphResponse<T> {
    /// Looks a named statistic up: scans the statistics lines for the first
    /// one starting with the statistic's label, takes the text after the
    /// separator up to the first following space, and returns it where it is
    /// a well-formed number literal.
    pub fn get_statistic(&self, stat: GraphStatistic) -> (r: Option<DoubleLiteral>)
        ensures
            match stats_lookup(str_seq_view(self.statistics@), statistic_label(stat)) {
                Some(text) => if is_float_literal(text) {
                    r matches Some(d) && d@ == text
                } else {
                    r is None
                },
                None => r is None,
            },
    {
        proof {
            lemma_str_seq_view(self.statistics@);
        }
        let ghost lines = str_seq_view(self.statistics@);
        let label = stat.label();
        let mut idx: usize = 0;
        let n = self.statistics.len();
        while idx < n
            invariant
                n == self.statistics@.len(),
                lines == str_seq_view(self.statistics@),
                lines.len() == n,
                forall|j: int| 0 <= j < n ==> lines[j] == (#[trigger] self.statistics@[j])@,
                label@ == statistic_label(stat),
                idx <= n,
                forall|j: int| 0 <= j < idx
                    ==> line_stat_value(#[trigger] lines[j], statistic_label(stat)) is None,
            decreases n - idx,
        {
            match line_value(self.statistics[idx].as_str(), label) {
                Some(text) => {
                    proof {
                        lemma_stats_lookup_first(lines, statistic_label(stat), idx as int);
                    }
                    let chars = crate::text::str_chars(text.as_str());
                    if crate::text::check_float_literal(&chars) {
                        return Some(DoubleLiteral(text));
                    } else {
                        return None;
                    }
                },
                None => {},
            }
            idx += 1;
        }
        proof {
            lemma_stats_lookup_none(lines, statistic_label(stat));
        }
        None
    }
}
} // verus!
