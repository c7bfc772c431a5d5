//! The query builder: a query template, bound parameters and a read-only
//! flag, rendered into the textual command the server expects, with string
//! parameters escaped before embedding.
use vstd::prelude::*;

use crate::text::{chars_to_string, escape_text, i64_text, push_escaped_text, push_i64_text,
    str_chars};
use crate::value::DoubleLiteral;

verus! {

/// One bound parameter: the closed set of value shapes that can be escaped
/// and embedded into a query prologue.
#[derive(Debug, PartialEq)]
pub enum Parameter {
    /// A string, embedded in double quotes with its contents escaped.
    String(String),
    /// A 64-bit signed integer, embedded as decimal text.
    Int(i64),
    /// A double-precision number, embedded as its literal text.
    Double(DoubleLiteral),
}

/// The mathematical model of a parameter.
pub enum ParameterV {
    Text(Seq<char>),
    Int(i64),
    Double(Seq<char>),
}

impl View for Parameter {
    type V = ParameterV;

    open spec fn view(&self) -> ParameterV {
        match self {
            Parameter::String(s) => ParameterV::Text(s@),
            Parameter::Int(i) => ParameterV::Int(*i),
            Parameter::Double(d) => ParameterV::Double(d@),
        }
    }
}

impl Clone for Parameter {
    /// A clone carries the same model as the original.
    fn clone(&self) -> (res: Self)
        ensures
            res@ == self@,
    {
        match self {
            Parameter::String(s) => Parameter::String(s.clone()),
            Parameter::Int(i) => Parameter::Int(*i),
            Parameter::Double(d) => Parameter::Double(d.clone()),
        }
    }
}

impl From<i8> for Parameter {
    fn from(id: i8) -> Self {
        Parameter::Int(id as i64)
    }
}

impl vstd::std_specs::convert::FromSpecImpl<i8> for Parameter {
    open spec fn obeys_from_spec() -> bool {
        true
    }

    open spec fn from_spec(v: i8) -> Parameter {
        Parameter::Int(v as i64)
    }
}

impl From<i16> for Parameter {
    fn from(id: i16) -> Self {
        Parameter::Int(id as i64)
    }
}

impl vstd::std_specs::convert::FromSpecImpl<i16> for Parameter {
    open spec fn obeys_from_spec() -> bool {
        true
    }

    open spec fn from_spec(v: i16) -> Parameter {
        Parameter::Int(v as i64)
    }
}

impl From<i32> for Parameter {
    fn from(id: i32) -> Self {
        Parameter::Int(id as i64)
    }
}

impl vstd::std_specs::convert::FromSpecImpl<i32> for Parameter {
    open spec fn obeys_from_spec() -> bool {
        true
    }

    open spec fn from_spec(v: i32) -> Parameter {
        Parameter::Int(v as i64)
    }
}

impl From<i64> for Parameter {
    fn from(id: i64) -> Self {
        Parameter::Int(id)
    }
}

impl vstd::std_specs::convert::FromSpecImpl<i64> for Parameter {
    open spec fn obeys_from_spec() -> bool {
        true
    }

    open spec fn from_spec(v: i64) -> Parameter {
        Parameter::Int(v)
    }
}

impl From<u8> for Parameter {
    fn from(id: u8) -> Self {
        Parameter::Int(id as i64)
    }
}

impl vstd::std_specs::convert::FromSpecImpl<u8> for Parameter {
    open spec fn obeys_from_spec() -> bool {
        true
    }

    open spec fn from_spec(v: u8) -> Parameter {
        Parameter::Int(v as i64)
    }
}

impl From<u16> for Parameter {
    fn from(id: u16) -> Self {
        Parameter::Int(id as i64)
    }
}

impl vstd::std_specs::convert::FromSpecImpl<u16> for Parameter {
    open spec fn obeys_from_spec() -> bool {
        true
    }

    open spec fn from_spec(v: u16) -> Parameter {
        Parameter::Int(v as i64)
    }
}

impl From<u32> for Parameter {
    fn from(id: u32) -> Self {
        Parameter::Int(id as i64)
    }
}

impl vstd::std_specs::convert::FromSpecImpl<u32> for Parameter {
    open spec fn obeys_from_spec() -> bool {
        true
    }

    open spec fn from_spec(v: u32) -> Parameter {
        Parameter::Int(v as i64)
    }
}

impl<'a> From<&'a str> for Parameter {
    fn from(string: &'a str) -> Self {
        Parameter::String(string.to_owned())
    }
}

impl<'a> vstd::std_specs::convert::FromSpecImpl<&'a str> for Parameter {
    open spec fn obeys_from_spec() -> bool {
        false
    }

    open spec fn from_spec(v: &'a str) -> Parameter {
        arbitrary()
    }
}

impl<'a> From<&'a String> for Parameter {
    fn from(string: &'a String) -> Self {
        Parameter::String(string.clone())
    }
}

impl<'a> vstd::std_specs::convert::FromSpecImpl<&'a String> for Parameter {
    open spec fn obeys_from_spec() -> bool {
        true
    }

    open spec fn from_spec(v: &'a String) -> Parameter {
        Parameter::String(*v)
    }
}

impl From<String> for Parameter {
    fn from(string: String) -> Self {
        Parameter::String(string)
    }
}

impl vstd::std_specs::convert::FromSpecImpl<String> for Parameter {
    open spec fn obeys_from_spec() -> bool {
        true
    }

    open spec fn from_spec(v: String) -> Parameter {
        Parameter::String(v)
    }
}

/// A query to be sent: an immutable template, the bound parameters in
/// insertion order, and the read-only hint.
#[derive(Debug, PartialEq)]
pub struct GraphQuery {
    /// The query template.
    pub query: &'static str,
    /// The bound parameters, in insertion order.
    pub params: Vec<(&'static str, Parameter)>,
    /// Whether the read-only command variant is requested. A client-side
    /// hint only: it does not prevent a query from mutating.
    pub read_only: bool,
}

/// The mathematical model of a query.
pub struct GraphQueryV {
    pub query: Seq<char>,
    pub params: Seq<(Seq<char>, ParameterV)>,
    pub read_only: bool,
}

/// The models of a parameter list, element for element.
pub open spec fn param_seq_view(s: Seq<(&'static str, Parameter)>) -> Seq<(Seq<char>, ParameterV)>
    decreases s,
{
    if s.len() == 0 {
        Seq::empty()
    } else {
        seq![(s[0].0@, s[0].1@)] + param_seq_view(s.drop_first())
    }
}

pub proof fn lemma_param_seq_view(s: Seq<(&'static str, Parameter)>)
    ensures
        param_seq_view(s).len() == s.len(),
        forall|i: int| 0 <= i < s.len() ==> param_seq_view(s)[i] == (s[i].0@, s[i].1@),
    decreases s.len(),
{
    if s.len() == 0 {
        assert(param_seq_view(s) =~= Seq::empty());
    } else {
        lemma_param_seq_view(s.drop_first());
        assert(param_seq_view(s) == seq![(s[0].0@, s[0].1@)] + param_seq_view(s.drop_first()));
        assert forall|i: int| 0 <= i < s.len()
            implies param_seq_view(s)[i] == (s[i].0@, s[i].1@) by {
            if i > 0 {
                assert(param_seq_view(s)[i] == param_seq_view(s.drop_first())[i - 1]);
                assert(s.drop_first()[i - 1] == s[i]);
            }
        }
    }
}

impl View for GraphQuery {
    type V = GraphQueryV;

    open spec fn view(&self) -> GraphQueryV {
        GraphQueryV {
            query: self.query@,
            params: param_seq_view(self.params@),
            read_only: self.read_only,
        }
    }
}

/// The fixed text that opens a parameter prologue.
pub open spec fn prologue_opening() -> Seq<char> {
    seq!['C', 'Y', 'P', 'H', 'E', 'R', ' ']
}

/// How one bound parameter is rendered: its name, an equals sign, its value,
/// and a trailing space. A string value is embedded in double quotes with
/// its contents passed through the default escaping transform.
pub open spec fn param_text(name: Seq<char>, p: ParameterV) -> Seq<char> {
    match p {
        ParameterV::Int(i) => name + seq!['='] + i64_text(i as int) + seq![' '],
        ParameterV::Double(d) => name + seq!['='] + d + seq![' '],
        ParameterV::Text(s) => name + seq!['=', '"'] + escape_text(s) + seq!['"', ' '],
    }
}

/// How a parameter list is rendered: each parameter's text, in insertion
/// order.
pub open spec fn params_text(params: Seq<(Seq<char>, ParameterV)>) -> Seq<char>
    decreases params,
{
    if params.len() == 0 {
        Seq::empty()
    } else {
        params_text(params.drop_last()) + param_text(params.last().0, params.last().1)
    }
}

/// How a query's parameter prologue is rendered: empty without parameters,
/// else the opening text and each parameter's rendering.
pub open spec fn prologue_text(params: Seq<(Seq<char>, ParameterV)>) -> Seq<char> {
    if params.len() == 0 {
        Seq::empty()
    } else {
        prologue_opening() + params_text(params)
    }
}

/// How a whole query is rendered: its prologue, then its template, verbatim.
pub open spec fn rendered(q: GraphQueryV) -> Seq<char> {
    prologue_text(q.params) + q.query
}

impl GraphQuery {
    /// A query over a bare template: no parameters, not read-only.
    pub fn new(query: &'static str) -> (r: Self)
        ensures
            r@.query == query@,
            r@.params == Seq::<(Seq<char>, ParameterV)>::empty(),
            !r@.read_only,
    {
        let r = GraphQuery { query, params: Vec::new(), read_only: false };
        proof {
            lemma_param_seq_view(r.params@);
            assert(r@.params =~= Seq::<(Seq<char>, ParameterV)>::empty());
        }
        r
    }

    /// The command name the query selects: the read-only variant exactly
    /// when the read-only hint is set.
    pub fn read_type(&self) -> (r: &'static str)
        ensures
            self.read_only ==> r@ == "GRAPH.RO_QUERY"@,
            !self.read_only ==> r@ == "GRAPH.QUERY"@,
    {
        if self.read_only {
            "GRAPH.RO_QUERY"
        } else {
            "GRAPH.QUERY"
        }
    }

    /// Renders the query: the parameter prologue, then the template,
    /// verbatim.
    pub fn construct_query(&self) -> (r: String)
        ensures
            r@ == rendered(self@),
    {
        let mut out: Vec<char> = Vec::new();
        self.parse_params(&mut out);
        let ghost before = out@;
        let qchars = str_chars(self.query);
        let n = qchars.len();
        let mut idx: usize = 0;
        while idx < n
            invariant
                n == qchars@.len(),
                qchars@ == self.query@,
                idx <= n,
                out@ == before + self.query@.subrange(0, idx as int),
            decreases n - idx,
        {
            out.push(qchars[idx]);
            proof {
                assert(out@ =~= before + self.query@.subrange(0, idx as int + 1));
            }
            idx += 1;
        }
        proof {
            assert(self.query@.subrange(0, n as int) =~= self.query@);
        }
        chars_to_string(&out)
    }

    /// Appends the parameter prologue: empty without parameters, else the
    /// opening text and each parameter's name, value and separators.
    fn parse_params(&self, out: &mut Vec<char>)
        ensures
            final(out)@ == old(out)@ + prologue_text(self@.params),
    {
        proof {
            lemma_param_seq_view(self.params@);
        }
        if self.params.is_empty() {
            proof {
                assert(final(out)@ =~= old(out)@ + prologue_text(self@.params));
            }
            return ;
        }
        out.push('C');
        out.push('Y');
        out.push('P');
        out.push('H');
        out.push('E');
        out.push('R');
        out.push(' ');
        let ghost opened = out@;
        proof {
            assert(opened =~= old(out)@ + prologue_opening());
        }
        let n = self.params.len();
        let mut idx: usize = 0;
        while idx < n
            invariant
                n == self.params@.len(),
                self@.params.len() == n,
                forall|j: int| 0 <= j < n
                    ==> (#[trigger] self@.params[j]) == (self.params@[j].0@, self.params@[j].1@),
                idx <= n,
                out@ == opened + params_text(self@.params.subrange(0, idx as int)),
            decreases n - idx,
        {
            let ghost pre = self@.params.subrange(0, idx as int);
            let ghost pre1 = self@.params.subrange(0, idx as int + 1);
            proof {
                assert(pre1.drop_last() =~= pre);
                assert(pre1.last() == self@.params[idx as int]);
            }
            let name: &'static str = self.params[idx].0;
            let name_chars = str_chars(name);
            let m = name_chars.len();
            let ghost name_start = out@;
            let mut k: usize = 0;
            while k < m
                invariant
                    m == name_chars@.len(),
                    name_chars@ == self.params@[idx as int].0@,
                    idx < self.params@.len(),
                    k <= m,
                    out@ == name_start + name_chars@.subrange(0, k as int),
                decreases m - k,
            {
                out.push(name_chars[k]);
                proof {
                    assert(out@ =~= name_start + name_chars@.subrange(0, k as int + 1));
                }
                k += 1;
            }
            proof {
                assert(name_chars@.subrange(0, m as int) =~= name_chars@);
            }
            out.push('=');
            match &self.params[idx].1 {
                Parameter::Int(i) => {
                    push_i64_text(*i, out);
                    out.push(' ');
                },
                Parameter::Double(d) => {
                    let dchars = str_chars(d.0.as_str());
                    let dn = dchars.len();
                    let ghost dstart = out@;
                    let mut dk: usize = 0;
                    while dk < dn
                        invariant
                            dn == dchars@.len(),
                            idx < self.params@.len(),
                            dchars@ == self.params@[idx as int].1@->Double_0,
                            dk <= dn,
                            out@ == dstart + dchars@.subrange(0, dk as int),
                        decreases dn - dk,
                    {
                        out.push(dchars[dk]);
                        proof {
                            assert(out@ =~= dstart + dchars@.subrange(0, dk as int + 1));
                        }
                        dk += 1;
                    }
                    proof {
                        assert(dchars@.subrange(0, dn as int) =~= dchars@);
                    }
                    out.push(' ');
                },
                Parameter::String(s) => {
                    out.push('"');
                    push_escaped_text(s.as_str(), out);
                    out.push('"');
                    out.push(' ');
                },
            }
            proof {
                assert(out@ =~= opened + params_text(pre1));
            }
            idx += 1;
        }
        proof {
            assert(self@.params.subrange(0, n as int) =~= self@.params);
        }
    }

    /// Binds one more parameter, at the end of the insertion order.
    pub fn add_parameter(&mut self, key: &'static str, value: Parameter)
        ensures
            final(self)@.query == old(self)@.query,
            final(self)@.read_only == old(self)@.read_only,
            final(self)@.params == old(self)@.params.push((key@, value@)),
    {
        proof {
            lemma_param_seq_view(self.params@);
        }
        self.params.push((key, value));
        proof {
            lemma_param_seq_view(self.params@);
            assert(self@.params =~= old(self)@.params.push((key@, value@)));
        }
    }

    /// Sets the read-only hint.
    pub fn read_only(&mut self, read_only: bool)
        ensures
            final(self)@.query == old(self)@.query,
            final(self)@.params == old(self)@.params,
            final(self)@.read_only == read_only,
    {
        self.read_only = read_only;
    }
}

impl From<&'static str> for GraphQuery {
    /// A bare template becomes a query without parameters, not read-only.
    fn from(query: &'static str) -> Self {
        GraphQuery { query, params: Vec::new(), read_only: false }
    }
}

impl vstd::std_specs::convert::FromSpecImpl<&'static str> for GraphQuery {
    open spec fn obeys_from_spec() -> bool {
        false
    }

    open spec fn from_spec(v: &'static str) -> GraphQuery {
        arbitrary()
    }
}

/// Rendering a query with no parameters yields the template unchanged;
/// rendering one with parameters opens with the fixed prologue text and ends
/// with the template, verbatim.
pub proof fn lemma_render_shape(q: GraphQueryV)
    ensures
        q.params.len() == 0 ==> rendered(q) == q.query,
        q.params.len() > 0 ==> rendered(q).take(7) == prologue_opening() && rendered(q).skip(
            rendered(q).len() - q.query.len(),
        ) == q.query,
{
    if q.params.len() == 0 {
        assert(rendered(q) =~= q.query);
    } else {
        assert(rendered(q).skip(rendered(q).len() - q.query.len()) =~= q.query);
        assert(rendered(q).take(7) =~= prologue_opening());
    }
}

} // verus!
