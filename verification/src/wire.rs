//! The wire model: the shape of an already-parsed server reply value, as the
//! transport delivers it. The decoder walks values of this type; it never
//! parses raw protocol bytes.
use vstd::prelude::*;

verus! {

/// One reply value from the server, already split into scalars, byte strings
/// and nested sequences by the transport's reply parser.
#[derive(Debug, PartialEq)]
pub enum WireValue {
    /// A nil reply.
    Nil,
    /// An integer reply.
    Int(i64),
    /// A binary-safe byte-string reply.
    Data(Vec<u8>),
    /// A simple (line) string reply.
    Status(String),
    /// The "OK" status reply.
    Okay,
    /// A nested sequence of reply values.
    Bulk(Vec<WireValue>),
}

/// The mathematical model of a wire value.
pub enum WireV {
    Nil,
    Int(i64),
    Data(Seq<u8>),
    Status(Seq<char>),
    Okay,
    Bulk(Seq<WireV>),
}

/// The models of a sequence of wire values, element for element.
pub open spec fn wire_seq_view(s: Seq<WireValue>) -> Seq<WireV>
    decreases s,
{
    if s.len() == 0 {
        Seq::empty()
    } else {
        seq![s[0]@] + wire_seq_view(s.drop_first())
    }
}

pub proof fn lemma_wire_seq_view(s: Seq<WireValue>)
    ensures
        wire_seq_view(s).len() == s.len(),
        forall|i: int| 0 <= i < s.len() ==> wire_seq_view(s)[i] == s[i]@,
    decreases s.len(),
{
    if s.len() == 0 {
        assert(wire_seq_view(s) =~= Seq::empty());
    } else {
        lemma_wire_seq_view(s.drop_first());
        assert(wire_seq_view(s) == seq![s[0]@] + wire_seq_view(s.drop_first()));
        assert(wire_seq_view(s).len() == s.len());
        assert forall|i: int| 0 <= i < s.len() implies wire_seq_view(s)[i] == s[i]@ by {
            if i == 0 {
                assert(wire_seq_view(s)[0] == s[0]@);
            } else {
                assert(wire_seq_view(s)[i] == wire_seq_view(s.drop_first())[i - 1]);
                assert(s.drop_first()[i - 1] == s[i]);
            }
        }
    }
}

impl View for WireValue {
    type V = WireV;

    open spec fn view(&self) -> WireV
        decreases self,
    {
        match self {
            WireValue::Nil => WireV::Nil,
            WireValue::Int(i) => WireV::Int(*i),
            WireValue::Data(bytes) => WireV::Data(bytes@),
            WireValue::Status(s) => WireV::Status(s@),
            WireValue::Okay => WireV::Okay,
            WireValue::Bulk(items) => WireV::Bulk(wire_seq_view(items@)),
        }
    }
}

impl Clone for WireValue {
    /// A clone carries the same model as the original.
    fn clone(&self) -> (res: Self)
        ensures
            res@ == self@,
        decreases *self,
    {
        match self {
            WireValue::Nil => WireValue::Nil,
            WireValue::Int(i) => WireValue::Int(*i),
            WireValue::Data(bytes) => {
                let mut out: Vec<u8> = Vec::new();
                let mut idx: usize = 0;
                while idx < bytes.len()
                    invariant
                        idx <= bytes@.len(),
                        out@ =~= bytes@.subrange(0, idx as int),
                    decreases bytes@.len() - idx,
                {
                    out.push(bytes[idx]);
                    idx += 1;
                }
                proof {
                    assert(out@ =~= bytes@);
                }
                WireValue::Data(out)
            },
            WireValue::Status(s) => WireValue::Status(s.clone()),
            WireValue::Okay => WireValue::Okay,
            WireValue::Bulk(items) => {
                let mut out: Vec<WireValue> = Vec::new();
                let mut idx: usize = 0;
                while idx < items.len()
                    invariant
                        *self == WireValue::Bulk(*items),
                        idx <= items@.len(),
                        out@.len() == idx,
                        forall|j: int| 0 <= j < idx ==> #[trigger] out@[j]@ == items@[j]@,
                    decreases items@.len() - idx,
                {
                    let elem: &WireValue = &items[idx];
                    proof {
                        assert(*elem == self->Bulk_0@[idx as int]);
                        assert(decreases_to!(*self => self->Bulk_0@[idx as int]));
                    }
                    out.push(elem.clone());
                    idx += 1;
                }
                let res = WireValue::Bulk(out);
                proof {
                    lemma_wire_seq_view(out@);
                    lemma_wire_seq_view(items@);
                    assert(wire_seq_view(out@) =~= wire_seq_view(items@));
                }
                res
            },
        }
    }
}

} // verus!
