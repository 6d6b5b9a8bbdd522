use vstd::prelude::*;
use vstd::assert_by_contradiction;
use vstd::string::StringExecFns;
use vstd::utf8::{valid_utf8, decode_utf8};
use crate::err::CusError;
use crate::strutil::{dec_chars_i64, i64_to_string, utf8_to_string};
use crate::value::{
    WireValue, WireView, CValue, wire_view, wire_view_seq, wire_size, wire_size_seq,
    lemma_wire_view_seq_elts, lemma_wire_size_seq_elt, lemma_cvalue_view_seq_elts,
    lemma_build_view_seq_elts, cvalue_view, build_view, clone_bytes,
};

verus! {

/// The capability of being read out of a wire reply: each implementing type
/// says on which reply shapes it is defined (`wire_decodable`) and what value
/// such a shape denotes (`wire_decoded`), and the reader is held to exactly
/// that: it succeeds if and only if the shape is decodable, and then returns
/// the denoted value; otherwise it reports a `Decode` error.
pub trait FromWireValue: Sized {
    spec fn wire_decodable(v: WireView) -> bool;

    spec fn wire_decoded(v: WireView, r: Self) -> bool;

    fn from_wire_value(v: &WireValue) -> (r: Result<Self, CusError>)
        ensures
            r matches Ok(t) ==> Self::wire_decodable(wire_view(*v)) && Self::wire_decoded(
                wire_view(*v),
                t,
            ),
            r matches Err(e) ==> !Self::wire_decodable(wire_view(*v)) && e matches
                CusError::Decode(_),
    ;
}

impl FromWireValue for i64 {
    open spec fn wire_decodable(v: WireView) -> bool {
        v matches WireView::Int(_)
    }

    open spec fn wire_decoded(v: WireView, r: i64) -> bool {
        v matches WireView::Int(i) && i == r as int
    }

    fn from_wire_value(v: &WireValue) -> (r: Result<i64, CusError>) {
        match v {
            WireValue::Int(i) => Ok(*i),
            _ => Err(CusError::Decode(String::from_str("reply is not an integer"))),
        }
    }
}

impl FromWireValue for String {
    open spec fn wire_decodable(v: WireView) -> bool {
        match v {
            WireView::Data(b) => valid_utf8(b),
            WireView::Status(_) => true,
            WireView::Okay => true,
            WireView::Int(_) => true,
            _ => false,
        }
    }

    open spec fn wire_decoded(v: WireView, r: String) -> bool {
        match v {
            WireView::Data(b) => r@ == decode_utf8(b),
            WireView::Status(s) => r@ == s,
            WireView::Okay => r@ == "OK"@,
            WireView::Int(i) => r@ == dec_chars_i64(i),
            _ => false,
        }
    }

    fn from_wire_value(v: &WireValue) -> (r: Result<String, CusError>) {
        match v {
            WireValue::Data(b) => match utf8_to_string(b) {
                Some(s) => Ok(s),
                None => Err(CusError::Decode(String::from_str("reply holds non-text bytes"))),
            },
            WireValue::Status(s) => Ok(s.clone()),
            WireValue::Okay => Ok(String::from_str("OK")),
            WireValue::Int(i) => Ok(i64_to_string(*i)),
            _ => Err(CusError::Decode(String::from_str("reply is not a string"))),
        }
    }
}

impl FromWireValue for CValue {
    open spec fn wire_decodable(v: WireView) -> bool {
        true
    }

    open spec fn wire_decoded(v: WireView, r: CValue) -> bool {
        cvalue_view(r) == build_view(v)
    }

    fn from_wire_value(v: &WireValue) -> (r: Result<CValue, CusError>) {
        Ok(CValue::build_of(v))
    }
}

/// A copy of a wire reply with the same shape.
pub fn clone_wire(v: &WireValue) -> (r: WireValue)
    ensures
        wire_view(r) == wire_view(*v),
    decreases wire_size(*v),
{
    match v {
        WireValue::Nil => WireValue::Nil,
        WireValue::Int(i) => WireValue::Int(*i),
        WireValue::Status(s) => WireValue::Status(s.clone()),
        WireValue::Okay => WireValue::Okay,
        WireValue::Data(b) => WireValue::Data(clone_bytes(b)),
        WireValue::Bulk(items) => {
            let ghost gitems = items@;
            let mut out: Vec<WireValue> = Vec::new();
            let mut i: usize = 0;
            let n = items.len();
            proof {
                lemma_wire_view_seq_elts(gitems);
            }
            while i < n
                invariant
                    wire_size(*v) == 1 + wire_size_seq(gitems),
                    n == gitems.len(),
                    items@ == gitems,
                    out@.len() == i,
                    i <= n,
                    wire_view_seq(gitems).len() == gitems.len(),
                    forall|j: int|
                        0 <= j < gitems.len() ==> wire_view_seq(gitems)[j] == wire_view(gitems[j]),
                    forall|j: int|
                        0 <= j < i ==> wire_view(#[trigger] out@[j]) == wire_view(gitems[j]),
                decreases n - i,
            {
                proof {
                    lemma_wire_size_seq_elt(gitems, i as int);
                    assert(wire_size(gitems[i as int]) < wire_size(*v));
                }
                let c = clone_wire(&items[i]);
                out.push(c);
                i = i + 1;
            }
            proof {
                lemma_wire_view_seq_elts(out@);
                assert(wire_view_seq(out@) =~= wire_view_seq(gitems));
            }
            WireValue::Bulk(out)
        },
    }
}

impl FromWireValue for WireValue {
    open spec fn wire_decodable(v: WireView) -> bool {
        true
    }

    open spec fn wire_decoded(v: WireView, r: WireValue) -> bool {
        wire_view(r) == v
    }

    fn from_wire_value(v: &WireValue) -> (r: Result<WireValue, CusError>) {
        Ok(clone_wire(v))
    }
}

impl FromWireValue for Vec<WireValue> {
    open spec fn wire_decodable(v: WireView) -> bool {
        v matches WireView::Bulk(_)
    }

    open spec fn wire_decoded(v: WireView, r: Vec<WireValue>) -> bool {
        v matches WireView::Bulk(ws) && wire_view_seq(r@) == ws
    }

    fn from_wire_value(v: &WireValue) -> (r: Result<Vec<WireValue>, CusError>) {
        match v {
            WireValue::Bulk(_) => {
                match clone_wire(v) {
                    WireValue::Bulk(out) => Ok(out),
                    _ => Err(CusError::Decode(String::from_str("reply is not a list"))),
                }
            },
            _ => Err(CusError::Decode(String::from_str("reply is not a list"))),
        }
    }
}

impl FromWireValue for Vec<String> {
    open spec fn wire_decodable(v: WireView) -> bool {
        match v {
            WireView::Bulk(ws) => forall|i: int|
                0 <= i < ws.len() ==> <String as FromWireValue>::wire_decodable(#[trigger] ws[i]),
            _ => false,
        }
    }

    open spec fn wire_decoded(v: WireView, r: Vec<String>) -> bool {
        match v {
            WireView::Bulk(ws) => r@.len() == ws.len() && forall|i: int|
                0 <= i < ws.len() ==> <String as FromWireValue>::wire_decoded(
                    #[trigger] ws[i],
                    r@[i],
                ),
            _ => false,
        }
    }

    fn from_wire_value(v: &WireValue) -> (r: Result<Vec<String>, CusError>) {
        match v {
            WireValue::Bulk(items) => {
                let ghost gitems = items@;
                let mut out: Vec<String> = Vec::new();
                let mut i: usize = 0;
                let n = items.len();
                proof {
                    lemma_wire_view_seq_elts(gitems);
                }
                while i < n
                    invariant
                        n == gitems.len(),
                        items@ == gitems,
                        out@.len() == i,
                        i <= n,
                        wire_view(*v) == WireView::Bulk(wire_view_seq(gitems)),
                        wire_view_seq(gitems).len() == gitems.len(),
                        forall|j: int|
                            0 <= j < gitems.len() ==> wire_view_seq(gitems)[j] == wire_view(
                                gitems[j],
                            ),
                        forall|j: int|
                            0 <= j < i ==> <String as FromWireValue>::wire_decodable(
                                #[trigger] wire_view_seq(gitems)[j],
                            ),
                        forall|j: int|
                            0 <= j < i ==> <String as FromWireValue>::wire_decoded(
                                wire_view_seq(gitems)[j],
                                #[trigger] out@[j],
                            ),
                    decreases n - i,
                {
                    match String::from_wire_value(&items[i]) {
                        Ok(s) => {
                            out.push(s);
                        },
                        Err(e) => {
                            proof {
                                assert(wire_view_seq(gitems)[i as int] == wire_view(
                                    gitems[i as int],
                                ));
                                assert(!<String as FromWireValue>::wire_decodable(
                                    wire_view_seq(gitems)[i as int],
                                ));
                                let ws = wire_view_seq(gitems);
                                let k: int = i as int;
                                assert(0 <= k && k < ws.len());
                                assert(!<String as FromWireValue>::wire_decodable(ws[k]));
                                assert_by_contradiction!(
                                    !<Vec<String> as FromWireValue>::wire_decodable(wire_view(*v)),
                                    {
                                        let ws2 = wire_view(*v)->Bulk_0;
                                        assert(ws2 == ws);
                                        assert(<String as FromWireValue>::wire_decodable(ws2[k]));
                                        assert(<String as FromWireValue>::wire_decodable(ws[k]));
                                    }
                                );
                            }
                            return Err(
                                CusError::Decode(
                                    String::from_str("a list member is not a string"),
                                ),
                            );
                        },
                    }
                    i = i + 1;
                }
                Ok(out)
            },
            _ => Err(CusError::Decode(String::from_str("reply is not a list"))),
        }
    }
}

}
