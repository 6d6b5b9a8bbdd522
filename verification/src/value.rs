use vstd::prelude::*;
use vstd::string::StringExecFns;
use vstd::utf8::{valid_utf8, decode_utf8};
use crate::err::CusError;
use crate::strutil::{escape_chars, dec_chars_i64, push_escaped, push_dec_i64, push_char, utf8_to_string};

verus! {

/// A raw wire reply, mirroring the shapes of the store's reply protocol:
/// no reply, an integer, a status line, the positive acknowledgement, a
/// byte payload, or an ordered list of replies (to arbitrary nesting).
#[derive(Debug, PartialEq, Eq)]
pub enum WireValue {
    Nil,
    Int(i64),
    Status(String),
    Okay,
    Data(Vec<u8>),
    Bulk(Vec<WireValue>),
}

/// The normalized value model: the total, lossless image of every wire
/// reply. A byte payload becomes `Str` when it is valid UTF-8 and is kept
/// verbatim as `Binary` otherwise.
#[derive(Debug, PartialEq, Eq)]
pub enum CValue {
    Nil,
    Int(i64),
    Status(String),
    Okay,
    Str(String),
    Binary(Vec<u8>),
    Bulk(Vec<CValue>),
}

/// The mathematical shape of a wire reply.
pub enum WireView {
    Nil,
    Int(int),
    Status(Seq<char>),
    Okay,
    Data(Seq<u8>),
    Bulk(Seq<WireView>),
}

/// The mathematical shape of a normalized value.
pub enum CView {
    Nil,
    Int(int),
    Status(Seq<char>),
    Okay,
    Str(Seq<char>),
    Binary(Seq<u8>),
    Bulk(Seq<CView>),
}

pub open spec fn wire_view(v: WireValue) -> WireView
    decreases v,
{
    match v {
        WireValue::Nil => WireView::Nil,
        WireValue::Int(i) => WireView::Int(i as int),
        WireValue::Status(s) => WireView::Status(s@),
        WireValue::Okay => WireView::Okay,
        WireValue::Data(b) => WireView::Data(b@),
        WireValue::Bulk(items) => WireView::Bulk(wire_view_seq(items@)),
    }
}

pub open spec fn wire_view_seq(s: Seq<WireValue>) -> Seq<WireView>
    decreases s,
{
    if s.len() == 0 {
        Seq::empty()
    } else {
        seq![wire_view(s[0])] + wire_view_seq(s.drop_first())
    }
}

pub open spec fn cvalue_view(v: CValue) -> CView
    decreases v,
{
    match v {
        CValue::Nil => CView::Nil,
        CValue::Int(i) => CView::Int(i as int),
        CValue::Status(s) => CView::Status(s@),
        CValue::Okay => CView::Okay,
        CValue::Str(s) => CView::Str(s@),
        CValue::Binary(b) => CView::Binary(b@),
        CValue::Bulk(items) => CView::Bulk(cvalue_view_seq(items@)),
    }
}

pub open spec fn cvalue_view_seq(s: Seq<CValue>) -> Seq<CView>
    decreases s,
{
    if s.len() == 0 {
        Seq::empty()
    } else {
        seq![cvalue_view(s[0])] + cvalue_view_seq(s.drop_first())
    }
}

/// The number of nodes in a wire reply, used as a termination measure.
pub open spec fn wire_size(v: WireValue) -> nat
    decreases v,
{
    match v {
        WireValue::Bulk(items) => 1 + wire_size_seq(items@),
        _ => 1,
    }
}

pub open spec fn wire_size_seq(s: Seq<WireValue>) -> nat
    decreases s,
{
    if s.len() == 0 {
        0
    } else {
        wire_size(s[0]) + wire_size_seq(s.drop_first())
    }
}

/// The number of nodes in a normalized value, used as a termination measure.
pub open spec fn cvalue_size(v: CValue) -> nat
    decreases v,
{
    match v {
        CValue::Bulk(items) => 1 + cvalue_size_seq(items@),
        _ => 1,
    }
}

pub open spec fn cvalue_size_seq(s: Seq<CValue>) -> nat
    decreases s,
{
    if s.len() == 0 {
        0
    } else {
        cvalue_size(s[0]) + cvalue_size_seq(s.drop_first())
    }
}

pub proof fn lemma_wire_size_seq_elt(s: Seq<WireValue>, i: int)
    requires
        0 <= i < s.len(),
    ensures
        wire_size(s[i]) <= wire_size_seq(s),
    decreases i,
{
    if i > 0 {
        lemma_wire_size_seq_elt(s.drop_first(), i - 1);
    }
}

pub proof fn lemma_cvalue_size_seq_elt(s: Seq<CValue>, i: int)
    requires
        0 <= i < s.len(),
    ensures
        cvalue_size(s[i]) <= cvalue_size_seq(s),
    decreases i,
{
    if i > 0 {
        lemma_cvalue_size_seq_elt(s.drop_first(), i - 1);
    }
}

pub proof fn lemma_wire_view_seq_elts(s: Seq<WireValue>)
    ensures
        wire_view_seq(s).len() == s.len(),
        forall|i: int| 0 <= i < s.len() ==> wire_view_seq(s)[i] == wire_view(s[i]),
    decreases s.len(),
{
    if s.len() > 0 {
        lemma_wire_view_seq_elts(s.drop_first());
    }
}

pub proof fn lemma_cvalue_view_seq_elts(s: Seq<CValue>)
    ensures
        cvalue_view_seq(s).len() == s.len(),
        forall|i: int| 0 <= i < s.len() ==> cvalue_view_seq(s)[i] == cvalue_view(s[i]),
    decreases s.len(),
{
    if s.len() > 0 {
        lemma_cvalue_view_seq_elts(s.drop_first());
    }
}

/// How normalization maps one wire shape to a normalized shape: a byte
/// payload turns into text exactly when it is valid UTF-8; every other
/// shape carries over unchanged; lists are normalized element by element.
pub open spec fn build_view(w: WireView) -> CView
    decreases w,
{
    match w {
        WireView::Nil => CView::Nil,
        WireView::Int(i) => CView::Int(i),
        WireView::Status(s) => CView::Status(s),
        WireView::Okay => CView::Okay,
        WireView::Data(b) => if valid_utf8(b) {
            CView::Str(decode_utf8(b))
        } else {
            CView::Binary(b)
        },
        WireView::Bulk(items) => CView::Bulk(build_view_seq(items)),
    }
}

pub open spec fn build_view_seq(s: Seq<WireView>) -> Seq<CView>
    decreases s,
{
    if s.len() == 0 {
        Seq::empty()
    } else {
        seq![build_view(s[0])] + build_view_seq(s.drop_first())
    }
}

pub proof fn lemma_build_view_seq_elts(s: Seq<WireView>)
    ensures
        build_view_seq(s).len() == s.len(),
        forall|i: int| 0 <= i < s.len() ==> build_view_seq(s)[i] == build_view(s[i]),
    decreases s.len(),
{
    if s.len() > 0 {
        lemma_build_view_seq_elts(s.drop_first());
    }
}

/// A copy of a byte string with the same contents.
pub fn clone_bytes(b: &Vec<u8>) -> (r: Vec<u8>)
    ensures
        r@ == b@,
{
    let r = b.clone();
    proof {
        assert(r@ =~= b@);
    }
    r
}

impl CValue {
    /// Normalizes a wire reply. Total: every wire shape has an image, and
    /// the conversion never fails.
    pub fn build(v: WireValue) -> (r: CValue)
        ensures
            cvalue_view(r) == build_view(wire_view(v)),
    {
        CValue::build_of(&v)
    }

    /// Normalizes a wire reply read through a reference.
    pub fn build_of(v: &WireValue) -> (r: CValue)
        ensures
            cvalue_view(r) == build_view(wire_view(*v)),
        decreases wire_size(*v),
    {
        match v {
            WireValue::Nil => CValue::Nil,
            WireValue::Int(i) => CValue::Int(*i),
            WireValue::Status(s) => CValue::Status(s.clone()),
            WireValue::Okay => CValue::Okay,
            WireValue::Data(b) => {
                match utf8_to_string(b) {
                    Some(s) => CValue::Str(s),
                    None => CValue::Binary(clone_bytes(b)),
                }
            },
            WireValue::Bulk(items) => {
                let ghost gitems = items@;
                let mut out: Vec<CValue> = Vec::new();
                let mut i: usize = 0;
                let n = items.len();
                proof {
                    lemma_wire_view_seq_elts(gitems);
                }
                while i < n
                    invariant
                        wire_size(*v) == 1 + wire_size_seq(gitems),
                        n == gitems.len(),
                        items@ == gitems,
                        out@.len() == i,
                        i <= n,
                        wire_view_seq(gitems).len() == gitems.len(),
                        forall|j: int|
                            0 <= j < gitems.len() ==> wire_view_seq(gitems)[j] == wire_view(
                                gitems[j],
                            ),
                        forall|j: int|
                            0 <= j < i ==> cvalue_view(#[trigger] out@[j]) == build_view(
                                wire_view(gitems[j]),
                            ),
                    decreases n - i,
                {
                    proof {
                        lemma_wire_size_seq_elt(gitems, i as int);
                        assert(wire_size(gitems[i as int]) < wire_size(*v));
                    }
                    let c = CValue::build_of(&items[i]);
                    out.push(c);
                    i = i + 1;
                }
                proof {
                    lemma_cvalue_view_seq_elts(out@);
                    lemma_build_view_seq_elts(wire_view_seq(gitems));
                    assert(cvalue_view_seq(out@) =~= build_view_seq(wire_view_seq(gitems)));
                }
                CValue::Bulk(out)
            },
        }
    }
}

/// The flattened, human-readable text of a normalized shape: "nil" for the
/// absent reply, "OK" for the acknowledgement, decimal digits for integers,
/// the text itself for strings and statuses, the reversible escape rendering
/// for binary payloads, and the members joined by single spaces for lists.
pub open spec fn text_view(w: CView) -> Seq<char>
    decreases w,
{
    match w {
        CView::Nil => "nil"@,
        CView::Int(i) => dec_chars_i64(i),
        CView::Status(s) => s,
        CView::Okay => "OK"@,
        CView::Str(s) => s,
        CView::Binary(b) => escape_chars(b),
        CView::Bulk(items) => text_view_seq(items),
    }
}

/// The texts of list members, joined by single spaces.
pub open spec fn text_view_seq(s: Seq<CView>) -> Seq<char>
    decreases s,
{
    if s.len() == 0 {
        Seq::empty()
    } else if s.len() == 1 {
        text_view(s[0])
    } else {
        text_view(s[0]) + seq![' '] + text_view_seq(s.drop_first())
    }
}

impl CValue {
    /// Appends the flattened text of this value to `out`.
    pub fn push_text(&self, out: &mut String)
        ensures
            final(out)@ == old(out)@ + text_view(cvalue_view(*self)),
        decreases cvalue_size(*self),
    {
        match self {
            CValue::Nil => {
                out.append("nil");
            },
            CValue::Int(i) => {
                push_dec_i64(out, *i);
            },
            CValue::Status(s) => {
                out.append(s.as_str());
            },
            CValue::Okay => {
                out.append("OK");
            },
            CValue::Str(s) => {
                out.append(s.as_str());
            },
            CValue::Binary(b) => {
                push_escaped(out, b);
            },
            CValue::Bulk(items) => {
                let ghost gitems = items@;
                proof {
                    lemma_cvalue_view_seq_elts(gitems);
                }
                let n = items.len();
                let mut i: usize = 0;
                while i < n
                    invariant
                        cvalue_size(*self) == 1 + cvalue_size_seq(gitems),
                        n == gitems.len(),
                        i <= n,
                        cvalue_view_seq(gitems).len() == gitems.len(),
                        forall|j: int|
                            0 <= j < gitems.len() ==> cvalue_view_seq(gitems)[j] == cvalue_view(
                                gitems[j],
                            ),
                        items@ == gitems,
                        out@ == old(out)@ + text_view_seq(cvalue_view_seq(gitems).take(i as int)),
                    decreases n - i,
                {
                    if i > 0 {
                        push_char(out, ' ');
                    }
                    proof {
                        lemma_cvalue_size_seq_elt(gitems, i as int);
                        assert(cvalue_size(gitems[i as int]) < cvalue_size(*self));
                    }
                    items[i].push_text(out);
                    proof {
                        lemma_text_view_seq_take_step(cvalue_view_seq(gitems), i as int);
                    }
                    i = i + 1;
                }
                proof {
                    assert(cvalue_view_seq(gitems).take(gitems.len() as int) =~= cvalue_view_seq(
                        gitems,
                    ));
                }
            },
        }
    }

    /// The flattened text of this value, as its own string.
    pub fn text(&self) -> (r: String)
        ensures
            r@ == text_view(cvalue_view(*self)),
    {
        let mut out = String::new();
        self.push_text(&mut out);
        out
    }
}

/// Extending a joined rendering by one more member appends one separator,
/// when anything came before, and then that member's text.
pub proof fn lemma_text_view_seq_take_step(s: Seq<CView>, i: int)
    requires
        0 <= i < s.len(),
    ensures
        text_view_seq(s.take(i + 1)) == if i == 0 {
            text_view(s[0])
        } else {
            text_view_seq(s.take(i)) + seq![' '] + text_view(s[i])
        },
    decreases i,
{
    if i == 0 {
        assert(s.take(1).len() == 1);
        assert(s.take(1)[0] == s[0]);
    } else {
        lemma_text_view_seq_take_step(s.drop_first(), i - 1);
        assert(s.take(i + 1).drop_first() =~= s.drop_first().take(i));
        assert(s.take(i).drop_first() =~= s.drop_first().take(i - 1));
        assert(s.take(i + 1)[0] == s[0]);
        assert(s.take(i)[0] == s[0]);
        assert(s.drop_first().take(i)[i - 1] == s[i]);
        if i == 1 {
            assert(text_view_seq(s.take(2)) == text_view(s[0]) + seq![' '] + text_view_seq(
                s.drop_first().take(1),
            ));
            assert(text_view_seq(s.take(1)) =~= text_view(s[0]));
            assert(text_view_seq(s.take(i + 1)) =~= text_view_seq(s.take(i)) + seq![' ']
                + text_view(s[i]));
        } else {
            assert(text_view_seq(s.take(i + 1)) =~= text_view_seq(s.take(i)) + seq![' ']
                + text_view(s[i]));
        }
    }
}

}
