use vstd::prelude::*;
use vstd::utf8::{valid_utf8, decode_utf8, encode_utf8, encode_utf8_valid_utf8, encode_utf8_decode_utf8};
use crate::cmd::str_to_bytes;
use crate::strutil::utf8_to_string;
use crate::value::{
    CValue, CView, cvalue_view, cvalue_view_seq, cvalue_size, cvalue_size_seq,
    lemma_cvalue_view_seq_elts, lemma_cvalue_size_seq_elt,
};

verus! {

// A normalized value is framed as one tag byte followed by its payload:
// tag 0 is Nil, 1 an integer (eight big-endian bytes), 2 a status and 4 a
// text (eight-byte length, then that many UTF-8 bytes), 3 the
// acknowledgement, 5 a binary payload (eight-byte length, then raw bytes),
// and 6 a list (eight-byte member count, then the members in order).

/// The eight big-endian bytes of a 64-bit number.
pub open spec fn be_bytes(n: u64) -> Seq<u8> {
    seq![
        (n >> 56) as u8,
        (n >> 48) as u8,
        (n >> 40) as u8,
        (n >> 32) as u8,
        (n >> 24) as u8,
        (n >> 16) as u8,
        (n >> 8) as u8,
        n as u8,
    ]
}

/// The 64-bit number read from eight big-endian bytes.
pub open spec fn be_val(b: Seq<u8>) -> u64
    recommends
        b.len() == 8,
{
    ((b[0] as u64) << 56) | ((b[1] as u64) << 48) | ((b[2] as u64) << 40) | ((b[3] as u64) << 32)
        | ((b[4] as u64) << 24) | ((b[5] as u64) << 16) | ((b[6] as u64) << 8) | (b[7] as u64)
}

pub proof fn lemma_be_round(n: u64)
    ensures
        be_val(be_bytes(n)) == n,
{
    assert((((n >> 56) as u8) as u64) << 56 | (((n >> 48) as u8) as u64) << 48 | (((n >> 40) as u8)
        as u64) << 40 | (((n >> 32) as u8) as u64) << 32 | (((n >> 24) as u8) as u64) << 24 | (((n
        >> 16) as u8) as u64) << 16 | (((n >> 8) as u8) as u64) << 8 | ((n as u8) as u64) == n)
        by (bit_vector);
}

/// The byte framing of a normalized shape.
pub open spec fn encoded(w: CView) -> Seq<u8>
    decreases w,
{
    match w {
        CView::Nil => seq![0u8],
        CView::Int(i) => seq![1u8] + be_bytes((i as i64) as u64),
        CView::Status(s) => seq![2u8] + be_bytes(encode_utf8(s).len() as u64) + encode_utf8(s),
        CView::Okay => seq![3u8],
        CView::Str(s) => seq![4u8] + be_bytes(encode_utf8(s).len() as u64) + encode_utf8(s),
        CView::Binary(b) => seq![5u8] + be_bytes(b.len() as u64) + b,
        CView::Bulk(items) => seq![6u8] + be_bytes(items.len() as u64) + encoded_seq(items),
    }
}

pub open spec fn encoded_seq(s: Seq<CView>) -> Seq<u8>
    decreases s,
{
    if s.len() == 0 {
        Seq::empty()
    } else {
        encoded(s[0]) + encoded_seq(s.drop_first())
    }
}

/// A shape whose numbers and lengths fit the framing's fixed-width fields.
/// Every value a program can hold satisfies this; only mathematical shapes
/// beyond machine limits are excluded.
pub open spec fn bounded_view(w: CView) -> bool
    decreases w,
{
    match w {
        CView::Nil => true,
        CView::Int(i) => i64::MIN <= i <= i64::MAX,
        CView::Status(s) => encode_utf8(s).len() <= u64::MAX,
        CView::Okay => true,
        CView::Str(s) => encode_utf8(s).len() <= u64::MAX,
        CView::Binary(b) => b.len() <= u64::MAX,
        CView::Bulk(items) => items.len() <= u64::MAX && bounded_seq(items),
    }
}

pub open spec fn bounded_seq(s: Seq<CView>) -> bool
    decreases s,
{
    if s.len() == 0 {
        true
    } else {
        bounded_view(s[0]) && bounded_seq(s.drop_first())
    }
}

/// What the decoder makes of a byte string: the first framed value and the
/// remaining bytes, or nothing when the bytes do not begin with a valid
/// frame.
pub open spec fn spec_decode(bytes: Seq<u8>) -> Option<(CView, Seq<u8>)>
    decreases bytes.len(), 0int, 0nat,
{
    if bytes.len() < 1 {
        None
    } else {
        let tag = bytes[0];
        let rest = bytes.drop_first();
        if tag == 0 {
            Some((CView::Nil, rest))
        } else if tag == 3 {
            Some((CView::Okay, rest))
        } else if tag == 1 {
            if rest.len() < 8 {
                None
            } else {
                Some((CView::Int((be_val(rest.take(8)) as i64) as int), rest.skip(8)))
            }
        } else if tag == 2 || tag == 4 || tag == 5 {
            if rest.len() < 8 {
                None
            } else {
                let len = be_val(rest.take(8)) as int;
                if rest.len() - 8 < len {
                    None
                } else {
                    let payload = rest.subrange(8, 8 + len);
                    let after = rest.skip(8 + len);
                    if tag == 5 {
                        Some((CView::Binary(payload), after))
                    } else if valid_utf8(payload) {
                        if tag == 2 {
                            Some((CView::Status(decode_utf8(payload)), after))
                        } else {
                            Some((CView::Str(decode_utf8(payload)), after))
                        }
                    } else {
                        None
                    }
                }
            }
        } else if tag == 6 {
            if rest.len() < 8 {
                None
            } else {
                match spec_decode_list(rest.skip(8), be_val(rest.take(8)) as nat) {
                    None => None,
                    Some(pr) => Some((CView::Bulk(pr.0), pr.1)),
                }
            }
        } else {
            None
        }
    }
}

pub open spec fn spec_decode_list(bytes: Seq<u8>, n: nat) -> Option<(Seq<CView>, Seq<u8>)>
    decreases bytes.len(), 1int, n,
{
    if n == 0 {
        Some((Seq::empty(), bytes))
    } else {
        match spec_decode(bytes) {
            None => None,
            Some(pr) => {
                if pr.1.len() < bytes.len() {
                    match spec_decode_list(pr.1, (n - 1) as nat) {
                        None => None,
                        Some(pr2) => Some((seq![pr.0] + pr2.0, pr2.1)),
                    }
                } else {
                    None
                }
            },
        }
    }
}

pub proof fn lemma_encoded_len_pos(w: CView)
    ensures
        encoded(w).len() >= 1,
{
    match w {
        CView::Nil => {},
        CView::Int(_) => {},
        CView::Status(_) => {},
        CView::Okay => {},
        CView::Str(_) => {},
        CView::Binary(_) => {},
        CView::Bulk(_) => {},
    }
}

/// Round trip, stated over a prefix: decoding a byte string that begins with
/// the framing of a (machine-representable) normalized shape yields exactly
/// that shape and leaves exactly the following bytes.
pub proof fn lemma_round_trip(w: CView, rest: Seq<u8>)
    requires
        bounded_view(w),
    ensures
        spec_decode(encoded(w) + rest) == Some((w, rest)),
    decreases w, 0int,
{
    broadcast use encode_utf8_valid_utf8, encode_utf8_decode_utf8;

    let s = encoded(w) + rest;
    match w {
        CView::Nil => {
            assert(s[0] == 0);
            assert(s.drop_first() =~= rest);
        },
        CView::Okay => {
            assert(s[0] == 3);
            assert(s.drop_first() =~= rest);
        },
        CView::Int(i) => {
            assert(s[0] == 1);
            let j = i as i64;
            let r1 = s.drop_first();
            assert(r1 =~= be_bytes(j as u64) + rest);
            assert(r1.take(8) =~= be_bytes(j as u64));
            lemma_be_round(j as u64);
            assert((j as u64) as i64 == j) by (bit_vector);
            assert(j as int == i);
            assert(r1.skip(8) =~= rest);
        },
        CView::Status(t) => {
            assert(s[0] == 2);
            let payload = encode_utf8(t);
            let n = payload.len() as u64;
            let r1 = s.drop_first();
            assert(r1 =~= be_bytes(n) + payload + rest);
            assert(r1.take(8) =~= be_bytes(n));
            lemma_be_round(n);
            assert(n as int == payload.len());
            assert(r1.len() - 8 >= payload.len());
            assert(r1.subrange(8, 8 + payload.len() as int) =~= payload);
            assert(valid_utf8(payload));
            assert(decode_utf8(payload) == t);
            assert(r1.skip(8 + payload.len() as int) =~= rest);
        },
        CView::Str(t) => {
            assert(s[0] == 4);
            let payload = encode_utf8(t);
            let n = payload.len() as u64;
            let r1 = s.drop_first();
            assert(r1 =~= be_bytes(n) + payload + rest);
            assert(r1.take(8) =~= be_bytes(n));
            lemma_be_round(n);
            assert(n as int == payload.len());
            assert(r1.subrange(8, 8 + payload.len() as int) =~= payload);
            assert(valid_utf8(payload));
            assert(decode_utf8(payload) == t);
            assert(r1.skip(8 + payload.len() as int) =~= rest);
        },
        CView::Binary(b) => {
            assert(s[0] == 5);
            let n = b.len() as u64;
            let r1 = s.drop_first();
            assert(r1 =~= be_bytes(n) + b + rest);
            assert(r1.take(8) =~= be_bytes(n));
            lemma_be_round(n);
            assert(n as int == b.len());
            assert(r1.subrange(8, 8 + b.len() as int) =~= b);
            assert(r1.skip(8 + b.len() as int) =~= rest);
        },
        CView::Bulk(items) => {
            assert(s[0] == 6);
            let n = items.len() as u64;
            let r1 = s.drop_first();
            assert(r1 =~= be_bytes(n) + (encoded_seq(items) + rest));
            assert(r1.take(8) =~= be_bytes(n));
            lemma_be_round(n);
            assert(n as nat == items.len());
            assert(r1.skip(8) =~= encoded_seq(items) + rest);
            lemma_round_trip_list(items, rest);
            assert(spec_decode_list(r1.skip(8), n as nat) == Some((items, rest)));
        },
    }
}

pub proof fn lemma_round_trip_list(items: Seq<CView>, rest: Seq<u8>)
    requires
        bounded_seq(items),
    ensures
        spec_decode_list(encoded_seq(items) + rest, items.len() as nat) == Some((items, rest)),
    decreases items, 1int,
{
    if items.len() == 0 {
        assert(encoded_seq(items) + rest =~= rest);
        assert(items =~= Seq::<CView>::empty());
    } else {
        let first = items[0];
        let tail = items.drop_first();
        let rest1 = encoded_seq(tail) + rest;
        let b = encoded_seq(items) + rest;
        assert(b =~= encoded(first) + rest1);
        lemma_round_trip(first, rest1);
        assert(spec_decode(b) == Some((first, rest1)));
        lemma_encoded_len_pos(first);
        assert(rest1.len() < b.len());
        lemma_round_trip_list(tail, rest);
        assert(spec_decode_list(rest1, tail.len() as nat) == Some((tail, rest)));
        assert(seq![first] + tail =~= items);
        assert(spec_decode_list(b, items.len() as nat) == Some((seq![first] + tail, rest)));
    }
}

/// Round trip at the whole-message level: every machine-representable
/// normalized shape survives framing and decoding unchanged, with nothing
/// left over. No shape is refused: the framing is total.
pub proof fn lemma_encode_decode(w: CView)
    requires
        bounded_view(w),
    ensures
        spec_decode(encoded(w)) == Some((w, Seq::<u8>::empty())),
{
    lemma_round_trip(w, Seq::<u8>::empty());
    assert(encoded(w) + Seq::<u8>::empty() =~= encoded(w));
}

pub proof fn lemma_encoded_seq_concat(a: Seq<CView>, b: Seq<CView>)
    ensures
        encoded_seq(a + b) == encoded_seq(a) + encoded_seq(b),
    decreases a.len(),
{
    if a.len() == 0 {
        assert(a + b =~= b);
        assert(encoded_seq(a) + encoded_seq(b) =~= encoded_seq(b));
    } else {
        assert((a + b).drop_first() =~= a.drop_first() + b);
        lemma_encoded_seq_concat(a.drop_first(), b);
        assert(encoded_seq(a + b) =~= encoded_seq(a) + encoded_seq(b));
    }
}

pub proof fn lemma_encoded_seq_take_step(s: Seq<CView>, i: int)
    requires
        0 <= i < s.len(),
    ensures
        encoded_seq(s.take(i + 1)) == encoded_seq(s.take(i)) + encoded(s[i]),
{
    let one = seq![s[i]];
    assert(s.take(i + 1) =~= s.take(i) + one);
    lemma_encoded_seq_concat(s.take(i), one);
    assert(one.drop_first() =~= Seq::<CView>::empty());
    assert(encoded_seq(one.drop_first()) =~= Seq::<u8>::empty());
    assert(encoded_seq(one) =~= encoded(s[i]));
}

/// Appends the big-endian bytes of `n`.
pub fn push_be_u64(out: &mut Vec<u8>, n: u64)
    ensures
        final(out)@ == old(out)@ + be_bytes(n),
{
    out.push((n >> 56) as u8);
    out.push((n >> 48) as u8);
    out.push((n >> 40) as u8);
    out.push((n >> 32) as u8);
    out.push((n >> 24) as u8);
    out.push((n >> 16) as u8);
    out.push((n >> 8) as u8);
    out.push(n as u8);
    proof {
        assert(out@ =~= old(out)@ + be_bytes(n));
    }
}

/// Appends all of `b`.
pub fn append_bytes(out: &mut Vec<u8>, b: &Vec<u8>)
    ensures
        final(out)@ == old(out)@ + b@,
{
    let mut i: usize = 0;
    while i < b.len()
        invariant
            i <= b@.len(),
            out@ == old(out)@ + b@.take(i as int),
        decreases b@.len() - i,
    {
        out.push(b[i]);
        proof {
            assert(b@.take(i + 1) =~= b@.take(i as int).push(b@[i as int]));
        }
        i = i + 1;
    }
    proof {
        assert(b@.take(b@.len() as int) =~= b@);
    }
}

/// Appends the framing of a normalized value.
pub fn encode_into(v: &CValue, out: &mut Vec<u8>)
    ensures
        final(out)@ == old(out)@ + encoded(cvalue_view(*v)),
    decreases cvalue_size(*v),
{
    match v {
        CValue::Nil => {
            out.push(0u8);
            proof {
                assert(out@ =~= old(out)@ + encoded(cvalue_view(*v)));
            }
        },
        CValue::Okay => {
            out.push(3u8);
            proof {
                assert(out@ =~= old(out)@ + encoded(cvalue_view(*v)));
            }
        },
        CValue::Int(i) => {
            out.push(1u8);
            push_be_u64(out, *i as u64);
            proof {
                assert(out@ =~= old(out)@ + encoded(cvalue_view(*v)));
            }
        },
        CValue::Status(s) => {
            out.push(2u8);
            let payload = str_to_bytes(s.as_str());
            push_be_u64(out, payload.len() as u64);
            append_bytes(out, &payload);
            proof {
                assert(out@ =~= old(out)@ + encoded(cvalue_view(*v)));
            }
        },
        CValue::Str(s) => {
            out.push(4u8);
            let payload = str_to_bytes(s.as_str());
            push_be_u64(out, payload.len() as u64);
            append_bytes(out, &payload);
            proof {
                assert(out@ =~= old(out)@ + encoded(cvalue_view(*v)));
            }
        },
        CValue::Binary(b) => {
            out.push(5u8);
            push_be_u64(out, b.len() as u64);
            append_bytes(out, b);
            proof {
                assert(out@ =~= old(out)@ + encoded(cvalue_view(*v)));
            }
        },
        CValue::Bulk(items) => {
            let ghost gitems = items@;
            let ghost views = cvalue_view_seq(items@);
            out.push(6u8);
            push_be_u64(out, items.len() as u64);
            proof {
                lemma_cvalue_view_seq_elts(gitems);
                assert(views.len() == gitems.len());
            }
            let n = items.len();
            let mut i: usize = 0;
            let ghost base = out@;
            while i < n
                invariant
                    cvalue_size(*v) == 1 + cvalue_size_seq(gitems),
                    n == gitems.len(),
                    items@ == gitems,
                    i <= n,
                    views == cvalue_view_seq(gitems),
                    views.len() == gitems.len(),
                    forall|j: int| 0 <= j < gitems.len() ==> views[j] == cvalue_view(gitems[j]),
                    out@ == base + encoded_seq(views.take(i as int)),
                decreases n - i,
            {
                proof {
                    lemma_cvalue_size_seq_elt(gitems, i as int);
                    assert(cvalue_size(gitems[i as int]) < cvalue_size(*v));
                }
                encode_into(&items[i], out);
                proof {
                    lemma_encoded_seq_take_step(views, i as int);
                    assert(out@ =~= base + encoded_seq(views.take(i + 1)));
                }
                i = i + 1;
            }
            proof {
                assert(views.take(views.len() as int) =~= views);
                assert(out@ =~= old(out)@ + encoded(cvalue_view(*v)));
            }
        },
    }
}

/// The byte framing of a normalized value, as its own vector.
pub fn encode(v: &CValue) -> (r: Vec<u8>)
    ensures
        r@ == encoded(cvalue_view(*v)),
{
    let mut out: Vec<u8> = Vec::new();
    encode_into(v, &mut out);
    out
}

/// Reads eight big-endian bytes at `pos`.
fn read_be_u64(bytes: &Vec<u8>, pos: usize) -> (r: u64)
    requires
        pos + 8 <= bytes@.len(),
    ensures
        r == be_val(bytes@.subrange(pos as int, pos as int + 8)),
{
    let l = bytes.len();
    let r = ((bytes[pos] as u64) << 56) | ((bytes[pos + 1] as u64) << 48) | ((bytes[pos + 2]
        as u64) << 40) | ((bytes[pos + 3] as u64) << 32) | ((bytes[pos + 4] as u64) << 24) | ((
    bytes[pos + 5] as u64) << 16) | ((bytes[pos + 6] as u64) << 8) | (bytes[pos + 7] as u64);
    proof {
        let sub = bytes@.subrange(pos as int, pos as int + 8);
        assert(sub[0] == bytes@[pos as int]);
        assert(sub[1] == bytes@[pos as int + 1]);
        assert(sub[2] == bytes@[pos as int + 2]);
        assert(sub[3] == bytes@[pos as int + 3]);
        assert(sub[4] == bytes@[pos as int + 4]);
        assert(sub[5] == bytes@[pos as int + 5]);
        assert(sub[6] == bytes@[pos as int + 6]);
        assert(sub[7] == bytes@[pos as int + 7]);
    }
    r
}

/// A copy of `bytes[pos .. pos + len]`.
fn read_bytes(bytes: &Vec<u8>, pos: usize, len: usize) -> (r: Vec<u8>)
    requires
        pos + len <= bytes@.len(),
    ensures
        r@ == bytes@.subrange(pos as int, pos as int + len as int),
{
    let l = bytes.len();
    let s = vstd::slice::slice_subrange(bytes.as_slice(), pos, pos + len);
    vstd::slice::slice_to_vec(s)
}

/// Decodes the frame that starts at `pos`, returning the value and the
/// position just past it. Mirrors the decoder's mathematical reading of the
/// bytes from `pos` on: it succeeds exactly when that reading does, with the
/// same value and remainder.
#[verifier::loop_isolation(false)]
pub fn decode_at(bytes: &Vec<u8>, pos: usize) -> (r: Option<(CValue, usize)>)
    requires
        pos <= bytes@.len(),
    ensures
        r matches Some(p) ==> (pos as int) < (p.1 as int) <= bytes@.len() && spec_decode(
            bytes@.skip(pos as int),
        ) == Some((cvalue_view(p.0), bytes@.skip(p.1 as int))),
        r is None ==> spec_decode(bytes@.skip(pos as int)) is None,
    decreases bytes@.len() - pos,
{
    let ghost s = bytes@.skip(pos as int);
    if pos >= bytes.len() {
        return None;
    }
    let tag = bytes[pos];
    proof {
        assert(s[0] == bytes@[pos as int]);
        assert(s.drop_first() =~= bytes@.skip(pos as int + 1));
    }
    if tag == 0 {
        Some((CValue::Nil, pos + 1))
    } else if tag == 3 {
        Some((CValue::Okay, pos + 1))
    } else if tag == 1 {
        if bytes.len() - pos < 9 {
            proof {
                assert(s.drop_first().len() < 8);
            }
            return None;
        }
        let n = read_be_u64(bytes, pos + 1);
        proof {
            assert(s.drop_first().take(8) =~= bytes@.subrange(pos as int + 1, pos as int + 9));
            assert(s.drop_first().skip(8) =~= bytes@.skip(pos as int + 9));
        }
        Some((CValue::Int(n as i64), pos + 9))
    } else if tag == 2 || tag == 4 || tag == 5 {
        if bytes.len() - pos < 9 {
            proof {
                assert(s.drop_first().len() < 8);
            }
            return None;
        }
        let n = read_be_u64(bytes, pos + 1);
        let remaining = bytes.len() - pos - 9;
        proof {
            assert(s.drop_first().take(8) =~= bytes@.subrange(pos as int + 1, pos as int + 9));
        }
        if n > remaining as u64 {
            proof {
                assert(s.drop_first().len() - 8 < n as int);
            }
            return None;
        }
        let len = n as usize;
        let payload = read_bytes(bytes, pos + 9, len);
        proof {
            assert(s.drop_first().subrange(8, 8 + len as int) =~= bytes@.subrange(
                pos as int + 9,
                pos as int + 9 + len as int,
            ));
            assert(s.drop_first().skip(8 + len as int) =~= bytes@.skip(pos as int + 9 + len as int));
        }
        if tag == 5 {
            Some((CValue::Binary(payload), pos + 9 + len))
        } else {
            match utf8_to_string(&payload) {
                Some(text) => {
                    if tag == 2 {
                        Some((CValue::Status(text), pos + 9 + len))
                    } else {
                        Some((CValue::Str(text), pos + 9 + len))
                    }
                },
                None => None,
            }
        }
    } else if tag == 6 {
        if bytes.len() - pos < 9 {
            proof {
                assert(s.drop_first().len() < 8);
            }
            return None;
        }
        let n = read_be_u64(bytes, pos + 1);
        proof {
            assert(s.drop_first().take(8) =~= bytes@.subrange(pos as int + 1, pos as int + 9));
            assert(s.drop_first().skip(8) =~= bytes@.skip(pos as int + 9));
        }
        let ghost s8 = bytes@.skip(pos as int + 9);
        let mut out: Vec<CValue> = Vec::new();
        let mut cur: usize = pos + 9;
        let mut i: u64 = 0;
        while i < n
            invariant
                pos + 9 <= cur <= bytes@.len(),
                i <= n,
                out@.len() == i,
                s8 == bytes@.skip(pos as int + 9),
                match spec_decode_list(bytes@.skip(cur as int), (n - i) as nat) {
                    Some(pr) => spec_decode_list(s8, n as nat) == Some(
                        (cvalue_view_seq(out@) + pr.0, pr.1),
                    ),
                    None => spec_decode_list(s8, n as nat) is None,
                },
            decreases n - i,
        {
            let ghost scur = bytes@.skip(cur as int);
            match decode_at(bytes, cur) {
                Some((v, p2)) => {
                    proof {
                        assert(spec_decode(scur) == Some((cvalue_view(v), bytes@.skip(p2 as int))));
                        assert(bytes@.skip(p2 as int).len() < scur.len());
                        lemma_cvalue_view_seq_elts(out@.push(v));
                        lemma_cvalue_view_seq_elts(out@);
                        assert(cvalue_view_seq(out@.push(v)) =~= cvalue_view_seq(out@) + seq![
                            cvalue_view(v),
                        ]);
                        match spec_decode_list(bytes@.skip(p2 as int), (n - i - 1) as nat) {
                            Some(pr2) => {
                                assert(spec_decode_list(scur, (n - i) as nat) == Some(
                                    (seq![cvalue_view(v)] + pr2.0, pr2.1),
                                ));
                                assert(cvalue_view_seq(out@) + (seq![cvalue_view(v)] + pr2.0)
                                    =~= (cvalue_view_seq(out@) + seq![cvalue_view(v)]) + pr2.0);
                            },
                            None => {
                                assert(spec_decode_list(scur, (n - i) as nat) is None);
                            },
                        }
                    }
                    out.push(v);
                    cur = p2;
                    i = i + 1;
                },
                None => {
                    proof {
                        assert(spec_decode(scur) is None);
                        assert(spec_decode_list(scur, (n - i) as nat) is None);
                    }
                    return None;
                },
            }
        }
        proof {
            assert(spec_decode_list(bytes@.skip(cur as int), 0nat) == Some(
                (Seq::<CView>::empty(), bytes@.skip(cur as int)),
            ));
            assert(cvalue_view_seq(out@) + Seq::<CView>::empty() =~= cvalue_view_seq(out@));
            assert(spec_decode_list(s8, n as nat) == Some(
                (cvalue_view_seq(out@), bytes@.skip(cur as int)),
            ));
        }
        Some((CValue::Bulk(out), cur))
    } else {
        None
    }
}

/// Decodes a whole byte string as one framed value; fails when the bytes are
/// not exactly one valid frame.
pub fn decode(bytes: &Vec<u8>) -> (r: Option<CValue>)
    ensures
        r matches Some(v) ==> spec_decode(bytes@) matches Some(pr) && pr.0 == cvalue_view(v)
            && pr.1.len() == 0,
        r is None ==> spec_decode(bytes@) is None || (spec_decode(bytes@) matches Some(pr)
            && pr.1.len() > 0),
{
    proof {
        assert(bytes@.skip(0) =~= bytes@);
    }
    match decode_at(bytes, 0) {
        Some((v, p)) => {
            if p == bytes.len() {
                proof {
                    assert(bytes@.skip(p as int).len() == 0);
                }
                Some(v)
            } else {
                proof {
                    assert(bytes@.skip(p as int).len() > 0);
                }
                None
            }
        },
        None => None,
    }
}

}
