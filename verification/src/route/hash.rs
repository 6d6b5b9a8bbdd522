use vstd::prelude::*;
use vstd::string::StringExecFns;
use vstd::utf8::encode_utf8;
use crate::cmd::{Cmd, cmd, args_view, render_chars};
use crate::err::CusError;
use crate::request::{CommonValueArgs, FieldValueArgs, FieldValueItem, ItemScanArgs, NameArgs, ScanResp, Field};
use crate::route::key::scan_cursor_view;
use crate::value::{CValue, WireValue, WireView, wire_view, wire_view_seq, build_view, text_view, lemma_wire_view_seq_elts};
use crate::wrapper::{Command, ConnectionLike, ConnectionWrapper, manager_execute};

verus! {

/// The argument bytes a list of field/value pairs adds to a command, in
/// order: each field, then its value.
pub open spec fn pairs_args(items: Seq<FieldValueItem<String>>) -> Seq<Seq<u8>>
    decreases items,
{
    if items.len() == 0 {
        Seq::empty()
    } else {
        seq![encode_utf8(items[0].field@), encode_utf8(items[0].value@)] + pairs_args(
            items.drop_first(),
        )
    }
}

pub proof fn lemma_pairs_args_take_step(items: Seq<FieldValueItem<String>>, i: int)
    requires
        0 <= i < items.len(),
    ensures
        pairs_args(items.take(i + 1)) == pairs_args(items.take(i)) + seq![
            encode_utf8(items[i].field@),
            encode_utf8(items[i].value@),
        ],
    decreases i,
{
    if i == 0 {
        assert(items.take(1).len() == 1);
        assert(items.take(1)[0] == items[0]);
        assert(items.take(1).drop_first() =~= Seq::<FieldValueItem<String>>::empty());
        assert(pairs_args(items.take(0)) =~= Seq::<Seq<u8>>::empty());
        assert(pairs_args(items.take(1).drop_first()) =~= Seq::<Seq<u8>>::empty());
        assert(pairs_args(items.take(1)) =~= seq![
            encode_utf8(items[0].field@),
            encode_utf8(items[0].value@),
        ]);
    } else {
        lemma_pairs_args_take_step(items.drop_first(), i - 1);
        assert(items.take(i + 1).drop_first() =~= items.drop_first().take(i));
        assert(items.take(i).drop_first() =~= items.drop_first().take(i - 1));
        assert(items.take(i + 1)[0] == items[0]);
        assert(items.take(i)[0] == items[0]);
        assert(items.drop_first().take(i)[i - 1] == items[i]);
        assert(pairs_args(items.take(i + 1)) =~= pairs_args(items.take(i)) + seq![
            encode_utf8(items[i].field@),
            encode_utf8(items[i].value@),
        ]);
    }
}

/// Scans one page of a hash's fields: HSCAN with the key, the caller's
/// cursor, its page size, and — when a search text is given — a
/// contains-style MATCH pattern.
pub fn hscan<C: ConnectionLike>(
    args: ItemScanArgs,
    wrapper: &mut ConnectionWrapper<C>,
    log: &mut Vec<Command>,
) -> (r: Result<ScanResp<Field>, CusError>)
    ensures
        final(log)@.len() == old(log)@.len() + 1,
{
    let mut c = cmd("HSCAN");
    c.arg_str(args.name.as_str());
    c.arg_str(args.cursor.as_str());
    c.arg_str("COUNT");
    c.arg_i64(args.count);
    match &args.search {
        Some(search) => {
            let mut pattern = String::from_str("*");
            pattern.append(search.as_str());
            pattern.append("*");
            c.arg_str("MATCH");
            c.arg_str(pattern.as_str());
        },
        None => {},
    }
    match manager_execute::<Vec<WireValue>, C>(wrapper, &c, log) {
        Ok(values) => parse_field_page(&values),
        Err(e) => Err(e),
    }
}

/// The paired texts a flat field/value list denotes: member 2j is the j-th
/// field, member 2j+1 its value, each as its normalized text; a trailing
/// field without a value pairs with empty text.
pub open spec fn field_pairs_view(ks: Seq<WireView>) -> Seq<(Seq<char>, Seq<char>)> {
    Seq::new(((ks.len() + 1) / 2) as nat, |j: int|
        (
            text_view(build_view(ks[2 * j])),
            if 2 * j + 1 < ks.len() {
                text_view(build_view(ks[2 * j + 1]))
            } else {
                Seq::empty()
            },
        ))
}

/// The paired texts a field-scan page carries: those of its second member,
/// when that member is a list.
pub open spec fn page_pairs_view(ws: Seq<WireView>) -> Seq<(Seq<char>, Seq<char>)> {
    if ws.len() < 2 {
        Seq::empty()
    } else {
        match ws[1] {
            WireView::Bulk(ks) => field_pairs_view(ks),
            _ => Seq::empty(),
        }
    }
}

/// Reads a field-scan page — cursor, then a flat list alternating fields
/// and values — into paired display texts. Nothing is dropped: a member of
/// any shape appears as its normalized text, and a trailing field without a
/// value appears with empty text.
#[verifier::loop_isolation(false)]
pub fn parse_field_page(values: &Vec<WireValue>) -> (r: Result<ScanResp<Field>, CusError>)
    ensures
        r matches Ok(resp) ==> {
            let ws = wire_view_seq(values@);
            &&& resp.cursor@ == scan_cursor_view(ws)
            &&& resp.keys@.map_values(|f: Field| (f.field@, f.value@)) == page_pairs_view(ws)
        },
{
    let ghost gitems = values@;
    proof {
        lemma_wire_view_seq_elts(gitems);
    }
    let mut cursor = String::from_str("0");
    if values.len() >= 1 {
        match &values[0] {
            WireValue::Data(b) => {
                match crate::strutil::utf8_to_string(b) {
                    Some(t) => {
                        cursor = t;
                    },
                    None => {},
                }
            },
            _ => {},
        }
    }
    let mut keys: Vec<Field> = Vec::new();
    if values.len() >= 2 {
        match &values[1] {
            WireValue::Bulk(ks) => {
                let ghost gks = ks@;
                let ghost pairs = field_pairs_view(wire_view_seq(gks));
                proof {
                    lemma_wire_view_seq_elts(gks);
                }
                let n = ks.len();
                let mut i: usize = 0;
                while n - i >= 2
                    invariant
                        i <= n,
                        i % 2 == 0,
                        keys@.len() == i / 2,
                        forall|j: int|
                            0 <= j < keys@.len() ==> (#[trigger] keys@[j]).field@ == pairs[j].0
                                && keys@[j].value@ == pairs[j].1,
                    decreases n - i,
                {
                    let f = CValue::build_of(&ks[i]).text();
                    let v = CValue::build_of(&ks[i + 1]).text();
                    keys.push(Field { field: f, value: v });
                    i = i + 2;
                }
                if i < n {
                    let f = CValue::build_of(&ks[i]).text();
                    keys.push(Field { field: f, value: String::new() });
                }
                proof {
                    assert(keys@.map_values(|fl: Field| (fl.field@, fl.value@)) =~= pairs);
                }
            },
            _ => {},
        }
    }
    proof {
        if gitems.len() >= 1 {
            assert(wire_view_seq(gitems)[0] == wire_view(gitems[0]));
        }
        if gitems.len() >= 2 {
            assert(wire_view_seq(gitems)[1] == wire_view(gitems[1]));
        }
        assert(keys@.map_values(|fl: Field| (fl.field@, fl.value@)) =~= page_pairs_view(
            wire_view_seq(gitems),
        ));
    }
    Ok(ScanResp { cursor, keys })
}

/// Writes field/value pairs into a hash: HSET with the key, then each field
/// and its value in order.
pub fn hset<C: ConnectionLike>(
    args: CommonValueArgs<Vec<FieldValueItem<String>>>,
    wrapper: &mut ConnectionWrapper<C>,
    log: &mut Vec<Command>,
) -> (r: Result<CValue, CusError>)
    ensures
        final(log)@.len() == old(log)@.len() + 1,
        final(log)@.last().cmd@ == render_chars(
            seq![encode_utf8("HSET"@), encode_utf8(args.name@)] + pairs_args(args.value@),
        ),
{
    let ghost gpairs = args.value@;
    let mut c = cmd("HSET");
    c.arg_str(args.name.as_str());
    let ghost base = args_view(c);
    let n = args.value.len();
    let mut i: usize = 0;
    while i < n
        invariant
            i <= n,
            n == gpairs.len(),
            args.value@ == gpairs,
            args_view(c) == base + pairs_args(gpairs.take(i as int)),
            base == seq![encode_utf8("HSET"@), encode_utf8(args.name@)],
        decreases n - i,
    {
        c.arg_str(args.value[i].field.as_str());
        c.arg_str(args.value[i].value.as_str());
        proof {
            lemma_pairs_args_take_step(gpairs, i as int);
            assert(args_view(c) =~= base + pairs_args(gpairs.take(i + 1)));
        }
        i = i + 1;
    }
    proof {
        assert(gpairs.take(gpairs.len() as int) =~= gpairs);
        assert(args_view(c) =~= seq![encode_utf8("HSET"@), encode_utf8(args.name@)] + pairs_args(
            gpairs,
        ));
    }
    manager_execute::<CValue, C>(wrapper, &c, log)
}

/// The argument bytes of a list of plain text arguments, in order.
pub open spec fn text_args(items: Seq<String>) -> Seq<Seq<u8>> {
    items.map_values(|s: String| encode_utf8(s@))
}

/// Removes fields from a hash: HDEL with the key, then each field name.
pub fn hdel<C: ConnectionLike>(
    args: CommonValueArgs<Vec<String>>,
    wrapper: &mut ConnectionWrapper<C>,
    log: &mut Vec<Command>,
) -> (r: Result<i64, CusError>)
    ensures
        final(log)@.len() == old(log)@.len() + 1,
        final(log)@.last().cmd@ == render_chars(
            seq![encode_utf8("HDEL"@), encode_utf8(args.name@)] + text_args(args.value@),
        ),
{
    let mut c = cmd("HDEL");
    c.arg_str(args.name.as_str());
    push_text_args(&mut c, &args.value);
    proof {
        assert(args_view(c) =~= seq![encode_utf8("HDEL"@), encode_utf8(args.name@)] + text_args(
            args.value@,
        ));
    }
    manager_execute::<i64, C>(wrapper, &c, log)
}

/// Appends a list of text arguments to a command, in order.
pub fn push_text_args(c: &mut Cmd, items: &Vec<String>)
    ensures
        args_view(*final(c)) == args_view(*old(c)) + text_args(items@),
{
    let n = items.len();
    let mut i: usize = 0;
    while i < n
        invariant
            i <= n,
            n == items@.len(),
            args_view(*c) == args_view(*old(c)) + text_args(items@.take(i as int)),
        decreases n - i,
    {
        c.arg_str(items[i].as_str());
        proof {
            assert(text_args(items@.take(i + 1)) =~= text_args(items@.take(i as int)).push(
                encode_utf8(items@[i as int]@),
            ));
            assert(args_view(*c) =~= args_view(*old(c)) + text_args(items@.take(i + 1)));
        }
        i = i + 1;
    }
    proof {
        assert(items@.take(items@.len() as int) =~= items@);
        assert(args_view(*c) =~= args_view(*old(c)) + text_args(items@));
    }
}

/// Asks whether a hash has a field: HEXISTS key field.
pub fn hexists<C: ConnectionLike>(
    args: CommonValueArgs<String>,
    wrapper: &mut ConnectionWrapper<C>,
    log: &mut Vec<Command>,
) -> (r: Result<i64, CusError>)
    ensures
        final(log)@.len() == old(log)@.len() + 1,
        final(log)@.last().cmd@ == render_chars(
            seq![encode_utf8("HEXISTS"@), encode_utf8(args.name@), encode_utf8(args.value@)],
        ),
{
    let mut c = cmd("HEXISTS");
    c.arg_str(args.name.as_str());
    c.arg_str(args.value.as_str());
    proof {
        assert(args_view(c) =~= seq![encode_utf8("HEXISTS"@), encode_utf8(args.name@), encode_utf8(args.value@)]);
    }
    manager_execute::<i64, C>(wrapper, &c, log)
}

/// Reads one field of a hash: HGET key field.
pub fn hget<C: ConnectionLike>(
    args: CommonValueArgs<String>,
    wrapper: &mut ConnectionWrapper<C>,
    log: &mut Vec<Command>,
) -> (r: Result<CValue, CusError>)
    ensures
        final(log)@.len() == old(log)@.len() + 1,
        final(log)@.last().cmd@ == render_chars(
            seq![encode_utf8("HGET"@), encode_utf8(args.name@), encode_utf8(args.value@)],
        ),
{
    let mut c = cmd("HGET");
    c.arg_str(args.name.as_str());
    c.arg_str(args.value.as_str());
    proof {
        assert(args_view(c) =~= seq![encode_utf8("HGET"@), encode_utf8(args.name@), encode_utf8(args.value@)]);
    }
    manager_execute::<CValue, C>(wrapper, &c, log)
}

/// Reads a whole hash: HGETALL key.
pub fn hget_all<C: ConnectionLike>(
    args: NameArgs,
    wrapper: &mut ConnectionWrapper<C>,
    log: &mut Vec<Command>,
) -> (r: Result<CValue, CusError>)
    ensures
        final(log)@.len() == old(log)@.len() + 1,
        final(log)@.last().cmd@ == render_chars(
            seq![encode_utf8("HGETALL"@), encode_utf8(args.name@)],
        ),
{
    let mut c = cmd("HGETALL");
    c.arg_str(args.name.as_str());
    proof {
        assert(args_view(c) =~= seq![encode_utf8("HGETALL"@), encode_utf8(args.name@)]);
    }
    manager_execute::<CValue, C>(wrapper, &c, log)
}

/// Adds a whole number to one field: HINCRBY key field amount.
pub fn hincrby<C: ConnectionLike>(
    args: FieldValueArgs<i64, String>,
    wrapper: &mut ConnectionWrapper<C>,
    log: &mut Vec<Command>,
) -> (r: Result<CValue, CusError>)
    ensures
        final(log)@.len() == old(log)@.len() + 1,
        final(log)@.last().cmd@ == render_chars(
            seq![
                encode_utf8("HINCRBY"@),
                encode_utf8(args.name@),
                encode_utf8(args.field@),
                encode_utf8(crate::strutil::dec_chars_i64(args.value as int)),
            ],
        ),
{
    let mut c = cmd("HINCRBY");
    c.arg_str(args.name.as_str());
    c.arg_str(args.field.as_str());
    c.arg_i64(args.value);
    proof {
        assert(args_view(c) =~= seq![encode_utf8("HINCRBY"@), encode_utf8(args.name@), encode_utf8(args.field@), encode_utf8(crate::strutil::dec_chars_i64(args.value as int))]);
    }
    manager_execute::<CValue, C>(wrapper, &c, log)
}

/// Adds a number, given as text, to one field: HINCRBYFLOAT key field amount.
/// The amount travels as the caller's text, unparsed.
pub fn hincrby_float<C: ConnectionLike>(
    args: FieldValueArgs<String, String>,
    wrapper: &mut ConnectionWrapper<C>,
    log: &mut Vec<Command>,
) -> (r: Result<CValue, CusError>)
    ensures
        final(log)@.len() == old(log)@.len() + 1,
        final(log)@.last().cmd@ == render_chars(
            seq![
                encode_utf8("HINCRBYFLOAT"@),
                encode_utf8(args.name@),
                encode_utf8(args.field@),
                encode_utf8(args.value@),
            ],
        ),
{
    let mut c = cmd("HINCRBYFLOAT");
    c.arg_str(args.name.as_str());
    c.arg_str(args.field.as_str());
    c.arg_str(args.value.as_str());
    proof {
        assert(args_view(c) =~= seq![encode_utf8("HINCRBYFLOAT"@), encode_utf8(args.name@), encode_utf8(args.field@), encode_utf8(args.value@)]);
    }
    manager_execute::<CValue, C>(wrapper, &c, log)
}

/// Lists a hash's field names: HKEYS key.
pub fn hkeys<C: ConnectionLike>(
    args: NameArgs,
    wrapper: &mut ConnectionWrapper<C>,
    log: &mut Vec<Command>,
) -> (r: Result<CValue, CusError>)
    ensures
        final(log)@.len() == old(log)@.len() + 1,
        final(log)@.last().cmd@ == render_chars(
            seq![encode_utf8("HKEYS"@), encode_utf8(args.name@)],
        ),
{
    let mut c = cmd("HKEYS");
    c.arg_str(args.name.as_str());
    proof {
        assert(args_view(c) =~= seq![encode_utf8("HKEYS"@), encode_utf8(args.name@)]);
    }
    manager_execute::<CValue, C>(wrapper, &c, log)
}

/// Counts a hash's fields: HLEN key.
pub fn hlen<C: ConnectionLike>(
    args: NameArgs,
    wrapper: &mut ConnectionWrapper<C>,
    log: &mut Vec<Command>,
) -> (r: Result<CValue, CusError>)
    ensures
        final(log)@.len() == old(log)@.len() + 1,
        final(log)@.last().cmd@ == render_chars(
            seq![encode_utf8("HLEN"@), encode_utf8(args.name@)],
        ),
{
    let mut c = cmd("HLEN");
    c.arg_str(args.name.as_str());
    proof {
        assert(args_view(c) =~= seq![encode_utf8("HLEN"@), encode_utf8(args.name@)]);
    }
    manager_execute::<CValue, C>(wrapper, &c, log)
}

/// Reads several fields at once: HMGET key field ... field.
pub fn hmget<C: ConnectionLike>(
    args: CommonValueArgs<Vec<String>>,
    wrapper: &mut ConnectionWrapper<C>,
    log: &mut Vec<Command>,
) -> (r: Result<CValue, CusError>)
    ensures
        final(log)@.len() == old(log)@.len() + 1,
        final(log)@.last().cmd@ == render_chars(
            seq![encode_utf8("HMGET"@), encode_utf8(args.name@)] + text_args(args.value@),
        ),
{
    let mut c = cmd("HMGET");
    c.arg_str(args.name.as_str());
    push_text_args(&mut c, &args.value);
    proof {
        assert(args_view(c) =~= seq![encode_utf8("HMGET"@), encode_utf8(args.name@)] + text_args(
            args.value@,
        ));
    }
    manager_execute::<CValue, C>(wrapper, &c, log)
}

/// Draws random fields: HRANDFIELD key count, with WITHVALUEs appended when
/// the caller asked for the values too.
pub fn hrand_field<C: ConnectionLike>(
    args: FieldValueArgs<Option<i64>, Option<bool>>,
    wrapper: &mut ConnectionWrapper<C>,
    log: &mut Vec<Command>,
) -> (r: Result<CValue, CusError>)
    ensures
        final(log)@.len() == old(log)@.len() + 1,
{
    let mut c = cmd("HRANDFIELD");
    c.arg_str(args.name.as_str());
    match &args.value {
        Some(n) => {
            c.arg_i64(*n);
        },
        None => {},
    }
    match &args.field {
        Some(with_values) => {
            if *with_values {
                c.arg_str("WITHVALUEs");
            }
        },
        None => {},
    }
    manager_execute::<CValue, C>(wrapper, &c, log)
}

/// Writes a field only when absent: HSETNX key field value.
pub fn hsetnx<C: ConnectionLike>(
    args: FieldValueArgs<String, String>,
    wrapper: &mut ConnectionWrapper<C>,
    log: &mut Vec<Command>,
) -> (r: Result<CValue, CusError>)
    ensures
        final(log)@.len() == old(log)@.len() + 1,
        final(log)@.last().cmd@ == render_chars(
            seq![
                encode_utf8("HSETNX"@),
                encode_utf8(args.name@),
                encode_utf8(args.field@),
                encode_utf8(args.value@),
            ],
        ),
{
    let mut c = cmd("HSETNX");
    c.arg_str(args.name.as_str());
    c.arg_str(args.field.as_str());
    c.arg_str(args.value.as_str());
    proof {
        assert(args_view(c) =~= seq![encode_utf8("HSETNX"@), encode_utf8(args.name@), encode_utf8(args.field@), encode_utf8(args.value@)]);
    }
    manager_execute::<CValue, C>(wrapper, &c, log)
}

/// Measures one field's text length: HSTRLEN key field.
pub fn hstr_len<C: ConnectionLike>(
    args: CommonValueArgs<String>,
    wrapper: &mut ConnectionWrapper<C>,
    log: &mut Vec<Command>,
) -> (r: Result<CValue, CusError>)
    ensures
        final(log)@.len() == old(log)@.len() + 1,
        final(log)@.last().cmd@ == render_chars(
            seq![encode_utf8("HSTRLEN"@), encode_utf8(args.name@), encode_utf8(args.value@)],
        ),
{
    let mut c = cmd("HSTRLEN");
    c.arg_str(args.name.as_str());
    c.arg_str(args.value.as_str());
    proof {
        assert(args_view(c) =~= seq![encode_utf8("HSTRLEN"@), encode_utf8(args.name@), encode_utf8(args.value@)]);
    }
    manager_execute::<CValue, C>(wrapper, &c, log)
}

/// Lists a hash's values: HVALS key.
pub fn hvals<C: ConnectionLike>(
    args: NameArgs,
    wrapper: &mut ConnectionWrapper<C>,
    log: &mut Vec<Command>,
) -> (r: Result<CValue, CusError>)
    ensures
        final(log)@.len() == old(log)@.len() + 1,
        final(log)@.last().cmd@ == render_chars(
            seq![encode_utf8("HVALS"@), encode_utf8(args.name@)],
        ),
{
    let mut c = cmd("HVALS");
    c.arg_str(args.name.as_str());
    proof {
        assert(args_view(c) =~= seq![encode_utf8("HVALS"@), encode_utf8(args.name@)]);
    }
    manager_execute::<CValue, C>(wrapper, &c, log)
}

}
