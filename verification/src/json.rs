//! The wire document model.
//!
//! Inbound and outbound signaling messages travel as JSON documents.  This
//! module gives the library its own document type, restricted to the value
//! forms the protocol uses, together with field lookup, the `result: "ok"`
//! injection applied to relayed payloads, and a serializer whose exact output
//! is specified character by character.  Object fields keep their written
//! order, which is the order the protocol's wire shapes are written in.

use vstd::prelude::*;

verus! {

/// A JSON document restricted to the value forms the signaling protocol
/// uses: null, booleans, unsigned integers, strings, arrays and objects.
#[derive(Debug)]
pub enum JsonVal {
    Null,
    Bool(bool),
    UInt(u64),
    Str(String),
    Arr(Vec<JsonVal>),
    Obj(Vec<(String, JsonVal)>),
}

/// Mathematical model of a document.
pub enum JsonModel {
    Null,
    Bool(bool),
    UInt(u64),
    Str(Seq<char>),
    Arr(Seq<JsonModel>),
    Obj(Seq<(Seq<char>, JsonModel)>),
}

/// The model of a list of object fields.
pub open spec fn pairs_model(pairs: Seq<(String, JsonVal)>) -> Seq<(Seq<char>, JsonModel)>
    decreases pairs,
{
    if pairs.len() == 0 {
        Seq::empty()
    } else {
        seq![(pairs[0].0@, pairs[0].1@)] + pairs_model(pairs.drop_first())
    }
}

/// The model of a list of array elements.
pub open spec fn items_model(items: Seq<JsonVal>) -> Seq<JsonModel>
    decreases items,
{
    if items.len() == 0 {
        Seq::empty()
    } else {
        seq![items[0]@] + items_model(items.drop_first())
    }
}

impl View for JsonVal {
    type V = JsonModel;

    open spec fn view(&self) -> JsonModel
        decreases self,
    {
        match self {
            JsonVal::Null => JsonModel::Null,
            JsonVal::Bool(b) => JsonModel::Bool(*b),
            JsonVal::UInt(n) => JsonModel::UInt(*n),
            JsonVal::Str(s) => JsonModel::Str(s@),
            JsonVal::Arr(items) => JsonModel::Arr(items_model(items@)),
            JsonVal::Obj(pairs) => JsonModel::Obj(pairs_model(pairs@)),
        }
    }
}

/// The model of a field list is the list of the fields' models, index by
/// index.
pub proof fn lemma_pairs_model(pairs: Seq<(String, JsonVal)>)
    ensures
        pairs_model(pairs).len() == pairs.len(),
        forall|i: int|
            0 <= i < pairs.len() ==> #[trigger] pairs_model(pairs)[i] == (
                pairs[i].0@,
                pairs[i].1@,
            ),
    decreases pairs.len(),
{
    if pairs.len() == 0 {
        assert(pairs_model(pairs) == Seq::<(Seq<char>, JsonModel)>::empty());
    } else {
        lemma_pairs_model(pairs.drop_first());
        assert(pairs_model(pairs) == seq![(pairs[0].0@, pairs[0].1@)] + pairs_model(
            pairs.drop_first(),
        ));
        assert forall|i: int| 0 <= i < pairs.len() implies #[trigger] pairs_model(pairs)[i] == (
            pairs[i].0@,
            pairs[i].1@,
        ) by {
            if i > 0 {
                assert(pairs_model(pairs)[i] == pairs_model(pairs.drop_first())[i - 1]);
                assert(pairs.drop_first()[i - 1] == pairs[i]);
            }
        }
    }
}

/// The model of an element list is the list of the elements' models, index
/// by index.
pub proof fn lemma_items_model(items: Seq<JsonVal>)
    ensures
        items_model(items).len() == items.len(),
        forall|i: int| 0 <= i < items.len() ==> #[trigger] items_model(items)[i] == items[i]@,
    decreases items.len(),
{
    if items.len() == 0 {
        assert(items_model(items) == Seq::<JsonModel>::empty());
    } else {
        lemma_items_model(items.drop_first());
        assert(items_model(items) == seq![items[0]@] + items_model(items.drop_first()));
        assert forall|i: int| 0 <= i < items.len() implies #[trigger] items_model(items)[i]
            == items[i]@ by {
            if i > 0 {
                assert(items_model(items)[i] == items_model(items.drop_first())[i - 1]);
                assert(items.drop_first()[i - 1] == items[i]);
            }
        }
    }
}

/// First field under `key` in an object's field list, scanning in written
/// order.
pub open spec fn lookup(pairs: Seq<(Seq<char>, JsonModel)>, key: Seq<char>) -> Option<JsonModel>
    decreases pairs.len(),
{
    if pairs.len() == 0 {
        None
    } else if pairs[0].0 == key {
        Some(pairs[0].1)
    } else {
        lookup(pairs.drop_first(), key)
    }
}

/// Field lookup on a document: defined on objects, absent on every other
/// value form.
pub open spec fn field_of(j: JsonModel, key: Seq<char>) -> Option<JsonModel> {
    match j {
        JsonModel::Obj(pairs) => lookup(pairs, key),
        _ => None,
    }
}

/// Compares a string's characters with a literal's.
pub fn str_matches(s: &String, lit: &str) -> (r: bool)
    ensures
        r == (s@ == lit@),
{
    let other: String = lit.to_owned();
    *s == other
}

impl JsonVal {
    /// Looks a field up on an object document; `None` on any other value
    /// form or when the key is absent.
    pub fn get_field<'a>(&'a self, key: &str) -> (r: Option<&'a JsonVal>)
        ensures
            match r {
                Some(v) => field_of(self@, key@) == Some(v@),
                None => field_of(self@, key@) is None,
            },
    {
        match self {
            JsonVal::Obj(pairs) => {
                let ghost pv = pairs_model(pairs@);
                proof {
                    lemma_pairs_model(pairs@);
                    assert(pv.skip(0) =~= pv);
                }
                let mut i: usize = 0;
                while i < pairs.len()
                    invariant
                        i <= pairs.len(),
                        pv == pairs_model(pairs@),
                        self@ == JsonModel::Obj(pv),
                        lookup(pv, key@) == lookup(pv.skip(i as int), key@),
                    decreases pairs.len() - i,
                {
                    proof {
                        lemma_pairs_model(pairs@);
                        assert(pv.skip(i as int)[0] == pv[i as int]);
                    }
                    if str_matches(&pairs[i].0, key) {
                        return Some(&pairs[i].1);
                    }
                    proof {
                        assert(pv.skip(i as int).drop_first() =~= pv.skip(i as int + 1));
                    }
                    i = i + 1;
                }
                proof {
                    lemma_pairs_model(pairs@);
                    assert(pv.skip(pairs@.len() as int) =~= Seq::<(Seq<char>, JsonModel)>::empty());
                }
                None
            }
            _ => None,
        }
    }
}

/// Whether an object's field list carries the key.
fn pairs_have_key(pairs: &Vec<(String, JsonVal)>, key: &str) -> (r: bool)
    ensures
        r == (lookup(pairs_model(pairs@), key@) is Some),
{
    let ghost pv = pairs_model(pairs@);
    proof {
        lemma_pairs_model(pairs@);
        assert(pv.skip(0) =~= pv);
    }
    let mut i: usize = 0;
    while i < pairs.len()
        invariant
            i <= pairs.len(),
            pv == pairs_model(pairs@),
            lookup(pv, key@) == lookup(pv.skip(i as int), key@),
        decreases pairs.len() - i,
    {
        proof {
            lemma_pairs_model(pairs@);
            assert(pv.skip(i as int)[0] == pv[i as int]);
        }
        if str_matches(&pairs[i].0, key) {
            return true;
        }
        proof {
            assert(pv.skip(i as int).drop_first() =~= pv.skip(i as int + 1));
        }
        i = i + 1;
    }
    proof {
        lemma_pairs_model(pairs@);
        assert(pv.skip(pairs@.len() as int) =~= Seq::<(Seq<char>, JsonModel)>::empty());
    }
    false
}

/// A relayed payload carries `"result": "ok"`, injected when absent.
pub open spec fn spec_with_result(j: JsonModel) -> JsonModel {
    match j {
        JsonModel::Obj(pairs) => {
            if lookup(pairs, "result"@) is Some {
                JsonModel::Obj(pairs)
            } else {
                JsonModel::Obj(pairs.push(("result"@, JsonModel::Str("ok"@))))
            }
        },
        _ => j,
    }
}

/// Adds `"result": "ok"` to an object document when that key is absent;
/// every other document is returned unchanged.
pub fn with_result_ok(j: JsonVal) -> (r: JsonVal)
    ensures
        r@ == spec_with_result(j@),
{
    let ghost jv = j@;
    match j {
        JsonVal::Obj(mut pairs) => {
            let ghost ps0 = pairs@;
            let ghost pv0 = pairs_model(ps0);
            if !pairs_have_key(&pairs, "result") {
                pairs.push(("result".to_owned(), JsonVal::Str("ok".to_owned())));
                proof {
                    lemma_pairs_model(ps0);
                    lemma_pairs_model(pairs@);
                    let p = ("result"@, JsonModel::Str("ok"@));
                    assert forall|i: int| 0 <= i < pairs@.len() implies #[trigger] pairs_model(
                        pairs@,
                    )[i] == pv0.push(p)[i] by {
                        if i < ps0.len() {
                            assert(pairs@[i] == ps0[i]);
                        }
                    }
                    assert(pairs_model(pairs@) =~= pv0.push(p));
                }
            }
            let r = JsonVal::Obj(pairs);
            proof {
                assert(r@ == spec_with_result(jv));
            }
            r
        },
        other => other,
    }
}

} // verus!

verus! {

/// The hexadecimal digit for a value below 16, lower case.
pub open spec fn hex_char(d: u64) -> char {
    if d == 0 {
        '0'
    } else if d == 1 {
        '1'
    } else if d == 2 {
        '2'
    } else if d == 3 {
        '3'
    } else if d == 4 {
        '4'
    } else if d == 5 {
        '5'
    } else if d == 6 {
        '6'
    } else if d == 7 {
        '7'
    } else if d == 8 {
        '8'
    } else if d == 9 {
        '9'
    } else if d == 10 {
        'a'
    } else if d == 11 {
        'b'
    } else if d == 12 {
        'c'
    } else if d == 13 {
        'd'
    } else if d == 14 {
        'e'
    } else {
        'f'
    }
}

/// The decimal digit for a value below 10.
pub open spec fn digit_char(d: u64) -> char {
    if d == 0 {
        '0'
    } else if d == 1 {
        '1'
    } else if d == 2 {
        '2'
    } else if d == 3 {
        '3'
    } else if d == 4 {
        '4'
    } else if d == 5 {
        '5'
    } else if d == 6 {
        '6'
    } else if d == 7 {
        '7'
    } else if d == 8 {
        '8'
    } else {
        '9'
    }
}

/// The decimal text of an unsigned integer, most significant digit first,
/// without leading zeros (a lone zero for zero).
pub open spec fn spec_dec(n: u64) -> Seq<char>
    decreases n,
{
    if n < 10 {
        seq![digit_char(n)]
    } else {
        spec_dec(n / 10).push(digit_char(n % 10))
    }
}

/// How one character appears inside a serialized JSON string: quote and
/// backslash get a backslash escape, the common control characters get their
/// short escapes, the remaining control characters a `\u00..` escape, and
/// every other character stands for itself.
pub open spec fn spec_escape_char(c: char) -> Seq<char> {
    if c == '"' {
        seq!['\\', '"']
    } else if c == '\\' {
        seq!['\\', '\\']
    } else if c == '\n' {
        seq!['\\', 'n']
    } else if c == '\r' {
        seq!['\\', 'r']
    } else if c == '\t' {
        seq!['\\', 't']
    } else if (c as u32) < 32 {
        seq!['\\', 'u', '0', '0', hex_char(((c as u32) / 16) as u64), hex_char(
            ((c as u32) % 16) as u64,
        )]
    } else {
        seq![c]
    }
}

/// The escaped form of a string's characters, in order.
pub open spec fn spec_escape(s: Seq<char>) -> Seq<char>
    decreases s.len(),
{
    if s.len() == 0 {
        Seq::empty()
    } else {
        spec_escape_char(s[0]) + spec_escape(s.drop_first())
    }
}

/// One serialized object field: the quoted, escaped key, a colon, the value.
pub open spec fn spec_pair_text(p: (Seq<char>, JsonModel)) -> Seq<char>
    decreases p,
{
    seq!['"'] + spec_escape(p.0) + seq!['"', ':'] + spec_text(p.1)
}

/// Serialized array elements after the first: each preceded by a comma.
pub open spec fn spec_items_text(items: Seq<JsonModel>) -> Seq<char>
    decreases items,
{
    if items.len() == 0 {
        Seq::empty()
    } else {
        seq![','] + spec_text(items[0]) + spec_items_text(items.drop_first())
    }
}

/// Serialized object fields after the first: each preceded by a comma.
pub open spec fn spec_pairs_text(pairs: Seq<(Seq<char>, JsonModel)>) -> Seq<char>
    decreases pairs,
{
    if pairs.len() == 0 {
        Seq::empty()
    } else {
        seq![','] + spec_pair_text(pairs[0]) + spec_pairs_text(pairs.drop_first())
    }
}

/// The exact serialized text of a document: no whitespace, fields and
/// elements in written order, strings escaped, integers in decimal.
pub open spec fn spec_text(j: JsonModel) -> Seq<char>
    decreases j,
{
    match j {
        JsonModel::Null => seq!['n', 'u', 'l', 'l'],
        JsonModel::Bool(b) => if b {
            seq!['t', 'r', 'u', 'e']
        } else {
            seq!['f', 'a', 'l', 's', 'e']
        },
        JsonModel::UInt(n) => spec_dec(n),
        JsonModel::Str(s) => seq!['"'] + spec_escape(s) + seq!['"'],
        JsonModel::Arr(items) => seq!['['] + (if items.len() == 0 {
            Seq::empty()
        } else {
            spec_text(items[0]) + spec_items_text(items.drop_first())
        }) + seq![']'],
        JsonModel::Obj(pairs) => seq!['{'] + (if pairs.len() == 0 {
            Seq::empty()
        } else {
            spec_pair_text(pairs[0]) + spec_pairs_text(pairs.drop_first())
        }) + seq!['}'],
    }
}

} // verus!

verus! {

/// The decimal digit character for a value below 10.
fn dec_digit(d: u64) -> (r: char)
    requires
        d < 10,
    ensures
        r == digit_char(d),
{
    if d == 0 {
        '0'
    } else if d == 1 {
        '1'
    } else if d == 2 {
        '2'
    } else if d == 3 {
        '3'
    } else if d == 4 {
        '4'
    } else if d == 5 {
        '5'
    } else if d == 6 {
        '6'
    } else if d == 7 {
        '7'
    } else if d == 8 {
        '8'
    } else {
        '9'
    }
}

/// The hexadecimal digit character for a value below 16.
fn hex_digit(d: u64) -> (r: char)
    requires
        d < 16,
    ensures
        r == hex_char(d),
{
    if d < 10 {
        dec_digit(d)
    } else if d == 10 {
        'a'
    } else if d == 11 {
        'b'
    } else if d == 12 {
        'c'
    } else if d == 13 {
        'd'
    } else if d == 14 {
        'e'
    } else {
        'f'
    }
}

/// Appends the decimal text of `n`.
fn push_dec(out: &mut Vec<char>, n: u64)
    ensures
        final(out)@ == old(out)@ + spec_dec(n),
    decreases n,
{
    if n < 10 {
        out.push(dec_digit(n));
        proof {
            assert(out@ =~= old(out)@ + spec_dec(n));
        }
    } else {
        push_dec(out, n / 10);
        out.push(dec_digit(n % 10));
        proof {
            assert(out@ =~= old(out)@ + spec_dec(n));
        }
    }
}

/// Appends the escaped form of one character.
fn push_escaped_char(out: &mut Vec<char>, c: char)
    ensures
        final(out)@ == old(out)@ + spec_escape_char(c),
{
    if c == '"' {
        out.push('\\');
        out.push('"');
    } else if c == '\\' {
        out.push('\\');
        out.push('\\');
    } else if c == '\n' {
        out.push('\\');
        out.push('n');
    } else if c == '\r' {
        out.push('\\');
        out.push('r');
    } else if c == '\t' {
        out.push('\\');
        out.push('t');
    } else if (c as u32) < 32 {
        out.push('\\');
        out.push('u');
        out.push('0');
        out.push('0');
        out.push(hex_digit(((c as u32) / 16) as u64));
        out.push(hex_digit(((c as u32) % 16) as u64));
    } else {
        out.push(c);
    }
    proof {
        assert(out@ =~= old(out)@ + spec_escape_char(c));
    }
}

/// Escaping distributes over appending one character at the end.
proof fn lemma_escape_push(s: Seq<char>, c: char)
    ensures
        spec_escape(s.push(c)) == spec_escape(s) + spec_escape_char(c),
    decreases s.len(),
{
    if s.len() == 0 {
        assert(s.push(c).drop_first() =~= Seq::<char>::empty());
        assert(s.push(c)[0] == c);
        assert(spec_escape(s.push(c)) == spec_escape_char(c) + spec_escape(
            Seq::<char>::empty(),
        ));
        assert(spec_escape(Seq::<char>::empty()) == Seq::<char>::empty());
        assert(spec_escape_char(c) + Seq::<char>::empty() =~= spec_escape_char(c));
        assert(spec_escape(s) == Seq::<char>::empty());
        assert(Seq::<char>::empty() + spec_escape_char(c) =~= spec_escape_char(c));
    } else {
        lemma_escape_push(s.drop_first(), c);
        assert(s.push(c).drop_first() =~= s.drop_first().push(c));
        assert(s.push(c)[0] == s[0]);
        assert(spec_escape(s.push(c)) == spec_escape_char(s[0]) + (spec_escape(s.drop_first())
            + spec_escape_char(c)));
        assert(spec_escape_char(s[0]) + (spec_escape(s.drop_first()) + spec_escape_char(c)) =~= (
        spec_escape_char(s[0]) + spec_escape(s.drop_first())) + spec_escape_char(c));
    }
}

/// Relies on `str::chars`: yields exactly the characters of the string,
/// in order.
#[verifier::external_body]
fn str_to_chars(s: &str) -> (r: Vec<char>)
    ensures
        r@ == s@,
{
    s.chars().collect()
}

/// Relies on `String`'s `FromIterator` over characters: collecting yields
/// the string of exactly those characters, in order.
#[verifier::external_body]
fn chars_to_string(v: &Vec<char>) -> (r: String)
    ensures
        r@ == v@,
{
    v.iter().collect()
}

/// Appends the escaped form of a string's characters.
fn push_escaped(out: &mut Vec<char>, s: &String)
    ensures
        final(out)@ == old(out)@ + spec_escape(s@),
{
    let cs = str_to_chars(s.as_str());
    let mut i: usize = 0;
    proof {
        assert(cs@.take(0) =~= Seq::<char>::empty());
        assert(out@ =~= out@ + spec_escape(cs@.take(0)));
    }
    while i < cs.len()
        invariant
            i <= cs.len(),
            cs@ == s@,
            out@ == old(out)@ + spec_escape(cs@.take(i as int)),
        decreases cs.len() - i,
    {
        push_escaped_char(out, cs[i]);
        proof {
            lemma_escape_push(cs@.take(i as int), cs@[i as int]);
            assert(cs@.take(i as int + 1) =~= cs@.take(i as int).push(cs@[i as int]));
        }
        i = i + 1;
    }
    proof {
        assert(cs@.take(cs@.len() as int) =~= cs@);
    }
}

} // verus!

verus! {

/// Comma-prefixed element text distributes over appending one element.
proof fn lemma_items_text_push(s: Seq<JsonModel>, x: JsonModel)
    ensures
        spec_items_text(s.push(x)) == spec_items_text(s) + seq![','] + spec_text(x),
    decreases s.len(),
{
    if s.len() == 0 {
        assert(s.push(x).drop_first() =~= Seq::<JsonModel>::empty());
        assert(s.push(x)[0] == x);
        assert(spec_items_text(s.push(x)) == seq![','] + spec_text(x) + spec_items_text(
            Seq::<JsonModel>::empty(),
        ));
        assert(seq![','] + spec_text(x) + Seq::<char>::empty() =~= seq![','] + spec_text(x));
        assert(spec_items_text(s) + seq![','] + spec_text(x) =~= seq![','] + spec_text(x));
    } else {
        lemma_items_text_push(s.drop_first(), x);
        assert(s.push(x).drop_first() =~= s.drop_first().push(x));
        assert(s.push(x)[0] == s[0]);
        assert(spec_items_text(s.push(x)) == seq![','] + spec_text(s[0]) + (spec_items_text(
            s.drop_first(),
        ) + seq![','] + spec_text(x)));
        assert(seq![','] + spec_text(s[0]) + (spec_items_text(s.drop_first()) + seq![',']
            + spec_text(x)) =~= (seq![','] + spec_text(s[0]) + spec_items_text(s.drop_first()))
            + seq![','] + spec_text(x));
    }
}

/// Comma-prefixed field text distributes over appending one field.
proof fn lemma_pairs_text_push(s: Seq<(Seq<char>, JsonModel)>, p: (Seq<char>, JsonModel))
    ensures
        spec_pairs_text(s.push(p)) == spec_pairs_text(s) + seq![','] + spec_pair_text(p),
    decreases s.len(),
{
    if s.len() == 0 {
        assert(s.push(p).drop_first() =~= Seq::<(Seq<char>, JsonModel)>::empty());
        assert(s.push(p)[0] == p);
        assert(spec_pairs_text(s.push(p)) == seq![','] + spec_pair_text(p) + spec_pairs_text(
            Seq::<(Seq<char>, JsonModel)>::empty(),
        ));
        assert(seq![','] + spec_pair_text(p) + Seq::<char>::empty() =~= seq![','] + spec_pair_text(
            p,
        ));
        assert(spec_pairs_text(s) + seq![','] + spec_pair_text(p) =~= seq![','] + spec_pair_text(
            p,
        ));
    } else {
        lemma_pairs_text_push(s.drop_first(), p);
        assert(s.push(p).drop_first() =~= s.drop_first().push(p));
        assert(s.push(p)[0] == s[0]);
        assert(spec_pairs_text(s.push(p)) == seq![','] + spec_pair_text(s[0]) + (spec_pairs_text(
            s.drop_first(),
        ) + seq![','] + spec_pair_text(p)));
        assert(seq![','] + spec_pair_text(s[0]) + (spec_pairs_text(s.drop_first()) + seq![',']
            + spec_pair_text(p)) =~= (seq![','] + spec_pair_text(s[0]) + spec_pairs_text(
            s.drop_first(),
        )) + seq![','] + spec_pair_text(p));
    }
}

/// Appends the serialized text of a document.
#[verifier::rlimit(50)]
#[verifier::loop_isolation(false)]
fn write_doc(j: &JsonVal, out: &mut Vec<char>)
    ensures
        final(out)@ == old(out)@ + spec_text(j@),
    decreases j,
{
    let ghost base = old(out)@;
    match j {
        JsonVal::Null => {
            out.push('n');
            out.push('u');
            out.push('l');
            out.push('l');
            proof {
                assert(out@ =~= base + spec_text(j@));
            }
        }
        JsonVal::Bool(b) => {
            if *b {
                out.push('t');
                out.push('r');
                out.push('u');
                out.push('e');
            } else {
                out.push('f');
                out.push('a');
                out.push('l');
                out.push('s');
                out.push('e');
            }
            proof {
                assert(out@ =~= base + spec_text(j@));
            }
        }
        JsonVal::UInt(n) => {
            push_dec(out, *n);
        }
        JsonVal::Str(s) => {
            out.push('"');
            push_escaped(out, s);
            out.push('"');
            proof {
                assert(out@ =~= base + spec_text(j@));
            }
        }
        JsonVal::Arr(items) => {
            let ghost iv = items_model(items@);
            proof {
                lemma_items_model(items@);
            }
            out.push('[');
            let mut i: usize = 0;
            while i < items.len()
                invariant
                    i <= items.len(),
                    iv == items_model(items@),
                    iv.len() == items@.len(),
                    i == 0 ==> out@ == base + seq!['['],
                    i > 0 ==> out@ == base + seq!['['] + spec_text(iv[0]) + spec_items_text(
                        iv.subrange(1, i as int),
                    ),
                decreases items.len() - i,
            {
                proof {
                    lemma_items_model(items@);
                }
                if i > 0 {
                    out.push(',');
                }
                write_doc(&items[i], out);
                proof {
                    if i == 0 {
                        assert(iv.subrange(1, 1) =~= Seq::<JsonModel>::empty());
                        assert(out@ =~= base + seq!['['] + spec_text(iv[0]) + spec_items_text(
                            iv.subrange(1, 1),
                        ));
                    } else {
                        lemma_items_text_push(iv.subrange(1, i as int), iv[i as int]);
                        assert(iv.subrange(1, i as int + 1) =~= iv.subrange(1, i as int).push(
                            iv[i as int],
                        ));
                        assert(out@ =~= base + seq!['['] + spec_text(iv[0]) + spec_items_text(
                            iv.subrange(1, i as int + 1),
                        ));
                    }
                }
                i = i + 1;
            }
            out.push(']');
            proof {
                lemma_items_model(items@);
                if iv.len() == 0 {
                    assert(out@ =~= base + spec_text(j@));
                } else {
                    assert(iv.subrange(1, iv.len() as int) =~= iv.drop_first());
                    assert(out@ =~= base + spec_text(j@));
                }
            }
        }
        JsonVal::Obj(pairs) => {
            let ghost pv = pairs_model(pairs@);
            proof {
                lemma_pairs_model(pairs@);
            }
            out.push('{');
            let mut i: usize = 0;
            while i < pairs.len()
                invariant
                    i <= pairs.len(),
                    pv == pairs_model(pairs@),
                    pv.len() == pairs@.len(),
                    i == 0 ==> out@ == base + seq!['{'],
                    i > 0 ==> out@ == base + seq!['{'] + spec_pair_text(pv[0]) + spec_pairs_text(
                        pv.subrange(1, i as int),
                    ),
                decreases pairs.len() - i,
            {
                proof {
                    lemma_pairs_model(pairs@);
                }
                let ghost mid = out@;
                if i > 0 {
                    out.push(',');
                }
                out.push('"');
                push_escaped(out, &pairs[i].0);
                out.push('"');
                out.push(':');
                write_doc(&pairs[i].1, out);
                proof {
                    if i == 0 {
                        assert(out@ =~= mid + spec_pair_text(pv[0]));
                        assert(pv.subrange(1, 1) =~= Seq::<(Seq<char>, JsonModel)>::empty());
                        assert(out@ =~= base + seq!['{'] + spec_pair_text(pv[0]) + spec_pairs_text(
                            pv.subrange(1, 1),
                        ));
                    } else {
                        assert(out@ =~= mid + seq![','] + spec_pair_text(pv[i as int]));
                        lemma_pairs_text_push(pv.subrange(1, i as int), pv[i as int]);
                        assert(pv.subrange(1, i as int + 1) =~= pv.subrange(1, i as int).push(
                            pv[i as int],
                        ));
                        assert(out@ =~= base + seq!['{'] + spec_pair_text(pv[0]) + spec_pairs_text(
                            pv.subrange(1, i as int + 1),
                        ));
                    }
                }
                i = i + 1;
            }
            out.push('}');
            proof {
                lemma_pairs_model(pairs@);
                if pv.len() == 0 {
                    assert(out@ =~= base + spec_text(j@));
                } else {
                    assert(pv.subrange(1, pv.len() as int) =~= pv.drop_first());
                    assert(out@ =~= base + spec_text(j@));
                }
            }
        }
    }
}

/// Serializes a document to its exact wire text: no whitespace, fields and
/// elements in written order, strings escaped, integers in decimal.
pub fn to_text(j: &JsonVal) -> (r: String)
    ensures
        r@ == spec_text(j@),
{
    let mut out: Vec<char> = Vec::new();
    write_doc(j, &mut out);
    proof {
        assert(Seq::<char>::empty() + spec_text(j@) =~= spec_text(j@));
    }
    chars_to_string(&out)
}

} // verus!

verus! {

#[verifier::external_type_specification]
#[verifier::external_body]
pub struct ExValue(serde_json::Value);

/// Relies on `serde_json::Value`'s variants: rebuilds the parsed value as
/// the library's own document type, one variant per arm, moving fields only.
/// A number that is not an unsigned 64-bit integer, and any document
/// holding one, is refused.
#[verifier::external_body]
fn value_to_doc(v: &serde_json::Value) -> Option<JsonVal> {
    match v {
        serde_json::Value::Null => Some(JsonVal::Null),
        serde_json::Value::Bool(b) => Some(JsonVal::Bool(*b)),
        serde_json::Value::Number(n) => n.as_u64().map(JsonVal::UInt),
        serde_json::Value::String(s) => Some(JsonVal::Str(s.clone())),
        serde_json::Value::Array(items) => items.iter().map(value_to_doc).collect::<
            Option<Vec<JsonVal>>,
        >().map(JsonVal::Arr),
        serde_json::Value::Object(m) => m.iter().map(
            |(k, val)| Some((k.clone(), value_to_doc(val)?)),
        ).collect::<Option<Vec<(String, JsonVal)>>>().map(JsonVal::Obj),
    }
}

/// What parsing a text yields: the document, or nothing when the text is
/// not JSON or holds a number outside the unsigned 64-bit integers.  The
/// result is a function of the text alone.
pub uninterp spec fn json_parse(s: Seq<char>) -> Option<JsonModel>;

/// Relies on `serde_json::from_str`: parses the text by the JSON grammar,
/// as the crate documents, and converts the resulting value into the
/// library's document type; object fields arrive in serde_json's
/// deterministic key order, duplicate keys collapsed to the last.
#[verifier::external_body]
pub(crate) fn parse_json(s: &str) -> (r: Option<JsonVal>)
    ensures
        match r {
            Some(j) => json_parse(s@) == Some(j@),
            None => json_parse(s@) is None,
        },
{
    serde_json::from_str::<serde_json::Value>(s).ok().and_then(|v| value_to_doc(&v))
}

} // verus!
