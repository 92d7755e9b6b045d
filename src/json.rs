//! A model of the JSON text that the event log lines are made of, and the
//! executable functions that write it.

use vstd::prelude::*;
use vstd::string::*;

verus! {

/// The decimal digit character for `d`.
pub open spec fn digit_char(d: nat) -> char
    recommends
        d < 10,
{
    if d == 0 { '0' }
    else if d == 1 { '1' }
    else if d == 2 { '2' }
    else if d == 3 { '3' }
    else if d == 4 { '4' }
    else if d == 5 { '5' }
    else if d == 6 { '6' }
    else if d == 7 { '7' }
    else if d == 8 { '8' }
    else { '9' }
}

/// The decimal notation of `n`: no sign, no leading zeros (`0` is `"0"`).
pub open spec fn decimal(n: nat) -> Seq<char>
    decreases n,
{
    if n < 10 {
        seq![digit_char(n)]
    } else {
        decimal(n / 10).push(digit_char(n % 10))
    }
}

/// `s` holds no line feed.
pub open spec fn single_line(s: Seq<char>) -> bool {
    forall|i: int| 0 <= i < s.len() ==> #[trigger] s[i] != '\n'
}

pub(crate) proof fn lemma_joined_single_line(a: Seq<char>, b: Seq<char>)
    requires
        single_line(a),
        single_line(b),
    ensures
        single_line(a + b),
{
    assert forall|i: int| 0 <= i < (a + b).len() implies #[trigger] (a + b)[i] != '\n' by {
        if i >= a.len() {
            assert((a + b)[i] == b[i - a.len()]);
        }
    }
}

proof fn lemma_decimal_single_line(n: nat)
    ensures
        single_line(decimal(n)),
    decreases n,
{
    if n >= 10 {
        lemma_decimal_single_line(n / 10);
        lemma_joined_single_line(decimal(n / 10), seq![digit_char(n % 10)]);
        assert(decimal(n) =~= decimal(n / 10) + seq![digit_char(n % 10)]);
    }
}

fn digit_str(d: u8) -> (r: &'static str)
    requires
        d < 10,
    ensures
        r@ == seq![digit_char(d as nat)],
{
    proof {
        reveal_strlit("0");
        reveal_strlit("1");
        reveal_strlit("2");
        reveal_strlit("3");
        reveal_strlit("4");
        reveal_strlit("5");
        reveal_strlit("6");
        reveal_strlit("7");
        reveal_strlit("8");
        reveal_strlit("9");
    }
    match d {
        0 => "0",
        1 => "1",
        2 => "2",
        3 => "3",
        4 => "4",
        5 => "5",
        6 => "6",
        7 => "7",
        8 => "8",
        _ => "9",
    }
}

/// Writes `n` in decimal notation.
pub fn decimal_string(n: u128) -> (r: String)
    ensures
        r@ == decimal(n as nat),
        single_line(r@),
    decreases n,
{
    proof {
        lemma_decimal_single_line(n as nat);
    }
    if n < 10 {
        String::from_str(digit_str(n as u8))
    } else {
        let mut s = decimal_string(n / 10);
        s.append(digit_str((n % 10) as u8));
        s
    }
}

/// The JSON string literal for `s`: `s` between double quotes, with quotes,
/// backslashes and control characters escaped.
pub uninterp spec fn json_quoted(s: Seq<char>) -> Seq<char>;

/// Relies on serde_json's compact rendering of `Value::String`: the result is
/// the JSON string literal for `s` alone, and every control character, line
/// feed included, is written as an escape sequence.
#[verifier::external_body]
pub(crate) fn quote(s: &str) -> (r: String)
    ensures
        r@ == json_quoted(s@),
        single_line(r@),
{
    serde_json::Value::String(s.to_string()).to_string()
}

/// The items separated by commas.
pub open spec fn comma_joined(items: Seq<Seq<char>>) -> Seq<char>
    decreases items.len(),
{
    if items.len() == 0 {
        seq![]
    } else if items.len() == 1 {
        items[0]
    } else {
        comma_joined(items.drop_last()) + seq![','] + items.last()
    }
}

/// A JSON array of already rendered values.
pub open spec fn json_array(items: Seq<Seq<char>>) -> Seq<char> {
    seq!['['] + comma_joined(items) + seq![']']
}

/// One `"key":value` member of a JSON object.
pub open spec fn json_member(field: (Seq<char>, Seq<char>)) -> Seq<char> {
    json_quoted(field.0) + seq![':'] + field.1
}

/// A JSON object of (key, rendered value) pairs, in the given order.
pub open spec fn json_object(fields: Seq<(Seq<char>, Seq<char>)>) -> Seq<char> {
    seq!['{'] + comma_joined(fields.map_values(|f: (Seq<char>, Seq<char>)| json_member(f))) + seq!['}']
}

/// A byte string as a JSON array of numbers.
pub open spec fn bytes_json(b: Seq<u8>) -> Seq<char> {
    json_array(b.map_values(|x: u8| decimal(x as nat)))
}

/// The views of a vector of strings.
pub open spec fn texts(v: Seq<String>) -> Seq<Seq<char>> {
    v.map_values(|s: String| s@)
}

/// None of the texts holds a line feed.
pub open spec fn all_single_line(items: Seq<Seq<char>>) -> bool {
    forall|i: int| 0 <= i < items.len() ==> #[trigger] single_line(items[i])
}

/// Joins the strings with commas between them.
pub fn join_with_commas(items: &Vec<String>) -> (r: String)
    ensures
        r@ == comma_joined(texts(items@)),
        all_single_line(texts(items@)) ==> single_line(r@),
{
    let mut r = String::new();
    let ghost all = texts(items@);
    let mut i: usize = 0;
    while i < items.len()
        invariant
            i <= items.len(),
            all == texts(items@),
            r@ == comma_joined(all.take(i as int)),
            all_single_line(all) ==> single_line(r@),
        decreases items.len() - i,
    {
        proof {
            reveal_strlit(",");
        }
        let ghost start = r@;
        if i > 0 {
            r.append(",");
        }
        let ghost sep = r@;
        r.append(items[i].as_str());
        proof {
            if all_single_line(all) {
                assert(single_line(all[i as int]));
                lemma_joined_single_line(start, seq![',']);
                lemma_joined_single_line(sep, items[i as int]@);
            }
            assert(all.take(i + 1).drop_last() =~= all.take(i as int));
        }
        i = i + 1;
    }
    assert(all.take(i as int) =~= all);
    r
}

/// Writes a JSON array of already rendered values.
pub fn array_text(items: &Vec<String>) -> (r: String)
    ensures
        r@ == json_array(texts(items@)),
        all_single_line(texts(items@)) ==> single_line(r@),
{
    proof {
        reveal_strlit("[");
        reveal_strlit("]");
    }
    let mut r = String::from_str("[");
    let inner = join_with_commas(items);
    r.append(inner.as_str());
    r.append("]");
    proof {
        if all_single_line(texts(items@)) {
            lemma_joined_single_line(seq!['['], inner@);
            lemma_joined_single_line(seq!['['] + inner@, seq![']']);
        }
    }
    r
}

/// Writes a JSON object from (key, rendered value) pairs, in their order.
pub fn object_text(fields: &Vec<(String, String)>) -> (r: String)
    ensures
        r@ == json_object(fields@.map_values(|f: (String, String)| (f.0@, f.1@))),
        (forall|i: int| 0 <= i < fields@.len() ==> #[trigger] single_line(fields@[i].1@))
            ==> single_line(r@),
{
    let ghost model = fields@.map_values(|f: (String, String)| (f.0@, f.1@));
    let mut members: Vec<String> = Vec::new();
    let mut i: usize = 0;
    while i < fields.len()
        invariant
            i <= fields.len(),
            model == fields@.map_values(|f: (String, String)| (f.0@, f.1@)),
            texts(members@) =~= model.take(i as int).map_values(
                |f: (Seq<char>, Seq<char>)| json_member(f),
            ),
            (forall|k: int| 0 <= k < fields@.len() ==> #[trigger] single_line(fields@[k].1@))
                ==> all_single_line(texts(members@)),
        decreases fields.len() - i,
    {
        proof {
            reveal_strlit(":");
        }
        let mut m = quote(fields[i].0.as_str());
        let ghost quoted = m@;
        m.append(":");
        m.append(fields[i].1.as_str());
        proof {
            if forall|k: int| 0 <= k < fields@.len() ==> #[trigger] single_line(fields@[k].1@) {
                assert(single_line(fields@[i as int].1@));
                lemma_joined_single_line(quoted, seq![':']);
                lemma_joined_single_line(quoted + seq![':'], fields@[i as int].1@);
                assert(m@ =~= quoted + seq![':'] + fields@[i as int].1@);
            }
        }
        let ghost before = members@;
        members.push(m);
        proof {
            assert(members@ =~= before.push(m));
            assert(model.take(i + 1) =~= model.take(i as int).push(model[i as int]));
            assert(model[i as int] == (fields@[i as int].0@, fields@[i as int].1@));
            assert(m@ =~= json_member(model[i as int]));
            assert(texts(members@) =~= texts(before).push(m@));
        }
        i = i + 1;
    }
    assert(model.take(i as int) =~= model);
    proof {
        reveal_strlit("{");
        reveal_strlit("}");
    }
    let mut r = String::from_str("{");
    let inner = join_with_commas(&members);
    r.append(inner.as_str());
    r.append("}");
    proof {
        if forall|k: int| 0 <= k < fields@.len() ==> #[trigger] single_line(fields@[k].1@) {
            lemma_joined_single_line(seq!['{'], inner@);
            lemma_joined_single_line(seq!['{'] + inner@, seq!['}']);
        }
    }
    r
}

/// Writes a byte string as a JSON array of numbers.
pub fn bytes_text(b: &[u8]) -> (r: String)
    ensures
        r@ == bytes_json(b@),
        single_line(r@),
{
    let mut items: Vec<String> = Vec::new();
    let mut i: usize = 0;
    while i < b.len()
        invariant
            i <= b.len(),
            texts(items@) =~= b@.take(i as int).map_values(|x: u8| decimal(x as nat)),
            all_single_line(texts(items@)),
        decreases b.len() - i,
    {
        let d = decimal_string(b[i] as u128);
        let ghost before = items@;
        items.push(d);
        proof {
            assert(items@ =~= before.push(d));
            assert(b@.take(i + 1) =~= b@.take(i as int).push(b@[i as int]));
            assert(texts(items@) =~= texts(before).push(d@));
        }
        i = i + 1;
    }
    assert(b@.take(i as int) =~= b@);
    array_text(&items)
}

} // verus!
