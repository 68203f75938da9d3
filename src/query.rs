//! Percent-encoding of parameter values and assembly of query strings.
use vstd::prelude::*;
use vstd::utf8::encode_utf8;

verus! {

/// Bytes that pass through percent-encoding unchanged: the unreserved set of RFC 3986.
pub open spec fn is_unreserved(b: u8) -> bool {
    (0x41 <= b && b <= 0x5a) || (0x61 <= b && b <= 0x7a) || (0x30 <= b && b <= 0x39)
        || b == 0x2d || b == 0x2e || b == 0x5f || b == 0x7e
}

/// The upper-case hexadecimal digit for a value below sixteen.
pub open spec fn hex_digit(n: u8) -> char {
    if n < 10 {
        (n + 0x30) as char
    } else {
        (n + 0x37) as char
    }
}

/// The value of a hexadecimal digit, in either case.
pub open spec fn hex_value(c: char) -> Option<u8> {
    if '0' <= c && c <= '9' {
        Some((c as u32 - 0x30) as u8)
    } else if 'A' <= c && c <= 'F' {
        Some((c as u32 - 0x37) as u8)
    } else if 'a' <= c && c <= 'f' {
        Some((c as u32 - 0x57) as u8)
    } else {
        None
    }
}

/// How one byte is written: as itself when unreserved, else as `%` and two hex digits.
pub open spec fn encode_byte(b: u8) -> Seq<char> {
    if is_unreserved(b) {
        seq![b as char]
    } else {
        seq!['%', hex_digit(b / 16), hex_digit(b % 16)]
    }
}

/// The percent-encoding of a byte string.
pub open spec fn pct_encode(bs: Seq<u8>) -> Seq<char>
    decreases bs.len(),
{
    if bs.len() == 0 {
        Seq::empty()
    } else {
        pct_encode(bs.drop_last()) + encode_byte(bs.last())
    }
}

/// The bytes that a percent-encoded text stands for, as a URL parser reads it.
pub open spec fn pct_decode(cs: Seq<char>) -> Seq<u8>
    decreases cs.len(),
{
    if cs.len() == 0 {
        Seq::empty()
    } else if cs[0] == '%' && cs.len() >= 3 && hex_value(cs[1]) is Some && hex_value(cs[2]) is Some {
        seq![(hex_value(cs[1])->0 * 16 + hex_value(cs[2])->0) as u8] + pct_decode(cs.skip(3))
    } else {
        seq![cs[0] as u8] + pct_decode(cs.skip(1))
    }
}

/// The percent-encoding of a text, taken over its UTF-8 bytes.
pub open spec fn encode_text(s: Seq<char>) -> Seq<char> {
    pct_encode(encode_utf8(s))
}

fn hex_char(n: u8) -> (c: char)
    requires
        n < 16,
    ensures
        c == hex_digit(n),
{
    if n < 10 {
        (n + 0x30) as char
    } else {
        (n + 0x37) as char
    }
}

/// Relies on String::push: the character is appended at the end.
#[verifier::external_body]
fn push_char(s: &mut String, c: char)
    ensures
        final(s)@ == old(s)@.push(c),
{
    s.push(c)
}

/// Percent-encodes `s`, byte by byte of its UTF-8 form.
pub fn percent_encode(s: &str) -> (r: String)
    ensures
        r@ == encode_text(s@),
{
    let bytes = s.as_bytes();
    let mut out = String::new();
    let mut i: usize = 0;
    while i < bytes.len()
        invariant
            i <= bytes@.len(),
            bytes@ == encode_utf8(s@),
            out@ == pct_encode(bytes@.subrange(0, i as int)),
        decreases bytes@.len() - i,
    {
        let b = bytes[i];
        proof {
            assert(bytes@.subrange(0, i + 1).drop_last() == bytes@.subrange(0, i as int));
        }
        if (0x41 <= b && b <= 0x5a) || (0x61 <= b && b <= 0x7a) || (0x30 <= b && b <= 0x39)
            || b == 0x2d || b == 0x2e || b == 0x5f || b == 0x7e {
            push_char(&mut out, b as char);
        } else {
            push_char(&mut out, '%');
            push_char(&mut out, hex_char(b / 16));
            push_char(&mut out, hex_char(b % 16));
        }
        proof {
            assert(out@ == pct_encode(bytes@.subrange(0, i + 1)));
        }
        i = i + 1;
    }
    proof {
        assert(bytes@.subrange(0, bytes@.len() as int) == bytes@);
    }
    out
}

/// Relies on String::push_str: the text is appended at the end.
#[verifier::external_body]
fn push_text(s: &mut String, t: &str)
    ensures
        final(s)@ == old(s)@ + t@,
{
    s.push_str(t)
}

/// One named query parameter, present or absent.
pub struct QueryParam {
    pub name: String,
    pub value: Option<String>,
}

/// `name=value` for a present parameter, the value percent-encoded.
pub open spec fn piece(name: Seq<char>, value: Seq<char>) -> Seq<char> {
    name + seq!['='] + encode_text(value)
}

/// The pieces of the parameters that are present, in their given order.
pub open spec fn present_pieces(ps: Seq<QueryParam>) -> Seq<Seq<char>>
    decreases ps.len(),
{
    if ps.len() == 0 {
        Seq::empty()
    } else {
        let rest = present_pieces(ps.drop_last());
        match ps.last().value {
            Some(v) => rest.push(piece(ps.last().name@, v@)),
            None => rest,
        }
    }
}

/// The pieces joined by single `&` separators.
pub open spec fn join_amp(pieces: Seq<Seq<char>>) -> Seq<char>
    decreases pieces.len(),
{
    if pieces.len() == 0 {
        Seq::empty()
    } else if pieces.len() == 1 {
        pieces[0]
    } else {
        join_amp(pieces.drop_last()) + seq!['&'] + pieces.last()
    }
}

/// The URL for an endpoint and an ordered list of parameters.
pub open spec fn query_url(base: Seq<char>, ps: Seq<QueryParam>) -> Seq<char> {
    base + seq!['?'] + join_amp(present_pieces(ps))
}

/// Builds `base?name1=value1&name2=value2...`, leaving out absent parameters
/// and percent-encoding every value.
pub fn encode_query(base: &str, params: &Vec<QueryParam>) -> (r: String)
    ensures
        r@ == query_url(base@, params@),
{
    let mut out = String::new();
    push_text(&mut out, base);
    push_char(&mut out, '?');
    let mut any = false;
    let mut i: usize = 0;
    while i < params.len()
        invariant
            i <= params@.len(),
            out@ == base@ + seq!['?'] + join_amp(present_pieces(params@.subrange(0, i as int))),
            any == (present_pieces(params@.subrange(0, i as int)).len() > 0),
        decreases params@.len() - i,
    {
        let p = &params[i];
        proof {
            assert(params@.subrange(0, i + 1).drop_last() == params@.subrange(0, i as int));
        }
        match &p.value {
            Some(v) => {
                if any {
                    push_char(&mut out, '&');
                }
                push_text(&mut out, p.name.as_str());
                push_char(&mut out, '=');
                let e = percent_encode(v.as_str());
                push_text(&mut out, e.as_str());
                any = true;
            },
            None => {},
        }
        proof {
            let pre = present_pieces(params@.subrange(0, i as int));
            let now = present_pieces(params@.subrange(0, i + 1));
            if p.value is Some {
                assert(now.drop_last() == pre);
                if pre.len() == 0 {
                    assert(join_amp(now) == now[0]);
                }
            }
            assert(out@ == base@ + seq!['?'] + join_amp(now));
        }
        i = i + 1;
    }
    proof {
        assert(params@.subrange(0, params@.len() as int) == params@);
    }
    out
}

proof fn lemma_encode_concat(a: Seq<u8>, b: Seq<u8>)
    ensures
        pct_encode(a + b) == pct_encode(a) + pct_encode(b),
    decreases b.len(),
{
    if b.len() == 0 {
        assert(a + b =~= a);
        assert(pct_encode(a) + pct_encode(b) =~= pct_encode(a));
    } else {
        lemma_encode_concat(a, b.drop_last());
        assert((a + b).drop_last() =~= a + b.drop_last());
        assert((a + b).last() == b.last());
        assert(pct_encode(a + b) =~= pct_encode(a) + pct_encode(b));
    }
}

proof fn lemma_hex_round_trip(n: u8)
    requires
        n < 16,
    ensures
        hex_value(hex_digit(n)) == Some(n),
{
}

proof fn lemma_decode_byte(x: u8, rest: Seq<char>)
    ensures
        pct_decode(encode_byte(x) + rest) == seq![x] + pct_decode(rest),
{
    let cs = encode_byte(x) + rest;
    if is_unreserved(x) {
        assert(cs[0] == x as char);
        assert(cs.skip(1) =~= rest);
        assert((x as char) as u8 == x);
    } else {
        lemma_hex_round_trip(x / 16);
        lemma_hex_round_trip(x % 16);
        assert(cs[0] == '%' && cs[1] == hex_digit(x / 16) && cs[2] == hex_digit(x % 16));
        assert(cs.skip(3) =~= rest);
        assert(((x / 16) * 16 + x % 16) as u8 == x);
    }
}

proof fn lemma_decode_encode(bs: Seq<u8>)
    ensures
        pct_decode(pct_encode(bs)) == bs,
    decreases bs.len(),
{
    if bs.len() == 0 {
        assert(pct_decode(pct_encode(bs)) =~= bs);
    } else {
        let head = seq![bs[0]];
        let tail = bs.skip(1);
        assert(head + tail =~= bs);
        lemma_encode_concat(head, tail);
        assert(head.drop_last() =~= Seq::<u8>::empty());
        assert(pct_encode(head.drop_last()) =~= Seq::<char>::empty());
        assert(head.last() == bs[0]);
        assert(pct_encode(head) =~= encode_byte(bs[0]));
        lemma_decode_byte(bs[0], pct_encode(tail));
        lemma_decode_encode(tail);
        assert(seq![bs[0]] + tail =~= bs);
    }
}

/// Whether `c` can stand inside a query value without changing how the query splits.
pub open spec fn is_inert(c: char) -> bool {
    c != '&' && c != '#' && c != '=' && c != ' ' && c != '+' && c != '?'
}

proof fn lemma_encode_inert(bs: Seq<u8>)
    ensures
        forall|i: int| 0 <= i < pct_encode(bs).len() ==> is_inert(#[trigger] pct_encode(bs)[i]),
    decreases bs.len(),
{
    if bs.len() > 0 {
        lemma_encode_inert(bs.drop_last());
        let x = bs.last();
        assert forall|i: int| 0 <= i < encode_byte(x).len() implies is_inert(#[trigger] encode_byte(x)[i]) by {
            if !is_unreserved(x) {
                assert(x / 16 < 16 && x % 16 < 16);
            }
        }
        let a = pct_encode(bs.drop_last());
        assert forall|i: int| 0 <= i < pct_encode(bs).len() implies is_inert(#[trigger] pct_encode(bs)[i]) by {
            if i >= a.len() {
                assert(pct_encode(bs)[i] == encode_byte(x)[i - a.len()]);
            } else {
                assert(pct_encode(bs)[i] == a[i]);
            }
        }
    }
}

/// A percent-encoded value holds none of the characters that delimit a query
/// (`&`, `#`, `=`, `?`, space, `+`), and decoding it gives back the UTF-8 bytes
/// of the original text. So a URL parser reads each value as one parameter
/// whose decoded value is the original text.
pub proof fn law_value_round_trip(s: Seq<char>)
    ensures
        pct_decode(encode_text(s)) == encode_utf8(s),
        forall|i: int| 0 <= i < encode_text(s).len() ==> is_inert(#[trigger] encode_text(s)[i]),
{
    lemma_decode_encode(encode_utf8(s));
    lemma_encode_inert(encode_utf8(s));
}

/// How many `&` characters `s` holds.
pub open spec fn amp_count(s: Seq<char>) -> nat
    decreases s.len(),
{
    if s.len() == 0 {
        0
    } else {
        amp_count(s.drop_last()) + if s.last() == '&' { 1nat } else { 0nat }
    }
}

/// How many parameters have a value.
pub open spec fn present_count(ps: Seq<QueryParam>) -> nat
    decreases ps.len(),
{
    if ps.len() == 0 {
        0
    } else {
        present_count(ps.drop_last()) + if ps.last().value is Some { 1nat } else { 0nat }
    }
}

/// A name that a query can carry: non-empty and free of `&`.
pub open spec fn is_param_name(name: Seq<char>) -> bool {
    name.len() > 0 && forall|k: int| 0 <= k < name.len() ==> #[trigger] name[k] != '&'
}

spec fn clean_piece(p: Seq<char>) -> bool {
    p.len() > 0 && amp_count(p) == 0 && p[0] != '&' && p.last() != '&'
}

proof fn lemma_amp_count_concat(a: Seq<char>, b: Seq<char>)
    ensures
        amp_count(a + b) == amp_count(a) + amp_count(b),
    decreases b.len(),
{
    if b.len() == 0 {
        assert(a + b =~= a);
    } else {
        lemma_amp_count_concat(a, b.drop_last());
        assert((a + b).drop_last() =~= a + b.drop_last());
    }
}

proof fn lemma_amp_count_zero(s: Seq<char>)
    requires
        forall|k: int| 0 <= k < s.len() ==> #[trigger] s[k] != '&',
    ensures
        amp_count(s) == 0,
    decreases s.len(),
{
    if s.len() > 0 {
        lemma_amp_count_zero(s.drop_last());
    }
}

proof fn lemma_piece_clean(name: Seq<char>, value: Seq<char>)
    requires
        is_param_name(name),
    ensures
        clean_piece(piece(name, value)),
{
    let e = encode_text(value);
    law_value_round_trip(value);
    let p = piece(name, value);
    assert forall|k: int| 0 <= k < p.len() implies #[trigger] p[k] != '&' by {
        if k < name.len() {
            assert(p[k] == name[k]);
        } else if k > name.len() {
            assert(p[k] == e[k - name.len() - 1]);
            assert(is_inert(e[k - name.len() - 1]));
        }
    }
    lemma_amp_count_zero(p);
    assert(p[0] == name[0]);
    assert(p[p.len() - 1] != '&');
}

proof fn lemma_present_clean(ps: Seq<QueryParam>)
    requires
        forall|i: int| 0 <= i < ps.len() ==> is_param_name(#[trigger] ps[i].name@),
    ensures
        forall|k: int| 0 <= k < present_pieces(ps).len() ==> clean_piece(#[trigger] present_pieces(ps)[k]),
        present_pieces(ps).len() == present_count(ps),
    decreases ps.len(),
{
    if ps.len() > 0 {
        let rest = ps.drop_last();
        assert forall|i: int| 0 <= i < rest.len() implies is_param_name(#[trigger] rest[i].name@) by {
            assert(rest[i] == ps[i]);
        }
        lemma_present_clean(rest);
        let last = ps.last();
        assert(is_param_name(ps[ps.len() - 1].name@));
        if let Some(v) = last.value {
            lemma_piece_clean(last.name@, v@);
            let pp = present_pieces(ps);
            assert forall|k: int| 0 <= k < pp.len() implies clean_piece(#[trigger] pp[k]) by {
                if k < pp.len() - 1 {
                    assert(pp[k] == present_pieces(rest)[k]);
                }
            }
        }
    }
}

proof fn lemma_join_shape(pieces: Seq<Seq<char>>)
    requires
        forall|k: int| 0 <= k < pieces.len() ==> clean_piece(#[trigger] pieces[k]),
    ensures
        pieces.len() == 0 ==> join_amp(pieces).len() == 0,
        pieces.len() > 0 ==> clean_join(join_amp(pieces), pieces.len()),
    decreases pieces.len(),
{
    if pieces.len() == 1 {
        assert(clean_piece(pieces[0]));
    } else if pieces.len() > 1 {
        let rest = pieces.drop_last();
        assert forall|k: int| 0 <= k < rest.len() implies clean_piece(#[trigger] rest[k]) by {
            assert(rest[k] == pieces[k]);
        }
        lemma_join_shape(rest);
        let j = join_amp(rest);
        let l = pieces.last();
        assert(clean_piece(pieces[pieces.len() - 1]));
        lemma_amp_count_concat(j + seq!['&'], l);
        lemma_amp_count_concat(j, seq!['&']);
        let amp = seq!['&'];
        assert(amp.drop_last() =~= Seq::<char>::empty());
        assert(amp_count(amp.drop_last()) == 0);
        assert(amp.last() == '&');
        assert(amp_count(amp) == 1);
        let all = join_amp(pieces);
        assert(all == j + seq!['&'] + l);
        assert(all[0] == j[0]);
        assert(all.last() == l.last());
    }
}

/// A query text with `n` parameters: `n - 1` single `&` separators, none at either end.
pub open spec fn clean_join(q: Seq<char>, n: nat) -> bool {
    &&& q.len() > 0
    &&& amp_count(q) + 1 == n
    &&& q[0] != '&'
    &&& q.last() != '&'
}

/// The query holds one `name=value` piece for each parameter that has a value,
/// in the given order, and nothing for the others. When there is at least one,
/// they are parted by single `&` characters, with none leading or trailing.
pub proof fn law_query_shape(base: Seq<char>, ps: Seq<QueryParam>)
    requires
        forall|i: int| 0 <= i < ps.len() ==> is_param_name(#[trigger] ps[i].name@),
    ensures
        query_url(base, ps) == base + seq!['?'] + join_amp(present_pieces(ps)),
        present_pieces(ps).len() == present_count(ps),
        present_count(ps) == 0 ==> join_amp(present_pieces(ps)).len() == 0,
        present_count(ps) > 0 ==> clean_join(join_amp(present_pieces(ps)), present_count(ps)),
{
    lemma_present_clean(ps);
    lemma_join_shape(present_pieces(ps));
}

} // verus!
