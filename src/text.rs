use vstd::prelude::*;
use vstd::utf8::{encode_utf8, encode_utf8_decode_utf8};

verus! {

/// The decimal digit character for `d < 10`.
pub open spec fn digit_char(d: nat) -> char {
    if d == 0 {
        '0'
    } else if d == 1 {
        '1'
    } else if d == 2 {
        '2'
    } else if d == 3 {
        '3'
    } else if d == 4 {
        '4'
    } else if d == 5 {
        '5'
    } else if d == 6 {
        '6'
    } else if d == 7 {
        '7'
    } else if d == 8 {
        '8'
    } else {
        '9'
    }
}

/// The decimal numeral of `n`, without leading zeros.
pub open spec fn nat_str(n: nat) -> Seq<char>
    decreases n,
{
    if n < 10 {
        seq![digit_char(n)]
    } else {
        nat_str(n / 10).push(digit_char(n % 10))
    }
}

/// The decimal numeral of `i`, with a leading `-` when it is negative.
pub open spec fn int_str(i: int) -> Seq<char> {
    if i < 0 {
        seq!['-'] + nat_str((-i) as nat)
    } else {
        nat_str(i as nat)
    }
}

/// `v` read as a fixed-point number with `places` decimal places:
/// the numeral of `v / 10^places`, a point, then the last `places` digits of `v`.
pub open spec fn fixed_str(v: nat, places: nat) -> Seq<char>
    decreases places,
{
    if places == 0 {
        nat_str(v).push('.')
    } else {
        fixed_str(v / 10, (places - 1) as nat).push(digit_char(v % 10))
    }
}

/// `true` or `false`, as Rust writes a `bool`.
pub open spec fn bool_str(b: bool) -> Seq<char> {
    if b {
        "true"@
    } else {
        "false"@
    }
}

fn digit_str(d: u64) -> (r: &'static str)
    requires
        d < 10,
    ensures
        r@ == seq![digit_char(d as nat)],
{
    proof {
        reveal_strlit("0");
        reveal_strlit("1");
        reveal_strlit("2");
        reveal_strlit("3");
        reveal_strlit("4");
        reveal_strlit("5");
        reveal_strlit("6");
        reveal_strlit("7");
        reveal_strlit("8");
        reveal_strlit("9");
    }
    if d == 0 {
        "0"
    } else if d == 1 {
        "1"
    } else if d == 2 {
        "2"
    } else if d == 3 {
        "3"
    } else if d == 4 {
        "4"
    } else if d == 5 {
        "5"
    } else if d == 6 {
        "6"
    } else if d == 7 {
        "7"
    } else if d == 8 {
        "8"
    } else {
        "9"
    }
}

/// Writes `n` in decimal.
pub fn u64_to_string(n: u64) -> (r: String)
    ensures
        r@ == nat_str(n as nat),
    decreases n,
{
    if n < 10 {
        String::from_str(digit_str(n))
    } else {
        let mut s = u64_to_string(n / 10);
        s.append(digit_str(n % 10));
        s
    }
}

/// Writes `n` in decimal, with a leading `-` when it is negative.
pub fn i64_to_string(n: i64) -> (r: String)
    ensures
        r@ == int_str(n as int),
{
    if n < 0 {
        let m: u64 = ((-(n + 1)) as u64) + 1;
        let mut s = String::from_str("-");
        proof {
            reveal_strlit("-");
        }
        let digits = u64_to_string(m);
        s.append(digits.as_str());
        s
    } else {
        u64_to_string(n as u64)
    }
}

/// Writes `v / 10^places` as a fixed-point number with exactly `places`
/// decimal places.
pub fn fixed_point_to_string(v: u64, places: u32) -> (r: String)
    ensures
        r@ == fixed_str(v as nat, places as nat),
    decreases places,
{
    if places == 0 {
        let mut s = u64_to_string(v);
        s.append(".");
        proof {
            reveal_strlit(".");
        }
        s
    } else {
        let mut s = fixed_point_to_string(v / 10, places - 1);
        s.append(digit_str(v % 10));
        s
    }
}

/// Writes a `bool` as `true` or `false`.
pub fn bool_to_string(b: bool) -> (r: String)
    ensures
        r@ == bool_str(b),
{
    if b {
        String::from_str("true")
    } else {
        String::from_str("false")
    }
}

/// The lowercase hexadecimal digit for `d < 16`.
pub open spec fn hex_digit(d: nat) -> char {
    if d < 10 {
        digit_char(d)
    } else if d == 10 {
        'a'
    } else if d == 11 {
        'b'
    } else if d == 12 {
        'c'
    } else if d == 13 {
        'd'
    } else if d == 14 {
        'e'
    } else {
        'f'
    }
}

/// Lowercase hexadecimal, two digits per byte, high digit first.
pub open spec fn hex_of(b: Seq<u8>) -> Seq<char>
    decreases b.len(),
{
    if b.len() == 0 {
        Seq::empty()
    } else {
        seq![hex_digit((b[0] / 16) as nat), hex_digit((b[0] % 16) as nat)] + hex_of(b.drop_first())
    }
}

/// Hexadecimal takes two digits per byte.
pub proof fn lemma_hex_len(b: Seq<u8>)
    ensures
        hex_of(b).len() == 2 * b.len(),
    decreases b.len(),
{
    if b.len() > 0 {
        lemma_hex_len(b.drop_first());
    }
}

/// The uppercase hexadecimal digit for `d < 16`.
pub open spec fn upper_hex_digit(d: nat) -> char {
    if d < 10 {
        digit_char(d)
    } else if d == 10 {
        'A'
    } else if d == 11 {
        'B'
    } else if d == 12 {
        'C'
    } else if d == 13 {
        'D'
    } else if d == 14 {
        'E'
    } else {
        'F'
    }
}

/// Bytes that form encoding leaves as they are: ASCII letters and digits and `*-._`.
pub open spec fn form_unreserved(b: u8) -> bool {
    (0x30 <= b <= 0x39) || (0x41 <= b <= 0x5a) || (0x61 <= b <= 0x7a) || b == 0x2a || b == 0x2d
        || b == 0x2e || b == 0x5f
}

/// One byte in `application/x-www-form-urlencoded` form: itself when unreserved,
/// `+` for a space, `%XX` in uppercase hexadecimal otherwise.
pub open spec fn form_byte(b: u8) -> Seq<char> {
    if form_unreserved(b) {
        seq![b as char]
    } else if b == 0x20 {
        seq!['+']
    } else {
        seq!['%', upper_hex_digit((b / 16) as nat), upper_hex_digit((b % 16) as nat)]
    }
}

/// A byte string in form encoding, byte by byte.
pub open spec fn form_bytes(b: Seq<u8>) -> Seq<char>
    decreases b.len(),
{
    if b.len() == 0 {
        Seq::empty()
    } else {
        form_byte(b[0]) + form_bytes(b.drop_first())
    }
}

/// A string in form encoding: its UTF-8 bytes, encoded one by one.
pub open spec fn form_str(s: Seq<char>) -> Seq<char> {
    form_bytes(encode_utf8(s))
}

/// A list of name/value pairs as a form-encoded query: each pair as
/// `name=value`, joined by `&`, in the order of the list.
pub open spec fn form_query(q: Seq<(Seq<char>, Seq<char>)>) -> Seq<char>
    decreases q.len(),
{
    if q.len() == 0 {
        Seq::empty()
    } else {
        if q.len() == 1 {
            form_pair(q.last())
        } else {
            form_query(q.drop_last()) + seq!['&'] + form_pair(q.last())
        }
    }
}


/// `s` holds neither `&` nor `=`.
pub open spec fn free_of_separators(s: Seq<char>) -> bool {
    forall|i: int| 0 <= i < s.len() ==> s[i] != '&' && s[i] != '='
}

proof fn lemma_form_byte_shape(b: u8)
    ensures
        form_byte(b).len() >= 1,
        free_of_separators(form_byte(b)),
        form_byte(b)[0] == '%' ==> !form_unreserved(b) && b != 0x20 && form_byte(b).len() == 3,
        form_byte(b)[0] == '+' ==> b == 0x20 && form_byte(b).len() == 1,
        form_byte(b)[0] != '%' && form_byte(b)[0] != '+' ==> form_unreserved(b) && form_byte(b)
            == seq![b as char],
{
}

proof fn lemma_upper_hex_digit_injective(x: nat, y: nat)
    requires
        x < 16,
        y < 16,
        upper_hex_digit(x) == upper_hex_digit(y),
    ensures
        x == y,
{
}

/// Form encoding of bytes holds no `&` and no `=`.
pub proof fn lemma_form_bytes_free_of_separators(b: Seq<u8>)
    ensures
        free_of_separators(form_bytes(b)),
    decreases b.len(),
{
    if b.len() > 0 {
        lemma_form_byte_shape(b[0]);
        lemma_form_bytes_free_of_separators(b.drop_first());
    }
}

/// Form encoding of bytes is one to one.
pub proof fn lemma_form_bytes_injective(a: Seq<u8>, b: Seq<u8>)
    requires
        form_bytes(a) == form_bytes(b),
    ensures
        a == b,
    decreases a.len(),
{
    if a.len() == 0 {
        if b.len() > 0 {
            lemma_form_byte_shape(b[0]);
        }
        assert(b =~= a);
    } else {
        lemma_form_byte_shape(a[0]);
        if b.len() == 0 {
            assert(form_bytes(a).len() > 0);
        } else {
            lemma_form_byte_shape(b[0]);
            let fa = form_byte(a[0]);
            let fb = form_byte(b[0]);
            let whole = form_bytes(a);
            assert(whole[0] == fa[0] && whole[0] == fb[0]);
            if fa[0] == '%' {
                assert(whole[1] == fa[1] && whole[1] == fb[1]);
                assert(whole[2] == fa[2] && whole[2] == fb[2]);
                lemma_upper_hex_digit_injective((a[0] / 16) as nat, (b[0] / 16) as nat);
                lemma_upper_hex_digit_injective((a[0] % 16) as nat, (b[0] % 16) as nat);
            }
            assert(a[0] == b[0]);
            assert(whole.subrange(fa.len() as int, whole.len() as int) =~= form_bytes(
                a.drop_first(),
            ));
            assert(whole.subrange(fb.len() as int, whole.len() as int) =~= form_bytes(
                b.drop_first(),
            ));
            lemma_form_bytes_injective(a.drop_first(), b.drop_first());
            assert(a =~= seq![a[0]] + a.drop_first());
            assert(b =~= seq![b[0]] + b.drop_first());
        }
    }
}

/// Form encoding of strings is one to one, and holds no `&` and no `=`.
pub proof fn lemma_form_str_injective(s: Seq<char>, t: Seq<char>)
    ensures
        free_of_separators(form_str(s)),
        form_str(s) == form_str(t) ==> s == t,
{
    lemma_form_bytes_free_of_separators(encode_utf8(s));
    if form_str(s) == form_str(t) {
        lemma_form_bytes_injective(encode_utf8(s), encode_utf8(t));
        encode_utf8_decode_utf8(s);
        encode_utf8_decode_utf8(t);
    }
}

/// Where `x + [c] + p` and `y + [c] + q` are equal and neither `p` nor `q`
/// holds `c`, the parts on each side of the last `c` are equal.
pub proof fn lemma_split_at_last(x: Seq<char>, p: Seq<char>, y: Seq<char>, q: Seq<char>, c: char)
    requires
        x + seq![c] + p == y + seq![c] + q,
        forall|i: int| 0 <= i < p.len() ==> p[i] != c,
        forall|i: int| 0 <= i < q.len() ==> q[i] != c,
    ensures
        x == y,
        p == q,
{
    let xc = x + seq![c];
    let yc = y + seq![c];
    let whole = xc + p;
    let other = yc + q;
    assert(whole.len() == other.len());
    if p.len() < q.len() {
        let k = x.len() as int;
        assert(xc[k] == c);
        assert(whole[k] == c);
        assert(k >= yc.len());
        assert(other[k] == q[k - yc.len()]);
    } else if q.len() < p.len() {
        let k = y.len() as int;
        assert(yc[k] == c);
        assert(other[k] == c);
        assert(k >= xc.len());
        assert(whole[k] == p[k - xc.len()]);
    }
    assert(x =~= whole.subrange(0, x.len() as int));
    assert(y =~= other.subrange(0, y.len() as int));
    assert(p =~= whole.subrange(x.len() as int + 1, whole.len() as int));
    assert(q =~= other.subrange(y.len() as int + 1, other.len() as int));
}

/// One pair of a form query, `name=value`.
pub open spec fn form_pair(p: (Seq<char>, Seq<char>)) -> Seq<char> {
    form_str(p.0) + seq!['='] + form_str(p.1)
}

proof fn lemma_form_pair(p: (Seq<char>, Seq<char>), r: (Seq<char>, Seq<char>))
    ensures
        forall|i: int| 0 <= i < form_pair(p).len() ==> form_pair(p)[i] != '&',
        form_pair(p).len() > 0,
        form_pair(p) == form_pair(r) ==> p == r,
{
    lemma_form_str_injective(p.0, r.0);
    lemma_form_str_injective(p.1, r.1);
    lemma_form_str_injective(r.0, p.0);
    lemma_form_str_injective(r.1, p.1);
    assert(form_pair(p)[form_str(p.0).len() as int] == '=');
    if form_pair(p) == form_pair(r) {
        lemma_split_at_last(form_str(p.0), form_str(p.1), form_str(r.0), form_str(r.1), '=');
    }
}

/// A form query is one to one: distinct lists of pairs, including the same
/// pairs in another order, are written differently.
pub proof fn lemma_form_query_injective(a: Seq<(Seq<char>, Seq<char>)>, b: Seq<(Seq<char>, Seq<char>)>)
    requires
        form_query(a) == form_query(b),
    ensures
        a == b,
    decreases a.len(),
{
    if a.len() == 0 {
        if b.len() > 0 {
            lemma_form_pair(b.last(), b.last());
            assert(form_query(b) =~= (if b.len() == 1 { form_pair(b.last()) } else {
                form_query(b.drop_last()) + seq!['&'] + form_pair(b.last())
            }));
        }
        assert(b =~= a);
    } else if b.len() == 0 {
        lemma_form_query_injective(b, a);
    } else {
        let pa = form_pair(a.last());
        let pb = form_pair(b.last());
        lemma_form_pair(a.last(), b.last());
        lemma_form_pair(b.last(), a.last());
        assert(form_query(a) =~= (if a.len() == 1 { pa } else {
            form_query(a.drop_last()) + seq!['&'] + pa
        }));
        assert(form_query(b) =~= (if b.len() == 1 { pb } else {
            form_query(b.drop_last()) + seq!['&'] + pb
        }));
        if a.len() == 1 && b.len() == 1 {
            assert(a =~= seq![a.last()]);
            assert(b =~= seq![b.last()]);
        } else if a.len() == 1 {
            let k = form_query(b.drop_last()).len() as int;
            assert(form_query(b)[k] == '&');
            assert(pa[k] == '&');
        } else if b.len() == 1 {
            let k = form_query(a.drop_last()).len() as int;
            assert(form_query(a)[k] == '&');
            assert(pb[k] == '&');
        } else {
            lemma_split_at_last(form_query(a.drop_last()), pa, form_query(b.drop_last()), pb, '&');
            lemma_form_query_injective(a.drop_last(), b.drop_last());
            assert(a =~= a.drop_last().push(a.last()));
            assert(b =~= b.drop_last().push(b.last()));
        }
    }
}

} // verus!
