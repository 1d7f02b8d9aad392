//! Text handling shared by the modules: UTF-8 decoding, trimming of
//! whitespace, and decimal numbers.
use vstd::prelude::*;
use vstd::string::*;
use vstd::utf8::*;

verus! {

/// The text of the error that `String::from_utf8` reports for `bytes` (it
/// names where the first invalid sequence starts); a matter of the bytes
/// alone.
pub uninterp spec fn utf8_error_text(bytes: Seq<u8>) -> Seq<char>;

/// Calls `String::from_utf8`. As its documentation says, it fails exactly
/// when `bytes` is not valid UTF-8; otherwise the string holds the decoded
/// characters. A failure is handed back as the error's text, which is named
/// `utf8_error_text`.
#[verifier::external_body]
pub(crate) fn string_from_utf8(bytes: Vec<u8>) -> (r: Result<String, String>)
    ensures
        r is Ok <==> valid_utf8(bytes@),
        r matches Ok(s) ==> s@ == decode_utf8(bytes@),
        r matches Err(m) ==> m@ == utf8_error_text(bytes@),
{
    match String::from_utf8(bytes) {
        Ok(s) => Ok(s),
        Err(e) => Err(e.to_string()),
    }
}

/// Unicode's `White_Space` property, which `char::is_whitespace` and
/// `str::trim` go by.
pub open spec fn is_white_space(c: char) -> bool {
    let v: u32 = c as u32;
    ||| v == 0x20
    ||| 0x09 <= v <= 0x0d
    ||| v == 0x85
    ||| v == 0xa0
    ||| v == 0x1680
    ||| 0x2000 <= v <= 0x200a
    ||| v == 0x2028
    ||| v == 0x2029
    ||| v == 0x202f
    ||| v == 0x205f
    ||| v == 0x3000
}

/// `s` without its leading white space.
pub open spec fn trim_start(s: Seq<char>) -> Seq<char>
    decreases s.len(),
{
    if s.len() > 0 && is_white_space(s[0]) {
        trim_start(s.drop_first())
    } else {
        s
    }
}

/// `s` without its trailing white space.
pub open spec fn trim_end(s: Seq<char>) -> Seq<char>
    decreases s.len(),
{
    if s.len() > 0 && is_white_space(s.last()) {
        trim_end(s.drop_last())
    } else {
        s
    }
}

/// `s` without leading and trailing white space, as `str::trim` gives it.
pub open spec fn trim(s: Seq<char>) -> Seq<char> {
    trim_end(trim_start(s))
}

/// Whether `c` is white space.
pub fn is_whitespace(c: char) -> (r: bool)
    ensures
        r == is_white_space(c),
{
    let v: u32 = c as u32;
    v == 0x20 || (0x09 <= v && v <= 0x0d) || v == 0x85 || v == 0xa0 || v == 0x1680 || (0x2000
        <= v && v <= 0x200a) || v == 0x2028 || v == 0x2029 || v == 0x202f || v == 0x205f || v
        == 0x3000
}

/// Every character of `s` is white space.
pub open spec fn all_white(s: Seq<char>) -> bool {
    forall|i: int| 0 <= i < s.len() ==> is_white_space(#[trigger] s[i])
}

/// `t` is `s` with white space taken off its two ends and nowhere else, and
/// keeps no white space at either end.
pub open spec fn is_trim_of(s: Seq<char>, t: Seq<char>) -> bool {
    &&& exists|a: Seq<char>, b: Seq<char>| all_white(a) && all_white(b) && s == a + t + b
    &&& t.len() > 0 ==> !is_white_space(t[0])
    &&& t.len() > 0 ==> !is_white_space(t.last())
}

proof fn lemma_trim_start_shape(s: Seq<char>)
    ensures
        exists|a: Seq<char>| all_white(a) && s == a + trim_start(s),
        trim_start(s).len() > 0 ==> !is_white_space(trim_start(s)[0]),
    decreases s.len(),
{
    if s.len() > 0 && is_white_space(s[0]) {
        let rest = s.drop_first();
        lemma_trim_start_shape(rest);
        let a0 = choose|a: Seq<char>| all_white(a) && rest == a + trim_start(rest);
        let a = seq![s[0]] + a0;
        assert(all_white(a)) by {
            assert forall|i: int| 0 <= i < a.len() implies is_white_space(#[trigger] a[i]) by {
                if i > 0 {
                    assert(a[i] == a0[i - 1]);
                }
            }
        }
        assert(trim_start(s) == trim_start(rest));
        assert(s =~= seq![s[0]] + rest);
        assert(seq![s[0]] + (a0 + trim_start(rest)) =~= a + trim_start(rest));
        assert(s =~= a + trim_start(s));
    } else {
        assert(s =~= Seq::<char>::empty() + trim_start(s));
        assert(all_white(Seq::<char>::empty()));
    }
}

proof fn lemma_trim_end_shape(s: Seq<char>)
    ensures
        exists|b: Seq<char>| all_white(b) && s == trim_end(s) + b,
        trim_end(s).len() > 0 ==> !is_white_space(trim_end(s).last()),
        trim_end(s).len() <= s.len(),
        trim_end(s) == s.subrange(0, trim_end(s).len() as int),
    decreases s.len(),
{
    if s.len() > 0 && is_white_space(s.last()) {
        let init = s.drop_last();
        lemma_trim_end_shape(init);
        let b0 = choose|b: Seq<char>| all_white(b) && init == trim_end(init) + b;
        let b = b0.push(s.last());
        assert(all_white(b)) by {
            assert forall|i: int| 0 <= i < b.len() implies is_white_space(#[trigger] b[i]) by {
                if i < b0.len() {
                    assert(b[i] == b0[i]);
                }
            }
        }
        assert(trim_end(s) == trim_end(init));
        assert(s =~= init.push(s.last()));
        assert((trim_end(init) + b0).push(s.last()) =~= trim_end(init) + b);
        assert(s =~= trim_end(s) + b);
        assert(trim_end(s) =~= s.subrange(0, trim_end(s).len() as int));
    } else {
        assert(s =~= trim_end(s) + Seq::<char>::empty());
        assert(all_white(Seq::<char>::empty()));
        assert(trim_end(s) =~= s.subrange(0, trim_end(s).len() as int));
    }
}

/// `trim(s)` is `s` with the white space at its two ends taken off and
/// nothing else: `s` is white space, then `trim(s)`, then white space, and
/// `trim(s)` neither starts nor ends with white space.
pub proof fn lemma_trim_shape(s: Seq<char>)
    ensures
        is_trim_of(s, trim(s)),
{
    let u = trim_start(s);
    lemma_trim_start_shape(s);
    lemma_trim_end_shape(u);
    let a = choose|a: Seq<char>| all_white(a) && s == a + u;
    let b = choose|b: Seq<char>| all_white(b) && u == trim_end(u) + b;
    assert(s =~= a + trim(s) + b);
    if trim(s).len() > 0 {
        assert(trim(s)[0] == u[0]);
    }
}

/// A copy of `s` without leading and trailing white space.
pub fn trimmed(s: &str) -> (r: String)
    ensures
        r@ == trim(s@),
        is_trim_of(s@, r@),
{
    proof {
        lemma_trim_shape(s@);
    }
    let n: usize = s.unicode_len();
    let mut i: usize = 0;
    assert(s@.subrange(0, n as int) =~= s@);
    while i < n && is_whitespace(s.get_char(i))
        invariant
            n == s@.len(),
            i <= n,
            trim_start(s@) == trim_start(s@.subrange(i as int, n as int)),
        decreases n - i,
    {
        assert(s@.subrange(i as int, n as int).drop_first() =~= s@.subrange(i + 1, n as int));
        i = i + 1;
    }
    let ghost rest = s@.subrange(i as int, n as int);
    assert(trim_start(rest) == rest);
    let mut j: usize = n;
    while j > i && is_whitespace(s.get_char(j - 1))
        invariant
            n == s@.len(),
            i <= j <= n,
            rest == s@.subrange(i as int, n as int),
            trim_end(rest) == trim_end(s@.subrange(i as int, j as int)),
        decreases j - i,
    {
        assert(s@.subrange(i as int, j as int).drop_last() =~= s@.subrange(i as int, j - 1));
        j = j - 1;
    }
    let ghost kept = s@.subrange(i as int, j as int);
    assert(trim_end(kept) == kept);
    String::from_str(s.substring_char(i, j))
}

/// The character of the decimal digit `d`.
pub open spec fn digit_char(d: nat) -> char {
    (48 + d) as char
}

/// The decimal representation of `n`, without leading zeros.
pub open spec fn decimal(n: nat) -> Seq<char>
    decreases n,
{
    if n < 10 {
        seq![digit_char(n)]
    } else {
        decimal(n / 10).push(digit_char(n % 10))
    }
}

/// The port of the room, 6767, is written `6767`.
pub proof fn lemma_decimal_6767()
    ensures
        decimal(6767) == seq!['6', '7', '6', '7'],
{
    reveal_with_fuel(decimal, 5);
    assert(decimal(6) == seq!['6']);
    assert(decimal(67) =~= seq!['6', '7']);
    assert(decimal(676) =~= seq!['6', '7', '6']);
    assert(decimal(6767) =~= seq!['6', '7', '6', '7']);
}

/// The one-character string of the decimal digit `d`.
fn digit_str(d: u16) -> (r: &'static str)
    requires
        d < 10,
    ensures
        r@ == seq![digit_char(d as nat)],
{
    if d == 0 {
        proof { reveal_strlit("0"); }
        "0"
    } else if d == 1 {
        proof { reveal_strlit("1"); }
        "1"
    } else if d == 2 {
        proof { reveal_strlit("2"); }
        "2"
    } else if d == 3 {
        proof { reveal_strlit("3"); }
        "3"
    } else if d == 4 {
        proof { reveal_strlit("4"); }
        "4"
    } else if d == 5 {
        proof { reveal_strlit("5"); }
        "5"
    } else if d == 6 {
        proof { reveal_strlit("6"); }
        "6"
    } else if d == 7 {
        proof { reveal_strlit("7"); }
        "7"
    } else if d == 8 {
        proof { reveal_strlit("8"); }
        "8"
    } else {
        proof { reveal_strlit("9"); }
        "9"
    }
}

/// Appends the decimal representation of `n` to `out`.
pub fn push_decimal(out: &mut String, n: u16)
    ensures
        final(out)@ == old(out)@ + decimal(n as nat),
    decreases n,
{
    if n >= 10 {
        push_decimal(out, n / 10);
    }
    out.append(digit_str(n % 10));
    proof {
        if n >= 10 {
            assert(decimal(n as nat) == decimal((n / 10) as nat).push(digit_char((n % 10) as nat)));
        }
    }
}

} // verus!
