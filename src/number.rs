//! Numeric literals kept in their original textual form.
use vstd::prelude::*;

verus! {

broadcast use vstd::string::group_string_axioms;

/// A decimal digit.
pub open spec fn is_digit(c: char) -> bool {
    '0' <= c && c <= '9'
}

/// One or more decimal digits and nothing else.
pub open spec fn is_digits(d: Seq<char>) -> bool {
    d.len() > 0 && forall|i: int| 0 <= i < d.len() ==> is_digit(#[trigger] d[i])
}

/// The value of a run of decimal digits, most significant first.
pub open spec fn digits_value(d: Seq<char>) -> int
    decreases d.len(),
{
    if d.len() == 0 {
        0
    } else {
        10 * digits_value(d.drop_last()) + (d.last() as int - '0' as int)
    }
}

/// The integer written as an optional `+` followed by digits, if `s` is one.
pub open spec fn unsigned_literal(s: Seq<char>) -> Option<int> {
    let d = if s.len() > 0 && s[0] == '+' { s.skip(1) } else { s };
    if is_digits(d) { Some(digits_value(d)) } else { None }
}

/// The integer written as an optional sign followed by digits, if `s` is one.
pub open spec fn signed_literal(s: Seq<char>) -> Option<int> {
    if s.len() > 0 && s[0] == '-' {
        if is_digits(s.skip(1)) { Some(-digits_value(s.skip(1))) } else { None }
    } else {
        unsigned_literal(s)
    }
}

/// A literal read as `u64`: its value where it is an unsigned integer that
/// fits, and 0 otherwise.
pub open spec fn u64_of(s: Seq<char>) -> u64 {
    match unsigned_literal(s) {
        Some(n) => if n <= u64::MAX { n as u64 } else { 0 },
        None => 0,
    }
}

/// A literal read as `i64`: its value where it is an integer that fits, and 0
/// otherwise.
pub open spec fn i64_of(s: Seq<char>) -> i64 {
    match signed_literal(s) {
        Some(n) => if i64::MIN <= n <= i64::MAX { n as i64 } else { 0 },
        None => 0,
    }
}

proof fn lemma_digits_value_nonneg(d: Seq<char>)
    requires
        forall|i: int| 0 <= i < d.len() ==> is_digit(#[trigger] d[i]),
    ensures
        digits_value(d) >= 0,
    decreases d.len(),
{
    if d.len() > 0 {
        lemma_digits_value_nonneg(d.drop_last());
    }
}

/// A prefix of a run of digits is worth no more than the whole run.
proof fn lemma_digits_value_prefix(d: Seq<char>, k: int)
    requires
        forall|i: int| 0 <= i < d.len() ==> is_digit(#[trigger] d[i]),
        0 <= k <= d.len(),
    ensures
        digits_value(d.take(k)) <= digits_value(d),
    decreases d.len(),
{
    if k < d.len() {
        let p = d.drop_last();
        lemma_digits_value_prefix(p, k);
        lemma_digits_value_nonneg(p);
        assert(p.take(k) =~= d.take(k));
    } else {
        assert(d.take(k) =~= d);
    }
}

/// The value of the digits of `s` from `start` on, where they are one or more
/// digits and nothing else and their value fits in `u64`.
fn magnitude(s: &str, start: usize) -> (r: Option<u64>)
    requires
        s.is_ascii(),
        start <= s@.len(),
    ensures
        r matches Some(v) ==> is_digits(s@.skip(start as int)) && v == digits_value(
            s@.skip(start as int),
        ),
        r is None ==> !is_digits(s@.skip(start as int)) || digits_value(s@.skip(start as int))
            > u64::MAX,
{
    let ghost d = s@.skip(start as int);
    let n = s.unicode_len();
    if start == n {
        return None;
    }
    let mut acc: u64 = 0;
    let mut i: usize = start;
    while i < n
        invariant
            start <= i <= n,
            n == s@.len(),
            s.is_ascii(),
            d == s@.skip(start as int),
            forall|j: int| 0 <= j < i - start ==> is_digit(#[trigger] d[j]),
            acc == digits_value(d.take(i - start)),
        decreases n - i,
    {
        let b = s.get_ascii(i);
        if b < 48 || b > 57 {
            assert(!is_digit(d[i - start]));
            return None;
        }
        let ghost p = d.take(i - start);
        assert(d.take(i + 1 - start).drop_last() =~= p);
        assert(d[i - start] as int - '0' as int == b as int - 48);
        let ten = acc.checked_mul(10);
        match ten {
            None => {
                proof {
                    lemma_digits_value_nonneg(p);
                    if is_digits(d) {
                        lemma_digits_value_prefix(d, i + 1 - start);
                    }
                }
                return None;
            },
            Some(t) => match t.checked_add((b - 48) as u64) {
                None => {
                    proof {
                        if is_digits(d) {
                            lemma_digits_value_prefix(d, i + 1 - start);
                        }
                    }
                    return None;
                },
                Some(v) => {
                    acc = v;
                },
            },
        }
        i = i + 1;
    }
    assert(d.take(n - start) =~= d);
    Some(acc)
}

/// Text holding a character beyond ASCII is no integer literal.
proof fn lemma_non_ascii_not_digits(s: Seq<char>)
    requires
        !vstd::utf8::is_ascii_chars(s),
    ensures
        unsigned_literal(s) is None,
        signed_literal(s) is None,
{
    let k = choose|k: int| 0 <= k < s.len() && !('\0' <= #[trigger] s[k] <= '\u{7f}');
    assert(s.skip(1).len() == s.len() - 1);
    if s.len() > 0 && k > 0 {
        assert(s.skip(1)[k - 1] == s[k]);
    }
}

/// A JSON numeric literal, held undecoded until a conversion asks for it.
/// Its integer readings take an optional sign and decimal digits whose value
/// fits the target type; any other text reads as 0.
pub struct Number {
    text: String,
}

impl View for Number {
    type V = Seq<char>;

    /// The literal's text, as written in the source.
    closed spec fn view(&self) -> Seq<char> {
        self.text@
    }
}

/// Relies on `String::from_utf8_lossy`: the text it decodes from given bytes
/// depends on those bytes alone.
pub uninterp spec fn lossy_text(b: Seq<u8>) -> Seq<char>;

/// Relies on `String::from_utf8_lossy` to decode bytes, with any invalid
/// sequence replaced; valid UTF-8 comes back as the text it encodes.
#[verifier::external_body]
fn decode_lossy(v: &[u8]) -> (r: String)
    ensures
        r@ == lossy_text(v@),
        vstd::utf8::valid_utf8(v@) ==> r@ == vstd::utf8::decode_utf8(v@),
{
    String::from_utf8_lossy(v).into_owned()
}

impl Clone for Number {
    fn clone(&self) -> (r: Number)
        ensures
            r == *self,
    {
        Number { text: self.text.clone() }
    }
}

impl PartialEq for Number {
    fn eq(&self, other: &Number) -> (r: bool)
        ensures
            r == (self@ == other@),
    {
        self.text == other.text
    }
}

impl vstd::std_specs::cmp::PartialEqSpecImpl for Number {
    open spec fn obeys_eq_spec() -> bool {
        true
    }

    open spec fn eq_spec(&self, other: &Number) -> bool {
        self@ == other@
    }
}

impl Number {
    /// A literal from the bytes of its text.
    pub fn from(v: &[u8]) -> (r: Number)
        ensures
            r@ == lossy_text(v@),
            vstd::utf8::valid_utf8(v@) ==> r@ == vstd::utf8::decode_utf8(v@),
    {
        Number { text: decode_lossy(v) }
    }

    /// A literal with the given text.
    pub fn from_text(s: &str) -> (r: Number)
        ensures
            r@ == s@,
    {
        Number { text: s.to_owned() }
    }

    /// The literal's original text.
    pub fn as_str(&self) -> (r: &str)
        ensures
            r@ == self@,
    {
        self.text.as_str()
    }

    /// The literal read as `u64`: its value where it is an unsigned integer
    /// that fits, 0 for any other text.
    pub fn to_u64(&self) -> (r: u64)
        ensures
            r == u64_of(self@),
    {
        let s = self.text.as_str();
        if !s.is_ascii() {
            proof { lemma_non_ascii_not_digits(s@); }
            return 0;
        }
        proof {
            assert(s@.skip(0) =~= s@);
        }
        let n = s.unicode_len();
        let start: usize = if n > 0 && s.get_ascii(0) == 43 { 1 } else { 0 };
        proof {
            if n > 0 {
                assert((s@[0] == '+') == (s@[0] as u8 == 43));
            }
        }
        match magnitude(s, start) {
            Some(v) => v,
            None => 0,
        }
    }

    /// The literal read as `i64`: its value where it is an integer that fits,
    /// 0 for any other text.
    pub fn to_i64(&self) -> (r: i64)
        ensures
            r == i64_of(self@),
    {
        let s = self.text.as_str();
        if !s.is_ascii() {
            proof { lemma_non_ascii_not_digits(s@); }
            return 0;
        }
        proof {
            assert(s@.skip(0) =~= s@);
        }
        let n = s.unicode_len();
        let first: u8 = if n > 0 { s.get_ascii(0) } else { 0 };
        let negative = n > 0 && first == 45;
        let start: usize = if n > 0 && (first == 45 || first == 43) { 1 } else { 0 };
        proof {
            if n > 0 {
                assert((s@[0] == '+') == (s@[0] as u8 == 43));
                assert((s@[0] == '-') == (s@[0] as u8 == 45));
            }
        }
        match magnitude(s, start) {
            None => 0,
            Some(m) => if negative {
                if m < 9223372036854775808 {
                    -(m as i64)
                } else if m == 9223372036854775808 {
                    i64::MIN
                } else {
                    0
                }
            } else if m <= 9223372036854775807 {
                m as i64
            } else {
                0
            },
        }
    }
}

} // verus!
