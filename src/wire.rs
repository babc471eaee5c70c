use vstd::prelude::*;

verus! {

/// The bytes of an ASCII text, one per character.
pub open spec fn ascii(s: Seq<char>) -> Seq<u8> {
    s.map_values(|c: char| #[verifier::truncate] (c as u8))
}

/// Appends the characters of `s` to `out`, one byte each.
pub fn push_ascii(out: &mut Vec<u8>, s: &str)
    ensures
        final(out)@ == old(out)@ + ascii(s@),
{
    let n = s.unicode_len();
    let mut i: usize = 0;
    assert(ascii(s@.subrange(0, 0)) =~= Seq::<u8>::empty());
    assert(out@ =~= old(out)@ + ascii(s@.subrange(0, 0)));
    while i < n
        invariant
            n == s@.len(),
            i <= n,
            out@ == old(out)@ + ascii(s@.subrange(0, i as int)),
        decreases n - i,
    {
        let c = s.get_char(i);
        out.push(#[verifier::truncate] (c as u8));
        assert(ascii(s@.subrange(0, i + 1)) =~= ascii(s@.subrange(0, i as int)).push(
            #[verifier::truncate] (c as u8),
        ));
        i = i + 1;
    }
    assert(s@.subrange(0, n as int) =~= s@);
}

/// Whether `b` holds the characters of `s` from position `at` on.
pub open spec fn ascii_at_spec(b: Seq<u8>, at: int, s: Seq<char>) -> bool {
    at + s.len() <= b.len() && b.subrange(at, at + s.len()) == ascii(s)
}

/// Whether `b` holds the characters of `s` from position `at` on.
pub fn ascii_at(b: &[u8], at: usize, s: &str) -> (r: bool)
    ensures
        r == ascii_at_spec(b@, at as int, s@),
{
    let n = s.unicode_len();
    if at > b.len() || n > b.len() - at {
        return false;
    }
    let mut i: usize = 0;
    while i < n
        invariant
            n == s@.len(),
            i <= n,
            at + n <= b.len(),
            forall|k: int|
                0 <= k < i ==> b@[at + k] == #[verifier::truncate] (s@[k] as u8),
        decreases n - i,
    {
        if b[at + i] != #[verifier::truncate] (s.get_char(i) as u8) {
            assert(b@.subrange(at as int, at + n)[i as int] != ascii(s@)[i as int]);
            return false;
        }
        i = i + 1;
    }
    assert(b@.subrange(at as int, at + n) =~= ascii(s@));
    true
}

/// Whether `b` is exactly the characters of `s`.
pub fn ascii_is(b: &[u8], s: &str) -> (r: bool)
    ensures
        r == (b@ == ascii(s@)),
{
    let r = b.len() == s.unicode_len() && ascii_at(b, 0, s);
    proof {
        if b@.len() == s@.len() {
            assert(b@.subrange(0, b@.len() as int) =~= b@);
        }
        if b@ == ascii(s@) {
            assert(b@.len() == s@.len());
        }
    }
    r
}

pub open spec fn is_digit(c: u8) -> bool {
    48 <= c <= 57
}

/// The value of a run of decimal digits.
pub open spec fn digits_value(s: Seq<u8>) -> nat
    decreases s.len(),
{
    if s.len() == 0 {
        0
    } else {
        digits_value(s.drop_last()) * 10 + (s.last() - 48) as nat
    }
}

/// The number that `s` writes in decimal: digits only, no leading zero, and
/// within `u64`.
pub open spec fn number_of(s: Seq<u8>) -> Option<u64> {
    if s.len() > 0 && (forall|i: int| 0 <= i < s.len() ==> is_digit(#[trigger] s[i])) && (s.len()
        == 1 || s[0] != 48) && digits_value(s) <= u64::MAX {
        Some(digits_value(s) as u64)
    } else {
        None
    }
}

/// The decimal digits of `n`.
pub open spec fn decimal(n: nat) -> Seq<u8>
    decreases n,
{
    if n < 10 {
        seq![(48 + n) as u8]
    } else {
        decimal(n / 10).push((48 + n % 10) as u8)
    }
}

/// `n` in decimal, with a minus sign when negative.
pub open spec fn signed_decimal(n: int) -> Seq<u8> {
    if n < 0 {
        seq![45u8] + decimal((-n) as nat)
    } else {
        decimal(n as nat)
    }
}

/// The decimal digits of `n` are digits, without a leading zero, and read back
/// as `n`.
pub proof fn lemma_decimal_digits(n: nat)
    ensures
        decimal(n).len() >= 1,
        forall|i: int| 0 <= i < decimal(n).len() ==> is_digit(#[trigger] decimal(n)[i]),
        decimal(n).len() == 1 || decimal(n)[0] != 48,
        n >= 1 ==> decimal(n)[0] != 48,
        digits_value(decimal(n)) == n,
    decreases n,
{
    if n < 10 {
        assert(decimal(n).drop_last() =~= Seq::<u8>::empty());
        assert(decimal(n).last() == (48 + n) as u8);
        assert(digits_value(decimal(n)) == digits_value(Seq::<u8>::empty()) * 10 + (decimal(
            n,
        ).last() - 48) as nat);
    } else {
        let m = n / 10;
        lemma_decimal_digits(m);
        let d = decimal(n);
        assert(d.drop_last() =~= decimal(m));
        assert forall|i: int| 0 <= i < d.len() implies is_digit(#[trigger] d[i]) by {
            if i < d.len() - 1 {
                assert(d[i] == decimal(m)[i]);
            }
        }
        assert(d[0] == decimal(m)[0]);
        assert(d.last() == (48 + n % 10) as u8);
        assert((d.last() - 48) as nat == n % 10);
        assert(m * 10 + n % 10 == n);
        assert(digits_value(d) == digits_value(decimal(m)) * 10 + (d.last() - 48) as nat);
    }
}

/// Reading the decimal digits of a `u64` gives it back.
pub proof fn lemma_number_of_decimal(n: u64)
    ensures
        number_of(decimal(n as nat)) == Some(n),
{
    lemma_decimal_digits(n as nat);
}

proof fn lemma_digits_value_prefix(s: Seq<u8>, k: int)
    requires
        0 <= k <= s.len(),
        forall|i: int| 0 <= i < s.len() ==> is_digit(#[trigger] s[i]),
    ensures
        digits_value(s) >= digits_value(s.subrange(0, k)),
    decreases s.len(),
{
    if k < s.len() {
        let p = s.drop_last();
        assert forall|i: int| 0 <= i < p.len() implies is_digit(#[trigger] p[i]) by {
            assert(p[i] == s[i]);
        }
        lemma_digits_value_prefix(p, k);
        assert(p.subrange(0, k) =~= s.subrange(0, k));
        assert(is_digit(s[s.len() - 1]));
    } else {
        assert(s.subrange(0, k) =~= s);
    }
}

/// The number written in decimal in `b` between `start` and `end`.
pub fn parse_number(b: &[u8], start: usize, end: usize) -> (r: Option<u64>)
    requires
        start <= end <= b@.len(),
    ensures
        r == number_of(b@.subrange(start as int, end as int)),
{
    let ghost s = b@.subrange(start as int, end as int);
    if start == end {
        return None;
    }
    if end - start > 1 && b[start] == 48 {
        assert(s[0] == 48);
        return None;
    }
    let mut acc: u64 = 0;
    let mut i: usize = start;
    assert(s.subrange(0, 0) =~= Seq::<u8>::empty());
    while i < end
        invariant
            start <= i <= end <= b@.len(),
            s == b@.subrange(start as int, end as int),
            acc as nat == digits_value(s.subrange(0, i - start)),
            forall|k: int| 0 <= k < i - start ==> is_digit(#[trigger] s[k]),
        decreases end - i,
    {
        let c = b[i];
        let ghost j = i - start;
        assert(s[j] == c);
        assert(s.subrange(0, j + 1).drop_last() =~= s.subrange(0, j));
        if c < 48 || c > 57 {
            return None;
        }
        let d = (c - 48) as u64;
        if acc > (u64::MAX - d) / 10 {
            proof {
                assert(digits_value(s.subrange(0, j + 1)) > u64::MAX) by (nonlinear_arith)
                    requires
                        acc > (u64::MAX - d) / 10,
                        digits_value(s.subrange(0, j + 1)) == acc * 10 + d,
                        d <= 9,
                ;
                if forall|k: int| 0 <= k < s.len() ==> is_digit(#[trigger] s[k]) {
                    lemma_digits_value_prefix(s, j + 1);
                }
            }
            return None;
        }
        acc = acc * 10 + d;
        i = i + 1;
    }
    assert(s.subrange(0, end - start) =~= s);
    Some(acc)
}

/// What serde_json writes for a string: a quoted, escaped JSON literal.
pub uninterp spec fn json_string_of(s: Seq<char>) -> Seq<u8>;

/// Relies on serde_json::to_vec on a `str`: the JSON string literal of `s`. It
/// fails only where the writer fails, and a `Vec` never does.
#[verifier::external_body]
fn json_string(s: &str) -> (r: Vec<u8>)
    ensures
        r@ == json_string_of(s@),
{
    match serde_json::to_vec(s) {
        Ok(v) => v,
        Err(_) => Vec::new(),
    }
}

/// Relies on serde_json::to_vec on a `u64`: its decimal digits. It fails only
/// where the writer fails, and a `Vec` never does.
#[verifier::external_body]
fn json_u64(n: u64) -> (r: Vec<u8>)
    ensures
        r@ == decimal(n as nat),
{
    match serde_json::to_vec(&n) {
        Ok(v) => v,
        Err(_) => Vec::new(),
    }
}

/// Relies on serde_json::to_vec on an `i64`: its decimal digits, after a minus
/// sign when negative. It fails only where the writer fails, and a `Vec` never
/// does.
#[verifier::external_body]
fn json_i64(n: i64) -> (r: Vec<u8>)
    ensures
        r@ == signed_decimal(n as int),
{
    match serde_json::to_vec(&n) {
        Ok(v) => v,
        Err(_) => Vec::new(),
    }
}

/// Appends the JSON string literal of `s`.
pub fn push_json_string(out: &mut Vec<u8>, s: &str)
    ensures
        final(out)@ == old(out)@ + json_string_of(s@),
{
    let mut v = json_string(s);
    out.append(&mut v);
}

/// Appends `n` in decimal.
pub fn push_u64(out: &mut Vec<u8>, n: u64)
    ensures
        final(out)@ == old(out)@ + decimal(n as nat),
{
    let mut v = json_u64(n);
    out.append(&mut v);
}

/// Appends `n` in decimal, with a minus sign when negative.
pub fn push_i64(out: &mut Vec<u8>, n: i64)
    ensures
        final(out)@ == old(out)@ + signed_decimal(n as int),
{
    let mut v = json_i64(n);
    out.append(&mut v);
}

} // verus!
