//! Byte and string helpers: copies, scratch paths, decimal numbers and random ids.
use vstd::prelude::*;
use vstd::string::StringExecFns;

verus! {

/// The digit of value `d` in base 36: `0`..`9`, then `a`..`z`.
pub open spec fn digit_char(d: nat) -> char {
    if d < 10 {
        (48 + d) as u8 as char
    } else {
        (87 + d) as u8 as char
    }
}

/// Characters that a random id is made of.
pub open spec fn is_id_char(c: char) -> bool {
    ('0' <= c && c <= '9') || ('a' <= c && c <= 'z')
}

/// Decimal digits of `n`, most significant first, with no leading zero.
pub open spec fn decimal(n: nat) -> Seq<char>
    decreases n,
{
    if n < 10 {
        seq![digit_char(n)]
    } else {
        decimal(n / 10).push(digit_char(n % 10))
    }
}

/// Path of `name` under the directory `root`.
pub open spec fn joined(root: Seq<char>, name: Seq<char>) -> Seq<char> {
    root + seq!['/'] + name
}

/// Relies on fastrand::usize: a number drawn from the range `0..n`, which
/// panics only when the range is empty.
#[verifier::external_body]
fn random_below(n: usize) -> (r: usize)
    requires
        n > 0,
    ensures
        r < n,
{
    fastrand::usize(0..n)
}

/// Relies on `String: FromIterator<char>`: the characters in order.
#[verifier::external_body]
fn string_of(chars: Vec<char>) -> (r: String)
    ensures
        r@ == chars@,
{
    String::from_iter(chars)
}

/// The base-36 digit of value `d`.
pub fn digit(d: u8) -> (c: char)
    requires
        d < 36,
    ensures
        c == digit_char(d as nat),
        is_id_char(c),
{
    if d < 10 {
        (48u8 + d) as char
    } else {
        (87u8 + d) as char
    }
}

/// A copy of `v`.
pub fn copy_bytes(v: &Vec<u8>) -> (r: Vec<u8>)
    ensures
        r@ == v@,
{
    let mut r: Vec<u8> = Vec::new();
    let mut i: usize = 0;
    while i < v.len()
        invariant
            i <= v.len(),
            r@ == v@.subrange(0, i as int),
        decreases v.len() - i,
    {
        r.push(v[i]);
        proof {
            assert(v@.subrange(0, i + 1) =~= v@.subrange(0, i as int).push(v@[i as int]));
        }
        i = i + 1;
    }
    proof {
        assert(v@.subrange(0, v.len() as int) =~= v@);
    }
    r
}

/// The first `max` bytes of `v`, or all of them when `max` is absent or not smaller.
pub fn take_prefix(v: &Vec<u8>, max: Option<u64>) -> (r: Vec<u8>)
    ensures
        r@ == truncated(v@, max),
{
    let n: usize = match max {
        Some(m) => if (m as u128) < (v.len() as u128) {
            m as usize
        } else {
            v.len()
        },
        None => v.len(),
    };
    let mut r: Vec<u8> = Vec::new();
    let mut i: usize = 0;
    while i < n
        invariant
            n <= v.len(),
            i <= n,
            r@ == v@.subrange(0, i as int),
        decreases n - i,
    {
        r.push(v[i]);
        proof {
            assert(v@.subrange(0, i + 1) =~= v@.subrange(0, i as int).push(v@[i as int]));
        }
        i = i + 1;
    }
    proof {
        assert(v@.subrange(0, v.len() as int) =~= v@);
    }
    r
}

/// The first `max` elements of `s`; all of `s` when `max` is absent.
pub open spec fn truncated(s: Seq<u8>, max: Option<u64>) -> Seq<u8> {
    match max {
        Some(m) => if m < s.len() {
            s.subrange(0, m as int)
        } else {
            s
        },
        None => s,
    }
}

/// A cap of zero bytes keeps nothing.
pub proof fn lemma_truncated_to_zero(s: Seq<u8>)
    ensures
        truncated(s, Some(0u64)) == Seq::<u8>::empty(),
{
    if s.len() > 0 {
        assert(s.subrange(0, 0) =~= Seq::<u8>::empty());
    }
}

/// A cap at least as large as the stream keeps all of it.
pub proof fn lemma_truncated_large_cap(s: Seq<u8>, m: u64)
    requires
        m >= s.len(),
    ensures
        truncated(s, Some(m)) == s,
{
}

fn push_decimal(n: u64, out: &mut Vec<char>)
    ensures
        final(out)@ == old(out)@ + decimal(n as nat),
    decreases n,
{
    if n >= 10 {
        push_decimal(n / 10, out);
    }
    let c = digit((n % 10) as u8);
    out.push(c);
    proof {
        if n < 10 {
            assert(n % 10 == n);
        }
    }
}

/// `prefix` followed by the decimal digits of `n`.
pub fn with_decimal(prefix: &str, n: u64) -> (r: String)
    ensures
        r@ == prefix@ + decimal(n as nat),
{
    let mut chars: Vec<char> = Vec::new();
    push_decimal(n, &mut chars);
    let digits = string_of(chars);
    let mut r = String::from_str(prefix);
    r.append(digits.as_str());
    r
}

/// `prefix` followed by `s`.
pub fn prefixed(prefix: &str, s: &String) -> (r: String)
    ensures
        r@ == prefix@ + s@,
{
    let mut r = String::from_str(prefix);
    r.append(s.as_str());
    r
}

/// The path of `name` under the directory `root`.
pub fn join_path(root: &String, name: &String) -> (r: String)
    ensures
        r@ == joined(root@, name@),
{
    let mut r = root.clone();
    r.append("/");
    r.append(name.as_str());
    proof {
        reveal_strlit("/");
    }
    r
}

/// A random id of `length` characters, each a digit or a lower-case letter.
pub fn gen_random_id(length: u32) -> (r: String)
    ensures
        r@.len() == length,
        forall|i: int| 0 <= i < r@.len() ==> is_id_char(#[trigger] r@[i]),
{
    let mut chars: Vec<char> = Vec::new();
    let mut i: u32 = 0;
    while i < length
        invariant
            i <= length,
            chars@.len() == i,
            forall|k: int| 0 <= k < chars@.len() ==> is_id_char(#[trigger] chars@[k]),
        decreases length - i,
    {
        let d = random_below(36);
        let c = digit(d as u8);
        chars.push(c);
        i = i + 1;
    }
    string_of(chars)
}

} // verus!
