//! Stdout clean-up applied when `autofix` is on: every line loses its
//! trailing spaces, tabs and carriage returns and ends in exactly one line feed.
use vstd::prelude::*;

verus! {

pub const LINE_FEED: u8 = 10;

/// Bytes that are stripped from the end of every line.
pub open spec fn is_trailing_blank(b: u8) -> bool {
    b == 32u8 || b == 9u8 || b == 13u8
}

/// `s` without its run of trailing blanks.
pub open spec fn trim_end(s: Seq<u8>) -> Seq<u8>
    decreases s.len(),
{
    if s.len() > 0 && is_trailing_blank(s.last()) {
        trim_end(s.drop_last())
    } else {
        s
    }
}

/// Normal form of `rest`, where `line` is the part of the current line read so far.
pub open spec fn normalize_from(line: Seq<u8>, rest: Seq<u8>) -> Seq<u8>
    decreases rest.len(),
{
    if rest.len() == 0 {
        if line.len() == 0 {
            seq![]
        } else {
            trim_end(line).push(LINE_FEED)
        }
    } else if rest[0] == LINE_FEED {
        trim_end(line).push(LINE_FEED) + normalize_from(seq![], rest.drop_first())
    } else {
        normalize_from(line.push(rest[0]), rest.drop_first())
    }
}

/// The normal form of a whole buffer.
pub open spec fn normalized(s: Seq<u8>) -> Seq<u8> {
    normalize_from(seq![], s)
}

/// Text in which every line ends in a line feed and no line ends in a blank.
pub open spec fn has_clean_lines(r: Seq<u8>) -> bool {
    &&& (r.len() == 0 || r.last() == LINE_FEED)
    &&& forall|p: int| 0 < p < r.len() && r[p] == LINE_FEED ==> !is_trailing_blank(#[trigger] r[p - 1])
}

proof fn lemma_trim_end_prefix(s: Seq<u8>, k: int)
    requires
        0 <= k <= s.len(),
        forall|m: int| k <= m < s.len() ==> is_trailing_blank(#[trigger] s[m]),
        k == 0 || !is_trailing_blank(s[k - 1]),
    ensures
        trim_end(s) == s.subrange(0, k),
    decreases s.len(),
{
    if s.len() > k {
        assert(is_trailing_blank(s[s.len() - 1]));
        lemma_trim_end_prefix(s.drop_last(), k);
        assert(s.drop_last().subrange(0, k) =~= s.subrange(0, k));
    } else {
        assert(s.subrange(0, k) =~= s);
    }
}

proof fn lemma_trim_end_shape(s: Seq<u8>)
    ensures
        trim_end(s).len() <= s.len(),
        forall|m: int| 0 <= m < trim_end(s).len() ==> trim_end(s)[m] == s[m],
        trim_end(s).len() == 0 || !is_trailing_blank(trim_end(s).last()),
    decreases s.len(),
{
    if s.len() > 0 && is_trailing_blank(s.last()) {
        lemma_trim_end_shape(s.drop_last());
        assert forall|m: int| 0 <= m < trim_end(s).len() implies trim_end(s)[m] == s[m] by {
            assert(s.drop_last()[m] == s[m]);
        }
    }
}

proof fn lemma_clean_line_then(t: Seq<u8>, b: Seq<u8>)
    requires
        forall|m: int| 0 <= m < t.len() ==> t[m] != LINE_FEED,
        t.len() == 0 || !is_trailing_blank(t.last()),
        has_clean_lines(b),
    ensures
        has_clean_lines(t.push(LINE_FEED) + b),
{
    let a = t.push(LINE_FEED);
    let r = a + b;
    assert forall|p: int| 0 < p < r.len() && r[p] == LINE_FEED implies !is_trailing_blank(#[trigger] r[p - 1]) by {
        if p < t.len() {
            assert(r[p] == a[p]);
            assert(a[p] == t[p]);
        } else if p == t.len() {
            assert(r[p - 1] == a[p - 1]);
            assert(a[p - 1] == t[p - 1]);
        } else if p == a.len() {
            assert(r[p - 1] == LINE_FEED);
        } else {
            let q = p - a.len();
            assert(r[p] == b[q]);
            assert(r[p - 1] == b[q - 1]);
        }
    }
    if b.len() == 0 {
        assert(r =~= a);
    } else {
        assert(r.last() == b.last());
    }
}

proof fn lemma_normalize_from_clean(line: Seq<u8>, rest: Seq<u8>)
    requires
        forall|m: int| 0 <= m < line.len() ==> line[m] != LINE_FEED,
    ensures
        has_clean_lines(normalize_from(line, rest)),
    decreases rest.len(),
{
    lemma_trim_end_shape(line);
    let t = trim_end(line);
    assert forall|m: int| 0 <= m < t.len() implies t[m] != LINE_FEED by {
        assert(t[m] == line[m]);
    }
    if rest.len() == 0 {
        if line.len() > 0 {
            lemma_clean_line_then(t, seq![]);
            assert(t.push(LINE_FEED) + seq![] =~= t.push(LINE_FEED));
        }
    } else if rest[0] == LINE_FEED {
        lemma_normalize_from_clean(seq![], rest.drop_first());
        lemma_clean_line_then(t, normalize_from(seq![], rest.drop_first()));
    } else {
        lemma_normalize_from_clean(line.push(rest[0]), rest.drop_first());
    }
}

/// Every line of normalised text ends in a line feed, and none ends in a
/// space, a tab or a carriage return.
pub proof fn lemma_normalized_lines_are_clean(s: Seq<u8>)
    ensures
        has_clean_lines(normalized(s)),
{
    lemma_normalize_from_clean(seq![], s);
}

/// Normalising an empty buffer gives an empty buffer.
pub proof fn lemma_normalized_empty()
    ensures
        normalized(seq![]) == Seq::<u8>::empty(),
{
}

/// Appends `trim_end(data[start..end])` and a line feed to `out`.
fn push_trimmed_line(out: &mut Vec<u8>, data: &Vec<u8>, start: usize, end: usize)
    requires
        start <= end <= data.len(),
    ensures
        final(out)@ == old(out)@ + trim_end(data@.subrange(start as int, end as int)).push(LINE_FEED),
{
    let mut k: usize = end;
    while k > start && (data[k - 1] == 32u8 || data[k - 1] == 9u8 || data[k - 1] == 13u8)
        invariant
            start <= k <= end <= data.len(),
            forall|m: int| k <= m < end ==> is_trailing_blank(#[trigger] data@[m]),
        decreases k,
    {
        k = k - 1;
    }
    let ghost line = data@.subrange(start as int, end as int);
    proof {
        assert forall|m: int| (k - start) <= m < line.len() implies is_trailing_blank(#[trigger] line[m]) by {
            assert(line[m] == data@[start + m]);
        }
        lemma_trim_end_prefix(line, k - start);
    }
    let ghost before = out@;
    let mut j: usize = start;
    while j < k
        invariant
            start <= j <= k <= end <= data.len(),
            out@ == before + data@.subrange(start as int, j as int),
        decreases k - j,
    {
        out.push(data[j]);
        proof {
            assert(data@.subrange(start as int, j + 1) =~= data@.subrange(start as int, j as int).push(data@[j as int]));
        }
        j = j + 1;
    }
    out.push(LINE_FEED);
    proof {
        assert(line.subrange(0, k - start) =~= data@.subrange(start as int, k as int));
        assert(out@ =~= before + trim_end(line).push(LINE_FEED));
    }
}

/// Strips trailing spaces, tabs and carriage returns from every line of
/// `data` and ends every line, the last included, with one line feed.
pub fn autofix(data: &Vec<u8>) -> (r: Vec<u8>)
    ensures
        r@ == normalized(data@),
{
    let mut out: Vec<u8> = Vec::new();
    let mut start: usize = 0;
    let mut i: usize = 0;
    let ghost s = data@;
    proof {
        assert(s.subrange(0, 0) =~= Seq::<u8>::empty());
        assert(s.subrange(0, s.len() as int) =~= s);
    }
    while i < data.len()
        invariant
            s == data@,
            start <= i <= data.len(),
            out@ + normalize_from(s.subrange(start as int, i as int), s.subrange(i as int, s.len() as int))
                == normalized(s),
        decreases data.len() - i,
    {
        let ghost line = s.subrange(start as int, i as int);
        let ghost rest = s.subrange(i as int, s.len() as int);
        proof {
            assert(rest[0] == s[i as int]);
            assert(rest.drop_first() =~= s.subrange(i + 1, s.len() as int));
        }
        if data[i] == LINE_FEED {
            let ghost prev = out@;
            push_trimmed_line(&mut out, data, start, i);
            start = i + 1;
            proof {
                assert(s.subrange(start as int, start as int) =~= Seq::<u8>::empty());
                let tail = normalize_from(seq![], rest.drop_first());
                assert(out@ + tail =~= prev + (trim_end(line).push(LINE_FEED) + tail));
            }
        } else {
            proof {
                assert(line.push(s[i as int]) =~= s.subrange(start as int, i + 1));
            }
        }
        i = i + 1;
    }
    if start < data.len() {
        push_trimmed_line(&mut out, data, start, data.len());
    }
    proof {
        assert(s.subrange(i as int, s.len() as int) =~= Seq::<u8>::empty());
        if start == data.len() {
            assert(s.subrange(start as int, i as int) =~= Seq::<u8>::empty());
            assert(out@ + Seq::<u8>::empty() =~= out@);
        }
    }
    out
}

} // verus!
