//! Byte-level text helpers: ASCII whitespace trimming, byte search, and
//! decimal integer reading and writing. The ASCII mesh layouts and the
//! polygon-text output are built from these.

use vstd::prelude::*;

verus! {

/// ASCII whitespace: space, tab, line feed, vertical tab, form feed,
/// carriage return.
pub open spec fn is_ws(b: u8) -> bool {
    b == 32 || (9 <= b && b <= 13)
}

pub(crate) fn is_ws_byte(b: u8) -> (r: bool)
    ensures
        r == is_ws(b),
{
    b == 32 || (9 <= b && b <= 13)
}

/// `s` with its leading ASCII whitespace removed.
pub open spec fn trim_front(s: Seq<u8>) -> Seq<u8>
    decreases s.len(),
{
    if s.len() > 0 && is_ws(s[0]) {
        trim_front(s.skip(1))
    } else {
        s
    }
}

/// `s` with its trailing ASCII whitespace removed.
pub open spec fn trim_back(s: Seq<u8>) -> Seq<u8>
    decreases s.len(),
{
    if s.len() > 0 && is_ws(s.last()) {
        trim_back(s.drop_last())
    } else {
        s
    }
}

/// `s` with ASCII whitespace removed from both ends.
pub open spec fn trimmed(s: Seq<u8>) -> Seq<u8> {
    trim_back(trim_front(s))
}

proof fn lemma_trim_front_skip(s: Seq<u8>, i: int)
    requires
        0 <= i <= s.len(),
        forall|j: int| 0 <= j < i ==> is_ws(#[trigger] s[j]),
        i == s.len() || !is_ws(s[i]),
    ensures
        trim_front(s) == s.skip(i),
    decreases i,
{
    if i == 0 {
        assert(s.skip(0) =~= s);
    } else {
        assert(is_ws(s[0]));
        assert(forall|j: int| 0 <= j < i - 1 ==> is_ws(#[trigger] s.skip(1)[j]) == is_ws(
            s[j + 1],
        ));
        lemma_trim_front_skip(s.skip(1), i - 1);
        assert(s.skip(1).skip(i - 1) =~= s.skip(i));
    }
}

proof fn lemma_trim_back_take(s: Seq<u8>, i: int)
    requires
        0 <= i <= s.len(),
        forall|j: int| i <= j < s.len() ==> is_ws(#[trigger] s[j]),
        i == 0 || !is_ws(s[i - 1]),
    ensures
        trim_back(s) == s.take(i),
    decreases s.len() - i,
{
    if i == s.len() {
        assert(s.take(i) =~= s);
    } else {
        assert(is_ws(s.last()));
        assert(s.drop_last() =~= s.take(s.len() - 1));
        assert(forall|j: int|
            i <= j < s.len() - 1 ==> is_ws(#[trigger] s.drop_last()[j]) == is_ws(s[j]));
        lemma_trim_back_take(s.drop_last(), i);
        assert(s.drop_last().take(i) =~= s.take(i));
    }
}

/// Returns the bounds of `data[start..end]` with ASCII whitespace removed
/// from both ends.
pub(crate) fn trim_bounds(data: &[u8], start: usize, end: usize) -> (r: (usize, usize))
    requires
        start <= end <= data@.len(),
    ensures
        start <= r.0 <= r.1 <= end,
        data@.subrange(r.0 as int, r.1 as int) == trimmed(
            data@.subrange(start as int, end as int),
        ),
{
    let ghost s = data@.subrange(start as int, end as int);
    let mut a = start;
    while a < end && is_ws_byte(*vstd::slice::slice_index_get(data, a))
        invariant
            start <= a <= end <= data@.len(),
            forall|j: int| start <= j < a ==> is_ws(#[trigger] data@[j]),
        decreases end - a,
    {
        a = a + 1;
    }
    proof {
        assert(forall|j: int| 0 <= j < a - start ==> is_ws(#[trigger] s[j]));
        assert(a - start == s.len() || !is_ws(s[a - start]));
        lemma_trim_front_skip(s, a - start);
    }
    if a == end {
        proof {
            assert(s.skip(a - start) =~= Seq::<u8>::empty());
            assert(trim_back(s.skip(a - start)) =~= Seq::<u8>::empty());
            assert(data@.subrange(a as int, a as int) =~= Seq::<u8>::empty());
        }
        return (a, a);
    }
    let mut b = end;
    while b > a && is_ws_byte(*vstd::slice::slice_index_get(data, b - 1))
        invariant
            start <= a <= b <= end <= data@.len(),
            forall|j: int| b <= j < end ==> is_ws(#[trigger] data@[j]),
        decreases b,
    {
        b = b - 1;
    }
    proof {
        if b == a {
            assert(is_ws(data@[a as int]));
            assert(!is_ws(s[a - start]));
            assert(s[a - start] == data@[a as int]);
            assert(false);
        }
        let t = s.skip(a - start);
        assert(t =~= data@.subrange(a as int, end as int));
        assert(forall|j: int| b - a <= j < t.len() ==> is_ws(#[trigger] t[j]) == is_ws(
            data@[a + j],
        ));
        assert(!is_ws(t[b - a - 1]));
        lemma_trim_back_take(t, b - a);
        assert(t.take(b - a) =~= data@.subrange(a as int, b as int));
    }
    (a, b)
}

/// The index of the first occurrence of `c` in `s`, if any.
pub open spec fn find_byte(s: Seq<u8>, c: u8) -> Option<int>
    decreases s.len(),
{
    if s.len() == 0 {
        None
    } else if s[0] == c {
        Some(0int)
    } else {
        match find_byte(s.skip(1), c) {
            Some(i) => Some(i + 1),
            None => None,
        }
    }
}

pub proof fn lemma_find_byte(s: Seq<u8>, c: u8)
    ensures
        match find_byte(s, c) {
            Some(i) => 0 <= i < s.len() && s[i] == c && forall|j: int|
                0 <= j < i ==> #[trigger] s[j] != c,
            None => forall|j: int| 0 <= j < s.len() ==> #[trigger] s[j] != c,
        },
    decreases s.len(),
{
    if s.len() > 0 && s[0] != c {
        lemma_find_byte(s.skip(1), c);
        let t = s.skip(1);
        assert(forall|j: int| 0 <= j < t.len() ==> #[trigger] t[j] == s[j + 1]);
        match find_byte(t, c) {
            Some(i) => {
                assert(find_byte(s, c) == Some(i + 1));
                assert(s[i + 1] == t[i]);
                assert forall|j: int| 0 <= j < i + 1 implies #[trigger] s[j] != c by {
                    if j > 0 {
                        assert(t[j - 1] != c);
                    }
                }
            },
            None => {
                assert forall|j: int| 0 <= j < s.len() implies #[trigger] s[j] != c by {
                    if j > 0 {
                        assert(t[j - 1] != c);
                    }
                }
            },
        }
    }
}

/// Looks for the first occurrence of `c` at or after `start`.
pub(crate) fn find_byte_from(data: &[u8], start: usize, c: u8) -> (r: Option<usize>)
    requires
        start <= data@.len(),
    ensures
        match r {
            Some(i) => start <= i < data@.len() && data@[i as int] == c && forall|j: int|
                start <= j < i ==> #[trigger] data@[j] != c,
            None => forall|j: int| start <= j < data@.len() ==> #[trigger] data@[j] != c,
        },
{
    let mut i = start;
    let n = data.len();
    while i < n
        invariant
            start <= i <= n == data@.len(),
            forall|j: int| start <= j < i ==> #[trigger] data@[j] != c,
        decreases n - i,
    {
        if *vstd::slice::slice_index_get(data, i) == c {
            return Some(i);
        }
        i = i + 1;
    }
    None
}

/// Identifies `find_byte` from the first-occurrence facts.
pub proof fn lemma_find_byte_from_facts(s: Seq<u8>, c: u8, r: Option<int>)
    requires
        match r {
            Some(i) => 0 <= i < s.len() && s[i] == c && forall|j: int|
                0 <= j < i ==> #[trigger] s[j] != c,
            None => forall|j: int| 0 <= j < s.len() ==> #[trigger] s[j] != c,
        },
    ensures
        find_byte(s, c) == r,
{
    lemma_find_byte(s, c);
    match find_byte(s, c) {
        Some(i) => {
            match r {
                Some(k) => {
                    if i < k {
                        assert(s[i] != c);
                    } else if k < i {
                        assert(s[k] != c);
                    }
                },
                None => {
                    assert(s[i] != c);
                },
            }
        },
        None => {
            match r {
                Some(k) => {
                    assert(s[k] != c);
                },
                None => {},
            }
        },
    }
}

/// The decimal digits of `n`, most significant first.
pub open spec fn dec_rep(n: nat) -> Seq<u8>
    decreases n,
{
    if n < 10 {
        seq![(48 + n) as u8]
    } else {
        dec_rep(n / 10).push((48 + n % 10) as u8)
    }
}

/// Writes `n` in decimal.
pub fn u64_dec(n: u64) -> (r: Vec<u8>)
    ensures
        r@ == dec_rep(n as nat),
    decreases n,
{
    if n < 10 {
        let mut v: Vec<u8> = Vec::new();
        v.push(48 + n as u8);
        proof {
            assert(v@ =~= dec_rep(n as nat));
        }
        v
    } else {
        let mut v = u64_dec(n / 10);
        v.push(48 + (n % 10) as u8);
        proof {
            assert(v@ =~= dec_rep(n as nat));
        }
        v
    }
}

/// Every byte is an ASCII decimal digit.
pub open spec fn all_digits(s: Seq<u8>) -> bool {
    forall|i: int| 0 <= i < s.len() ==> 48 <= #[trigger] s[i] <= 57
}

/// The integer value of a digit string, most significant digit first.
pub open spec fn dec_val(s: Seq<u8>) -> int
    decreases s.len(),
{
    if s.len() == 0 {
        0
    } else {
        10 * dec_val(s.drop_last()) + s.last() - 48
    }
}

/// What a decimal size field parses to: an optional leading `+`, then at
/// least one digit, and a value that fits the machine word.
pub open spec fn parse_dec_usize(s: Seq<u8>) -> Option<int> {
    let t = if s.len() > 0 && s[0] == 43 {
        s.skip(1)
    } else {
        s
    };
    if t.len() > 0 && all_digits(t) && dec_val(t) <= usize::MAX as int {
        Some(dec_val(t))
    } else {
        None
    }
}

proof fn lemma_dec_val_nonneg(s: Seq<u8>)
    requires
        all_digits(s),
    ensures
        dec_val(s) >= 0,
    decreases s.len(),
{
    if s.len() > 0 {
        assert(forall|i: int| 0 <= i < s.len() - 1 ==> 48 <= #[trigger] s.drop_last()[i] <= 57);
        lemma_dec_val_nonneg(s.drop_last());
    }
}

proof fn lemma_dec_val_mono(s: Seq<u8>, k: int)
    requires
        all_digits(s),
        0 <= k <= s.len(),
    ensures
        dec_val(s) >= dec_val(s.take(k)),
    decreases s.len() - k,
{
    if k == s.len() {
        assert(s.take(k) =~= s);
    } else {
        lemma_dec_val_mono(s, k + 1);
        let t = s.take(k + 1);
        assert(t.drop_last() =~= s.take(k));
        assert(forall|i: int| 0 <= i < t.len() ==> 48 <= #[trigger] t[i] <= 57);
        lemma_dec_val_nonneg(t.drop_last());
        assert(dec_val(t) == 10 * dec_val(s.take(k)) + t.last() - 48);
        assert(dec_val(t) >= dec_val(s.take(k)));
    }
}

/// Reads the decimal size field in `data[start..end]`.
pub(crate) fn parse_usize_dec(data: &[u8], start: usize, end: usize) -> (r: Option<usize>)
    requires
        start <= end <= data@.len(),
    ensures
        ({
            let s = data@.subrange(start as int, end as int);
            match r {
                Some(v) => parse_dec_usize(s) == Some(v as int),
                None => parse_dec_usize(s) == None::<int>,
            }
        }),
{
    let ghost s = data@.subrange(start as int, end as int);
    let mut i = start;
    if i < end && *vstd::slice::slice_index_get(data, i) == 43 {
        i = i + 1;
    }
    let ghost ds = i as int;
    let ghost t = data@.subrange(ds, end as int);
    proof {
        if s.len() > 0 && s[0] == 43 {
            assert(t =~= s.skip(1));
        } else {
            assert(t =~= s);
        }
    }
    if i == end {
        return None;
    }
    let mut acc: usize = 0;
    while i < end
        invariant
            0 <= start <= ds <= i <= end <= data@.len(),
            s == data@.subrange(start as int, end as int),
            t == data@.subrange(ds, end as int),
            t == (if s.len() > 0 && s[0] == 43 {
                s.skip(1)
            } else {
                s
            }),
            all_digits(data@.subrange(ds, i as int)),
            acc as int == dec_val(data@.subrange(ds, i as int)),
        decreases end - i,
    {
        let d = *vstd::slice::slice_index_get(data, i);
        if d < 48 || d > 57 {
            proof {
                assert(t.len() == end - ds);
                assert(t[i - ds] == data@[i as int]);
                assert(!all_digits(t));
            }
            return None;
        }
        let dv = (d - 48) as usize;
        let ghost pre = data@.subrange(ds, i as int);
        let ghost cur = data@.subrange(ds, i + 1 as int);
        proof {
            assert(cur.drop_last() =~= pre);
            assert(cur.last() == d);
            assert(forall|j: int| 0 <= j < cur.len() - 1 ==> 48 <= #[trigger] cur[j] <= 57);
        }
        if acc > usize::MAX / 10 || (acc == usize::MAX / 10 && dv > usize::MAX % 10) {
            proof {
                assert(dec_val(cur) == 10 * acc + dv);
                assert(10 * acc + dv > usize::MAX as int) by {
                    assert(usize::MAX as int == 10 * (usize::MAX as int / 10) + (
                    usize::MAX as int % 10));
                };
                assert(cur =~= t.take(i + 1 - ds));
                if all_digits(t) {
                    lemma_dec_val_mono(t, i + 1 - ds);
                    assert(dec_val(t) > usize::MAX as int);
                }
            }
            return None;
        }
        proof {
            assert(10 * acc + dv <= usize::MAX as int) by {
                assert(usize::MAX as int == 10 * (usize::MAX as int / 10) + (usize::MAX as int
                    % 10));
            };
        }
        acc = acc * 10 + dv;
        proof {
            assert(acc as int == dec_val(cur));
        }
        i = i + 1;
    }
    proof {
        assert(data@.subrange(ds, end as int) =~= t);
        assert(t.len() > 0);
    }
    Some(acc)
}


/// Looks for the first occurrence of `c` in `data[start..end)`.
pub(crate) fn find_byte_in(data: &[u8], start: usize, end: usize, c: u8) -> (r: Option<usize>)
    requires
        start <= end <= data@.len(),
    ensures
        match r {
            Some(i) => start <= i < end && data@[i as int] == c && forall|j: int|
                start <= j < i ==> #[trigger] data@[j] != c,
            None => forall|j: int| start <= j < end ==> #[trigger] data@[j] != c,
        },
{
    let mut i = start;
    while i < end
        invariant
            start <= i <= end <= data@.len(),
            forall|j: int| start <= j < i ==> #[trigger] data@[j] != c,
        decreases end - i,
    {
        if *vstd::slice::slice_index_get(data, i) == c {
            return Some(i);
        }
        i = i + 1;
    }
    None
}

} // verus!
