//! Verified text utilities: decimal rendering and parsing, trimming,
//! substring search, splitting, and single-quote escaping.  Each executable
//! function is proved against a spec function that defines the operation
//! over sequences of characters.

use vstd::prelude::*;

verus! {

/// Relies on `String::push`: appends exactly one character.
#[verifier::external_body]
pub fn push_char(s: &mut String, c: char)
    ensures
        final(s)@ == old(s)@.push(c),
{
    s.push(c);
}

/// The whitespace characters this library trims and splits on: space, tab,
/// carriage return, line feed.
pub open spec fn is_ws(c: char) -> bool {
    c == ' ' || c == '\t' || c == '\r' || c == '\n'
}

fn is_ws_exec(c: char) -> (r: bool)
    ensures
        r == is_ws(c),
{
    c == ' ' || c == '\t' || c == '\r' || c == '\n'
}

/// An ASCII decimal digit (code points 48 through 57).
pub open spec fn is_digit(c: char) -> bool {
    48 <= (c as u32) <= 57
}

/// The numeric value of a digit character.
pub open spec fn digit_val(c: char) -> int {
    c as u32 - 48
}

/// The digit character for a value below ten.
pub open spec fn digit_char(d: int) -> char {
    if d == 0 {
        '0'
    } else if d == 1 {
        '1'
    } else if d == 2 {
        '2'
    } else if d == 3 {
        '3'
    } else if d == 4 {
        '4'
    } else if d == 5 {
        '5'
    } else if d == 6 {
        '6'
    } else if d == 7 {
        '7'
    } else if d == 8 {
        '8'
    } else {
        '9'
    }
}

/// The decimal digits of `v`, most significant first, without leading
/// zeroes (a single `'0'` for zero).
pub open spec fn dec_digits(v: nat) -> Seq<char>
    decreases v,
{
    if v < 10 {
        seq![digit_char(v as int)]
    } else {
        dec_digits(v / 10).push(digit_char((v % 10) as int))
    }
}

fn digit_char_exec(d: u64) -> (c: char)
    requires
        d < 10,
    ensures
        c == digit_char(d as int),
{
    if d == 0 {
        '0'
    } else if d == 1 {
        '1'
    } else if d == 2 {
        '2'
    } else if d == 3 {
        '3'
    } else if d == 4 {
        '4'
    } else if d == 5 {
        '5'
    } else if d == 6 {
        '6'
    } else if d == 7 {
        '7'
    } else if d == 8 {
        '8'
    } else {
        '9'
    }
}

/// Renders `v` in decimal.
pub fn u64_to_dec(v: u64) -> (r: String)
    ensures
        r@ == dec_digits(v as nat),
    decreases v,
{
    if v < 10 {
        let mut s = String::new();
        push_char(&mut s, digit_char_exec(v));
        proof {
            assert(s@ =~= dec_digits(v as nat));
        }
        s
    } else {
        let mut s = u64_to_dec(v / 10);
        push_char(&mut s, digit_char_exec(v % 10));
        s
    }
}

/// `s` without leading whitespace.
pub open spec fn trim_front(s: Seq<char>) -> Seq<char>
    decreases s.len(),
{
    if s.len() > 0 && is_ws(s[0]) {
        trim_front(s.drop_first())
    } else {
        s
    }
}

/// `s` without trailing whitespace.
pub open spec fn trim_back(s: Seq<char>) -> Seq<char>
    decreases s.len(),
{
    if s.len() > 0 && is_ws(s.last()) {
        trim_back(s.drop_last())
    } else {
        s
    }
}

/// `s` without leading or trailing whitespace.
pub open spec fn trimmed(s: Seq<char>) -> Seq<char> {
    trim_back(trim_front(s))
}

proof fn lemma_trim_front_skip(s: Seq<char>, a: int)
    requires
        0 <= a <= s.len(),
        forall|j: int| 0 <= j < a ==> is_ws(#[trigger] s[j]),
        a < s.len() ==> !is_ws(s[a]),
    ensures
        trim_front(s) =~= s.subrange(a, s.len() as int),
    decreases a,
{
    if a == 0 {
        if s.len() > 0 && is_ws(s[0]) {
            assert(false);
        }
        assert(trim_front(s) == s);
        assert(s =~= s.subrange(0, s.len() as int));
    } else {
        assert(is_ws(s[0]));
        let t = s.drop_first();
        assert(forall|j: int| 0 <= j < a - 1 ==> is_ws(#[trigger] t[j]));
        lemma_trim_front_skip(t, a - 1);
        assert(t.subrange(a - 1, t.len() as int) =~= s.subrange(a, s.len() as int));
    }
}

proof fn lemma_trim_back_skip(s: Seq<char>, z: int)
    requires
        0 <= z <= s.len(),
        forall|j: int| z <= j < s.len() ==> is_ws(#[trigger] s[j]),
        z > 0 ==> !is_ws(s[z - 1]),
    ensures
        trim_back(s) =~= s.subrange(0, z),
    decreases s.len() - z,
{
    if z == s.len() {
        if s.len() > 0 && is_ws(s.last()) {
            let t = s.drop_last();
            assert(forall|j: int| z - 1 <= j < t.len() ==> is_ws(#[trigger] t[j]));
            lemma_trim_back_skip(t, z - 1);
            assert(t.subrange(0, z - 1) =~= s.subrange(0, z - 1));
        } else {
            assert(trim_back(s) == s);
            assert(s =~= s.subrange(0, s.len() as int));
        }
    } else {
        assert(is_ws(s.last()));
        let t = s.drop_last();
        assert(forall|j: int| z <= j < t.len() ==> is_ws(#[trigger] t[j]));
        lemma_trim_back_skip(t, z);
        assert(t.subrange(0, z) =~= s.subrange(0, z));
    }
}

/// A copy of `s` with leading and trailing whitespace removed.
pub fn trim_str(s: &str) -> (r: String)
    ensures
        r@ == trimmed(s@),
{
    let n = s.unicode_len();
    let mut a: usize = 0;
    while a < n && is_ws_exec(s.get_char(a))
        invariant
            a <= n,
            n == s@.len(),
            forall|j: int| 0 <= j < a ==> is_ws(#[trigger] s@[j]),
        decreases n - a,
    {
        a += 1;
    }
    let mut z: usize = n;
    while z > a && is_ws_exec(s.get_char(z - 1))
        invariant
            a <= z <= n,
            n == s@.len(),
            forall|j: int| 0 <= j < a ==> is_ws(#[trigger] s@[j]),
            a < n ==> !is_ws(s@[a as int]),
            forall|j: int| z <= j < n ==> is_ws(#[trigger] s@[j]),
        decreases z,
    {
        z -= 1;
    }
    let mut r = String::new();
    let mut i: usize = a;
    while i < z
        invariant
            a <= i <= z <= n,
            n == s@.len(),
            r@ == s@.subrange(a as int, i as int),
        decreases z - i,
    {
        let c = s.get_char(i);
        push_char(&mut r, c);
        proof {
            assert(r@ =~= s@.subrange(a as int, i + 1));
        }
        i += 1;
    }
    proof {
        let sv = s@;
        lemma_trim_front_skip(sv, a as int);
        let f = trim_front(sv);
        assert(f =~= sv.subrange(a as int, sv.len() as int));
        if a < n && z == n {
            lemma_trim_back_skip(f, f.len() as int);
        }
        if z == a {
            // everything between the bounds is whitespace or empty
            assert forall|j: int| 0 <= j < f.len() implies is_ws(#[trigger] f[j]) by {
                assert(f[j] == sv[a + j]);
            }
            lemma_trim_back_skip(f, 0);
        } else {
            // s[z - 1] is not whitespace, everything from z on is
            assert forall|j: int| z - a <= j < f.len() implies is_ws(#[trigger] f[j]) by {
                assert(f[j] == sv[a + j]);
            }
            assert(f[z - a - 1] == sv[z - 1]);
            lemma_trim_back_skip(f, z - a);
            assert(f.subrange(0, z - a) =~= sv.subrange(a as int, z as int));
        }
        assert(r@ =~= sv.subrange(a as int, z as int));
    }
    r
}

/// `needle` occurs in `hay` starting at position `i`.
pub open spec fn occurs_at(hay: Seq<char>, needle: Seq<char>, i: int) -> bool {
    &&& 0 <= i
    &&& i + needle.len() <= hay.len()
    &&& hay.subrange(i, i + needle.len() as int) == needle
}

/// `needle` occurs somewhere in `hay`.
pub open spec fn contains_sub(hay: Seq<char>, needle: Seq<char>) -> bool {
    exists|i: int| occurs_at(hay, needle, i)
}

/// Whether `needle` occurs in `hay`.
pub fn str_contains(hay: &str, needle: &str) -> (r: bool)
    ensures
        r == contains_sub(hay@, needle@),
{
    let hn = hay.unicode_len();
    let nn = needle.unicode_len();
    if nn == 0 {
        proof {
            assert(hay@.subrange(0, 0) =~= needle@);
            assert(occurs_at(hay@, needle@, 0));
        }
        return true;
    }
    if nn > hn {
        proof {
            assert(!contains_sub(hay@, needle@)) by {
                if contains_sub(hay@, needle@) {
                    let i = choose|i: int| occurs_at(hay@, needle@, i);
                }
            }
        }
        return false;
    }
    let mut i: usize = 0;
    proof {
        assert(hay@.subrange(0, 0) =~= needle@.subrange(0, 0));
    }
    while i <= hn - nn
        invariant
            1 <= nn <= hn,
            hn == hay@.len(),
            nn == needle@.len(),
            i <= hn - nn + 1,
            forall|k: int| 0 <= k < i ==> !occurs_at(hay@, needle@, k),
        decreases hn - nn + 1 - i,
    {
        let mut j: usize = 0;
        let mut matches = true;
        proof {
            assert(hay@.subrange(i as int, i as int) =~= needle@.subrange(0, 0));
        }
        while j < nn
            invariant
                i + nn <= hn,
                hn == hay@.len(),
                nn == needle@.len(),
                j <= nn,
                matches == (hay@.subrange(i as int, i + j) == needle@.subrange(0, j as int)),
            decreases nn - j,
        {
            let ghost pre = matches;
            if hay.get_char(i + j) != needle.get_char(j) {
                matches = false;
            }
            proof {
                let hseg = hay@.subrange(i as int, i + j + 1);
                let nseg = needle@.subrange(0, j + 1);
                if pre && hay@[i + j] == needle@[j as int] {
                    assert(hseg =~= hay@.subrange(i as int, i as int + j).push(hay@[i + j]));
                    assert(nseg =~= needle@.subrange(0, j as int).push(needle@[j as int]));
                    assert(hseg == nseg);
                } else {
                    if hseg == nseg {
                        assert(hseg[j as int] == hay@[i + j]);
                        assert(nseg[j as int] == needle@[j as int]);
                        assert(hseg.subrange(0, j as int) =~= hay@.subrange(
                            i as int,
                            i as int + j,
                        ));
                        assert(nseg.subrange(0, j as int) =~= needle@.subrange(0, j as int));
                    }
                    assert(hseg != nseg);
                }
            }
            j += 1;
        }
        if matches {
            proof {
                assert(needle@.subrange(0, nn as int) =~= needle@);
                assert(occurs_at(hay@, needle@, i as int));
            }
            return true;
        }
        proof {
            assert(needle@.subrange(0, nn as int) =~= needle@);
        }
        i += 1;
    }
    proof {
        if contains_sub(hay@, needle@) {
            let k = choose|k: int| occurs_at(hay@, needle@, k);
            assert(!occurs_at(hay@, needle@, k));
        }
    }
    false
}


/// `s` split on every occurrence of `sep`: always at least one part, parts
/// in order, separators not included.
pub open spec fn split_on(s: Seq<char>, sep: char) -> Seq<Seq<char>>
    decreases s.len(),
{
    if s.len() == 0 {
        seq![Seq::<char>::empty()]
    } else if s.last() == sep {
        split_on(s.drop_last(), sep).push(Seq::<char>::empty())
    } else {
        let r = split_on(s.drop_last(), sep);
        r.update(r.len() - 1, r.last().push(s.last()))
    }
}

/// `split_on` never returns an empty part list.
pub proof fn lemma_split_on_len(s: Seq<char>, sep: char)
    ensures
        split_on(s, sep).len() >= 1,
    decreases s.len(),
{
    if s.len() > 0 {
        lemma_split_on_len(s.drop_last(), sep);
    }
}

/// Splits `s` on every occurrence of `sep`.
pub fn split_str(s: &str, sep: char) -> (r: Vec<String>)
    ensures
        r.deep_view() == split_on(s@, sep),
{
    let n = s.unicode_len();
    let mut parts: Vec<String> = Vec::new();
    let mut cur = String::new();
    proof {
        assert(s@.subrange(0, 0) =~= Seq::<char>::empty());
        assert(parts.deep_view().push(cur@) =~= split_on(s@.subrange(0, 0), sep));
    }
    let mut i: usize = 0;
    while i < n
        invariant
            i <= n,
            n == s@.len(),
            parts.deep_view().push(cur@) == split_on(s@.subrange(0, i as int), sep),
        decreases n - i,
    {
        let c = s.get_char(i);
        let ghost pre_parts = parts.deep_view();
        let ghost pre_cur = cur@;
        let ghost prefix = s@.subrange(0, i as int);
        let ghost prefix2 = s@.subrange(0, i + 1);
        proof {
            assert(prefix2.drop_last() =~= prefix);
            assert(prefix2.last() == c);
        }
        if c == sep {
            let done = cur;
            cur = String::new();
            parts.push(done);
            proof {
                assert(split_on(prefix2, sep) == split_on(prefix, sep).push(
                    Seq::<char>::empty(),
                ));
                assert(parts.deep_view() =~= pre_parts.push(pre_cur));
                assert(parts.deep_view().push(cur@) =~= split_on(prefix, sep).push(
                    Seq::<char>::empty(),
                ));
            }
        } else {
            push_char(&mut cur, c);
            proof {
                let r0 = split_on(prefix, sep);
                lemma_split_on_len(prefix, sep);
                assert(split_on(prefix2, sep) == r0.update(r0.len() - 1, r0.last().push(c)));
                assert(r0 == pre_parts.push(pre_cur));
                assert(r0.last() == pre_cur);
                assert(parts.deep_view() =~= pre_parts);
                assert(parts.deep_view().push(cur@) =~= r0.update(
                    r0.len() - 1,
                    r0.last().push(c),
                ));
            }
        }
        i += 1;
    }
    parts.push(cur);
    proof {
        assert(s@.subrange(0, n as int) =~= s@);
    }
    parts
}

/// The maximal non-whitespace suffix of `s`.
pub open spec fn token_tail(s: Seq<char>) -> Seq<char>
    decreases s.len(),
{
    if s.len() == 0 || is_ws(s.last()) {
        Seq::empty()
    } else {
        token_tail(s.drop_last()).push(s.last())
    }
}

/// The last whitespace-separated token of `s` (empty when `s` is all
/// whitespace or empty).
pub open spec fn last_token(s: Seq<char>) -> Seq<char>
    decreases s.len(),
{
    if s.len() == 0 {
        Seq::empty()
    } else if is_ws(s.last()) {
        last_token(s.drop_last())
    } else {
        token_tail(s)
    }
}

proof fn lemma_last_token_skip(s: Seq<char>, z: int)
    requires
        0 <= z <= s.len(),
        forall|j: int| z <= j < s.len() ==> is_ws(#[trigger] s[j]),
    ensures
        last_token(s) == last_token(s.subrange(0, z)),
    decreases s.len() - z,
{
    if z == s.len() {
        assert(s.subrange(0, z) =~= s);
    } else {
        assert(is_ws(s.last()));
        let t = s.drop_last();
        assert(forall|j: int| z <= j < t.len() ==> is_ws(#[trigger] t[j]));
        lemma_last_token_skip(t, z);
        assert(t.subrange(0, z) =~= s.subrange(0, z));
    }
}

proof fn lemma_token_tail_span(s: Seq<char>, t: int)
    requires
        0 <= t <= s.len(),
        forall|j: int| t <= j < s.len() ==> !is_ws(#[trigger] s[j]),
        t > 0 ==> is_ws(s[t - 1]),
    ensures
        token_tail(s) =~= s.subrange(t, s.len() as int),
    decreases s.len(),
{
    if s.len() == 0 {
        assert(s.subrange(0, 0) =~= Seq::<char>::empty());
    } else if t == s.len() {
        assert(is_ws(s.last()));
        assert(s.subrange(t, s.len() as int) =~= Seq::<char>::empty());
    } else {
        assert(!is_ws(s.last()));
        let d = s.drop_last();
        assert(forall|j: int| t <= j < d.len() ==> !is_ws(#[trigger] d[j]));
        lemma_token_tail_span(d, t);
        assert(d.subrange(t, d.len() as int) =~= s.subrange(t, s.len() as int - 1));
        assert(token_tail(s) == token_tail(d).push(s.last()));
        assert(s.subrange(t, s.len() as int - 1).push(s.last()) =~= s.subrange(
            t,
            s.len() as int,
        ));
    }
}

/// The last whitespace-separated token of `s`.
pub fn last_token_str(s: &str) -> (r: String)
    ensures
        r@ == last_token(s@),
{
    let n = s.unicode_len();
    let mut z: usize = n;
    while z > 0 && is_ws_exec(s.get_char(z - 1))
        invariant
            z <= n,
            n == s@.len(),
            forall|j: int| z <= j < n ==> is_ws(#[trigger] s@[j]),
        decreases z,
    {
        z -= 1;
    }
    let mut t: usize = z;
    while t > 0 && !is_ws_exec(s.get_char(t - 1))
        invariant
            t <= z <= n,
            n == s@.len(),
            forall|j: int| z <= j < n ==> is_ws(#[trigger] s@[j]),
            z > 0 ==> !is_ws(s@[z - 1]),
            forall|j: int| t <= j < z ==> !is_ws(#[trigger] s@[j]),
        decreases t,
    {
        t -= 1;
    }
    let mut r = String::new();
    let mut i: usize = t;
    while i < z
        invariant
            t <= i <= z <= n,
            n == s@.len(),
            r@ == s@.subrange(t as int, i as int),
        decreases z - i,
    {
        let c = s.get_char(i);
        push_char(&mut r, c);
        proof {
            assert(r@ =~= s@.subrange(t as int, i + 1));
        }
        i += 1;
    }
    proof {
        let sv = s@;
        lemma_last_token_skip(sv, z as int);
        let p = sv.subrange(0, z as int);
        if z == 0 {
            assert(p =~= Seq::<char>::empty());
            assert(r@ =~= Seq::<char>::empty());
        } else {
            assert(p.last() == sv[z - 1]);
            assert(!is_ws(p.last()));
            assert(last_token(p) == token_tail(p));
            assert(forall|j: int| t <= j < p.len() ==> !is_ws(#[trigger] p[j]));
            if t > 0 {
                assert(is_ws(sv[t - 1]));
            }
            lemma_token_tail_span(p, t as int);
            assert(p.subrange(t as int, p.len() as int) =~= sv.subrange(t as int, z as int));
            assert(r@ =~= sv.subrange(t as int, z as int));
        }
    }
    r
}

/// Every character of `s` is a decimal digit.
pub open spec fn all_digits(s: Seq<char>) -> bool {
    forall|i: int| 0 <= i < s.len() ==> is_digit(#[trigger] s[i])
}

/// The value of a digit string, most significant digit first.
pub open spec fn int_of_digits(s: Seq<char>) -> int
    decreases s.len(),
{
    if s.len() == 0 {
        0
    } else {
        int_of_digits(s.drop_last()) * 10 + digit_val(s.last())
    }
}

/// Scans the digits of `s` from position `from` on.  `None` unless the rest
/// is one or more digits.  The accumulator reports the exact value where it
/// is at most `0xFFFF_FFFF`, and `0x1_0000_0000` where it is larger.
fn dec_scan(s: &str, from: usize) -> (r: Option<u64>)
    requires
        from <= s@.len(),
    ensures
        r is Some <==> (from < s@.len() && all_digits(
            s@.subrange(from as int, s@.len() as int),
        )),
        r matches Some(acc) ==> ({
            let m = s@.subrange(from as int, s@.len() as int);
            if int_of_digits(m) <= 0xFFFF_FFFFu64 {
                acc == int_of_digits(m)
            } else {
                acc == 0x1_0000_0000u64
            }
        }),
{
    let n = s.unicode_len();
    if from == n {
        return None;
    }
    let mut acc: u64 = 0;
    let mut i: usize = from;
    proof {
        assert(s@.subrange(from as int, from as int) =~= Seq::<char>::empty());
    }
    while i < n
        invariant
            from <= i <= n,
            n == s@.len(),
            all_digits(s@.subrange(from as int, i as int)),
            acc <= 0x1_0000_0000u64,
            ({
                let m = s@.subrange(from as int, i as int);
                if int_of_digits(m) <= 0xFFFF_FFFFu64 {
                    acc == int_of_digits(m)
                } else {
                    acc == 0x1_0000_0000u64
                }
            }),
        decreases n - i,
    {
        let c = s.get_char(i);
        let u = c as u32;
        if u < 48 || u > 57 {
            proof {
                assert(s@.subrange(from as int, s@.len() as int)[i - from] == c);
                assert(!is_digit(c));
            }
            return None;
        }
        let d = (u - 48) as u64;
        let ghost m = s@.subrange(from as int, i as int);
        let ghost m2 = s@.subrange(from as int, i + 1);
        proof {
            assert(m2.drop_last() =~= m);
            assert(m2.last() == c);
            assert(int_of_digits(m2) == int_of_digits(m) * 10 + digit_val(c));
            assert(int_of_digits(m) >= 0) by {
                lemma_int_of_digits_nonneg(m);
            }
        }
        acc = acc * 10 + d;
        if acc > 0xFFFF_FFFF {
            acc = 0x1_0000_0000;
        }
        proof {
            assert(all_digits(m2));
        }
        i += 1;
    }
    proof {
        assert(s@.subrange(from as int, n as int) =~= s@.subrange(from as int, s@.len() as int));
    }
    Some(acc)
}

/// The value of a digit string is never negative.
pub proof fn lemma_int_of_digits_nonneg(s: Seq<char>)
    requires
        all_digits(s),
    ensures
        int_of_digits(s) >= 0,
    decreases s.len(),
{
    if s.len() > 0 {
        assert(all_digits(s.drop_last())) by {
            assert(forall|i: int|
                0 <= i < s.len() - 1 ==> is_digit(#[trigger] s.drop_last()[i]));
        }
        lemma_int_of_digits_nonneg(s.drop_last());
        assert(is_digit(s.last()));
    }
}

/// A digit string that parses as a `u32`: non-empty, digits only, value in
/// range.
pub open spec fn parse_u32_ok(s: Seq<char>) -> bool {
    s.len() > 0 && all_digits(s) && int_of_digits(s) <= u32::MAX
}

/// Parses an unsigned decimal number.
pub fn parse_u32(s: &str) -> (r: Option<u32>)
    ensures
        r is Some <==> parse_u32_ok(s@),
        r matches Some(v) ==> v == int_of_digits(s@),
{
    proof {
        assert(s@.subrange(0, s@.len() as int) =~= s@);
    }
    match dec_scan(s, 0) {
        None => None,
        Some(acc) => {
            if acc <= 0xFFFF_FFFF {
                Some(acc as u32)
            } else {
                None
            }
        },
    }
}

/// A decimal number with an optional sign that parses as an `i32`.
pub open spec fn parse_i32_val(s: Seq<char>) -> Option<int> {
    if s.len() >= 1 && (s[0] == '-' || s[0] == '+') {
        let m = s.subrange(1, s.len() as int);
        if m.len() > 0 && all_digits(m) {
            let v = if s[0] == '-' {
                -int_of_digits(m)
            } else {
                int_of_digits(m)
            };
            if i32::MIN <= v <= i32::MAX {
                Some(v)
            } else {
                None
            }
        } else {
            None
        }
    } else {
        if s.len() > 0 && all_digits(s) && int_of_digits(s) <= i32::MAX {
            Some(int_of_digits(s))
        } else {
            None
        }
    }
}

/// Parses a signed decimal number.
pub fn parse_i32(s: &str) -> (r: Option<i32>)
    ensures
        r is Some <==> parse_i32_val(s@) is Some,
        r matches Some(v) ==> parse_i32_val(s@) == Some(v as int),
{
    let n = s.unicode_len();
    if n == 0 {
        return None;
    }
    let first = s.get_char(0);
    if first == '-' || first == '+' {
        let neg = first == '-';
        match dec_scan(s, 1) {
            None => None,
            Some(acc) => {
                proof {
                    assert(s@.subrange(1, s@.len() as int).len() > 0);
                }
                if neg {
                    if acc > 0x8000_0000 {
                        None
                    } else if acc == 0x8000_0000 {
                        Some(i32::MIN)
                    } else {
                        Some(-(acc as i32))
                    }
                } else {
                    if acc > 0x7FFF_FFFF {
                        None
                    } else {
                        Some(acc as i32)
                    }
                }
            },
        }
    } else {
        proof {
            assert(s@.subrange(0, s@.len() as int) =~= s@);
        }
        match dec_scan(s, 0) {
            None => None,
            Some(acc) => {
                if acc > 0x7FFF_FFFF {
                    None
                } else {
                    Some(acc as i32)
                }
            },
        }
    }
}

/// `s` with every single quote turned into a backslash-quote pair.
pub open spec fn escaped_squotes(s: Seq<char>) -> Seq<char>
    decreases s.len(),
{
    if s.len() == 0 {
        Seq::empty()
    } else {
        escaped_squotes(s.drop_last()) + (if s.last() == '\'' {
            seq!['\\', '\'']
        } else {
            seq![s.last()]
        })
    }
}

/// Escapes single quotes with backslashes.
pub fn escape_squotes(s: &str) -> (r: String)
    ensures
        r@ == escaped_squotes(s@),
{
    let n = s.unicode_len();
    let mut r = String::new();
    proof {
        assert(r@ =~= escaped_squotes(s@.subrange(0, 0)));
    }
    let mut i: usize = 0;
    while i < n
        invariant
            i <= n,
            n == s@.len(),
            r@ == escaped_squotes(s@.subrange(0, i as int)),
        decreases n - i,
    {
        let c = s.get_char(i);
        let ghost prefix = s@.subrange(0, i as int);
        let ghost prefix2 = s@.subrange(0, i + 1);
        if c == '\'' {
            push_char(&mut r, '\\');
            push_char(&mut r, '\'');
        } else {
            push_char(&mut r, c);
        }
        proof {
            assert(prefix2.drop_last() =~= prefix);
            assert(prefix2.last() == c);
            assert(r@ =~= escaped_squotes(prefix2));
        }
        i += 1;
    }
    proof {
        assert(s@.subrange(0, n as int) =~= s@);
    }
    r
}

/// The parts joined with `sep` between consecutive parts.
pub open spec fn joined(parts: Seq<Seq<char>>, sep: Seq<char>) -> Seq<char>
    decreases parts.len(),
{
    if parts.len() == 0 {
        Seq::empty()
    } else if parts.len() == 1 {
        parts[0]
    } else {
        joined(parts.drop_last(), sep) + sep + parts.last()
    }
}

/// Joins the parts with `sep` between consecutive parts.
pub fn join_with(parts: &Vec<String>, sep: &str) -> (r: String)
    ensures
        r@ == joined(parts.deep_view(), sep@),
{
    let mut r = String::new();
    let mut k: usize = 0;
    proof {
        assert(parts.deep_view().subrange(0, 0) =~= Seq::<Seq<char>>::empty());
    }
    while k < parts.len()
        invariant
            k <= parts@.len(),
            parts.deep_view().len() == parts@.len(),
            r@ == joined(parts.deep_view().subrange(0, k as int), sep@),
        decreases parts@.len() - k,
    {
        let ghost dv = parts.deep_view();
        let ghost sub = dv.subrange(0, k as int);
        let ghost sub2 = dv.subrange(0, k + 1);
        if k > 0 {
            r.append(sep);
        }
        let part = &parts[k];
        r.append(part.as_str());
        proof {
            assert(sub2.drop_last() =~= sub);
            assert(sub2.last() == dv[k as int]);
            assert(dv[k as int] == parts@[k as int]@);
            if k == 0 {
                assert(sub2.len() == 1);
                assert(joined(sub2, sep@) == sub2[0]);
                assert(r@ =~= joined(sub2, sep@));
            } else {
                assert(joined(sub2, sep@) == joined(sub, sep@) + sep@ + sub2.last());
                assert(r@ =~= joined(sub2, sep@));
            }
        }
        k += 1;
    }
    proof {
        assert(parts.deep_view().subrange(0, parts@.len() as int) =~= parts.deep_view());
    }
    r
}

/// Whether two strings hold the same characters.
pub fn str_eq(a: &str, b: &str) -> (r: bool)
    ensures
        r == (a@ == b@),
{
    let na = a.unicode_len();
    let nb = b.unicode_len();
    if na != nb {
        return false;
    }
    let mut i: usize = 0;
    while i < na
        invariant
            i <= na,
            na == a@.len(),
            na == b@.len(),
            forall|j: int| 0 <= j < i ==> a@[j] == b@[j],
        decreases na - i,
    {
        if a.get_char(i) != b.get_char(i) {
            return false;
        }
        i += 1;
    }
    proof {
        assert(a@ =~= b@);
    }
    true
}

} // verus!
