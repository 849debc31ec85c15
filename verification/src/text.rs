//! Character-level text helpers shared by the parsers: whitespace and line
//! splitting, substring search, and decimal number parsing, each with the
//! mathematical definition it is proved against.

use vstd::prelude::*;

verus! {

/// Unicode `White_Space` property, the set of characters that
/// `str::split_whitespace` splits on.
pub open spec fn is_white_space(c: char) -> bool {
    let v = c as u32;
    ||| 0x09 <= v <= 0x0D
    ||| v == 0x20
    ||| v == 0x85
    ||| v == 0xA0
    ||| v == 0x1680
    ||| 0x2000 <= v <= 0x200A
    ||| v == 0x2028
    ||| v == 0x2029
    ||| v == 0x202F
    ||| v == 0x205F
    ||| v == 0x3000
}

/// ASCII decimal digit.
pub open spec fn is_digit(c: char) -> bool {
    '0' <= c <= '9'
}

/// Value of an ASCII decimal digit.
pub open spec fn digit_value(c: char) -> nat {
    ((c as u32) - ('0' as u32)) as nat
}

/// Value of a string of decimal digits, most significant first.
pub open spec fn digits_value(s: Seq<char>) -> nat
    decreases s.len(),
{
    if s.len() == 0 {
        0
    } else {
        digits_value(s.drop_last()) * 10 + digit_value(s.last())
    }
}

/// Every character of `s` is a decimal digit.
pub open spec fn all_digits(s: Seq<char>) -> bool {
    forall|i: int| 0 <= i < s.len() ==> is_digit(#[trigger] s[i])
}

/// What `str::parse::<u64>` gives: an optional `+`, then at least one decimal
/// digit, with a value that fits in 64 bits.
pub open spec fn decimal_u64(s: Seq<char>) -> Option<u64> {
    let body = if s.len() > 0 && s[0] == '+' {
        s.drop_first()
    } else {
        s
    };
    if body.len() > 0 && all_digits(body) && digits_value(body) <= u64::MAX {
        Some(digits_value(body) as u64)
    } else {
        None
    }
}

/// What `str::parse::<u32>` gives on a string made of decimal digits only:
/// its value when the string is non-empty and the value fits in 32 bits.
pub open spec fn digits_u32(s: Seq<char>) -> Option<u32> {
    if s.len() > 0 && digits_value(s) <= u32::MAX {
        Some(digits_value(s) as u32)
    } else {
        None
    }
}

/// Splitting `s` at every `'\n'`, processed left to right: the finished
/// lines and the line being read.
pub open spec fn line_state(s: Seq<char>) -> (Seq<Seq<char>>, Seq<char>)
    decreases s.len(),
{
    if s.len() == 0 {
        (Seq::empty(), Seq::empty())
    } else {
        let (done, cur) = line_state(s.drop_last());
        if s.last() == '\n' {
            (done.push(cur), Seq::empty())
        } else {
            (done, cur.push(s.last()))
        }
    }
}

/// The `'\n'`-separated segments of `s`, the last (possibly empty) one
/// included.
pub open spec fn lines_of(s: Seq<char>) -> Seq<Seq<char>> {
    line_state(s).0.push(line_state(s).1)
}

/// Splitting `s` into maximal runs of non-white-space characters, processed
/// left to right: the finished words and the word being read.
pub open spec fn word_state(s: Seq<char>) -> (Seq<Seq<char>>, Seq<char>)
    decreases s.len(),
{
    if s.len() == 0 {
        (Seq::empty(), Seq::empty())
    } else {
        let (done, cur) = word_state(s.drop_last());
        if is_white_space(s.last()) {
            if cur.len() > 0 {
                (done.push(cur), Seq::empty())
            } else {
                (done, cur)
            }
        } else {
            (done, cur.push(s.last()))
        }
    }
}

/// The white-space separated words of `s`, as `str::split_whitespace`
/// yields them.
pub open spec fn words_of(s: Seq<char>) -> Seq<Seq<char>> {
    if word_state(s).1.len() > 0 {
        word_state(s).0.push(word_state(s).1)
    } else {
        word_state(s).0
    }
}

/// The words joined with single spaces between them.
pub open spec fn join_spaced(ws: Seq<Seq<char>>) -> Seq<char>
    decreases ws.len(),
{
    if ws.len() == 0 {
        Seq::empty()
    } else if ws.len() == 1 {
        ws[0]
    } else {
        join_spaced(ws.drop_last()) + seq![' '] + ws.last()
    }
}

/// `pat` occurs in `s` starting at index `i`.
pub open spec fn occurs_at(s: Seq<char>, pat: Seq<char>, i: int) -> bool {
    0 <= i && i + pat.len() <= s.len() && s.subrange(i, i + pat.len()) == pat
}

/// The first index at or after `start` where `pat` occurs in `s`.
pub open spec fn find_from(s: Seq<char>, pat: Seq<char>, start: int) -> Option<int>
    decreases s.len() + 1 - start,
{
    if start < 0 || start + pat.len() > s.len() {
        None
    } else if occurs_at(s, pat, start) {
        Some(start)
    } else {
        find_from(s, pat, start + 1)
    }
}

/// Number of consecutive decimal digits in `s` starting at `start`.
pub open spec fn digit_run(s: Seq<char>, start: int) -> nat
    decreases s.len() - start,
{
    if 0 <= start < s.len() && is_digit(s[start]) {
        1 + digit_run(s, start + 1)
    } else {
        0
    }
}

/// A hit of `find_from` lies at or after `start` and fits in `s`.
pub proof fn lemma_find_from_bounds(s: Seq<char>, pat: Seq<char>, start: int)
    requires
        0 <= start,
    ensures
        find_from(s, pat, start) matches Some(p) ==> start <= p && occurs_at(s, pat, p) && (
        forall|j: int| start <= j < p ==> !occurs_at(s, pat, j)),
        find_from(s, pat, start) is None ==> forall|j: int|
            start <= j ==> !#[trigger] occurs_at(s, pat, j),
    decreases s.len() + 1 - start,
{
    if start + pat.len() > s.len() {
    } else if occurs_at(s, pat, start) {
    } else {
        lemma_find_from_bounds(s, pat, start + 1);
    }
}

/// The digit run starting at `start` ends inside `s`, and every character in
/// it is a digit while the one after it (if any) is not.
pub proof fn lemma_digit_run(s: Seq<char>, start: int)
    requires
        0 <= start <= s.len(),
    ensures
        start + digit_run(s, start) <= s.len(),
        all_digits(s.subrange(start, start + digit_run(s, start))),
        start + digit_run(s, start) < s.len() ==> !is_digit(s[start + digit_run(s, start)]),
    decreases s.len() - start,
{
    if start < s.len() && is_digit(s[start]) {
        lemma_digit_run(s, start + 1);
        let n = digit_run(s, start);
        assert forall|i: int| 0 <= i < n implies is_digit(#[trigger] s.subrange(start, start + n)[i]) by {
            if i > 0 {
                assert(s.subrange(start, start + n)[i] == s.subrange(start + 1, start + n)[i - 1]);
            }
        }
    }
}

/// The value of a digit string never decreases when digits are appended.
pub proof fn lemma_digits_value_prefix(s: Seq<char>, n: int)
    requires
        0 <= n <= s.len(),
    ensures
        digits_value(s.take(n)) <= digits_value(s),
    decreases s.len(),
{
    if n < s.len() {
        lemma_digits_value_prefix(s.drop_last(), n);
        assert(s.drop_last().take(n) == s.take(n));
    } else {
        assert(s.take(n) == s);
    }
}

/// Exec test of the Unicode `White_Space` property.
pub fn is_whitespace_char(c: char) -> (b: bool)
    ensures
        b == is_white_space(c),
{
    let v = c as u32;
    (0x09 <= v && v <= 0x0D) || v == 0x20 || v == 0x85 || v == 0xA0 || v == 0x1680 || (0x2000
        <= v && v <= 0x200A) || v == 0x2028 || v == 0x2029 || v == 0x202F || v == 0x205F || v
        == 0x3000
}

/// Exec test for an ASCII decimal digit.
pub fn is_digit_char(c: char) -> (b: bool)
    ensures
        b == is_digit(c),
{
    '0' <= c && c <= '9'
}

/// Whether `pat` occurs in `s` at index `i`.
pub fn matches_at(s: &Vec<char>, pat: &Vec<char>, i: usize) -> (b: bool)
    ensures
        b == occurs_at(s@, pat@, i as int),
{
    if i > s.len() || pat.len() > s.len() - i {
        return false;
    }
    let mut k: usize = 0;
    while k < pat.len()
        invariant
            i + pat.len() <= s.len(),
            k <= pat.len(),
            forall|j: int| 0 <= j < k ==> s@[i + j] == pat@[j],
        decreases pat.len() - k,
    {
        if s[i + k] != pat[k] {
            assert(s@.subrange(i as int, i + pat.len())[k as int] != pat@[k as int]);
            return false;
        }
        k = k + 1;
    }
    assert(s@.subrange(i as int, i + pat.len()) =~= pat@);
    true
}

/// First index at or after `start` where `pat` occurs in `s`.
pub fn find_at_or_after(s: &Vec<char>, pat: &Vec<char>, start: usize) -> (r: Option<usize>)
    ensures
        match r {
            Some(p) => find_from(s@, pat@, start as int) == Some(p as int),
            None => find_from(s@, pat@, start as int) is None,
        },
{
    if pat.len() > s.len() || start > s.len() - pat.len() {
        return None;
    }
    let last = s.len() - pat.len();
    let mut i = start;
    loop
        invariant
            start <= i <= last,
            last + pat.len() == s.len(),
            find_from(s@, pat@, start as int) == find_from(s@, pat@, i as int),
        decreases last - i,
    {
        if matches_at(s, pat, i) {
            return Some(i);
        }
        if i == last {
            assert(find_from(s@, pat@, (i + 1) as int) is None);
            return None;
        }
        i = i + 1;
    }
}

/// Number of consecutive digits of `s` starting at `start`.
pub fn digit_run_at(s: &Vec<char>, start: usize) -> (n: usize)
    requires
        start <= s.len(),
    ensures
        n == digit_run(s@, start as int),
        start + n <= s.len(),
{
    let mut i = start;
    while i < s.len() && is_digit_char(s[i])
        invariant
            start <= i <= s.len(),
            digit_run(s@, start as int) == (i - start) + digit_run(s@, i as int),
        decreases s.len() - i,
    {
        i = i + 1;
    }
    i - start
}

/// Parse the `n` digits of `s` at `start` as a `u32`, or `None` when there
/// are none or their value does not fit.
pub fn parse_digit_run_u32(s: &Vec<char>, start: usize, n: usize) -> (r: Option<u32>)
    requires
        start + n <= s.len(),
        all_digits(s@.subrange(start as int, start + n)),
    ensures
        r == digits_u32(s@.subrange(start as int, start + n)),
{
    let ghost d = s@.subrange(start as int, start + n);
    if n == 0 {
        return None;
    }
    let mut value: u64 = 0;
    let mut k: usize = 0;
    while k < n
        invariant
            k <= n,
            start + n <= s.len(),
            d == s@.subrange(start as int, start + n),
            all_digits(d),
            value == digits_value(d.take(k as int)),
            value <= u32::MAX,
        decreases n - k,
    {
        let c = s[start + k];
        assert(c == d[k as int]);
        assert(is_digit(d[k as int]));
        let dv = (c as u32 - '0' as u32) as u64;
        assert(d.take(k + 1).drop_last() == d.take(k as int));
        let next = value * 10 + dv;
        if next > 0xFFFF_FFFF {
            proof {
                lemma_digits_value_prefix(d, k + 1);
            }
            return None;
        }
        value = next;
        k = k + 1;
    }
    assert(d.take(n as int) == d);
    Some(value as u32)
}

/// Whether every character of `s` from `start` on is a digit.
pub fn digits_to_end(s: &Vec<char>, start: usize) -> (b: bool)
    requires
        start <= s.len(),
    ensures
        b == all_digits(s@.subrange(start as int, s@.len() as int)),
{
    let ghost d = s@.subrange(start as int, s@.len() as int);
    let mut j: usize = start;
    while j < s.len()
        invariant
            start <= j <= s.len(),
            d == s@.subrange(start as int, s@.len() as int),
            forall|i: int| 0 <= i < j - start ==> is_digit(#[trigger] d[i]),
        decreases s.len() - j,
    {
        assert(s@[j as int] == d[j - start]);
        if !is_digit_char(s[j]) {
            return false;
        }
        j = j + 1;
    }
    true
}

/// Value of the all-digit tail `s[start..]` when it fits in 64 bits.
pub fn digits_to_end_u64(s: &Vec<char>, start: usize) -> (r: Option<u64>)
    requires
        start <= s.len(),
        all_digits(s@.subrange(start as int, s@.len() as int)),
    ensures
        r == (if digits_value(s@.subrange(start as int, s@.len() as int)) <= u64::MAX {
            Some(digits_value(s@.subrange(start as int, s@.len() as int)) as u64)
        } else {
            None
        }),
{
    let ghost d = s@.subrange(start as int, s@.len() as int);
    let mut value: u128 = 0;
    let mut k: usize = start;
    while k < s.len()
        invariant
            start <= k <= s.len(),
            d == s@.subrange(start as int, s@.len() as int),
            all_digits(d),
            value == digits_value(d.take(k - start)),
            value <= u64::MAX,
        decreases s.len() - k,
    {
        let c = s[k];
        assert(c == d[k - start]);
        assert(is_digit(d[k - start]));
        let dv = (c as u32 - '0' as u32) as u128;
        assert(d.take(k - start + 1).drop_last() == d.take(k - start));
        let next = value * 10 + dv;
        if next > 0xFFFF_FFFF_FFFF_FFFF {
            proof {
                lemma_digits_value_prefix(d, k - start + 1);
            }
            return None;
        }
        value = next;
        k = k + 1;
    }
    assert(d.take(d.len() as int) == d);
    Some(value as u64)
}

/// What `str::parse::<u64>` gives on the characters of `s`.
pub fn parse_decimal_u64(s: &Vec<char>) -> (r: Option<u64>)
    ensures
        r == decimal_u64(s@),
{
    let first: usize = if s.len() > 0 && s[0] == '+' {
        1
    } else {
        0
    };
    assert(s@.subrange(first as int, s@.len() as int) == (if s@.len() > 0 && s@[0] == '+' {
        s@.drop_first()
    } else {
        s@
    }));
    if first >= s.len() {
        return None;
    }
    if !digits_to_end(s, first) {
        return None;
    }
    digits_to_end_u64(s, first)
}

/// The character sequences held by a vector of character vectors.
pub open spec fn texts(v: Seq<Vec<char>>) -> Seq<Seq<char>> {
    v.map_values(|w: Vec<char>| w@)
}

/// Split the characters of `s` at every `'\n'` (the last segment included).
pub fn split_lines(s: &Vec<char>) -> (lines: Vec<Vec<char>>)
    ensures
        texts(lines@) == lines_of(s@),
{
    let mut done: Vec<Vec<char>> = Vec::new();
    let mut cur: Vec<char> = Vec::new();
    let mut i: usize = 0;
    while i < s.len()
        invariant
            i <= s.len(),
            (texts(done@), cur@) == line_state(s@.take(i as int)),
        decreases s.len() - i,
    {
        assert(s@.take(i + 1).drop_last() == s@.take(i as int));
        let c = s[i];
        let ghost old_done = done@;
        let ghost old_cur = cur@;
        if c == '\n' {
            let finished = cur;
            done.push(finished);
            cur = Vec::new();
            assert(texts(done@) =~= texts(old_done).push(old_cur));
        } else {
            cur.push(c);
        }
        i = i + 1;
    }
    assert(s@.take(s.len() as int) == s@);
    let ghost old_done = done@;
    let ghost old_cur = cur@;
    done.push(cur);
    assert(texts(done@) =~= texts(old_done).push(old_cur));
    done
}

/// The white-space separated words of `s`.
pub fn split_words(s: &Vec<char>) -> (words: Vec<Vec<char>>)
    ensures
        texts(words@) == words_of(s@),
{
    let mut done: Vec<Vec<char>> = Vec::new();
    let mut cur: Vec<char> = Vec::new();
    let mut i: usize = 0;
    while i < s.len()
        invariant
            i <= s.len(),
            (texts(done@), cur@) == word_state(s@.take(i as int)),
        decreases s.len() - i,
    {
        assert(s@.take(i + 1).drop_last() == s@.take(i as int));
        let c = s[i];
        let ghost old_done = done@;
        let ghost old_cur = cur@;
        if is_whitespace_char(c) {
            if cur.len() > 0 {
                let finished = cur;
                done.push(finished);
                cur = Vec::new();
                assert(texts(done@) =~= texts(old_done).push(old_cur));
            }
        } else {
            cur.push(c);
        }
        i = i + 1;
    }
    assert(s@.take(s.len() as int) == s@);
    let ghost old_done = done@;
    let ghost old_cur = cur@;
    if cur.len() > 0 {
        done.push(cur);
        assert(texts(done@) =~= texts(old_done).push(old_cur));
    }
    done
}

/// Join the words `ws[from..]` with single spaces.
pub fn join_words_from(ws: &Vec<Vec<char>>, from: usize) -> (r: Vec<char>)
    requires
        from <= ws.len(),
    ensures
        r@ == join_spaced(texts(ws@).subrange(from as int, ws.len() as int)),
{
    let mut out: Vec<char> = Vec::new();
    let mut k: usize = from;
    while k < ws.len()
        invariant
            from <= k <= ws.len(),
            out@ == join_spaced(texts(ws@).subrange(from as int, k as int)),
        decreases ws.len() - k,
    {
        let ghost before = out@;
        if k > from {
            out.push(' ');
        }
        let w = &ws[k];
        let mut j: usize = 0;
        let ghost mid = out@;
        while j < w.len()
            invariant
                j <= w.len(),
                out@ == mid + w@.take(j as int),
            decreases w.len() - j,
        {
            out.push(w[j]);
            j = j + 1;
            assert(out@ =~= mid + w@.take(j as int));
        }
        proof {
            let part = texts(ws@).subrange(from as int, k + 1);
            assert(part.drop_last() =~= texts(ws@).subrange(from as int, k as int));
            assert(part.last() == w@);
            assert(w@.take(w@.len() as int) == w@);
            if k > from {
                assert(out@ =~= join_spaced(part.drop_last()) + seq![' '] + part.last());
            } else {
                assert(part.len() == 1);
                assert(out@ =~= part[0]);
            }
        }
        k = k + 1;
    }
    out
}

/// The characters of a string slice, in order.
pub fn chars_of(s: &str) -> (v: Vec<char>)
    ensures
        v@ == s@,
{
    let mut v: Vec<char> = Vec::new();
    for c in it: s.chars()
        invariant
            v@ == it.seq().take(it.index() as int),
            it.seq() == s@,
    {
        v.push(c);
    }
    v
}


/// The character of a decimal digit value (below ten).
pub open spec fn digit_char(d: nat) -> char {
    seq!['0', '1', '2', '3', '4', '5', '6', '7', '8', '9'][d as int]
}

/// Shortest decimal representation of `n`, most significant digit first.
pub open spec fn decimal_text(n: nat) -> Seq<char>
    decreases n,
{
    if n < 10 {
        seq![digit_char(n)]
    } else {
        decimal_text(n / 10).push(digit_char(n % 10))
    }
}

/// Append the decimal representation of `n` to `out`.
pub fn push_decimal(out: &mut Vec<char>, n: u64)
    ensures
        final(out)@ == old(out)@ + decimal_text(n as nat),
    decreases n,
{
    let digits = ['0', '1', '2', '3', '4', '5', '6', '7', '8', '9'];
    if n >= 10 {
        push_decimal(out, n / 10);
    }
    let d = (n % 10) as usize;
    out.push(digits[d]);
    assert(digits@ == seq!['0', '1', '2', '3', '4', '5', '6', '7', '8', '9']);
}

/// Build a `String` holding the given characters.
#[verifier::external_body]
pub fn string_from_chars(chars: &Vec<char>) -> (s: String)
    ensures
        s@ == chars@,
{
    chars.iter().collect()
}

/// Whether two character vectors hold the same characters.
pub fn same_chars(a: &Vec<char>, b: &Vec<char>) -> (r: bool)
    ensures
        r == (a@ == b@),
{
    if a.len() != b.len() {
        return false;
    }
    let mut i: usize = 0;
    while i < a.len()
        invariant
            a.len() == b.len(),
            i <= a.len(),
            forall|j: int| 0 <= j < i ==> a@[j] == b@[j],
        decreases a.len() - i,
    {
        if a[i] != b[i] {
            return false;
        }
        i = i + 1;
    }
    assert(a@ =~= b@);
    true
}

/// Whether two string slices hold the same characters.
pub fn str_eq(a: &str, b: &str) -> (r: bool)
    ensures
        r == (a@ == b@),
{
    let x = chars_of(a);
    let y = chars_of(b);
    same_chars(&x, &y)
}

/// The UTF-8 bytes of a string slice.
pub open spec fn utf8_bytes(s: &str) -> Seq<u8> {
    vstd::string::StringSliceAdditionalSpecFns::spec_bytes(s)
}

/// Append all characters of `s` to `out`.
pub fn push_all(out: &mut Vec<char>, s: &Vec<char>)
    ensures
        final(out)@ == old(out)@ + s@,
{
    let ghost start = out@;
    let mut i: usize = 0;
    while i < s.len()
        invariant
            i <= s.len(),
            out@ == start + s@.take(i as int),
        decreases s.len() - i,
    {
        out.push(s[i]);
        i = i + 1;
        assert(out@ =~= start + s@.take(i as int));
    }
    assert(s@.take(s.len() as int) =~= s@);
}

/// The character sequences held by a map of strings.
pub open spec fn text_map(m: Map<u32, String>) -> Map<u32, Seq<char>> {
    Map::new(|k: u32| m.contains_key(k), |k: u32| m[k]@)
}

/// Splitting `s` at every `sep`, processed left to right: the finished
/// segments and the segment being read.
pub open spec fn split_state(s: Seq<char>, sep: char) -> (Seq<Seq<char>>, Seq<char>)
    decreases s.len(),
{
    if s.len() == 0 {
        (Seq::empty(), Seq::empty())
    } else {
        let (done, cur) = split_state(s.drop_last(), sep);
        if s.last() == sep {
            (done.push(cur), Seq::empty())
        } else {
            (done, cur.push(s.last()))
        }
    }
}

/// The `sep`-separated segments of `s`, as `str::split` yields them (the
/// last, possibly empty, one included).
pub open spec fn segments_of(s: Seq<char>, sep: char) -> Seq<Seq<char>> {
    split_state(s, sep).0.push(split_state(s, sep).1)
}

/// Split the characters of `s` at every `sep` (the last segment included).
pub fn split_at_char(s: &Vec<char>, sep: char) -> (parts: Vec<Vec<char>>)
    ensures
        texts(parts@) == segments_of(s@, sep),
{
    let mut done: Vec<Vec<char>> = Vec::new();
    let mut cur: Vec<char> = Vec::new();
    let mut i: usize = 0;
    while i < s.len()
        invariant
            i <= s.len(),
            (texts(done@), cur@) == split_state(s@.take(i as int), sep),
        decreases s.len() - i,
    {
        assert(s@.take(i + 1).drop_last() == s@.take(i as int));
        let c = s[i];
        let ghost old_done = done@;
        let ghost old_cur = cur@;
        if c == sep {
            let finished = cur;
            done.push(finished);
            cur = Vec::new();
            assert(texts(done@) =~= texts(old_done).push(old_cur));
        } else {
            cur.push(c);
        }
        i = i + 1;
    }
    assert(s@.take(s.len() as int) == s@);
    let ghost old_done = done@;
    let ghost old_cur = cur@;
    done.push(cur);
    assert(texts(done@) =~= texts(old_done).push(old_cur));
    done
}

} // verus!
