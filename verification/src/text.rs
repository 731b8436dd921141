//! Character-level text helpers.
//!
//! Strings are modelled as sequences of characters (`Seq<char>`); the
//! executable functions work on `Vec<char>` and are specified against that
//! model.

use vstd::prelude::*;
use vstd::utf8::{char_is_scalar, encode_scalar, encode_utf8};

verus! {

/// `String::push` appends one character to the end of the string.
pub assume_specification[ String::push ](s: &mut String, c: char)
    ensures
        final(s)@ == old(s)@.push(c),
;

/// The characters of `s`, in order.
pub fn chars_of(s: &str) -> (v: Vec<char>)
    ensures
        v@ == s@,
{
    let mut v: Vec<char> = Vec::new();
    for c in it: s.chars()
        invariant
            v@ == it.seq().take(it.index() as int),
            it.seq() == s@,
    {
        v.push(c);
        assert(it.seq().take(it.index() + 1) =~= it.seq().take(it.index() as int).push(c));
    }
    assert(s@.take(s@.len() as int) =~= s@);
    v
}

/// The string made of the characters `v[from..to]`.
pub fn string_of(v: &Vec<char>, from: usize, to: usize) -> (s: String)
    requires
        from <= to <= v.len(),
    ensures
        s@ == v@.subrange(from as int, to as int),
{
    let mut s = String::new();
    let mut i: usize = from;
    while i < to
        invariant
            from <= i <= to <= v.len(),
            s@ == v@.subrange(from as int, i as int),
        decreases to - i,
    {
        s.push(v[i]);
        assert(v@.subrange(from as int, i + 1) =~= v@.subrange(from as int, i as int).push(
            v@[i as int],
        ));
        i = i + 1;
    }
    s
}

/// The position of the first `c` in `s` at or after `from`, or `s.len()`
/// when there is none.
pub open spec fn first_position(s: Seq<char>, c: char, from: int) -> int
    decreases s.len() - from,
{
    if from < 0 || from >= s.len() {
        s.len() as int
    } else if s[from] == c {
        from
    } else {
        first_position(s, c, from + 1)
    }
}

/// Any index described as "the first `c` at or after `from`" is
/// `first_position`.
pub proof fn lemma_first_position_unique(s: Seq<char>, c: char, from: int, at: int)
    requires
        0 <= from <= at <= s.len(),
        at < s.len() ==> s[at] == c,
        forall|k: int| from <= k < at ==> s[k] != c,
    ensures
        first_position(s, c, from) == at,
    decreases at - from,
{
    if from < at {
        lemma_first_position_unique(s, c, from + 1, at);
    }
}

/// Finds the first `c` in `v` at or after `from`.
pub fn find_first(v: &Vec<char>, c: char, from: usize) -> (at: usize)
    requires
        from <= v.len(),
    ensures
        at == first_position(v@, c, from as int),
        from <= at <= v.len(),
{
    let mut i: usize = from;
    while i < v.len() && v[i] != c
        invariant
            from <= i <= v.len(),
            forall|k: int| from <= k < i ==> v@[k] != c,
        decreases v.len() - i,
    {
        i = i + 1;
    }
    proof {
        lemma_first_position_unique(v@, c, from as int, i as int);
    }
    i
}

/// The position of the last `c` in `s`, or `-1` when there is none.
pub open spec fn last_position(s: Seq<char>, c: char) -> int
    decreases s.len(),
{
    if s.len() == 0 {
        -1
    } else if s.last() == c {
        s.len() - 1
    } else {
        last_position(s.drop_last(), c)
    }
}

/// `last_position` is the greatest index that holds `c`.
pub proof fn lemma_last_position(s: Seq<char>, c: char)
    ensures
        -1 <= last_position(s, c) < s.len(),
        last_position(s, c) >= 0 ==> s[last_position(s, c)] == c,
        forall|k: int| last_position(s, c) < k < s.len() ==> s[k] != c,
    decreases s.len(),
{
    if s.len() > 0 && s.last() != c {
        lemma_last_position(s.drop_last(), c);
        assert forall|k: int| last_position(s, c) < k < s.len() implies s[k] != c by {
            if k < s.len() - 1 {
                assert(s.drop_last()[k] == s[k]);
            }
        }
    }
}

/// Any index described as "the last `c`" is `last_position`.
pub proof fn lemma_last_position_unique(s: Seq<char>, c: char, at: int)
    requires
        -1 <= at < s.len(),
        at >= 0 ==> s[at] == c,
        forall|k: int| at < k < s.len() ==> s[k] != c,
    ensures
        last_position(s, c) == at,
    decreases s.len(),
{
    if s.len() > 0 && s.last() != c {
        lemma_last_position_unique(s.drop_last(), c, at);
    }
}

/// Finds the last `c` among the first `len` characters of `v`.
pub fn find_last(v: &Vec<char>, len: usize, c: char) -> (at: Option<usize>)
    requires
        len <= v.len(),
    ensures
        match at {
            Some(i) => i == last_position(v@.take(len as int), c),
            None => last_position(v@.take(len as int), c) == -1,
        },
{
    let mut i: usize = len;
    while i > 0 && v[i - 1] != c
        invariant
            i <= len <= v.len(),
            forall|k: int| i <= k < len ==> v@[k] != c,
        decreases i,
    {
        i = i - 1;
    }
    proof {
        lemma_last_position_unique(v@.take(len as int), c, i - 1);
    }
    if i == 0 {
        None
    } else {
        Some(i - 1)
    }
}

/// Tells whether `text` begins with `prefix`.
pub fn starts_with(text: &Vec<char>, prefix: &Vec<char>) -> (b: bool)
    ensures
        b == prefix@.is_prefix_of(text@),
{
    if prefix.len() > text.len() {
        return false;
    }
    let mut i: usize = 0;
    while i < prefix.len()
        invariant
            i <= prefix.len() <= text.len(),
            forall|k: int| 0 <= k < i ==> prefix@[k] == text@[k],
        decreases prefix.len() - i,
    {
        if prefix[i] != text[i] {
            assert(prefix@[i as int] != text@.subrange(0, prefix@.len() as int)[i as int]);
            return false;
        }
        i = i + 1;
    }
    assert(prefix@ =~= text@.subrange(0, prefix@.len() as int));
    true
}

/// Tells whether `a` and `b` hold the same characters.
pub fn same_text(a: &str, b: &str) -> (r: bool)
    ensures
        r == (a@ == b@),
{
    let x = chars_of(a);
    let y = chars_of(b);
    if x.len() != y.len() {
        return false;
    }
    let mut i: usize = 0;
    while i < x.len()
        invariant
            x@ == a@,
            y@ == b@,
            x.len() == y.len(),
            i <= x.len(),
            forall|k: int| 0 <= k < i ==> x@[k] == y@[k],
        decreases x.len() - i,
    {
        if x[i] != y[i] {
            assert(a@[i as int] != b@[i as int]);
            return false;
        }
        i = i + 1;
    }
    assert(x@ =~= y@);
    true
}

/// `s` without its first tag: the first `<` and all that follows it up to
/// and with the nearest `>`. Where no `>` follows the first `<`, or there
/// is no `<`, `s` is left as it is.
pub open spec fn without_first_tag(s: Seq<char>) -> Seq<char> {
    let open = first_position(s, '<', 0);
    let close = first_position(s, '>', open + 1);
    if close < s.len() {
        s.subrange(0, open) + s.subrange(close + 1, s.len() as int)
    } else {
        s
    }
}

/// Takes the first tag out of `v`.
pub fn strip_first_tag(v: &Vec<char>) -> (r: Vec<char>)
    ensures
        r@ == without_first_tag(v@),
{
    let open = find_first(v, '<', 0);
    let close = if open < v.len() {
        find_first(v, '>', open + 1)
    } else {
        v.len()
    };
    let mut r: Vec<char> = Vec::new();
    if close < v.len() {
        copy_range(v, 0, open, &mut r);
        copy_range(v, close + 1, v.len(), &mut r);
    } else {
        copy_range(v, 0, v.len(), &mut r);
        assert(v@.subrange(0, v@.len() as int) =~= v@);
    }
    r
}

/// Appends `v[from..to]` to `out`.
pub fn copy_range(v: &Vec<char>, from: usize, to: usize, out: &mut Vec<char>)
    requires
        from <= to <= v.len(),
    ensures
        final(out)@ == old(out)@ + v@.subrange(from as int, to as int),
{
    let mut i: usize = from;
    while i < to
        invariant
            from <= i <= to <= v.len(),
            out@ == old(out)@ + v@.subrange(from as int, i as int),
        decreases to - i,
    {
        out.push(v[i]);
        assert(v@.subrange(from as int, i + 1) =~= v@.subrange(from as int, i as int).push(
            v@[i as int],
        ));
        i = i + 1;
    }
}

/// `s` without any occurrence of `pattern`: occurrences are found from left
/// to right, and the search goes on behind each one that is taken out.
pub open spec fn without_pattern(s: Seq<char>, pattern: Seq<char>) -> Seq<char>
    decreases s.len(),
{
    if pattern.len() == 0 || s.len() < pattern.len() {
        s
    } else if s.subrange(0, pattern.len() as int) == pattern {
        without_pattern(s.skip(pattern.len() as int), pattern)
    } else {
        seq![s[0]] + without_pattern(s.skip(1), pattern)
    }
}

fn occurs_at(v: &Vec<char>, at: usize, pattern: &Vec<char>) -> (b: bool)
    requires
        at + pattern.len() <= v.len(),
    ensures
        b == (v@.skip(at as int).subrange(0, pattern@.len() as int) == pattern@),
{
    let ghost window = v@.skip(at as int).subrange(0, pattern@.len() as int);
    let mut i: usize = 0;
    while i < pattern.len()
        invariant
            at + pattern.len() <= v.len(),
            i <= pattern.len(),
            window == v@.skip(at as int).subrange(0, pattern@.len() as int),
            forall|k: int| 0 <= k < i ==> window[k] == pattern@[k],
        decreases pattern.len() - i,
    {
        if v[at + i] != pattern[i] {
            assert(window[i as int] != pattern@[i as int]);
            return false;
        }
        i = i + 1;
    }
    assert(window =~= pattern@);
    true
}

/// Whether `pattern` stands in `s` at `at`.
pub open spec fn occurs(s: Seq<char>, pattern: Seq<char>, at: int) -> bool {
    0 <= at && at + pattern.len() <= s.len() && s.skip(at).subrange(0, pattern.len() as int)
        == pattern
}

/// The first place at or after `from` at which `pattern` stands in `s`, or
/// `s.len()` when there is none.
pub open spec fn first_occurrence(s: Seq<char>, pattern: Seq<char>, from: int) -> int
    decreases s.len() - from,
{
    if from < 0 || from + pattern.len() > s.len() {
        s.len() as int
    } else if occurs(s, pattern, from) || from >= s.len() {
        from
    } else {
        first_occurrence(s, pattern, from + 1)
    }
}

/// Whether `pattern` stands somewhere in `s`.
pub open spec fn mentions(s: Seq<char>, pattern: Seq<char>) -> bool {
    occurs(s, pattern, first_occurrence(s, pattern, 0))
}

/// Where `pattern` stands in `s`, it is mentioned there: `mentions` misses
/// no occurrence.
pub proof fn lemma_mentions(s: Seq<char>, pattern: Seq<char>, at: int)
    requires
        occurs(s, pattern, at),
    ensures
        mentions(s, pattern),
        first_occurrence(s, pattern, 0) <= at,
{
    lemma_first_occurrence(s, pattern, 0, at);
}

proof fn lemma_first_occurrence(s: Seq<char>, pattern: Seq<char>, from: int, at: int)
    requires
        0 <= from <= at,
        occurs(s, pattern, at),
    ensures
        from <= first_occurrence(s, pattern, from) <= at,
        occurs(s, pattern, first_occurrence(s, pattern, from)),
    decreases at - from,
{
    if from < at && !occurs(s, pattern, from) {
        lemma_first_occurrence(s, pattern, from + 1, at);
    }
}

proof fn lemma_first_occurrence_unique(s: Seq<char>, pattern: Seq<char>, from: int, at: int)
    requires
        0 <= from <= at,
        forall|k: int| from <= k < at ==> !occurs(s, pattern, k),
        occurs(s, pattern, at) || at + pattern.len() > s.len(),
    ensures
        occurs(s, pattern, at) ==> first_occurrence(s, pattern, from) == at,
        !occurs(s, pattern, at) ==> first_occurrence(s, pattern, from) == s.len(),
    decreases at - from,
{
    if from < at {
        lemma_first_occurrence_unique(s, pattern, from + 1, at);
    }
}

/// Finds the first place at or after `from` at which `pattern` stands in
/// `v`; `v.len()` when there is none.
pub fn find_pattern(v: &Vec<char>, pattern: &Vec<char>, from: usize) -> (at: usize)
    requires
        from <= v.len(),
    ensures
        at == first_occurrence(v@, pattern@, from as int),
        from <= at <= v.len(),
        at < v.len() ==> occurs(v@, pattern@, at as int),
{
    let mut i: usize = from;
    while v.len() - i >= pattern.len()
        invariant
            from <= i <= v.len(),
            forall|k: int| from <= k < i ==> !occurs(v@, pattern@, k),
        decreases v.len() - i,
    {
        if occurs_at(v, i, pattern) {
            proof {
                lemma_first_occurrence_unique(v@, pattern@, from as int, i as int);
            }
            return i;
        }
        if i == v.len() {
            proof {
                lemma_first_occurrence_unique(v@, pattern@, from as int, i + 1);
            }
            return v.len();
        }
        i = i + 1;
    }
    proof {
        lemma_first_occurrence_unique(v@, pattern@, from as int, i as int);
    }
    v.len()
}

/// Tells whether `word` stands somewhere in `v`.
pub fn mentions_word(v: &Vec<char>, word: &str) -> (b: bool)
    ensures
        b == mentions(v@, word@),
{
    let pattern = chars_of(word);
    let at = find_pattern(v, &pattern, 0);
    pattern.len() <= v.len() && at <= v.len() - pattern.len() && occurs_at(v, at, &pattern)
}

/// Takes every occurrence of `pattern` out of `v`. An empty pattern occurs
/// nowhere: the result is a copy of `v`.
pub fn remove_all(v: &Vec<char>, pattern: &Vec<char>) -> (r: Vec<char>)
    ensures
        r@ == without_pattern(v@, pattern@),
{
    let mut r: Vec<char> = Vec::new();
    if pattern.len() == 0 {
        copy_range(v, 0, v.len(), &mut r);
        assert(v@.subrange(0, v@.len() as int) =~= v@);
        return r;
    }
    let mut i: usize = 0;
    assert(v@.skip(0) =~= v@);
    while i < v.len() && v.len() - i >= pattern.len()
        invariant
            i <= v.len(),
            pattern.len() > 0,
            r@ + without_pattern(v@.skip(i as int), pattern@) == without_pattern(v@, pattern@),
        decreases v.len() - i,
    {
        let ghost rest = v@.skip(i as int);
        let ghost before = r@;
        if occurs_at(v, i, pattern) {
            assert(rest.skip(pattern@.len() as int) =~= v@.skip(i + pattern@.len()));
            i = i + pattern.len();
        } else {
            r.push(v[i]);
            assert(rest.skip(1) =~= v@.skip(i + 1));
            assert(r@ + without_pattern(v@.skip(i + 1), pattern@) =~= before + (seq![rest[0]]
                + without_pattern(rest.skip(1), pattern@)));
            i = i + 1;
        }
    }
    copy_range(v, i, v.len(), &mut r);
    assert(v@.subrange(i as int, v@.len() as int) =~= v@.skip(i as int));
    r
}

/// The number of bytes that `c` takes in UTF-8.
pub open spec fn utf8_width(c: char) -> nat {
    if (c as u32) < 0x80 {
        1
    } else if (c as u32) < 0x800 {
        2
    } else if (c as u32) < 0x10000 {
        3
    } else {
        4
    }
}

/// The number of bytes that `s` takes in UTF-8.
pub open spec fn utf8_len(s: Seq<char>) -> nat {
    encode_utf8(s).len()
}

/// A character is encoded in as many bytes as `utf8_width` says.
pub proof fn lemma_utf8_char(c: char)
    ensures
        encode_scalar(c as u32).len() == utf8_width(c),
{
    char_is_scalar(c);
}

/// One character more takes as many bytes more as the character is wide.
pub proof fn lemma_utf8_len_push(s: Seq<char>, c: char)
    ensures
        utf8_len(s.push(c)) == utf8_len(s) + utf8_width(c),
    decreases s.len(),
{
    lemma_utf8_char(c);
    if s.len() == 0 {
        assert(s.push(c).drop_first() =~= Seq::<char>::empty());
        assert(encode_utf8(Seq::<char>::empty()).len() == 0);
    } else {
        assert(s.push(c).drop_first() =~= s.drop_first().push(c));
        lemma_utf8_len_push(s.drop_first(), c);
    }
}

/// Whether the first `k` characters of `s` take exactly `limit` bytes.
pub open spec fn splits_at(s: Seq<char>, k: int, limit: nat) -> bool {
    0 <= k <= s.len() && utf8_len(s.take(k)) == limit
}

/// Whether `s` can be cut to its first `limit` bytes: it is shorter than
/// that, or byte `limit` is where a character begins or `s` ends.
pub open spec fn cuts_cleanly(s: Seq<char>, limit: nat) -> bool {
    utf8_len(s) < limit || exists|k: int| splits_at(s, k, limit)
}

/// The first `limit` bytes of `s`, or all of `s` where it is shorter than
/// that. It says nothing of an `s` that does not cut cleanly.
pub open spec fn first_bytes(s: Seq<char>, limit: nat) -> Seq<char> {
    if utf8_len(s) < limit {
        s
    } else {
        s.take(choose|k: int| splits_at(s, k, limit))
    }
}

/// A longer prefix takes more bytes.
pub proof fn lemma_utf8_len_grows(s: Seq<char>, j: int, k: int)
    requires
        0 <= j < k <= s.len(),
    ensures
        utf8_len(s.take(j)) < utf8_len(s.take(k)),
    decreases k,
{
    assert(s.take(k) =~= s.take(k - 1).push(s[k - 1]));
    lemma_utf8_len_push(s.take(k - 1), s[k - 1]);
    if j < k - 1 {
        lemma_utf8_len_grows(s, j, k - 1);
    }
}

/// There is one place at most at which `s` splits into `limit` bytes and
/// the rest.
pub proof fn lemma_split_is_unique(s: Seq<char>, j: int, k: int, limit: nat)
    requires
        splits_at(s, j, limit),
        splits_at(s, k, limit),
    ensures
        j == k,
{
    if j < k {
        lemma_utf8_len_grows(s, j, k);
    } else if k < j {
        lemma_utf8_len_grows(s, k, j);
    }
}

fn width_of(c: char) -> (w: usize)
    ensures
        w == utf8_width(c),
{
    let code = c as u32;
    if code < 0x80 {
        1
    } else if code < 0x800 {
        2
    } else if code < 0x10000 {
        3
    } else {
        4
    }
}

/// Finds how many characters of `v` make its first `limit` bytes: all of
/// them where `v` is shorter than that, and `None` where byte `limit`
/// falls inside a character.
pub fn cut_point(v: &Vec<char>, limit: usize) -> (r: Option<usize>)
    requires
        limit <= usize::MAX - 4,
    ensures
        r is Some <==> cuts_cleanly(v@, limit as nat),
        r matches Some(k) ==> k <= v.len() && v@.take(k as int) == first_bytes(v@, limit as nat),
{
    let mut i: usize = 0;
    let mut bytes: usize = 0;
    assert(v@.take(0) =~= Seq::<char>::empty());
    while i < v.len() && bytes < limit
        invariant
            i <= v.len(),
            limit <= usize::MAX - 4,
            bytes == utf8_len(v@.take(i as int)),
            i > 0 ==> utf8_len(v@.take(i - 1)) < limit,
        decreases v.len() - i,
    {
        proof {
            assert(v@.take(i + 1) =~= v@.take(i as int).push(v@[i as int]));
            lemma_utf8_len_push(v@.take(i as int), v@[i as int]);
        }
        bytes = bytes + width_of(v[i]);
        i = i + 1;
    }
    assert(v@.take(v@.len() as int) =~= v@);
    proof {
        if bytes == limit {
            assert(splits_at(v@, i as int, limit as nat));
            if utf8_len(v@) >= limit {
                let k = choose|k: int| splits_at(v@, k, limit as nat);
                lemma_split_is_unique(v@, k, i as int, limit as nat);
            } else {
                if i < v.len() {
                    lemma_utf8_len_grows(v@, i as int, v@.len() as int);
                }
            }
        } else if bytes > limit {
            assert forall|k: int| !splits_at(v@, k, limit as nat) by {
                if 0 <= k < i - 1 {
                    lemma_utf8_len_grows(v@, k, i - 1);
                } else if i < k <= v.len() {
                    lemma_utf8_len_grows(v@, i as int, k);
                }
            }
            if i < v.len() {
                lemma_utf8_len_grows(v@, i as int, v@.len() as int);
            }
        }
    }
    if bytes > limit {
        None
    } else {
        Some(i)
    }
}

/// The character that stands for the digit `d`.
pub open spec fn digit_char(d: int) -> char {
    if d == 0 {
        '0'
    } else if d == 1 {
        '1'
    } else if d == 2 {
        '2'
    } else if d == 3 {
        '3'
    } else if d == 4 {
        '4'
    } else if d == 5 {
        '5'
    } else if d == 6 {
        '6'
    } else if d == 7 {
        '7'
    } else if d == 8 {
        '8'
    } else {
        '9'
    }
}

/// The digit that `c` stands for; 0 for any other character.
pub open spec fn digit_value(c: char) -> int {
    if c == '1' {
        1
    } else if c == '2' {
        2
    } else if c == '3' {
        3
    } else if c == '4' {
        4
    } else if c == '5' {
        5
    } else if c == '6' {
        6
    } else if c == '7' {
        7
    } else if c == '8' {
        8
    } else if c == '9' {
        9
    } else {
        0
    }
}

/// The decimal digits of `n`, most significant first, without leading
/// zeros (`0` itself is one digit).
pub open spec fn digits(n: nat) -> Seq<char>
    decreases n,
{
    if n < 10 {
        seq![digit_char(n as int)]
    } else {
        digits(n / 10).push(digit_char((n % 10) as int))
    }
}

/// `n` in decimal, with a leading `-` when it is negative.
pub open spec fn decimal(n: int) -> Seq<char> {
    if n < 0 {
        seq!['-'] + digits((-n) as nat)
    } else {
        digits(n as nat)
    }
}

/// The number that a sequence of digits denotes.
pub open spec fn digits_value(s: Seq<char>) -> int
    decreases s.len(),
{
    if s.len() == 0 {
        0
    } else {
        digits_value(s.drop_last()) * 10 + digit_value(s.last())
    }
}

/// The digits of `n` are not empty, none of them is `-`, and they denote
/// `n`.
pub proof fn lemma_digits(n: nat)
    ensures
        digits(n).len() > 0,
        digits(n)[0] != '-',
        digits_value(digits(n)) == n,
    decreases n,
{
    let last = digit_char((n % 10) as int);
    assert(digit_value(last) == n % 10);
    if n >= 10 {
        lemma_digits(n / 10);
        assert(digits(n).drop_last() =~= digits(n / 10));
        assert(digits(n).last() == last);
        assert(digits(n)[0] == digits(n / 10)[0]);
    } else {
        assert(digits(n).drop_last() =~= Seq::<char>::empty());
        assert(digits(n).last() == last);
        assert(digits_value(digits(n).drop_last()) == 0);
    }
}

/// Two numbers with the same decimal text are the same number.
pub proof fn lemma_decimal_injective(a: int, b: int)
    requires
        decimal(a) == decimal(b),
    ensures
        a == b,
{
    // x stands for |a| and y for |b|
    let x = if a < 0 {
        (-a) as nat
    } else {
        a as nat
    };
    let y = if b < 0 {
        (-b) as nat
    } else {
        b as nat
    };
    lemma_digits(x);
    lemma_digits(y);
    if a < 0 {
        assert(decimal(a)[0] == '-');
        assert(decimal(a).subrange(1, decimal(a).len() as int) =~= digits(x));
    }
    if b < 0 {
        assert(decimal(b)[0] == '-');
        assert(decimal(b).subrange(1, decimal(b).len() as int) =~= digits(y));
    }
}

fn digit_of(d: i128) -> (c: char)
    requires
        0 <= d < 10,
    ensures
        c == digit_char(d as int),
{
    if d == 0 {
        '0'
    } else if d == 1 {
        '1'
    } else if d == 2 {
        '2'
    } else if d == 3 {
        '3'
    } else if d == 4 {
        '4'
    } else if d == 5 {
        '5'
    } else if d == 6 {
        '6'
    } else if d == 7 {
        '7'
    } else if d == 8 {
        '8'
    } else {
        '9'
    }
}

/// Writes `n` in decimal.
pub fn decimal_string(n: i64) -> (s: String)
    ensures
        s@ == decimal(n as int),
{
    let magnitude: i128 = if n < 0 {
        0 - (n as i128)
    } else {
        n as i128
    };
    let mut rest: i128 = magnitude;
    let mut out: Vec<char> = Vec::new();
    while rest >= 10
        invariant
            0 <= rest <= magnitude,
            digits(magnitude as nat) == digits(rest as nat) + out@,
        decreases rest,
    {
        let ghost before = out@;
        out.insert(0, digit_of(rest % 10));
        assert(digits(rest as nat) + before =~= digits((rest / 10) as nat) + out@);
        rest = rest / 10;
    }
    let ghost before = out@;
    out.insert(0, digit_of(rest));
    assert(digits(rest as nat) + before =~= out@);
    if n < 0 {
        out.insert(0, '-');
        assert(out@ =~= seq!['-'] + digits(magnitude as nat));
    }
    let s = string_of(&out, 0, out.len());
    assert(out@.subrange(0, out@.len() as int) =~= out@);
    s
}

} // verus!
