//! Texts and numbers: decimal writing and reading, prefixes and suffixes, the
//! longest prefix of a text within a number of bytes, and the first position of
//! an item in a sequence.

use vstd::prelude::*;
use vstd::string::*;
use vstd::utf8::{char_is_scalar, encode_scalar, encode_utf8};

verus! {

/// The character that writes the digit `d`; `'9'` for anything from nine up.
pub open spec fn digit_char(d: nat) -> char {
    if d == 0 {
        '0'
    } else if d == 1 {
        '1'
    } else if d == 2 {
        '2'
    } else if d == 3 {
        '3'
    } else if d == 4 {
        '4'
    } else if d == 5 {
        '5'
    } else if d == 6 {
        '6'
    } else if d == 7 {
        '7'
    } else if d == 8 {
        '8'
    } else {
        '9'
    }
}

/// `c` is one of the ten decimal digits.
pub open spec fn is_digit(c: char) -> bool {
    c == '0' || c == '1' || c == '2' || c == '3' || c == '4' || c == '5' || c == '6' || c == '7'
        || c == '8' || c == '9'
}

/// The number that the digit `c` writes; nine for a character that is no digit.
pub open spec fn digit_value(c: char) -> nat {
    if c == '0' {
        0
    } else if c == '1' {
        1
    } else if c == '2' {
        2
    } else if c == '3' {
        3
    } else if c == '4' {
        4
    } else if c == '5' {
        5
    } else if c == '6' {
        6
    } else if c == '7' {
        7
    } else if c == '8' {
        8
    } else {
        9
    }
}

/// Every character of `s` is a decimal digit.
pub open spec fn all_digits(s: Seq<char>) -> bool {
    forall|i: int| 0 <= i < s.len() ==> is_digit(#[trigger] s[i])
}

/// The number that `s` writes in base ten, read from the left.
pub open spec fn decimal_value(s: Seq<char>) -> nat
    decreases s.len(),
{
    if s.len() == 0 {
        0
    } else {
        10 * decimal_value(s.drop_last()) + digit_value(s.last())
    }
}

/// `n` written in base ten, without leading zeros.
pub open spec fn decimal(n: nat) -> Seq<char>
    decreases n,
{
    if n < 10 {
        seq![digit_char(n)]
    } else {
        decimal(n / 10).push(digit_char(n % 10))
    }
}

/// Reading one more digit multiplies what was read by ten and adds the digit.
pub proof fn lemma_decimal_value_step(s: Seq<char>, k: int)
    requires
        0 <= k < s.len(),
    ensures
        decimal_value(s.take(k + 1)) == 10 * decimal_value(s.take(k)) + digit_value(s[k]),
{
    assert(s.take(k + 1).drop_last() =~= s.take(k));
}

/// A prefix of a digit string writes no larger a number than the whole string.
pub proof fn lemma_decimal_value_prefix(s: Seq<char>, k: int)
    requires
        0 <= k <= s.len(),
    ensures
        decimal_value(s.take(k)) <= decimal_value(s),
    decreases s.len() - k,
{
    if k == s.len() {
        assert(s.take(k) =~= s);
    } else {
        lemma_decimal_value_step(s, k);
        lemma_decimal_value_prefix(s, k + 1);
    }
}

/// The decimal writing of a number is made of digits and reads back as that number.
pub proof fn lemma_decimal_round_trip(n: nat)
    ensures
        decimal(n).len() > 0,
        all_digits(decimal(n)),
        decimal_value(decimal(n)) == n,
    decreases n,
{
    if n < 10 {
        let s = decimal(n);
        assert(decimal_value(s.drop_last()) == 0);
    } else {
        lemma_decimal_round_trip(n / 10);
        let p = decimal(n / 10);
        let s = decimal(n);
        assert(s.drop_last() =~= p);
    }
}

fn digit_str(d: u64) -> (s: &'static str)
    requires
        d < 10,
    ensures
        s@ == seq![digit_char(d as nat)],
{
    proof {
        reveal_strlit("0");
        reveal_strlit("1");
        reveal_strlit("2");
        reveal_strlit("3");
        reveal_strlit("4");
        reveal_strlit("5");
        reveal_strlit("6");
        reveal_strlit("7");
        reveal_strlit("8");
        reveal_strlit("9");
    }
    let s = if d == 0 {
        "0"
    } else if d == 1 {
        "1"
    } else if d == 2 {
        "2"
    } else if d == 3 {
        "3"
    } else if d == 4 {
        "4"
    } else if d == 5 {
        "5"
    } else if d == 6 {
        "6"
    } else if d == 7 {
        "7"
    } else if d == 8 {
        "8"
    } else {
        "9"
    };
    s
}

/// Writes `n` in base ten.
pub fn u64_to_string(n: u64) -> (s: String)
    ensures
        s@ == decimal(n as nat),
{
    let mut rest: u64 = n / 10;
    let mut s = String::from_str(digit_str(n % 10));
    while rest > 0
        invariant
            rest > 0 ==> decimal(n as nat) == decimal(rest as nat) + s@,
            rest == 0 ==> decimal(n as nat) == s@,
        decreases rest,
    {
        let d: u64 = rest % 10;
        s = String::from_str(digit_str(d)).concat(s.as_str());
        rest = rest / 10;
    }
    s
}

/// The digit that `c` writes, if `c` is a decimal digit.
pub fn digit_of(c: char) -> (r: Option<u64>)
    ensures
        r is Some == is_digit(c),
        r is Some ==> r->0 == digit_value(c),
{
    if c == '0' {
        Some(0)
    } else if c == '1' {
        Some(1)
    } else if c == '2' {
        Some(2)
    } else if c == '3' {
        Some(3)
    } else if c == '4' {
        Some(4)
    } else if c == '5' {
        Some(5)
    } else if c == '6' {
        Some(6)
    } else if c == '7' {
        Some(7)
    } else if c == '8' {
        Some(8)
    } else if c == '9' {
        Some(9)
    } else {
        None
    }
}

/// Whether `s` begins with `prefix`.
pub fn starts_with(s: &str, prefix: &str) -> (r: bool)
    ensures
        r == prefix@.is_prefix_of(s@),
{
    let n: usize = s.unicode_len();
    let m: usize = prefix.unicode_len();
    if m > n {
        return false;
    }
    let mut i: usize = 0;
    while i < m
        invariant
            i <= m <= n,
            n == s@.len(),
            m == prefix@.len(),
            forall|j: int| 0 <= j < i ==> s@[j] == prefix@[j],
        decreases m - i,
    {
        if s.get_char(i) != prefix.get_char(i) {
            return false;
        }
        i += 1;
    }
    true
}

/// Whether `s` ends with `suffix`.
pub fn ends_with(s: &str, suffix: &str) -> (r: bool)
    ensures
        r == suffix@.is_suffix_of(s@),
{
    let n: usize = s.unicode_len();
    let m: usize = suffix.unicode_len();
    if m > n {
        return false;
    }
    let start: usize = n - m;
    let mut i: usize = 0;
    while i < m
        invariant
            i <= m <= n,
            start == n - m,
            n == s@.len(),
            m == suffix@.len(),
            forall|j: int| 0 <= j < i ==> s@[start + j] == suffix@[j],
        decreases m - i,
    {
        if s.get_char(start + i) != suffix.get_char(i) {
            return false;
        }
        i += 1;
    }
    true
}


/// A copy of an optional string.
pub fn copy_optional(value: &Option<String>) -> (copy: Option<String>)
    ensures
        copy == *value,
{
    match value {
        Some(s) => Some(s.clone()),
        None => None,
    }
}

/// The text of an optional string, if there is one.
pub open spec fn optional_text(value: Option<String>) -> Option<Seq<char>> {
    match value {
        Some(s) => Some(s@),
        None => None,
    }
}


/// Whether two texts are the same.
pub fn same_text(a: &str, b: &str) -> (same: bool)
    ensures
        same == (a@ == b@),
{
    String::from_str(a) == String::from_str(b)
}

/// `needle` stands somewhere in `text`, as one unbroken run.
pub open spec fn occurs_in(needle: Seq<char>, text: Seq<char>) -> bool {
    exists|at: int|
        0 <= at && at + needle.len() <= text.len() && #[trigger] text.subrange(
            at,
            at + needle.len(),
        ) == needle
}

/// Whether `needle` stands somewhere in `text`.
pub fn contains(text: &str, needle: &str) -> (found: bool)
    ensures
        found == occurs_in(needle@, text@),
{
    let n: usize = text.unicode_len();
    let m: usize = needle.unicode_len();
    if m > n {
        return false;
    }
    if m == 0 {
        assert(text@.subrange(0int, 0int + needle@.len()) =~= needle@);
        return true;
    }
    let last: usize = n - m;
    let mut at: usize = 0;
    while at <= last
        invariant
            at <= last + 1,
            0 < m <= n,
            last == n - m,
            n == text@.len(),
            m == needle@.len(),
            forall|a: int| 0 <= a < at ==> #[trigger] text@.subrange(a, a + m) != needle@,
        decreases last + 1 - at,
    {
        if same_text(text.substring_char(at, at + m), needle) {
            return true;
        }
        at += 1;
    }
    false
}

/// A text occurs in whatever is built around it.
pub proof fn lemma_occurs_in_middle(before: Seq<char>, needle: Seq<char>, after: Seq<char>)
    ensures
        occurs_in(needle, before + needle + after),
{
    let text = before + needle + after;
    let at = before.len() as int;
    assert(text.subrange(at, at + needle.len()) =~= needle);
}


/// Where `x` first stands in `s`; the length of `s` where it does not occur.
pub open spec fn first_index_of<T>(s: Seq<T>, x: T) -> int
    decreases s.len(),
{
    if s.len() == 0 {
        0
    } else if s[0] == x {
        0
    } else {
        1 + first_index_of(s.drop_first(), x)
    }
}

/// `first_index_of` is the least position that holds `x`.
pub proof fn lemma_first_index_of<T>(s: Seq<T>, x: T, k: int)
    requires
        0 <= k <= s.len(),
        forall|j: int| 0 <= j < k ==> s[j] != x,
        k < s.len() ==> s[k] == x,
    ensures
        first_index_of(s, x) == k,
    decreases s.len(),
{
    if s.len() == 0 {
    } else if k == 0 {
    } else {
        let t = s.drop_first();
        lemma_first_index_of(t, x, k - 1);
    }
}

/// What `first_index_of` finds: a position within `s`, or its length; `x` stands
/// there and nowhere before.
pub proof fn lemma_first_index_of_is_first<T>(s: Seq<T>, x: T)
    ensures
        0 <= first_index_of(s, x) <= s.len(),
        first_index_of(s, x) < s.len() ==> s[first_index_of(s, x)] == x,
        forall|j: int| 0 <= j < first_index_of(s, x) ==> s[j] != x,
    decreases s.len(),
{
    if s.len() == 0 {
    } else if s[0] == x {
    } else {
        let t = s.drop_first();
        lemma_first_index_of_is_first(t, x);
        assert forall|j: int| 0 <= j < first_index_of(s, x) implies s[j] != x by {
            if j > 0 {
                assert(s[j] == t[j - 1]);
            }
        }
    }
}


/// `prefix` is the longest prefix of `text` that UTF-8 writes in at most `limit`
/// bytes: it is a prefix of `text`, it fits, and no longer prefix fits. A prefix
/// is made of whole characters, so it ends at a character boundary.
pub open spec fn is_longest_prefix_within(prefix: Seq<char>, text: Seq<char>, limit: int) -> bool {
    &&& prefix.is_prefix_of(text)
    &&& encode_utf8(prefix).len() <= limit
    &&& forall|k: int|
        prefix.len() < k <= text.len() ==> encode_utf8(#[trigger] text.take(k)).len() > limit
}

/// The longest prefix of `text` that UTF-8 writes in at most `limit` bytes.
pub open spec fn longest_prefix_within(text: Seq<char>, limit: int) -> Seq<char> {
    choose|prefix: Seq<char>| is_longest_prefix_within(prefix, text, limit)
}

/// One more character makes the UTF-8 form longer by the bytes of that character,
/// which are one to four.
pub proof fn lemma_encoding_grows(text: Seq<char>, k: int)
    requires
        0 <= k < text.len(),
    ensures
        encode_utf8(text.take(k + 1)).len() == encode_utf8(text.take(k)).len() + encode_scalar(
            text[k] as u32,
        ).len(),
        1 <= encode_scalar(text[k] as u32).len() <= 4,
    decreases k,
{
    if k == 0 {
        assert(text.take(1).drop_first() =~= Seq::<char>::empty());
        assert(text.take(0) =~= Seq::<char>::empty());
        assert(encode_utf8(text.take(1)) =~= encode_scalar(text[0] as u32) + encode_utf8(
            Seq::<char>::empty(),
        ));
    } else {
        let rest = text.drop_first();
        lemma_encoding_grows(rest, k - 1);
        assert(text.take(k + 1).drop_first() =~= rest.take(k));
        assert(text.take(k).drop_first() =~= rest.take(k - 1));
        assert(rest[k - 1] == text[k]);
    }
}

/// A longer prefix has no shorter a UTF-8 form.
pub proof fn lemma_encoding_is_monotonic(text: Seq<char>, j: int, k: int)
    requires
        0 <= j <= k <= text.len(),
    ensures
        encode_utf8(text.take(j)).len() <= encode_utf8(text.take(k)).len(),
    decreases k - j,
{
    if j < k {
        lemma_encoding_grows(text, j);
        lemma_encoding_is_monotonic(text, j + 1, k);
    }
}

/// There is one longest prefix within a limit, not two.
pub proof fn lemma_longest_prefix_is_unique(
    first: Seq<char>,
    second: Seq<char>,
    text: Seq<char>,
    limit: int,
)
    requires
        is_longest_prefix_within(first, text, limit),
        is_longest_prefix_within(second, text, limit),
    ensures
        first == second,
{
    assert(first =~= text.take(first.len() as int));
    assert(second =~= text.take(second.len() as int));
    if first.len() < second.len() {
        assert(encode_utf8(text.take(second.len() as int)).len() > limit);
    } else if second.len() < first.len() {
        assert(encode_utf8(text.take(first.len() as int)).len() > limit);
    }
}

/// Every text has a longest prefix within a limit that is not negative.
pub proof fn lemma_longest_prefix_exists(text: Seq<char>, limit: int)
    requires
        0 <= limit,
    ensures
        is_longest_prefix_within(longest_prefix_within(text, limit), text, limit),
{
    lemma_some_prefix_is_longest(text, limit, 0);
}

/// Among the prefixes from `k` characters on there is a longest one within the
/// limit, where the prefix of `k` characters fits.
proof fn lemma_some_prefix_is_longest(text: Seq<char>, limit: int, k: int)
    requires
        0 <= k <= text.len(),
        encode_utf8(text.take(k)).len() <= limit,
    ensures
        exists|prefix: Seq<char>| is_longest_prefix_within(prefix, text, limit),
    decreases text.len() - k,
{
    let kept = text.take(k);
    if k < text.len() && encode_utf8(text.take(k + 1)).len() <= limit {
        lemma_some_prefix_is_longest(text, limit, k + 1);
    } else {
        assert(kept =~= text.subrange(0, kept.len() as int));
        assert forall|j: int| kept.len() < j <= text.len() implies encode_utf8(
            #[trigger] text.take(j),
        ).len() > limit by {
            lemma_encoding_is_monotonic(text, k + 1, j);
        }
        assert(is_longest_prefix_within(kept, text, limit));
    }
}

/// A text that fits the limit is its own longest prefix within the limit.
pub proof fn lemma_short_text_is_kept(text: Seq<char>, limit: int)
    requires
        encode_utf8(text).len() <= limit,
    ensures
        longest_prefix_within(text, limit) == text,
{
    assert(text.subrange(0, text.len() as int) =~= text);
    assert(is_longest_prefix_within(text, text, limit));
    lemma_longest_prefix_is_unique(text, longest_prefix_within(text, limit), text, limit);
}

/// The number of bytes in which UTF-8 writes a character.
pub fn utf8_width(c: char) -> (width: usize)
    ensures
        width == encode_scalar(c as u32).len(),
        1 <= width <= 4,
{
    proof {
        char_is_scalar(c);
    }
    let v: u32 = c as u32;
    if v < 0x80 {
        1
    } else if v < 0x800 {
        2
    } else if v < 0x10000 {
        3
    } else {
        4
    }
}

/// Cuts a text to the longest prefix that UTF-8 writes in at most `limit` bytes. A
/// text that fits is handed back whole; no character is cut in two.
pub fn longest_prefix(text: &str, limit: usize) -> (prefix: String)
    ensures
        prefix@ == longest_prefix_within(text@, limit as int),
{
    let n: usize = text.unicode_len();
    let mut k: usize = 0;
    let mut bytes: usize = 0;
    assert(text@.take(0) =~= Seq::<char>::empty());
    while k < n
        invariant
            k <= n,
            n == text@.len(),
            bytes == encode_utf8(text@.take(k as int)).len(),
            bytes <= limit,
        decreases n - k,
    {
        let width = utf8_width(text.get_char(k));
        proof {
            lemma_encoding_grows(text@, k as int);
        }
        if width > limit - bytes {
            let kept = text.substring_char(0, k);
            proof {
                assert(kept@ =~= text@.take(k as int));
                assert forall|j: int| kept@.len() < j <= text@.len() implies encode_utf8(
                    #[trigger] text@.take(j),
                ).len() > limit by {
                    lemma_encoding_is_monotonic(text@, k + 1, j);
                }
                assert(is_longest_prefix_within(kept@, text@, limit as int));
                lemma_longest_prefix_is_unique(
                    kept@,
                    longest_prefix_within(text@, limit as int),
                    text@,
                    limit as int,
                );
            }
            return String::from_str(kept);
        }
        bytes = bytes + width;
        k = k + 1;
    }
    proof {
        assert(text@.take(n as int) =~= text@);
        lemma_short_text_is_kept(text@, limit as int);
    }
    String::from_str(text)
}

} // verus!
