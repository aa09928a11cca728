//! Text primitives: substitution, trimming, splitting and number formatting
//! over sequences of characters.

use vstd::prelude::*;
use vstd::string::*;

verus! {

/// The characters with the Unicode property `White_Space`.
pub open spec fn is_white_space(c: char) -> bool {
    let n = c as int;
    ||| 0x09 <= n <= 0x0d
    ||| n == 0x20
    ||| n == 0x85
    ||| n == 0xa0
    ||| n == 0x1680
    ||| 0x2000 <= n <= 0x200a
    ||| n == 0x2028
    ||| n == 0x2029
    ||| n == 0x202f
    ||| n == 0x205f
    ||| n == 0x3000
}

/// The text of an optional string.
pub open spec fn opt_text(value: Option<String>) -> Option<Seq<char>> {
    match value {
        Some(s) => Some(s@),
        None => None,
    }
}

/// The text of an optional string slice.
pub open spec fn opt_str(value: Option<&str>) -> Option<Seq<char>> {
    match value {
        Some(s) => Some(s@),
        None => None,
    }
}

/// Whether two string slices hold the same characters.
pub fn same_text(a: &str, b: &str) -> (same: bool)
    ensures
        same == (a@ == b@),
{
    a.to_owned() == b.to_owned()
}

/// Copies an optional string.
pub fn copy_opt(value: &Option<String>) -> (copy: Option<String>)
    ensures
        copy == *value,
{
    match value {
        Some(s) => Some(s.clone()),
        None => None,
    }
}

/// The characters of a string slice, in order.
pub fn chars_of(s: &str) -> (chars: Vec<char>)
    ensures
        chars@ == s@,
{
    let mut chars: Vec<char> = Vec::new();
    for c in it: s.chars()
        invariant
            chars@ == s@.take(it.index()),
            it.seq() == s@,
    {
        chars.push(c);
        assert(s@.take(it.index() + 1) =~= s@.take(it.index()).push(c));
    }
    assert(s@.take(s@.len() as int) =~= s@);
    chars
}

/// The text of the characters from `from` up to, and not with, `to`.
pub fn text_between(chars: &Vec<char>, from: usize, to: usize) -> (s: String)
    requires
        from <= to <= chars@.len(),
    ensures
        s@ == chars@.subrange(from as int, to as int),
{
    let mut s = String::new();
    let mut i: usize = from;
    while i < to
        invariant
            from <= i <= to <= chars@.len(),
            s@ == chars@.subrange(from as int, i as int),
        decreases to - i,
    {
        s.push(chars[i]);
        i += 1;
        assert(chars@.subrange(from as int, i as int) =~= chars@.subrange(
            from as int,
            i - 1,
        ).push(chars@[i - 1]));
    }
    s
}

/// `s` with every occurrence of `from`, found from left to right and without
/// overlap, replaced by `to`.
pub open spec fn replace_all(s: Seq<char>, from: Seq<char>, to: Seq<char>) -> Seq<char>
    decreases s.len(),
{
    if s.len() == 0 || from.len() == 0 {
        s
    } else if from.is_prefix_of(s) {
        to + replace_all(s.skip(from.len() as int), from, to)
    } else {
        seq![s[0]] + replace_all(s.skip(1), from, to)
    }
}

/// Whether `pattern` stands in `chars` at position `at`.
fn stands_at(chars: &Vec<char>, pattern: &Vec<char>, at: usize) -> (found: bool)
    requires
        at <= chars@.len(),
    ensures
        found == pattern@.is_prefix_of(chars@.skip(at as int)),
{
    if pattern.len() > chars.len() - at {
        return false;
    }
    let mut i: usize = 0;
    while i < pattern.len()
        invariant
            i <= pattern@.len(),
            at + pattern.len() <= chars.len(),
            forall|j: int| 0 <= j < i ==> #[trigger] pattern@[j] == chars@[at + j],
        decreases pattern@.len() - i,
    {
        if pattern[i] != chars[at + i] {
            assert(chars@.skip(at as int)[i as int] == chars@[at + i]);
            return false;
        }
        i += 1;
    }
    assert(pattern@ =~= chars@.skip(at as int).subrange(0, pattern@.len() as int));
    true
}

/// Replaces every occurrence of `from` in `s` by `to`.
pub fn replace(s: &str, from: &str, to: &str) -> (replaced: String)
    requires
        from@.len() > 0,
    ensures
        replaced@ == replace_all(s@, from@, to@),
{
    let chars = chars_of(s);
    let pattern = chars_of(from);
    let mut out = String::new();
    let mut i: usize = 0;
    assert(chars@.skip(0) =~= chars@);
    while i < chars.len()
        invariant
            i <= chars@.len(),
            chars@ == s@,
            pattern@ == from@,
            from@.len() > 0,
            out@ + replace_all(chars@.skip(i as int), from@, to@) == replace_all(s@, from@, to@),
        decreases chars@.len() - i,
    {
        let ghost rest = chars@.skip(i as int);
        if stands_at(&chars, &pattern, i) {
            let ghost before = out@;
            out.append(to);
            i += pattern.len();
            proof {
                assert(rest.skip(from@.len() as int) =~= chars@.skip(i as int));
                assert(out@ + replace_all(chars@.skip(i as int), from@, to@) =~= before
                    + replace_all(rest, from@, to@));
            }
        } else {
            let ghost before = out@;
            out.push(chars[i]);
            i += 1;
            proof {
                assert(rest.skip(1) =~= chars@.skip(i as int));
                assert(out@ + replace_all(chars@.skip(i as int), from@, to@) =~= before
                    + replace_all(rest, from@, to@));
            }
        }
    }
    assert(replace_all(chars@.skip(i as int), from@, to@) =~= Seq::<char>::empty());
    out
}

/// `s` up to the first occurrence of `mark`, or all of it where there is none.
pub open spec fn before_first(s: Seq<char>, mark: char) -> Seq<char>
    decreases s.len(),
{
    if s.len() == 0 || s[0] == mark {
        Seq::empty()
    } else {
        seq![s[0]] + before_first(s.skip(1), mark)
    }
}

/// `s` from behind the last occurrence of `mark`, or all of it where there is none.
pub open spec fn after_last(s: Seq<char>, mark: char) -> Seq<char>
    decreases s.len(),
{
    if s.len() == 0 || s.last() == mark {
        Seq::empty()
    } else {
        after_last(s.drop_last(), mark).push(s.last())
    }
}

/// The number of characters before the first occurrence of `mark`.
pub fn find_first(chars: &Vec<char>, mark: char) -> (at: usize)
    ensures
        at <= chars@.len(),
        chars@.take(at as int) == before_first(chars@, mark),
{
    let mut at: usize = 0;
    assert(chars@.skip(0) =~= chars@);
    while at < chars.len() && chars[at] != mark
        invariant
            at <= chars@.len(),
            before_first(chars@, mark) == chars@.take(at as int) + before_first(
                chars@.skip(at as int),
                mark,
            ),
        decreases chars@.len() - at,
    {
        let ghost rest = chars@.skip(at as int);
        at += 1;
        assert(rest.skip(1) =~= chars@.skip(at as int));
        assert(chars@.take(at as int) + before_first(chars@.skip(at as int), mark) =~= chars@.take(
            at - 1,
        ) + (seq![rest[0]] + before_first(rest.skip(1), mark)));
    }
    assert(before_first(chars@.skip(at as int), mark) =~= Seq::<char>::empty());
    assert(chars@.take(at as int) + Seq::<char>::empty() =~= chars@.take(at as int));
    at
}

/// The position behind the last occurrence of `mark` among the first `end`
/// characters.
pub fn find_after_last(chars: &Vec<char>, end: usize, mark: char) -> (at: usize)
    requires
        end <= chars@.len(),
    ensures
        at <= end,
        chars@.subrange(at as int, end as int) == after_last(chars@.take(end as int), mark),
{
    let mut at: usize = end;
    while at > 0 && chars[at - 1] != mark
        invariant
            at <= end <= chars@.len(),
            after_last(chars@.take(end as int), mark) == after_last(chars@.take(at as int), mark)
                + chars@.subrange(at as int, end as int),
        decreases at,
    {
        let ghost head = chars@.take(at as int);
        at -= 1;
        assert(head.drop_last() =~= chars@.take(at as int));
        assert(after_last(chars@.take(at as int), mark) + chars@.subrange(at as int, end as int)
            =~= after_last(head, mark) + chars@.subrange(at + 1, end as int));
    }
    assert(after_last(chars@.take(at as int), mark) =~= Seq::<char>::empty());
    assert(Seq::<char>::empty() + chars@.subrange(at as int, end as int) =~= chars@.subrange(
        at as int,
        end as int,
    ));
    at
}

/// `s` without the white space at its start.
pub open spec fn trim_start(s: Seq<char>) -> Seq<char>
    decreases s.len(),
{
    if s.len() > 0 && is_white_space(s[0]) {
        trim_start(s.skip(1))
    } else {
        s
    }
}

/// `s` without the white space at its end.
pub open spec fn trim_end(s: Seq<char>) -> Seq<char>
    decreases s.len(),
{
    if s.len() > 0 && is_white_space(s.last()) {
        trim_end(s.drop_last())
    } else {
        s
    }
}

/// `s` without the white space at either end.
pub open spec fn trimmed(s: Seq<char>) -> Seq<char> {
    trim_end(trim_start(s))
}

/// Removes the white space at both ends.
pub fn trim(s: &str) -> (text: &str)
    ensures
        text@ == trimmed(s@),
{
    let chars = chars_of(s);
    let mut from: usize = 0;
    assert(chars@.skip(0) =~= chars@);
    while from < chars.len() && chars[from].is_whitespace()
        invariant
            from <= chars@.len(),
            trim_start(chars@) == trim_start(chars@.skip(from as int)),
        decreases chars@.len() - from,
    {
        assert(chars@.skip(from as int).skip(1) =~= chars@.skip(from + 1));
        from += 1;
    }
    let ghost tail = chars@.skip(from as int);
    let mut to: usize = chars.len();
    assert(chars@.subrange(from as int, to as int) =~= tail);
    while to > from && chars[to - 1].is_whitespace()
        invariant
            from <= to <= chars@.len(),
            trim_end(tail) == trim_end(chars@.subrange(from as int, to as int)),
        decreases to,
    {
        assert(chars@.subrange(from as int, to as int).drop_last() =~= chars@.subrange(
            from as int,
            to - 1,
        ));
        to -= 1;
    }
    s.substring_char(from, to)
}

/// What is left of `s` behind `prefix`, where `s` starts with it.
pub open spec fn stripped_prefix(s: Seq<char>, prefix: Seq<char>) -> Option<Seq<char>> {
    if prefix.is_prefix_of(s) {
        Some(s.skip(prefix.len() as int))
    } else {
        None
    }
}

/// Takes `prefix` off the start of `s`.
pub fn strip_prefix<'a>(s: &'a str, prefix: &str) -> (rest: Option<&'a str>)
    ensures
        opt_str(rest) == stripped_prefix(s@, prefix@),
{
    let chars = chars_of(s);
    let pattern = chars_of(prefix);
    assert(chars@.skip(0) =~= chars@);
    if stands_at(&chars, &pattern, 0) {
        let rest = s.substring_char(pattern.len(), chars.len());
        assert(rest@ =~= s@.skip(prefix@.len() as int));
        Some(rest)
    } else {
        None
    }
}

/// The first `n` characters of `s`, or all of it where it is shorter.
pub open spec fn first_chars(s: Seq<char>, n: nat) -> Seq<char> {
    if s.len() <= n {
        s
    } else {
        s.take(n as int)
    }
}

/// Cuts `s` to its first `n` characters.
pub fn take_chars(s: &str, n: usize) -> (head: String)
    ensures
        head@ == first_chars(s@, n as nat),
{
    let chars = chars_of(s);
    let end: usize = if chars.len() <= n {
        chars.len()
    } else {
        n
    };
    let head = text_between(&chars, 0, end);
    assert(head@ =~= first_chars(s@, n as nat));
    head
}

/// The digit that stands for `value`, which is below sixteen.
pub open spec fn digit(value: int) -> char {
    if value == 0 { '0' }
    else if value == 1 { '1' }
    else if value == 2 { '2' }
    else if value == 3 { '3' }
    else if value == 4 { '4' }
    else if value == 5 { '5' }
    else if value == 6 { '6' }
    else if value == 7 { '7' }
    else if value == 8 { '8' }
    else if value == 9 { '9' }
    else if value == 10 { 'a' }
    else if value == 11 { 'b' }
    else if value == 12 { 'c' }
    else if value == 13 { 'd' }
    else if value == 14 { 'e' }
    else { 'f' }
}

/// The lower-case hexadecimal digit of a value below sixteen.
pub fn hex_digit(value: u8) -> (c: char)
    requires
        value < 16,
    ensures
        c == digit(value as int),
{
    match value {
        0 => '0',
        1 => '1',
        2 => '2',
        3 => '3',
        4 => '4',
        5 => '5',
        6 => '6',
        7 => '7',
        8 => '8',
        9 => '9',
        10 => 'a',
        11 => 'b',
        12 => 'c',
        13 => 'd',
        14 => 'e',
        _ => 'f',
    }
}

/// The decimal digits of a natural number, without leading zeros.
pub open spec fn decimal_nat(n: nat) -> Seq<char>
    decreases n,
{
    if n < 10 {
        seq![digit(n as int)]
    } else {
        decimal_nat(n / 10).push(digit((n % 10) as int))
    }
}

/// The decimal notation of an integer.
pub open spec fn decimal(i: int) -> Seq<char> {
    if i < 0 {
        seq!['-'] + decimal_nat((-i) as nat)
    } else {
        decimal_nat(i as nat)
    }
}

/// Writes a natural number in decimal notation.
pub fn format_u64(n: u64) -> (s: String)
    ensures
        s@ == decimal(n as int),
    decreases n,
{
    if n < 10 {
        let mut s = String::new();
        s.push(hex_digit(n as u8));
        assert(s@ =~= seq![digit(n as int)]);
        s
    } else {
        let mut s = format_u64(n / 10);
        s.push(hex_digit((n % 10) as u8));
        s
    }
}

/// Writes an integer in decimal notation.
pub fn format_i64(i: i64) -> (s: String)
    ensures
        s@ == decimal(i as int),
{
    if i >= 0 {
        format_u64(i as u64)
    } else {
        let magnitude: u64 = if i == i64::MIN {
            0x8000_0000_0000_0000
        } else {
            (-i) as u64
        };
        let mut s = String::new();
        s.push('-');
        s.append(format_u64(magnitude).as_str());
        assert(s@ =~= decimal(i as int));
        s
    }
}

/// Joins two texts.
pub fn join2(a: &str, b: &str) -> (s: String)
    ensures
        s@ == a@ + b@,
{
    let mut s = a.to_owned();
    s.append(b);
    s
}

/// Joins three texts.
pub fn join3(a: &str, b: &str, c: &str) -> (s: String)
    ensures
        s@ == a@ + b@ + c@,
{
    let mut s = join2(a, b);
    s.append(c);
    s
}

/// Joins four texts.
pub fn join4(a: &str, b: &str, c: &str, d: &str) -> (s: String)
    ensures
        s@ == a@ + b@ + c@ + d@,
{
    let mut s = join3(a, b, c);
    s.append(d);
    s
}

/// Joins five texts.
pub fn join5(a: &str, b: &str, c: &str, d: &str, e: &str) -> (s: String)
    ensures
        s@ == a@ + b@ + c@ + d@ + e@,
{
    let mut s = join4(a, b, c, d);
    s.append(e);
    s
}

/// Law: the digits are those of the hexadecimal notation in lower case, so that each
/// stands as far behind `0`, or from ten on behind `a`, as its value says.
pub proof fn digits_stand_for_their_values(value: int)
    requires
        0 <= value < 16,
    ensures
        value < 10 ==> digit(value) as int == '0' as int + value,
        value >= 10 ==> digit(value) as int == 'a' as int + (value - 10),
{
}

/// Law: in decimal notation the last digit of a number stands for its remainder by
/// ten, and what stands before it, if anything, for its quotient; a negative number is
/// its magnitude behind a minus sign.
pub proof fn decimal_is_positional(n: int, d: int)
    requires
        0 <= n,
        0 <= d < 10,
    ensures
        decimal(d) == seq![digit(d)],
        n > 0 ==> decimal(10 * n + d) == decimal(n) + seq![digit(d)],
        n > 0 ==> decimal(-n) == seq!['-'] + decimal(n),
{
    if n > 0 {
        let m = (10 * n + d) as nat;
        assert(m / 10 == n as nat && m % 10 == d as nat);
        assert(decimal(10 * n + d) =~= decimal(n) + seq![digit(d)]);
    }
}

/// Law: the first characters of a text are its start: all of it where it is not
/// longer, and else just as many as were asked for.
pub proof fn first_chars_are_the_start(s: Seq<char>, n: nat, rest: Seq<char>)
    ensures
        s.len() <= n ==> first_chars(s, n) == s,
        s.len() == n ==> first_chars(s + rest, n) == s,
{
    if s.len() == n {
        assert((s + rest).take(n as int) =~= s);
        if rest.len() == 0 {
            assert(s + rest =~= s);
        }
    }
}

/// Law: a text with no white space at its ends is its own trimmed form.
pub proof fn text_without_blanks_at_its_ends_is_trimmed(s: Seq<char>)
    requires
        s.len() > 0 ==> !is_white_space(s[0]) && !is_white_space(s.last()),
    ensures
        trimmed(s) == s,
{
}

/// Law: a prefix is taken off exactly where it stands.
pub proof fn prefix_is_taken_off(prefix: Seq<char>, rest: Seq<char>, s: Seq<char>)
    ensures
        stripped_prefix(prefix + rest, prefix) == Some(rest),
        stripped_prefix(s, prefix) matches Some(left) ==> s == prefix + left,
{
    assert(prefix =~= (prefix + rest).subrange(0, prefix.len() as int));
    assert((prefix + rest).skip(prefix.len() as int) =~= rest);
    if prefix.is_prefix_of(s) {
        assert(prefix =~= s.subrange(0, prefix.len() as int));
        assert(s =~= prefix + s.skip(prefix.len() as int));
    }
}

/// `s` with each `from` replaced by `to`, character by character.
proof fn lemma_replace_one_char(s: Seq<char>, from: char, to: char)
    ensures
        replace_all(s, seq![from], seq![to]) == s.map_values(
            |c: char|
                if c == from {
                    to
                } else {
                    c
                },
        ),
    decreases s.len(),
{
    let change = |c: char|
        if c == from {
            to
        } else {
            c
        };
    let replaced = replace_all(s, seq![from], seq![to]);
    if s.len() == 0 {
        assert(replaced =~= s.map_values(change));
    } else {
        lemma_replace_one_char(s.skip(1), from, to);
        if s[0] == from {
            assert(seq![from] =~= s.subrange(0, 1));
        } else {
            assert(seq![from][0] != s.subrange(0, 1)[0]);
            assert(!seq![from].is_prefix_of(s));
        }
        assert(replaced == seq![change(s[0])] + s.skip(1).map_values(change));
        assert(s.map_values(change) =~= seq![change(s[0])] + s.skip(1).map_values(change));
    }
}

/// Law: where one character is replaced by one, every occurrence is, and every other
/// character stays where it is.
pub proof fn character_is_replaced_everywhere(s: Seq<char>, from: char, to: char, i: int)
    requires
        0 <= i < s.len(),
    ensures
        replace_all(s, seq![from], seq![to]).len() == s.len(),
        replace_all(s, seq![from], seq![to])[i] == if s[i] == from {
            to
        } else {
            s[i]
        },
{
    lemma_replace_one_char(s, from, to);
}

/// Law: an optional text is seen as what it holds.
pub proof fn optional_text_is_seen_as_it_is(s: String, slice: &str)
    ensures
        opt_text(Some(s)) == Some(s@),
        opt_text(None) is None,
        opt_str(Some(slice)) == Some(slice@),
        opt_str(None) is None,
{
}

} // verus!
