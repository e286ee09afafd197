//! Text primitives: what the SDP reader, the URL rewriting and the configuration need of strings,
//! stated over sequences of characters.
use vstd::arithmetic::power::pow;
use vstd::prelude::*;

verus! {

/// `String::push`: the character is appended at the end.
pub assume_specification[ String::push ](s: &mut String, c: char)
    ensures
        final(s)@ == old(s)@.push(c),
;

/// The characters of a string, in order.
pub fn chars_of(s: &str) -> (chars: Vec<char>)
    ensures
        chars@ == s@,
{
    let mut chars: Vec<char> = Vec::new();
    for c in it: s.chars()
        invariant
            chars@ == it.seq().take(it.index() as int),
            it.seq() == s@,
    {
        chars.push(c);
    }
    assert(s@.take(s@.len() as int) == s@);
    chars
}

/// The string made of `chars`.
pub fn text_of(chars: &Vec<char>) -> (s: String)
    ensures
        s@ == chars@,
{
    let mut s = String::new();
    let mut i: usize = 0;
    while i < chars.len()
        invariant
            i <= chars.len(),
            s@ == chars@.take(i as int),
        decreases chars.len() - i,
    {
        s.push(chars[i]);
        i = i + 1;
        assert(chars@.take(i as int) == chars@.take(i - 1).push(chars@[i - 1]));
    }
    assert(chars@.take(i as int) == chars@);
    s
}

/// The characters with the Unicode property `White_Space`.
pub open spec fn is_white_space(c: char) -> bool {
    let u = c as u32;
    ||| 0x9 <= u <= 0xd
    ||| u == 0x20
    ||| u == 0x85
    ||| u == 0xa0
    ||| u == 0x1680
    ||| 0x2000 <= u <= 0x200a
    ||| u == 0x2028
    ||| u == 0x2029
    ||| u == 0x202f
    ||| u == 0x205f
    ||| u == 0x3000
}

/// Whether a character is white space.
pub fn white_space(c: char) -> (r: bool)
    ensures
        r == is_white_space(c),
{
    let u: u32 = c as u32;
    (0x9 <= u && u <= 0xd) || u == 0x20 || u == 0x85 || u == 0xa0 || u == 0x1680 || (0x2000 <= u
        && u <= 0x200a) || u == 0x2028 || u == 0x2029 || u == 0x202f || u == 0x205f || u == 0x3000
}

/// `s` without the white space at its start.
pub open spec fn trim_start(s: Seq<char>) -> Seq<char>
    decreases s.len(),
{
    if s.len() > 0 && is_white_space(s.first()) {
        trim_start(s.drop_first())
    } else {
        s
    }
}

/// `s` without the white space at its end.
pub open spec fn trim_end(s: Seq<char>) -> Seq<char>
    decreases s.len(),
{
    if s.len() > 0 && is_white_space(s.last()) {
        trim_end(s.drop_last())
    } else {
        s
    }
}

/// `s` without the white space at either end.
pub open spec fn trimmed(s: Seq<char>) -> Seq<char> {
    trim_end(trim_start(s))
}

/// The characters of `v[from..to]`.
pub fn slice_of(v: &Vec<char>, from: usize, to: usize) -> (r: Vec<char>)
    requires
        from <= to <= v.len(),
    ensures
        r@ == v@.subrange(from as int, to as int),
{
    let mut r: Vec<char> = Vec::new();
    let mut i: usize = from;
    while i < to
        invariant
            from <= i <= to <= v.len(),
            r@ == v@.subrange(from as int, i as int),
        decreases to - i,
    {
        r.push(v[i]);
        i = i + 1;
        assert(v@.subrange(from as int, i as int) == v@.subrange(from as int, i - 1).push(
            v@[i - 1],
        ));
    }
    r
}

/// Takes the white space at either end away.
pub fn trim(v: &Vec<char>) -> (r: Vec<char>)
    ensures
        r@ == trimmed(v@),
{
    let mut from: usize = 0;
    assert(v@.skip(0) == v@);
    while from < v.len() && white_space(v[from])
        invariant
            from <= v.len(),
            trim_start(v@) == trim_start(v@.skip(from as int)),
        decreases v.len() - from,
    {
        assert(v@.skip(from as int).drop_first() == v@.skip(from + 1));
        from = from + 1;
    }
    let mut to: usize = v.len();
    let ghost kept = v@.skip(from as int);
    assert(trim_start(v@) == kept);
    assert(v@.subrange(from as int, to as int) == kept);
    while from < to && white_space(v[to - 1])
        invariant
            from <= to <= v.len(),
            trim_end(kept) == trim_end(v@.subrange(from as int, to as int)),
        decreases to - from,
    {
        assert(v@.subrange(from as int, to as int).drop_last() == v@.subrange(
            from as int,
            to - 1,
        ));
        to = to - 1;
    }
    slice_of(v, from, to)
}

/// How many characters of `s` stand before its first line feed, or its length where it has none.
pub open spec fn line_len(s: Seq<char>) -> nat
    decreases s.len(),
{
    if s.len() == 0 || s.first() == '\n' {
        0
    } else {
        1 + line_len(s.drop_first())
    }
}

/// `s` without one carriage return at its end.
pub open spec fn without_return(s: Seq<char>) -> Seq<char> {
    if s.len() > 0 && s.last() == '\r' {
        s.drop_last()
    } else {
        s
    }
}

/// The lines of `s`. A line ends with a line feed, or with a carriage return and a line feed;
/// what follows the last line feed is a line too unless it is empty, and keeps its returns.
pub open spec fn lines_of(s: Seq<char>) -> Seq<Seq<char>>
    decreases s.len(),
    via lines_of_decreases
{
    if s.len() == 0 {
        seq![]
    } else if line_len(s) == s.len() {
        seq![s]
    } else {
        seq![without_return(s.take(line_len(s) as int))] + lines_of(s.skip(line_len(s) as int + 1))
    }
}

#[via_fn]
proof fn lines_of_decreases(s: Seq<char>) {
    lemma_line_len(s);
}

/// `line_len` is at most the length, and where it is less the line feed stands there.
proof fn lemma_line_len(s: Seq<char>)
    ensures
        line_len(s) <= s.len(),
        line_len(s) < s.len() ==> s[line_len(s) as int] == '\n',
        forall|i: int| 0 <= i < line_len(s) ==> s[i] != '\n',
    decreases s.len(),
{
    if s.len() > 0 && s.first() != '\n' {
        lemma_line_len(s.drop_first());
        assert forall|i: int| 0 <= i < line_len(s) implies s[i] != '\n' by {
            if i > 0 {
                assert(s[i] == s.drop_first()[i - 1]);
            }
        }
    }
}

/// The contents of vectors, one by one.
pub open spec fn contents(v: Seq<Vec<char>>) -> Seq<Seq<char>> {
    v.map_values(|w: Vec<char>| w@)
}

/// Splits a text into lines.
pub fn lines(v: &Vec<char>) -> (r: Vec<Vec<char>>)
    ensures
        contents(r@) == lines_of(v@),
{
    let mut r: Vec<Vec<char>> = Vec::new();
    let mut from: usize = 0;
    assert(v@.skip(0) == v@);
    assert(contents(r@) == Seq::<Seq<char>>::empty());
    while from < v.len()
        invariant
            from <= v.len(),
            lines_of(v@) == contents(r@) + lines_of(v@.skip(from as int)),
        decreases v.len() - from,
    {
        let ghost rest = v@.skip(from as int);
        let mut end: usize = from;
        while end < v.len() && v[end] != '\n'
            invariant
                from <= end <= v.len(),
                line_len(v@.skip(from as int)) == (end - from) + line_len(v@.skip(end as int)),
            decreases v.len() - end,
        {
            assert(v@.skip(end as int).drop_first() == v@.skip(end + 1));
            end = end + 1;
        }
        assert(line_len(rest) == end - from);
        let ghost before = contents(r@);
        if end == v.len() {
            let line = slice_of(v, from, end);
            assert(line@ == rest);
            r.push(line);
            from = end;
            assert(v@.skip(from as int) == Seq::<char>::empty());
            assert(contents(r@) == before.push(rest));
        } else {
            let stop: usize = if end > from && v[end - 1] == '\r' {
                end - 1
            } else {
                end
            };
            let line = slice_of(v, from, stop);
            assert(line@ == without_return(rest.take(end - from)));
            r.push(line);
            from = end + 1;
            assert(v@.skip(from as int) == rest.skip(line_len(rest) as int + 1));
            assert(contents(r@) == before.push(without_return(rest.take(line_len(rest) as int))));
        }
    }
    assert(v@.skip(from as int) == Seq::<char>::empty());
    r
}

/// How many characters stand at the start of `s` before its first white space.
pub open spec fn word_len(s: Seq<char>) -> nat
    decreases s.len(),
{
    if s.len() == 0 || is_white_space(s.first()) {
        0
    } else {
        1 + word_len(s.drop_first())
    }
}

/// The maximal runs of characters of `s` that hold no white space.
pub open spec fn words_of(s: Seq<char>) -> Seq<Seq<char>>
    decreases s.len(),
    via words_of_decreases
{
    if s.len() == 0 {
        seq![]
    } else if is_white_space(s.first()) {
        words_of(s.drop_first())
    } else {
        seq![s.take(word_len(s) as int)] + words_of(s.skip(word_len(s) as int))
    }
}

#[via_fn]
proof fn words_of_decreases(s: Seq<char>) {
    lemma_word_len(s);
}

/// `word_len` is at most the length.
proof fn lemma_word_len(s: Seq<char>)
    ensures
        word_len(s) <= s.len(),
    decreases s.len(),
{
    if s.len() > 0 && !is_white_space(s.first()) {
        lemma_word_len(s.drop_first());
    }
}

/// Splits a text at white space.
pub fn words(v: &Vec<char>) -> (r: Vec<Vec<char>>)
    ensures
        contents(r@) == words_of(v@),
{
    let mut r: Vec<Vec<char>> = Vec::new();
    let mut from: usize = 0;
    assert(v@.skip(0) == v@);
    assert(contents(r@) == Seq::<Seq<char>>::empty());
    while from < v.len()
        invariant
            from <= v.len(),
            words_of(v@) == contents(r@) + words_of(v@.skip(from as int)),
        decreases v.len() - from,
    {
        let ghost rest = v@.skip(from as int);
        if white_space(v[from]) {
            assert(rest.drop_first() == v@.skip(from + 1));
            from = from + 1;
        } else {
            let mut end: usize = from;
            while end < v.len() && !white_space(v[end])
                invariant
                    from <= end <= v.len(),
                    word_len(v@.skip(from as int)) == (end - from) + word_len(v@.skip(end as int)),
                decreases v.len() - end,
            {
                assert(v@.skip(end as int).drop_first() == v@.skip(end + 1));
                end = end + 1;
            }
            assert(word_len(rest) == end - from);
            let ghost before = contents(r@);
            let word = slice_of(v, from, end);
            assert(word@ == rest.take(end - from));
            r.push(word);
            assert(end > from);
            from = end;
            assert(v@.skip(from as int) == rest.skip(word_len(rest) as int));
            assert(contents(r@) == before.push(rest.take(word_len(rest) as int)));
        }
    }
    assert(v@.skip(from as int) == Seq::<char>::empty());
    r
}

/// Whether a text begins with `prefix`.
pub fn starts_with(v: &Vec<char>, prefix: &str) -> (r: bool)
    ensures
        r == prefix@.is_prefix_of(v@),
{
    starts_with_at(v, 0, &chars_of(prefix))
}

/// Whether `pattern` stands in `v` at `at`.
fn starts_with_at(v: &Vec<char>, at: usize, pattern: &Vec<char>) -> (r: bool)
    requires
        at <= v.len(),
    ensures
        r == pattern@.is_prefix_of(v@.skip(at as int)),
        at == 0 ==> r == pattern@.is_prefix_of(v@),
{
    assert(v@.skip(0) == v@);
    if pattern.len() > v.len() - at {
        return false;
    }
    let mut i: usize = 0;
    while i < pattern.len()
        invariant
            i <= pattern.len() <= v.len() - at,
            forall|j: int| 0 <= j < i ==> pattern@[j] == v@.skip(at as int)[j],
        decreases pattern.len() - i,
    {
        if v[at + i] != pattern[i] {
            assert(v@.skip(at as int)[i as int] != pattern@[i as int]);
            return false;
        }
        i = i + 1;
    }
    assert(pattern@ == v@.skip(at as int).subrange(0, pattern.len() as int));
    true
}

/// `pattern` stands somewhere in `s`.
pub open spec fn has_pattern(s: Seq<char>, pattern: Seq<char>) -> bool {
    exists|i: int| 0 <= i <= s.len() && pattern.is_prefix_of(#[trigger] s.skip(i))
}

/// Whether `pattern` stands somewhere in a text.
pub fn contains(v: &Vec<char>, pattern: &str) -> (r: bool)
    ensures
        r == has_pattern(v@, pattern@),
{
    let sought = chars_of(pattern);
    let mut i: usize = 0;
    while i < v.len()
        invariant
            i <= v.len(),
            sought@ == pattern@,
            forall|j: int| 0 <= j < i ==> !pattern@.is_prefix_of(#[trigger] v@.skip(j)),
        decreases v.len() - i,
    {
        if starts_with_at(v, i, &sought) {
            return true;
        }
        i = i + 1;
    }
    starts_with_at(v, i, &sought)
}

/// `s` with every occurrence of `pattern`, found from the left, replaced by `by`.
pub open spec fn replaced(s: Seq<char>, pattern: Seq<char>, by: Seq<char>) -> Seq<char>
    decreases s.len(),
{
    if s.len() == 0 || pattern.len() == 0 {
        s
    } else if pattern.is_prefix_of(s) {
        by + replaced(s.skip(pattern.len() as int), pattern, by)
    } else {
        seq![s.first()] + replaced(s.drop_first(), pattern, by)
    }
}

/// Replaces every occurrence of a pattern that is not empty.
pub fn replace(v: &Vec<char>, pattern: &str, by: &str) -> (r: Vec<char>)
    requires
        pattern@.len() > 0,
    ensures
        r@ == replaced(v@, pattern@, by@),
{
    let sought = chars_of(pattern);
    let given = chars_of(by);
    let mut r: Vec<char> = Vec::new();
    let mut i: usize = 0;
    assert(v@.skip(0) == v@);
    while i < v.len()
        invariant
            i <= v.len(),
            sought@ == pattern@,
            given@ == by@,
            pattern@.len() > 0,
            replaced(v@, pattern@, by@) == r@ + replaced(v@.skip(i as int), pattern@, by@),
        decreases v.len() - i,
    {
        let ghost before = r@;
        let ghost rest = v@.skip(i as int);
        if starts_with_at(v, i, &sought) {
            let mut j: usize = 0;
            while j < given.len()
                invariant
                    j <= given.len(),
                    r@ == before + given@.take(j as int),
                decreases given.len() - j,
            {
                r.push(given[j]);
                j = j + 1;
                assert(given@.take(j as int) == given@.take(j - 1).push(given@[j - 1]));
            }
            assert(given@.take(j as int) == by@);
            i = i + sought.len();
            assert(v@.skip(i as int) == rest.skip(pattern@.len() as int));
        } else {
            r.push(v[i]);
            i = i + 1;
            assert(v@.skip(i as int) == rest.drop_first());
            assert(r@ == before + seq![rest.first()]);
        }
    }
    assert(v@.skip(i as int) == Seq::<char>::empty());
    r
}

/// A decimal digit.
pub open spec fn is_digit(c: char) -> bool {
    '0' as u32 <= c as u32 <= '9' as u32
}

/// The number that the digits `s` write in base ten.
pub open spec fn number_of(s: Seq<char>) -> nat
    decreases s.len(),
{
    if s.len() == 0 {
        0
    } else {
        10 * number_of(s.drop_last()) + (s.last() as u32 - '0' as u32) as nat
    }
}

/// `s` holds nothing but decimal digits.
pub open spec fn all_digits(s: Seq<char>) -> bool {
    forall|i: int| 0 <= i < s.len() ==> is_digit(#[trigger] s[i])
}

/// `s` without one plus sign at its start.
pub open spec fn without_plus(s: Seq<char>) -> Seq<char> {
    if s.len() > 0 && s.first() == '+' {
        s.drop_first()
    } else {
        s
    }
}

/// The value of `s` as a 16-bit number: digits, after one plus sign at most, whose number fits.
pub open spec fn u16_of(s: Seq<char>) -> Option<u16> {
    let digits = without_plus(s);
    if digits.len() > 0 && all_digits(digits) && number_of(digits) <= u16::MAX {
        Some(number_of(digits) as u16)
    } else {
        None
    }
}

/// A longer run of digits never writes a smaller number.
proof fn lemma_number_monotonic(s: Seq<char>, n: int)
    requires
        all_digits(s),
        0 <= n <= s.len(),
    ensures
        number_of(s.take(n)) <= number_of(s),
    decreases s.len() - n,
{
    if n < s.len() {
        lemma_number_monotonic(s, n + 1);
        assert(s.take(n + 1).drop_last() == s.take(n));
    } else {
        assert(s.take(n) == s);
    }
}

/// Reads a 16-bit number.
pub fn parse_u16(v: &Vec<char>) -> (r: Option<u16>)
    ensures
        r == u16_of(v@),
{
    let from: usize = if v.len() > 0 && v[0] == '+' {
        1
    } else {
        0
    };
    let ghost digits = without_plus(v@);
    assert(digits == v@.skip(from as int));
    if from == v.len() {
        return None;
    }
    let mut n: u32 = 0;
    let mut i: usize = from;
    assert(digits.take(0) == Seq::<char>::empty());
    while i < v.len()
        invariant
            from <= i <= v.len(),
            digits == v@.skip(from as int),
            digits == without_plus(v@),
            forall|j: int| 0 <= j < i - from ==> is_digit(#[trigger] digits[j]),
            n == number_of(digits.take(i - from)),
            n <= u16::MAX,
        decreases v.len() - i,
    {
        let c: u32 = v[i] as u32;
        assert(digits[i - from] == v@[i as int]);
        if c < '0' as u32 || c > '9' as u32 {
            assert(!is_digit(digits[i - from]));
            return None;
        }
        n = 10 * n + (c - '0' as u32);
        i = i + 1;
        assert(digits.take(i - from).drop_last() == digits.take(i - from - 1));
        assert(digits.take(i - from).last() == digits[i - from - 1]);
        if n > 0xffff {
            proof {
                if all_digits(digits) {
                    lemma_number_monotonic(digits, i - from);
                }
            }
            return None;
        }
    }
    assert(digits.take(i - from) == digits);
    Some(n as u16)
}

/// The value of `s` as the port of a socket address: digits alone, whose number fits in 16 bits.
pub open spec fn port_of(s: Seq<char>) -> Option<u16> {
    if s.len() > 0 && all_digits(s) && number_of(s) <= u16::MAX {
        Some(number_of(s) as u16)
    } else {
        None
    }
}

/// Reads the port of a socket address.
pub fn parse_port(v: &Vec<char>) -> (r: Option<u16>)
    ensures
        r == port_of(v@),
{
    if v.len() > 0 && v[0] == '+' {
        assert(!is_digit(v@[0]));
        None
    } else {
        parse_u16(v)
    }
}

/// The digit of a number less than ten.
pub open spec fn digit_char(d: nat) -> char
    recommends
        d < 10,
{
    ('0' as u32 + d) as char
}

/// `n` in base ten, without leading zeros.
pub open spec fn decimal(n: nat) -> Seq<char>
    decreases n,
{
    if n < 10 {
        seq![digit_char(n)]
    } else {
        decimal(n / 10).push(digit_char(n % 10))
    }
}

/// The digit of a number less than ten.
fn digit(d: u32) -> (c: char)
    requires
        d < 10,
    ensures
        c == digit_char(d as nat),
{
    if d == 0 {
        '0'
    } else if d == 1 {
        '1'
    } else if d == 2 {
        '2'
    } else if d == 3 {
        '3'
    } else if d == 4 {
        '4'
    } else if d == 5 {
        '5'
    } else if d == 6 {
        '6'
    } else if d == 7 {
        '7'
    } else if d == 8 {
        '8'
    } else {
        '9'
    }
}

/// Writes a number in base ten.
pub fn format_decimal(n: u32) -> (s: String)
    ensures
        s@ == decimal(n as nat),
    decreases n,
{
    if n < 10 {
        let mut s = String::new();
        s.push(digit(n));
        s
    } else {
        let mut s = format_decimal(n / 10);
        s.push(digit(n % 10));
        s
    }
}

/// `host:port`.
pub open spec fn socket_text(host: Seq<char>, port: nat) -> Seq<char> {
    host + ":"@ + decimal(port)
}

/// Writes `host:port`.
pub fn format_socket(host: &str, port: u32) -> (r: String)
    ensures
        r@ == socket_text(host@, port as nat),
{
    let mut r = host.to_owned();
    r.append(":");
    r.append(format_decimal(port).as_str());
    r
}

/// Reading back a number that was written in base ten gives that number.
pub proof fn decimal_reads_back(n: u16)
    ensures
        u16_of(decimal(n as nat)) == Some(n),
{
    lemma_decimal_digits(n as nat);
    assert(decimal(n as nat).first() != '+');
}

/// What is written in base ten is digits, and they write the number.
pub proof fn lemma_decimal_digits(n: nat)
    ensures
        decimal(n).len() > 0,
        all_digits(decimal(n)),
        number_of(decimal(n)) == n,
    decreases n,
{
    reveal_with_fuel(number_of, 2);
    if n >= 10 {
        lemma_decimal_digits(n / 10);
        assert(decimal(n).drop_last() == decimal(n / 10));
    } else {
        assert(decimal(n).drop_last() == Seq::<char>::empty());
    }
}

/// The lines of a text begin with what stands before its first line feed.
pub proof fn lemma_first_line(line: Seq<char>, rest: Seq<char>)
    requires
        forall|i: int| 0 <= i < line.len() ==> #[trigger] line[i] != '\n',
    ensures
        lines_of(line + seq!['\n'] + rest) == seq![without_return(line)] + lines_of(rest),
{
    let s = line + seq!['\n'] + rest;
    lemma_line_len(s);
    assert(s[line.len() as int] == '\n');
    if line_len(s) < line.len() {
        assert(s[line_len(s) as int] == line[line_len(s) as int]);
    }
    assert(line_len(s) == line.len());
    assert(s.take(line.len() as int) == line);
    assert(s.skip(line.len() as int + 1) == rest);
}

/// The words of a text begin with what stands before its first white space.
pub proof fn lemma_first_word(word: Seq<char>, gap: char, rest: Seq<char>)
    requires
        word.len() > 0,
        forall|i: int| 0 <= i < word.len() ==> !is_white_space(#[trigger] word[i]),
        is_white_space(gap),
    ensures
        words_of(word + seq![gap] + rest) == seq![word] + words_of(rest),
{
    let s = word + seq![gap] + rest;
    lemma_word_len_is(s, word.len());
    assert(s.first() == word[0]);
    assert(s.take(word.len() as int) == word);
    let after = s.skip(word.len() as int);
    assert(after.first() == gap);
    assert(after.drop_first() == rest);
    assert(words_of(after) == words_of(rest));
}

/// `word_len` is where the first white space stands.
proof fn lemma_word_len_is(s: Seq<char>, n: nat)
    requires
        n < s.len(),
        forall|i: int| 0 <= i < n ==> !is_white_space(#[trigger] s[i]),
        is_white_space(s[n as int]),
    ensures
        word_len(s) == n,
    decreases n,
{
    if n > 0 {
        assert(!is_white_space(s[0]));
        let rest = s.drop_first();
        assert forall|i: int| 0 <= i < n - 1 implies !is_white_space(#[trigger] rest[i]) by {
            assert(rest[i] == s[i + 1]);
        }
        lemma_word_len_is(rest, (n - 1) as nat);
    }
}

/// A text without white space at its ends is left as it is by trimming.
pub proof fn lemma_trimmed_alone(s: Seq<char>)
    requires
        s.len() > 0,
        forall|i: int| 0 <= i < s.len() ==> !is_white_space(#[trigger] s[i]),
    ensures
        trimmed(s) == s,
{
    assert(!is_white_space(s[0]));
    assert(!is_white_space(s[s.len() - 1]));
}

/// White space is what Unicode calls so: the six ASCII characters and nineteen others.
pub proof fn white_space_is_that_of_unicode(c: char)
    ensures
        is_white_space(c) <==> {
            ||| c == '\t' || c == '\n' || c == '\u{b}' || c == '\u{c}' || c == '\r' || c == ' '
            ||| c == '\u{85}' || c == '\u{a0}' || c == '\u{1680}'
            ||| c == '\u{2000}' || c == '\u{2001}' || c == '\u{2002}' || c == '\u{2003}'
            ||| c == '\u{2004}' || c == '\u{2005}' || c == '\u{2006}' || c == '\u{2007}'
            ||| c == '\u{2008}' || c == '\u{2009}' || c == '\u{200a}'
            ||| c == '\u{2028}' || c == '\u{2029}' || c == '\u{202f}'
            ||| c == '\u{205f}' || c == '\u{3000}'
        },
{
}

/// Every character of `s` is white space.
pub open spec fn all_white_space(s: Seq<char>) -> bool {
    forall|i: int| 0 <= i < s.len() ==> is_white_space(#[trigger] s[i])
}

/// White space at the start goes, down to a text that does not start with it.
proof fn lemma_trim_start(lead: Seq<char>, rest: Seq<char>)
    requires
        all_white_space(lead),
        rest.len() > 0 ==> !is_white_space(rest[0]),
    ensures
        trim_start(lead + rest) == rest,
    decreases lead.len(),
{
    let s = lead + rest;
    if lead.len() > 0 {
        assert(s.first() == lead[0]);
        assert(s.drop_first() == lead.drop_first() + rest);
        assert(all_white_space(lead.drop_first())) by {
            assert forall|i: int| 0 <= i < lead.len() - 1 implies is_white_space(
                #[trigger] lead.drop_first()[i],
            ) by {
                assert(lead.drop_first()[i] == lead[i + 1]);
            }
        }
        lemma_trim_start(lead.drop_first(), rest);
    } else {
        assert(s == rest);
    }
}

/// White space at the end goes, down to a text that does not end with it.
proof fn lemma_trim_end(rest: Seq<char>, trail: Seq<char>)
    requires
        all_white_space(trail),
        rest.len() > 0 ==> !is_white_space(rest[rest.len() - 1]),
    ensures
        trim_end(rest + trail) == rest,
    decreases trail.len(),
{
    let s = rest + trail;
    if trail.len() > 0 {
        assert(s.last() == trail[trail.len() - 1]);
        assert(s.drop_last() == rest + trail.drop_last());
        assert(all_white_space(trail.drop_last())) by {
            assert forall|i: int| 0 <= i < trail.len() - 1 implies is_white_space(
                #[trigger] trail.drop_last()[i],
            ) by {
                assert(trail.drop_last()[i] == trail[i]);
            }
        }
        lemma_trim_end(rest, trail.drop_last());
    } else {
        assert(s == rest);
    }
}

/// Trimming takes the white space at either end, all of it and nothing else.
pub proof fn trimming_takes_the_white_space_at_the_ends(
    lead: Seq<char>,
    core: Seq<char>,
    trail: Seq<char>,
)
    requires
        all_white_space(lead),
        all_white_space(trail),
        core.len() > 0 ==> !is_white_space(core[0]) && !is_white_space(core[core.len() - 1]),
    ensures
        trimmed(lead + core + trail) == core,
{
    if core.len() > 0 {
        assert(lead + core + trail == lead + (core + trail));
        assert((core + trail)[0] == core[0]);
        lemma_trim_start(lead, core + trail);
        lemma_trim_end(core, trail);
    } else {
        let all = lead + trail;
        assert(lead + core + trail == all + Seq::<char>::empty());
        assert(all_white_space(all)) by {
            assert forall|i: int| 0 <= i < all.len() implies is_white_space(#[trigger] all[i]) by {
                if i < lead.len() {
                    assert(all[i] == lead[i]);
                } else {
                    assert(all[i] == trail[i - lead.len()]);
                }
            }
        }
        lemma_trim_start(all, Seq::empty());
        assert(core == Seq::<char>::empty());
    }
}

/// Every line feed ends a line, and takes one carriage return before it along. What follows the
/// last line feed is a line as it stands, unless it is empty.
pub proof fn line_feeds_end_lines(line: Seq<char>, rest: Seq<char>)
    requires
        forall|i: int| 0 <= i < line.len() ==> #[trigger] line[i] != '\n',
    ensures
        lines_of(Seq::empty()) == Seq::<Seq<char>>::empty(),
        line.len() > 0 ==> lines_of(line) == seq![line],
        (line.len() == 0 || line[line.len() - 1] != '\r') ==> lines_of(line.push('\n') + rest)
            == seq![line] + lines_of(rest),
        lines_of(line.push('\r').push('\n') + rest) == seq![line] + lines_of(rest),
{
    lemma_line_len(line);
    if line_len(line) < line.len() {
        assert(line[line_len(line) as int] == '\n');
    }
    assert(line.push('\n') + rest == line + seq!['\n'] + rest);
    lemma_first_line(line, rest);
    let returned = line.push('\r');
    assert(returned.push('\n') + rest == returned + seq!['\n'] + rest);
    lemma_first_line(returned, rest);
    assert(returned.drop_last() == line);
}

/// A text without white space is one word.
proof fn lemma_one_word(word: Seq<char>)
    requires
        forall|i: int| 0 <= i < word.len() ==> !is_white_space(#[trigger] word[i]),
    ensures
        word_len(word) == word.len(),
    decreases word.len(),
{
    if word.len() > 0 {
        assert(!is_white_space(word[0]));
        assert forall|i: int| 0 <= i < word.len() - 1 implies !is_white_space(
            #[trigger] word.drop_first()[i],
        ) by {
            assert(word.drop_first()[i] == word[i + 1]);
        }
        lemma_one_word(word.drop_first());
    }
}

/// White space parts words, however much of it there is, and nothing else does.
pub proof fn white_space_parts_words(word: Seq<char>, gap: char, rest: Seq<char>)
    requires
        word.len() > 0,
        forall|i: int| 0 <= i < word.len() ==> !is_white_space(#[trigger] word[i]),
        is_white_space(gap),
    ensures
        words_of(Seq::empty()) == Seq::<Seq<char>>::empty(),
        words_of(word) == seq![word],
        words_of(seq![gap] + rest) == words_of(rest),
        words_of(word + seq![gap] + rest) == seq![word] + words_of(rest),
{
    lemma_one_word(word);
    assert(!is_white_space(word[0]));
    assert(word.take(word.len() as int) == word);
    assert(word.skip(word.len() as int) == Seq::<char>::empty());
    assert(words_of(word.skip(word.len() as int)) == Seq::<Seq<char>>::empty());
    let gapped = seq![gap] + rest;
    assert(gapped.first() == gap);
    assert(gapped.drop_first() == rest);
    lemma_first_word(word, gap, rest);
}

/// A text has a pattern exactly where it is something, then the pattern, then something.
pub proof fn patterns_are_parts(s: Seq<char>, pattern: Seq<char>)
    ensures
        has_pattern(s, pattern) <==> exists|before: Seq<char>, after: Seq<char>|
            s == #[trigger] (before + pattern + after),
{
    if has_pattern(s, pattern) {
        let i = choose|i: int| 0 <= i <= s.len() && pattern.is_prefix_of(#[trigger] s.skip(i));
        let before = s.take(i);
        let after = s.skip(i + pattern.len());
        assert(s.skip(i).subrange(0, pattern.len() as int) == pattern);
        assert forall|j: int| 0 <= j < pattern.len() implies #[trigger] pattern[j] == s[i + j] by {
            assert(s.skip(i).subrange(0, pattern.len() as int)[j] == s[i + j]);
        }
        assert(s == before + pattern + after);
    }
    if exists|before: Seq<char>, after: Seq<char>| s == #[trigger] (before + pattern + after) {
        let (before, after) = choose|before: Seq<char>, after: Seq<char>|
            s == #[trigger] (before + pattern + after);
        let i = before.len() as int;
        assert(s.skip(i).subrange(0, pattern.len() as int) == pattern);
        assert(pattern.is_prefix_of(s.skip(i)));
    }
}

/// Replacing leaves what stands before the first occurrence as it is, puts the replacement there, and
/// goes on behind it; a text without the pattern stays as it is.
pub proof fn replacing_goes_from_left_to_right(
    before: Seq<char>,
    pattern: Seq<char>,
    rest: Seq<char>,
    by: Seq<char>,
)
    requires
        pattern.len() > 0,
        forall|i: int|
            0 <= i < before.len() ==> !pattern.is_prefix_of(
                #[trigger] (before + pattern + rest).skip(i),
            ),
    ensures
        replaced(before + pattern + rest, pattern, by) == before + by + replaced(rest, pattern, by),
        !has_pattern(rest, pattern) ==> replaced(rest, pattern, by) == rest,
    decreases before.len(),
{
    let s = before + pattern + rest;
    if before.len() == 0 {
        assert(s.subrange(0, pattern.len() as int) == pattern);
        assert(s.skip(pattern.len() as int) == rest);
    } else {
        let less = before.drop_first();
        assert(s.skip(0) == s);
        assert(s.drop_first() == less + pattern + rest);
        assert forall|i: int| 0 <= i < less.len() implies !pattern.is_prefix_of(
            #[trigger] (less + pattern + rest).skip(i),
        ) by {
            assert((less + pattern + rest).skip(i) == s.skip(i + 1));
        }
        replacing_goes_from_left_to_right(less, pattern, rest, by);
        assert(seq![s.first()] + (less + by + replaced(rest, pattern, by)) == before + by
            + replaced(rest, pattern, by));
    }
    if !has_pattern(rest, pattern) {
        lemma_nothing_replaced(rest, pattern, by);
    }
}

/// A text without the pattern is left as it is.
proof fn lemma_nothing_replaced(s: Seq<char>, pattern: Seq<char>, by: Seq<char>)
    requires
        !has_pattern(s, pattern),
    ensures
        replaced(s, pattern, by) == s,
    decreases s.len(),
{
    if s.len() > 0 {
        assert(s.skip(0) == s);
        assert forall|i: int| 0 <= i <= s.drop_first().len() implies !pattern.is_prefix_of(
            #[trigger] s.drop_first().skip(i),
        ) by {
            assert(s.drop_first().skip(i) == s.skip(i + 1));
        }
        lemma_nothing_replaced(s.drop_first(), pattern, by);
        if pattern.len() > 0 {
            assert(seq![s.first()] + s.drop_first() == s);
        }
    }
}

/// The digits are those of base ten, and each counts for ten times the one behind it.
pub proof fn digits_count_by_their_place(c: char, s: Seq<char>)
    requires
        all_digits(s),
        is_digit(c),
    ensures
        c == '0' || c == '1' || c == '2' || c == '3' || c == '4' || c == '5' || c == '6' || c == '7'
            || c == '8' || c == '9',
        number_of(Seq::empty()) == 0,
        number_of(seq![c] + s) == (c as u32 - 48) * pow(10, s.len()) + number_of(s),
    decreases s.len(),
{
    let all = seq![c] + s;
    reveal(pow);
    if s.len() == 0 {
        assert(all.drop_last() == Seq::<char>::empty());
        assert(pow(10, 0) == 1);
        assert(s == Seq::<char>::empty());
    } else {
        let n = (s.len() - 1) as nat;
        let d = c as u32 - 48;
        assert(all_digits(s.drop_last())) by {
            assert forall|i: int| 0 <= i < s.len() - 1 implies is_digit(
                #[trigger] s.drop_last()[i],
            ) by {
                assert(s.drop_last()[i] == s[i]);
            }
        }
        digits_count_by_their_place(c, s.drop_last());
        assert(all.drop_last() == seq![c] + s.drop_last());
        assert(all.last() == s.last());
        assert(is_digit(s[s.len() - 1]));
        assert(pow(10, s.len()) == 10 * pow(10, n));
        let power = pow(10, n);
        assert(10 * (d * power) == d * (10 * power)) by (nonlinear_arith);
    }
}

/// A number of sixteen bits is read of its digits, with or without a plus sign before them; a port of
/// its digits alone. Anything else is no number and no port.
pub proof fn numbers_are_read_of_digits(s: Seq<char>, c: char)
    ensures
        all_digits(s) && s.len() > 0 && number_of(s) < 0x10000 ==> {
            &&& u16_of(s) == Some(number_of(s) as u16)
            &&& u16_of(seq!['+'] + s) == Some(number_of(s) as u16)
            &&& port_of(s) == Some(number_of(s) as u16)
        },
        !(all_digits(s) && s.len() > 0 && number_of(s) < 0x10000) ==> {
            &&& u16_of(seq!['+'] + s) is None
            &&& port_of(s) is None
            &&& (s.len() == 0 || s[0] != '+') ==> u16_of(s) is None
        },
        port_of(seq!['+'] + s) is None,
        is_digit(c) <==> (c == '0' || c == '1' || c == '2' || c == '3' || c == '4' || c == '5' || c
            == '6' || c == '7' || c == '8' || c == '9'),
        all_digits(s) <==> forall|i: int| 0 <= i < s.len() ==> is_digit(#[trigger] s[i]),
{
    let plus = seq!['+'] + s;
    assert(plus.first() == '+');
    assert(plus.drop_first() == s);
    assert(!is_digit(plus[0]));
    if s.len() > 0 && all_digits(s) {
        assert(is_digit(s[0]));
    }
}

/// A number is written in the digits that are read back as it, without zeros at the start.
pub proof fn numbers_are_written_without_leading_zeros(n: nat)
    ensures
        all_digits(decimal(n)),
        number_of(decimal(n)) == n,
        decimal(n).len() > 0,
        decimal(n).len() > 1 ==> decimal(n)[0] != '0',
    decreases n,
{
    lemma_decimal_digits(n);
    if n >= 10 {
        numbers_are_written_without_leading_zeros(n / 10);
        lemma_decimal_digits(n / 10);
        assert(decimal(n)[0] == decimal(n / 10)[0]);
        if n / 10 < 10 {
            assert(decimal(n / 10)[0] == digit_char(n / 10));
        } else {
            assert(decimal(n / 10).len() > 1) by {
                lemma_decimal_digits(n / 100);
            }
        }
    }
}

/// A socket address is the host, a colon, and a port that is read back.
pub proof fn socket_addresses_are_read_back(host: Seq<char>, port: u16)
    ensures
        ({
            let text = socket_text(host, port as nat);
            let n = host.len() as int;
            &&& text.len() > n + 1
            &&& text.take(n) == host
            &&& text[n] == ':'
            &&& port_of(text.skip(n + 1)) == Some(port)
            &&& text.len() > n + 2 ==> text[n + 1] != '0'
        }),
{
    reveal_strlit(":");
    let text = socket_text(host, port as nat);
    let n = host.len() as int;
    let digits = decimal(port as nat);
    numbers_are_written_without_leading_zeros(port as nat);
    assert(text.take(n) == host);
    assert(text.skip(n + 1) == digits);
    assert(text[n + 1] == digits[0]);
}

/// The contents of vectors are those of each of them.
pub proof fn contents_are_those_of_each(v: Seq<Vec<char>>)
    ensures
        contents(v).len() == v.len(),
        forall|i: int| 0 <= i < v.len() ==> #[trigger] contents(v)[i] == v[i]@,
{
}

} // verus!
