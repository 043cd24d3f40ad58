//! Text as a sequence of characters: trimming, splitting and the like, as the
//! extraction rules need them.

use vstd::prelude::*;

verus! {

/// Whether a character is white space: one of the 25 code points with the
/// Unicode property `White_Space`.
pub open spec fn is_whitespace(c: char) -> bool {
    let n = c as u32;
    ||| 0x09 <= n <= 0x0D
    ||| n == 0x20
    ||| n == 0x85
    ||| n == 0xA0
    ||| n == 0x1680
    ||| 0x2000 <= n <= 0x200A
    ||| n == 0x2028
    ||| n == 0x2029
    ||| n == 0x202F
    ||| n == 0x205F
    ||| n == 0x3000
}

/// Whether a character is one of the digits `0` to `9`.
pub open spec fn is_ascii_digit(c: char) -> bool {
    0x30 <= c as u32 <= 0x39
}

/// Whether a character that is none of the digits `0` to `9` is numeric, as
/// `char::is_numeric` has it.
pub uninterp spec fn is_numeric_beyond_digits(c: char) -> bool;

/// Whether a character is numeric, as `char::is_numeric` has it: the digits
/// `0` to `9` are, and so is whatever else Unicode counts as a number.
pub open spec fn is_numeric(c: char) -> bool {
    is_ascii_digit(c) || is_numeric_beyond_digits(c)
}

/// Trusted: calls `char::is_whitespace` of the standard library, which tests
/// the Unicode property `White_Space`. The contract states the code points
/// that have it: U+0009 to U+000D, U+0020, U+0085, U+00A0, U+1680, U+2000 to
/// U+200A, U+2028, U+2029, U+202F, U+205F and U+3000.
#[verifier::external_body]
fn char_is_whitespace(c: char) -> (r: bool)
    ensures
        r == is_whitespace(c),
{
    c.is_whitespace()
}

/// Trusted: calls `char::is_numeric` of the standard library, which tests the
/// Unicode general categories `Nd`, `Nl` and `No`. The contract says that the
/// digits `0` to `9`, which are of category `Nd`, are numeric, names the
/// result for every other character and says nothing else of it.
#[verifier::external_body]
fn char_is_numeric(c: char) -> (r: bool)
    ensures
        r == (is_ascii_digit(c) || is_numeric_beyond_digits(c)),
{
    c.is_numeric()
}

/// The string made of the given characters.
///
/// Trusted: collects the characters into a `String` with the standard
/// library's `FromIterator<&char>`, which appends each in order.
#[verifier::external_body]
pub(crate) fn string_from_chars(chars: &Vec<char>) -> (r: String)
    ensures
        r@ == chars@,
{
    chars.iter().collect()
}

/// The characters of a string.
pub fn chars_of(s: &str) -> (r: Vec<char>)
    ensures
        r@ == s@,
{
    let mut out: Vec<char> = Vec::new();
    for c in it: s.chars()
        invariant
            out@ == s@.subrange(0, it.index() as int),
            it.seq() == s@,
    {
        out.push(c);
    }
    out
}

/// A set of characters that the rules tell apart.
#[derive(Clone, Copy, Debug, PartialEq, Eq, Structural)]
pub enum CharClass {
    /// White space.
    Whitespace,
    /// Numeric characters.
    Numeric,
    /// This one character.
    Is(char),
}

impl CharClass {
    /// The class holds `c`.
    pub open spec fn holds(self, c: char) -> bool {
        match self {
            CharClass::Whitespace => is_whitespace(c),
            CharClass::Numeric => is_numeric(c),
            CharClass::Is(d) => c == d,
        }
    }

    pub fn test(&self, c: char) -> (r: bool)
        ensures
            r == self.holds(c),
    {
        match self {
            CharClass::Whitespace => char_is_whitespace(c),
            CharClass::Numeric => char_is_numeric(c),
            CharClass::Is(d) => c == *d,
        }
    }
}

/// How many characters at the start of `s` are in the class, up to the first
/// that is not.
pub open spec fn leading(s: Seq<char>, class: CharClass) -> nat
    decreases s.len(),
{
    if s.len() > 0 && class.holds(s[0]) {
        1 + leading(s.drop_first(), class)
    } else {
        0
    }
}

/// How many characters at the end of `s` are in the class, back to the last
/// that is not.
pub open spec fn trailing(s: Seq<char>, class: CharClass) -> nat
    decreases s.len(),
{
    if s.len() > 0 && class.holds(s.last()) {
        1 + trailing(s.drop_last(), class)
    } else {
        0
    }
}

/// `s` without the characters of the class at its start and at its end.
pub open spec fn stripped(s: Seq<char>, class: CharClass) -> Seq<char> {
    let rest = s.subrange(leading(s, class) as int, s.len() as int);
    rest.subrange(0, rest.len() - trailing(rest, class))
}

/// `s` without white space at its start and at its end.
pub open spec fn trimmed(s: Seq<char>) -> Seq<char> {
    stripped(s, CharClass::Whitespace)
}

/// Every character of `s` is in the class.
pub open spec fn all_in(s: Seq<char>, class: CharClass) -> bool {
    forall|i: int| 0 <= i < s.len() ==> class.holds(#[trigger] s[i])
}

/// The characters of `s` that are in the class, in order.
pub open spec fn only(s: Seq<char>, class: CharClass) -> Seq<char> {
    s.filter(|c: char| class.holds(c))
}

/// `s` begins with `prefix`.
pub open spec fn starts_with(s: Seq<char>, prefix: Seq<char>) -> bool {
    prefix.len() <= s.len() && s.subrange(0, prefix.len() as int) == prefix
}

/// What follows `prefix` in `s`, where `s` begins with it.
pub open spec fn after_prefix(s: Seq<char>, prefix: Seq<char>) -> Option<Seq<char>> {
    if starts_with(s, prefix) {
        Some(s.subrange(prefix.len() as int, s.len() as int))
    } else {
        None
    }
}

/// Where `part` first occurs in `s` at or after `from`; `s.len()` where it
/// does not.
pub open spec fn find_from(s: Seq<char>, part: Seq<char>, from: int) -> int
    decreases s.len() - from,
{
    if from < 0 || from >= s.len() {
        s.len() as int
    } else if starts_with(s.subrange(from, s.len() as int), part) {
        from
    } else {
        find_from(s, part, from + 1)
    }
}

/// `s` up to the first occurrence of `part`; all of `s` where there is none.
pub open spec fn before(s: Seq<char>, part: Seq<char>) -> Seq<char> {
    s.subrange(0, find_from(s, part, 0))
}

/// The pieces of `s` between occurrences of `separator`: one more than there
/// are occurrences, each possibly empty.
pub open spec fn split_on(s: Seq<char>, separator: char) -> Seq<Seq<char>>
    decreases s.len(),
{
    let at = find_from(s, seq![separator], 0);
    if at < 0 || at >= s.len() {
        seq![s]
    } else {
        seq![s.subrange(0, at)] + split_on(s.subrange(at + 1, s.len() as int), separator)
    }
}

/// How many words `s` holds: runs of characters that are not white space.
pub open spec fn word_count(s: Seq<char>) -> nat
    decreases s.len(),
{
    if s.len() == 0 {
        0
    } else {
        let earlier = word_count(s.drop_last());
        let ends_word = !is_whitespace(s.last());
        let continues = s.len() >= 2 && !is_whitespace(s[s.len() - 2]);
        if ends_word && !continues {
            earlier + 1
        } else {
            earlier
        }
    }
}

proof fn lemma_leading_bound(s: Seq<char>, class: CharClass)
    ensures
        leading(s, class) <= s.len(),
        forall|i: int| 0 <= i < leading(s, class) ==> class.holds(#[trigger] s[i]),
        leading(s, class) < s.len() ==> !class.holds(s[leading(s, class) as int]),
    decreases s.len(),
{
    if s.len() > 0 && class.holds(s[0]) {
        let rest = s.drop_first();
        lemma_leading_bound(rest, class);
        assert forall|i: int| 0 <= i < leading(s, class) implies class.holds(#[trigger] s[i]) by {
            if i > 0 {
                assert(s[i] == rest[i - 1]);
            }
        }
        if leading(s, class) < s.len() {
            assert(s[leading(s, class) as int] == rest[leading(rest, class) as int]);
        }
    }
}

proof fn lemma_leading_is(s: Seq<char>, class: CharClass, n: int)
    requires
        0 <= n <= s.len(),
        forall|i: int| 0 <= i < n ==> class.holds(#[trigger] s[i]),
        n < s.len() ==> !class.holds(s[n]),
    ensures
        leading(s, class) == n,
    decreases s.len(),
{
    if n > 0 {
        let rest = s.drop_first();
        assert(class.holds(s[0]));
        assert forall|i: int| 0 <= i < n - 1 implies class.holds(#[trigger] rest[i]) by {
            assert(rest[i] == s[i + 1]);
        }
        if n - 1 < rest.len() {
            assert(rest[n - 1] == s[n]);
        }
        lemma_leading_is(rest, class, n - 1);
    }
}

proof fn lemma_trailing_is(s: Seq<char>, class: CharClass, n: int)
    requires
        0 <= n <= s.len(),
        forall|i: int| s.len() - n <= i < s.len() ==> class.holds(#[trigger] s[i]),
        n < s.len() ==> !class.holds(s[s.len() - n - 1]),
    ensures
        trailing(s, class) == n,
    decreases s.len(),
{
    if n > 0 {
        let rest = s.drop_last();
        assert(class.holds(s[s.len() - 1]));
        assert forall|i: int| rest.len() - (n - 1) <= i < rest.len() implies class.holds(
            #[trigger] rest[i],
        ) by {
            assert(rest[i] == s[i]);
        }
        if n - 1 < rest.len() {
            assert(rest[rest.len() - (n - 1) - 1] == s[s.len() - n - 1]);
        }
        lemma_trailing_is(rest, class, n - 1);
    }
}

/// A copy of the characters `from .. to` of `chars`.
pub fn slice(chars: &Vec<char>, from: usize, to: usize) -> (r: Vec<char>)
    requires
        from <= to <= chars.len(),
    ensures
        r@ == chars@.subrange(from as int, to as int),
{
    let mut out: Vec<char> = Vec::new();
    let mut i = from;
    while i < to
        invariant
            from <= i <= to <= chars.len(),
            out@ == chars@.subrange(from as int, i as int),
        decreases to - i,
    {
        out.push(chars[i]);
        i = i + 1;
    }
    out
}

/// `chars` without the characters of the class at its start and at its end.
pub fn strip(chars: &Vec<char>, class: CharClass) -> (r: Vec<char>)
    ensures
        r@ == stripped(chars@, class),
{
    let n = chars.len();
    let mut start: usize = 0;
    while start < n && class.test(chars[start])
        invariant
            start <= n,
            n == chars.len(),
            forall|i: int| 0 <= i < start ==> class.holds(#[trigger] chars@[i]),
        decreases n - start,
    {
        start = start + 1;
    }
    let mut end: usize = n;
    while end > start && class.test(chars[end - 1])
        invariant
            start <= end <= n,
            n == chars.len(),
            forall|i: int| end <= i < n ==> class.holds(#[trigger] chars@[i]),
        decreases end - start,
    {
        end = end - 1;
    }
    proof {
        lemma_leading_is(chars@, class, start as int);
        let rest = chars@.subrange(start as int, n as int);
        assert forall|i: int| rest.len() - (n - end) <= i < rest.len() implies class.holds(
            #[trigger] rest[i],
        ) by {
            assert(rest[i] == chars@[i + start]);
        }
        if n - end < rest.len() {
            assert(rest[rest.len() - (n - end) - 1] == chars@[end - 1]);
        }
        lemma_trailing_is(rest, class, (n - end) as int);
        assert(rest.subrange(0, rest.len() - (n - end)) =~= chars@.subrange(
            start as int,
            end as int,
        ));
    }
    slice(chars, start, end)
}

/// `chars` without white space at its start and at its end.
pub fn trim(chars: &Vec<char>) -> (r: Vec<char>)
    ensures
        r@ == trimmed(chars@),
{
    strip(chars, CharClass::Whitespace)
}

/// Whether every character is in the class.
pub fn all_in_class(chars: &Vec<char>, class: CharClass) -> (r: bool)
    ensures
        r == all_in(chars@, class),
{
    let mut i: usize = 0;
    while i < chars.len()
        invariant
            i <= chars.len(),
            forall|k: int| 0 <= k < i ==> class.holds(#[trigger] chars@[k]),
        decreases chars.len() - i,
    {
        if !class.test(chars[i]) {
            return false;
        }
        i = i + 1;
    }
    true
}

/// The characters that are in the class, in order.
pub fn keep(chars: &Vec<char>, class: CharClass) -> (r: Vec<char>)
    ensures
        r@ == only(chars@, class),
{
    let mut out: Vec<char> = Vec::new();
    let mut i: usize = 0;
    while i < chars.len()
        invariant
            i <= chars.len(),
            out@ == only(chars@.subrange(0, i as int), class),
        decreases chars.len() - i,
    {
        proof {
            let upto = chars@.subrange(0, i as int + 1);
            assert(upto.drop_last() =~= chars@.subrange(0, i as int));
            reveal(Seq::filter);
        }
        if class.test(chars[i]) {
            out.push(chars[i]);
        }
        i = i + 1;
    }
    assert(chars@.subrange(0, chars.len() as int) =~= chars@);
    out
}

/// Whether `chars` begins with `prefix`.
pub fn has_prefix(chars: &Vec<char>, prefix: &Vec<char>) -> (r: bool)
    ensures
        r == starts_with(chars@, prefix@),
{
    assert(chars@.subrange(0, chars.len() as int) =~= chars@);
    has_part_at(chars, prefix, 0)
}

/// Whether `part` stands in `chars` at `at`.
pub fn has_part_at(chars: &Vec<char>, part: &Vec<char>, at: usize) -> (r: bool)
    requires
        at <= chars.len(),
    ensures
        r == starts_with(chars@.subrange(at as int, chars.len() as int), part@),
{
    if part.len() > chars.len() - at {
        return false;
    }
    let ghost rest = chars@.subrange(at as int, chars.len() as int);
    let mut i: usize = 0;
    while i < part.len()
        invariant
            i <= part.len() <= chars.len() - at,
            rest == chars@.subrange(at as int, chars.len() as int),
            forall|k: int| 0 <= k < i ==> chars@[at + k] == part@[k],
        decreases part.len() - i,
    {
        if chars[at + i] != part[i] {
            assert(rest.subrange(0, part.len() as int)[i as int] != part@[i as int]);
            return false;
        }
        i = i + 1;
    }
    assert(rest.subrange(0, part.len() as int) =~= part@);
    true
}

/// What follows `prefix` in `chars`, where `chars` begins with it.
pub fn strip_prefix(chars: &Vec<char>, prefix: &Vec<char>) -> (r: Option<Vec<char>>)
    ensures
        match r {
            Some(rest) => after_prefix(chars@, prefix@) == Some(rest@),
            None => after_prefix(chars@, prefix@) is None,
        },
{
    if has_prefix(chars, prefix) {
        Some(slice(chars, prefix.len(), chars.len()))
    } else {
        None
    }
}

/// Where `part` first occurs in `chars` at or after `from`; the length of
/// `chars` where it does not.
pub fn find(chars: &Vec<char>, part: &Vec<char>, from: usize) -> (r: usize)
    requires
        from <= chars.len(),
    ensures
        r == find_from(chars@, part@, from as int),
        from <= r <= chars.len(),
{
    let mut at = from;
    while at < chars.len()
        invariant
            from <= at <= chars.len(),
            find_from(chars@, part@, from as int) == find_from(chars@, part@, at as int),
        decreases chars.len() - at,
    {
        if has_part_at(chars, part, at) {
            return at;
        }
        at = at + 1;
    }
    at
}

/// `chars` up to the first occurrence of `part`.
pub fn take_before(chars: &Vec<char>, part: &Vec<char>) -> (r: Vec<char>)
    ensures
        r@ == before(chars@, part@),
{
    let at = find(chars, part, 0);
    slice(chars, 0, at)
}

/// The pieces of `chars` between occurrences of `separator`.
pub fn split(chars: &Vec<char>, separator: char) -> (r: Vec<Vec<char>>)
    ensures
        r@.len() == split_on(chars@, separator).len(),
        forall|i: int| 0 <= i < r@.len() ==> (#[trigger] r@[i])@ == split_on(chars@, separator)[i],
{
    let mut pieces: Vec<Vec<char>> = Vec::new();
    let mut part: Vec<char> = Vec::new();
    part.push(separator);
    let mut start: usize = 0;
    let ghost mut done: Seq<Seq<char>> = Seq::empty();
    assert(chars@.subrange(0, chars.len() as int) =~= chars@);
    assert(done + split_on(chars@, separator) =~= split_on(chars@, separator));
    loop
        invariant
            start <= chars.len(),
            part@ == seq![separator],
            done.len() == pieces@.len(),
            forall|i: int| 0 <= i < pieces@.len() ==> (#[trigger] pieces@[i])@ == done[i],
            split_on(chars@, separator) == done + split_on(
                chars@.subrange(start as int, chars.len() as int),
                separator,
            ),
        decreases chars.len() - start,
    {
        let ghost rest = chars@.subrange(start as int, chars.len() as int);
        let tail = slice(chars, start, chars.len());
        let at = find(&tail, &part, 0);
        let piece = slice(&tail, 0, at);
        if at >= tail.len() {
            proof {
                assert(piece@ =~= rest);
                assert(split_on(rest, separator) =~= seq![rest]);
                done = done.push(rest);
                assert(split_on(chars@, separator) =~= done);
            }
            pieces.push(piece);
            return pieces;
        }
        proof {
            let later = rest.subrange(at as int + 1, rest.len() as int);
            assert(later =~= chars@.subrange(start as int + at as int + 1, chars.len() as int));
            assert(split_on(rest, separator) =~= seq![rest.subrange(0, at as int)] + split_on(
                later,
                separator,
            ));
            assert(done + (seq![rest.subrange(0, at as int)] + split_on(later, separator))
                =~= done.push(rest.subrange(0, at as int)) + split_on(later, separator));
            done = done.push(rest.subrange(0, at as int));
        }
        pieces.push(piece);
        start = start + at + 1;
    }
}

/// How many words `chars` holds.
pub fn count_words(chars: &Vec<char>) -> (r: usize)
    ensures
        r == word_count(chars@),
{
    let mut words: usize = 0;
    let mut in_word = false;
    let mut i: usize = 0;
    while i < chars.len()
        invariant
            i <= chars.len(),
            words <= i,
            words == word_count(chars@.subrange(0, i as int)),
            in_word == (i > 0 && !is_whitespace(chars@[i - 1])),
        decreases chars.len() - i,
    {
        let ghost upto = chars@.subrange(0, i as int + 1);
        assert(upto.drop_last() =~= chars@.subrange(0, i as int));
        let blank = char_is_whitespace(chars[i]);
        if !blank && !in_word {
            words = words + 1;
        }
        in_word = !blank;
        i = i + 1;
    }
    assert(chars@.subrange(0, chars.len() as int) =~= chars@);
    words
}

/// Whether `a` and `b` hold the same characters.
pub fn same_chars(a: &Vec<char>, b: &Vec<char>) -> (r: bool)
    ensures
        r == (a@ == b@),
{
    if a.len() != b.len() {
        return false;
    }
    let mut i: usize = 0;
    while i < a.len()
        invariant
            i <= a.len(),
            a.len() == b.len(),
            forall|k: int| 0 <= k < i ==> a@[k] == b@[k],
        decreases a.len() - i,
    {
        if a[i] != b[i] {
            return false;
        }
        i = i + 1;
    }
    assert(a@ =~= b@);
    true
}

/// `a`, then `b`.
pub fn append_chars(a: &mut Vec<char>, b: &Vec<char>)
    ensures
        final(a)@ == old(a)@ + b@,
{
    let mut i: usize = 0;
    while i < b.len()
        invariant
            i <= b.len(),
            a@ == old(a)@ + b@.subrange(0, i as int),
        decreases b.len() - i,
    {
        a.push(b[i]);
        i = i + 1;
    }
    assert(b@.subrange(0, b.len() as int) =~= b@);
}

} // verus!
