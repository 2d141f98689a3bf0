//! Text operations: comparison, search, replacement, trimming and decimal numerals.
use vstd::prelude::*;

verus! {

/// `String::push` appends one character to the end of the string.
pub assume_specification[ String::push ](s: &mut String, ch: char)
    ensures
        final(s)@ == old(s)@.push(ch),
;

/// The text that `String::from_utf8_lossy` reads from bytes.
pub uninterp spec fn lossy(bytes: Seq<u8>) -> Seq<char>;

/// Whether bytes are read as what they encode, if they encode something.
pub open spec fn read_faithfully(bytes: Seq<u8>) -> bool {
    vstd::utf8::valid_utf8(bytes) ==> lossy(bytes) == vstd::utf8::decode_utf8(bytes)
}

/// `String::from_utf8_lossy` reads bytes as UTF-8. Bytes that are valid UTF-8 give the text that
/// they encode; in any other, what is invalid gives replacement characters.
#[verifier::external_body]
pub(crate) fn lossy_text(bytes: &[u8]) -> (text: String)
    ensures
        text@ == lossy(bytes@),
        vstd::utf8::valid_utf8(bytes@) ==> text@ == vstd::utf8::decode_utf8(bytes@),
{
    String::from_utf8_lossy(bytes).into_owned()
}

/// The characters of each text of a list.
pub open spec fn texts(list: Seq<String>) -> Seq<Seq<char>> {
    list.map_values(|s: String| s@)
}

/// The characters of an optional text.
pub open spec fn optional_text(text: Option<String>) -> Option<Seq<char>> {
    match text {
        Some(s) => Some(s@),
        None => None,
    }
}

/// The characters of a text result.
pub open spec fn result_text(result: Result<String, String>) -> Result<Seq<char>, Seq<char>> {
    match result {
        Ok(s) => Ok(s@),
        Err(e) => Err(e@),
    }
}

/// The characters of `s`, in order.
pub fn chars_of(s: &str) -> (chars: Vec<char>)
    ensures
        chars@ == s@,
{
    let mut chars: Vec<char> = Vec::new();
    for c in iter: s.chars()
        invariant
            iter.seq() == s@,
            chars@ == iter.seq().take(iter.index() as int),
    {
        chars.push(c);
    }
    chars
}

/// Whether two texts hold the same characters.
pub fn same_text(a: &str, b: &str) -> (same: bool)
    ensures
        same == (a@ == b@),
{
    a.to_owned() == b.to_owned()
}

/// `head` followed by `tail`.
pub fn followed_by(head: &str, tail: &str) -> (text: String)
    ensures
        text@ == head@ + tail@,
{
    let mut text = head.to_owned();
    text.append(tail);
    text
}

/// Whether `part` stands in `chars` at position `at`.
fn stands_at(chars: &Vec<char>, at: usize, part: &Vec<char>) -> (found: bool)
    requires
        at <= chars@.len(),
    ensures
        found == part@.is_prefix_of(chars@.skip(at as int)),
{
    let ghost rest = chars@.skip(at as int);
    if part.len() > chars.len() - at {
        return false;
    }
    let mut i: usize = 0;
    while i < part.len()
        invariant
            rest == chars@.skip(at as int),
            at + part@.len() <= chars.len(),
            i <= part@.len(),
            forall|j: int| 0 <= j < i ==> part@[j] == rest[j],
        decreases part@.len() - i,
    {
        if chars[at + i] != part[i] {
            assert(rest[i as int] == chars@[at + i]);
            assert(rest.subrange(0, part@.len() as int)[i as int] != part@[i as int]);
            return false;
        }
        i = i + 1;
    }
    assert(part@ =~= rest.subrange(0, part@.len() as int));
    true
}

/// Whether `text` begins with `prefix`.
pub fn starts_with(text: &str, prefix: &str) -> (found: bool)
    ensures
        found == prefix@.is_prefix_of(text@),
{
    let chars = chars_of(text);
    let part = chars_of(prefix);
    assert(chars@.skip(0) =~= chars@);
    stands_at(&chars, 0, &part)
}

/// `s` with every occurrence of `from`, taken from the left and without overlap, replaced by `to`.
pub open spec fn replaced(s: Seq<char>, from: Seq<char>, to: Seq<char>) -> Seq<char>
    decreases s.len(),
{
    if from.len() == 0 || s.len() < from.len() {
        s
    } else if from.is_prefix_of(s) {
        to + replaced(s.skip(from.len() as int), from, to)
    } else {
        seq![s[0]] + replaced(s.skip(1), from, to)
    }
}

/// Whether `part` stands somewhere in `s`.
pub open spec fn occurs(part: Seq<char>, s: Seq<char>) -> bool {
    exists|i: int| 0 <= i <= s.len() && part.is_prefix_of(#[trigger] s.skip(i))
}

/// Replaces every occurrence of `from` in `text` by `to`.
pub fn replace_all(text: &str, from: &str, to: &str) -> (result: String)
    requires
        from@.len() > 0,
    ensures
        result@ == replaced(text@, from@, to@),
{
    let chars = chars_of(text);
    let part = chars_of(from);
    let mut result = String::new();
    let mut at: usize = 0;
    assert(chars@.skip(0) =~= chars@);
    while at < chars.len()
        invariant
            chars@ == text@,
            part@ == from@,
            from@.len() > 0,
            at <= chars@.len(),
            result@ + replaced(chars@.skip(at as int), from@, to@) == replaced(text@, from@, to@),
        decreases chars@.len() - at,
    {
        let ghost rest = chars@.skip(at as int);
        let ghost before = result@;
        if stands_at(&chars, at, &part) {
            assert(part@.len() <= rest.len());
            result.append(to);
            at = at + part.len();
            assert(rest.skip(from@.len() as int) =~= chars@.skip(at as int));
            assert(before + (to@ + replaced(chars@.skip(at as int), from@, to@))
                =~= result@ + replaced(chars@.skip(at as int), from@, to@));
        } else {
            result.push(chars[at]);
            at = at + 1;
            assert(rest.skip(1) =~= chars@.skip(at as int));
            proof {
                if rest.len() < from@.len() {
                    assert(replaced(rest.skip(1), from@, to@) == rest.skip(1));
                    assert(rest =~= seq![rest[0]] + rest.skip(1));
                }
            }
            assert(before + (seq![rest[0]] + replaced(chars@.skip(at as int), from@, to@))
                =~= result@ + replaced(chars@.skip(at as int), from@, to@));
        }
    }
    assert(chars@.skip(at as int).len() == 0);
    assert(result@ + replaced(chars@.skip(at as int), from@, to@) =~= result@);
    result
}

/// The Unicode characters with the property `White_Space`.
pub open spec fn white(c: char) -> bool {
    ||| '\u{9}' <= c <= '\u{d}'
    ||| c == ' '
    ||| c == '\u{85}'
    ||| c == '\u{a0}'
    ||| c == '\u{1680}'
    ||| '\u{2000}' <= c <= '\u{200a}'
    ||| c == '\u{2028}'
    ||| c == '\u{2029}'
    ||| c == '\u{202f}'
    ||| c == '\u{205f}'
    ||| c == '\u{3000}'
}

/// Whether `c` is white space.
pub fn is_white(c: char) -> (yes: bool)
    ensures
        yes == white(c),
{
    ('\u{9}' <= c && c <= '\u{d}') || c == ' ' || c == '\u{85}' || c == '\u{a0}' || c == '\u{1680}'
        || ('\u{2000}' <= c && c <= '\u{200a}') || c == '\u{2028}' || c == '\u{2029}' || c
        == '\u{202f}' || c == '\u{205f}' || c == '\u{3000}'
}

/// Whether `s` holds nothing but white space.
pub open spec fn blank(s: Seq<char>) -> bool {
    forall|i: int| 0 <= i < s.len() ==> white(#[trigger] s[i])
}

/// `s` without the white space at its start.
pub open spec fn trimmed_start(s: Seq<char>) -> Seq<char>
    decreases s.len(),
{
    if s.len() > 0 && white(s[0]) {
        trimmed_start(s.skip(1))
    } else {
        s
    }
}

/// `s` without the white space at its end.
pub open spec fn trimmed_end(s: Seq<char>) -> Seq<char>
    decreases s.len(),
{
    if s.len() > 0 && white(s.last()) {
        trimmed_end(s.drop_last())
    } else {
        s
    }
}

/// `s` without the white space at either end.
pub open spec fn trimmed(s: Seq<char>) -> Seq<char> {
    trimmed_end(trimmed_start(s))
}

/// Removes the white space at both ends of `text`.
pub fn trim(text: &str) -> (result: String)
    ensures
        result@ == trimmed(text@),
{
    let chars = chars_of(text);
    let mut from: usize = 0;
    assert(chars@.skip(0) =~= chars@);
    while from < chars.len() && is_white(chars[from])
        invariant
            from <= chars@.len(),
            trimmed_start(chars@.skip(from as int)) == trimmed_start(chars@),
        decreases chars@.len() - from,
    {
        assert(chars@.skip(from as int).skip(1) =~= chars@.skip(from as int + 1));
        from = from + 1;
    }
    let ghost tail = chars@.skip(from as int);
    assert(trimmed_start(chars@) == tail);
    let mut to: usize = chars.len();
    assert(chars@.subrange(from as int, to as int) =~= tail);
    while from < to && is_white(chars[to - 1])
        invariant
            from <= to <= chars@.len(),
            trimmed_end(chars@.subrange(from as int, to as int)) == trimmed_end(tail),
        decreases to,
    {
        assert(chars@.subrange(from as int, to as int).drop_last() =~= chars@.subrange(
            from as int,
            to as int - 1,
        ));
        to = to - 1;
    }
    let mut result = String::new();
    let mut i: usize = from;
    while i < to
        invariant
            from <= i <= to <= chars@.len(),
            result@ == chars@.subrange(from as int, i as int),
        decreases to - i,
    {
        result.push(chars[i]);
        i = i + 1;
    }
    result
}

/// Trimming leaves nothing exactly where there is nothing but white space.
pub proof fn trimmed_is_empty_iff_blank(s: Seq<char>)
    ensures
        trimmed(s).len() == 0 <==> blank(s),
{
    trimmed_start_splits(s);
    trimmed_end_splits(trimmed_start(s));
    let tail = trimmed_start(s);
    if trimmed(s).len() == 0 {
        assert(tail.skip(0) =~= tail);
        assert(tail.len() == 0);
        assert(s.take(s.len() as int) =~= s);
    }
    if blank(s) && tail.len() > 0 {
        assert(tail[0] == s[s.len() - tail.len()]);
    }
}

/// Trimming takes away white space at the ends and nothing else, and leaves none there.
pub proof fn trimmed_is_the_core(s: Seq<char>)
    ensures
        trimmed(s).len() > 0 ==> !white(trimmed(s).first()) && !white(trimmed(s).last()),
        exists|before: Seq<char>, after: Seq<char>|
            blank(before) && blank(after) && s == #[trigger] (before + trimmed(s) + after),
{
    let tail = trimmed_start(s);
    let core = trimmed(s);
    trimmed_start_splits(s);
    trimmed_end_splits(tail);
    let before = s.take(s.len() - tail.len());
    let after = tail.skip(core.len() as int);
    assert(core =~= tail.take(core.len() as int));
    assert(before + core + after =~= s);
}

/// What trimming the start takes away is white space, and it stops at the first other character.
proof fn trimmed_start_splits(s: Seq<char>)
    ensures
        trimmed_start(s).len() <= s.len(),
        trimmed_start(s) == s.skip(s.len() - trimmed_start(s).len()),
        blank(s.take(s.len() - trimmed_start(s).len())),
        trimmed_start(s).len() > 0 ==> !white(trimmed_start(s)[0]),
    decreases s.len(),
{
    if s.len() > 0 && white(s[0]) {
        trimmed_start_splits(s.skip(1));
        let n = s.len() - trimmed_start(s).len();
        assert(s.skip(1).skip(n - 1) =~= s.skip(n));
        assert forall|i: int| 0 <= i < n implies white(#[trigger] s.take(n)[i]) by {
            if i > 0 {
                assert(s.take(n)[i] == s.skip(1).take(n - 1)[i - 1]);
            }
        }
    } else {
        assert(s.skip(0) =~= s);
    }
}

/// What trimming the end takes away is white space, and it stops at the last other character.
proof fn trimmed_end_splits(s: Seq<char>)
    ensures
        trimmed_end(s).len() <= s.len(),
        trimmed_end(s) == s.take(trimmed_end(s).len() as int),
        blank(s.skip(trimmed_end(s).len() as int)),
        trimmed_end(s).len() > 0 ==> !white(trimmed_end(s).last()),
    decreases s.len(),
{
    if s.len() > 0 && white(s.last()) {
        let init = s.drop_last();
        trimmed_end_splits(init);
        let n = trimmed_end(s).len() as int;
        assert(init.take(n) =~= s.take(n));
        assert forall|i: int| 0 <= i < s.len() - n implies white(#[trigger] s.skip(n)[i]) by {
            if i < init.len() - n {
                assert(s.skip(n)[i] == init.skip(n)[i]);
            }
        }
    } else {
        assert(s.take(s.len() as int) =~= s);
    }
}

/// Whether `text` holds nothing but white space.
pub fn is_blank(text: &str) -> (yes: bool)
    ensures
        yes == blank(text@),
{
    proof {
        trimmed_is_empty_iff_blank(text@);
    }
    trim(text).as_str().is_empty()
}

/// The texts of `parts` in order, with `separator` between neighbours.
pub open spec fn joined(parts: Seq<Seq<char>>, separator: Seq<char>) -> Seq<char>
    decreases parts.len(),
{
    if parts.len() == 0 {
        seq![]
    } else if parts.len() == 1 {
        parts[0]
    } else {
        joined(parts.drop_last(), separator) + separator + parts.last()
    }
}

/// Joins `parts` with `separator` between neighbours.
pub fn join(parts: &Vec<String>, separator: &str) -> (result: String)
    ensures
        result@ == joined(texts(parts@), separator@),
{
    let mut result = String::new();
    let mut i: usize = 0;
    while i < parts.len()
        invariant
            i <= parts@.len(),
            result@ == joined(texts(parts@).take(i as int), separator@),
        decreases parts@.len() - i,
    {
        assert(texts(parts@).take(i + 1).drop_last() =~= texts(parts@).take(i as int));
        if i > 0 {
            result.append(separator);
        }
        result.append(parts[i].as_str());
        i = i + 1;
    }
    assert(texts(parts@).take(i as int) =~= texts(parts@));
    result
}

/// The decimal digit of a number below ten.
pub open spec fn digit(d: nat) -> char {
    ('0' as u32 + d) as char
}

/// The decimal numeral of `n`, without leading zeros.
pub open spec fn decimal(n: nat) -> Seq<char>
    decreases n,
{
    if n < 10 {
        seq![digit(n)]
    } else {
        decimal(n / 10).push(digit(n % 10))
    }
}

/// The decimal numeral of `n`, with a minus sign in front of a negative number.
pub open spec fn signed_decimal(n: int) -> Seq<char> {
    if n < 0 {
        "-"@ + decimal((-n) as nat)
    } else {
        decimal(n as nat)
    }
}

/// Writes `n` in decimal.
pub fn decimal_text(n: u64) -> (text: String)
    ensures
        text@ == decimal(n as nat),
    decreases n,
{
    let d: u8 = (n % 10) as u8;
    let last: char = (48u8 + d) as char;
    let mut text = if n < 10 {
        String::new()
    } else {
        decimal_text(n / 10)
    };
    text.push(last);
    text
}

/// Writes `n` in decimal, with its sign where it is negative.
pub fn signed_decimal_text(n: i32) -> (text: String)
    ensures
        text@ == signed_decimal(n as int),
{
    let wide: i64 = n as i64;
    if wide < 0 {
        followed_by("-", decimal_text((-wide) as u64).as_str())
    } else {
        decimal_text(wide as u64)
    }
}

/// A numeral names one number only.
pub proof fn decimal_is_injective(a: nat, b: nat)
    requires
        decimal(a) == decimal(b),
    ensures
        a == b,
    decreases a,
{
    decimal_is_not_empty(a / 10);
    decimal_is_not_empty(b / 10);
    if a < 10 && b < 10 {
        assert(decimal(a)[0] == digit(a) && decimal(b)[0] == digit(b));
    } else if a < 10 {
        assert(decimal(a).len() == 1 && decimal(b).len() == decimal(b / 10).len() + 1);
    } else if b < 10 {
        assert(decimal(b).len() == 1 && decimal(a).len() == decimal(a / 10).len() + 1);
    } else {
        assert(decimal(a).last() == digit(a % 10) && decimal(b).last() == digit(b % 10));
        assert(decimal(a).drop_last() =~= decimal(a / 10));
        assert(decimal(b).drop_last() =~= decimal(b / 10));
        decimal_is_injective(a / 10, b / 10);
    }
}

/// A numeral has at least one digit.
pub proof fn decimal_is_not_empty(n: nat)
    ensures
        decimal(n).len() > 0,
{
}

/// Whether `s` holds nothing but decimal digits.
pub open spec fn all_digits(s: Seq<char>) -> bool {
    forall|i: int| 0 <= i < s.len() ==> '0' <= #[trigger] s[i] <= '9'
}

/// A numeral holds nothing but digits.
pub proof fn decimal_is_all_digits(n: nat)
    ensures
        all_digits(decimal(n)),
    decreases n,
{
    if n >= 10 {
        decimal_is_all_digits(n / 10);
    }
}

/// A number from one hundred thousand up to one below a million has six digits.
pub proof fn decimal_has_six_digits(n: nat)
    requires
        100_000 <= n < 1_000_000,
    ensures
        decimal(n).len() == 6,
{
    reveal_with_fuel(decimal, 7);
}

/// Replacing changes nothing in a text that does not hold the searched part.
pub proof fn replaced_without_occurrence(s: Seq<char>, from: Seq<char>, to: Seq<char>)
    requires
        !occurs(from, s),
    ensures
        replaced(s, from, to) == s,
    decreases s.len(),
{
    assert(s.skip(0) =~= s);
    if from.len() > 0 && s.len() >= from.len() {
        assert forall|i: int| 0 <= i <= s.skip(1).len() implies !from.is_prefix_of(
            #[trigger] s.skip(1).skip(i),
        ) by {
            assert(s.skip(1).skip(i) =~= s.skip(i + 1));
        }
        replaced_without_occurrence(s.skip(1), from, to);
        assert(seq![s[0]] + s.skip(1) =~= s);
    }
}

/// A list of texts has the characters of each text at its place.
pub proof fn texts_are_those_of_the_list(list: Seq<String>, i: int)
    requires
        0 <= i < list.len(),
    ensures
        texts(list).len() == list.len(),
        texts(list)[i] == list[i]@,
{
}

/// An optional text and a text result have the characters of the text that they hold.
pub proof fn held_text_is_taken_as_it_is(text: String)
    ensures
        optional_text(Some(text)) == Some(text@),
        optional_text(None) is None,
        result_text(Ok(text)) == Ok::<Seq<char>, Seq<char>>(text@),
        result_text(Err(text)) == Err::<Seq<char>, Seq<char>>(text@),
{
}

/// White space is what Unicode lists as such: twenty-five characters.
pub proof fn white_space_is_what_unicode_lists(c: char)
    ensures
        white(c) <==> {
            let code = c as u32;
            ||| 9 <= code <= 13
            ||| code == 32
            ||| code == 133
            ||| code == 160
            ||| code == 5760
            ||| 8192 <= code <= 8202
            ||| code == 8232
            ||| code == 8233
            ||| code == 8239
            ||| code == 8287
            ||| code == 12288
        },
{
}

/// A text is blank exactly where both of its parts are; the empty text is, and one character is
/// where it is white space.
pub proof fn blank_by_parts(a: Seq<char>, b: Seq<char>, c: char)
    ensures
        blank(a + b) <==> blank(a) && blank(b),
        blank(seq![]),
        blank(seq![c]) <==> white(c),
{
    if blank(a + b) {
        assert forall|i: int| 0 <= i < a.len() implies white(#[trigger] a[i]) by {
            assert((a + b)[i] == a[i]);
        }
        assert forall|i: int| 0 <= i < b.len() implies white(#[trigger] b[i]) by {
            assert((a + b)[a.len() + i] == b[i]);
        }
    }
    assert(seq![c][0] == c);
}

/// White space in front is taken away first.
proof fn trimmed_start_behind_white_space(before: Seq<char>, rest: Seq<char>)
    requires
        forall|i: int| 0 <= i < before.len() ==> white(#[trigger] before[i]),
        rest.len() == 0 || !white(rest[0]),
    ensures
        trimmed_start(before + rest) == rest,
    decreases before.len(),
{
    if before.len() > 0 {
        assert((before + rest)[0] == before[0]);
        assert((before + rest).skip(1) =~= before.skip(1) + rest);
        assert forall|i: int| 0 <= i < before.skip(1).len() implies white(
            #[trigger] before.skip(1)[i],
        ) by {
            assert(before.skip(1)[i] == before[i + 1]);
        }
        trimmed_start_behind_white_space(before.skip(1), rest);
    } else {
        assert(before + rest =~= rest);
    }
}

/// White space behind is taken away last.
proof fn trimmed_end_before_white_space(core: Seq<char>, after: Seq<char>)
    requires
        forall|i: int| 0 <= i < after.len() ==> white(#[trigger] after[i]),
        core.len() == 0 || !white(core.last()),
    ensures
        trimmed_end(core + after) == core,
    decreases after.len(),
{
    if after.len() > 0 {
        assert((core + after).last() == after[after.len() - 1]);
        assert((core + after).drop_last() =~= core + after.drop_last());
        assert forall|i: int| 0 <= i < after.drop_last().len() implies white(
            #[trigger] after.drop_last()[i],
        ) by {
            assert(after.drop_last()[i] == after[i]);
        }
        trimmed_end_before_white_space(core, after.drop_last());
    } else {
        assert(core + after =~= core);
    }
}

/// A text that neither begins nor ends with white space is what trimming leaves of it, whatever
/// white space stands round it.
pub proof fn trimming_gives_the_core(before: Seq<char>, core: Seq<char>, after: Seq<char>)
    requires
        forall|i: int| 0 <= i < before.len() ==> white(#[trigger] before[i]),
        forall|i: int| 0 <= i < after.len() ==> white(#[trigger] after[i]),
        core.len() == 0 || (!white(core[0]) && !white(core.last())),
    ensures
        trimmed(before + core + after) == core,
{
    if core.len() == 0 {
        let whole = before + core + after;
        assert forall|i: int| 0 <= i < whole.len() implies white(#[trigger] whole[i]) by {
            if i < before.len() {
                assert(whole[i] == before[i]);
            } else {
                assert(whole[i] == after[i - before.len()]);
            }
        }
        trimmed_is_empty_iff_blank(whole);
        assert(trimmed(whole) =~= core);
    } else {
        assert(before + core + after =~= before + (core + after));
        assert((core + after)[0] == core[0]);
        trimmed_start_behind_white_space(before, core + after);
        trimmed_end_before_white_space(core, after);
    }
}

/// Replacing keeps what stands before the first occurrence, puts the replacement in its place, and
/// goes on behind it.
pub proof fn replaced_at_the_first_occurrence(
    before: Seq<char>,
    from: Seq<char>,
    to: Seq<char>,
    rest: Seq<char>,
)
    requires
        from.len() > 0,
        forall|i: int|
            0 <= i < before.len() ==> !from.is_prefix_of(
                #[trigger] (before + from + rest).skip(i),
            ),
    ensures
        replaced(before + from + rest, from, to) == before + to + replaced(rest, from, to),
    decreases before.len(),
{
    let s = before + from + rest;
    if before.len() == 0 {
        assert(s =~= from + rest);
        assert(s.subrange(0, from.len() as int) =~= from);
        assert(s.skip(from.len() as int) =~= rest);
        assert(before + to =~= to);
    } else {
        assert(s.skip(0) =~= s);
        assert(!from.is_prefix_of(s.skip(0)));
        let tail = before.skip(1);
        assert(s.skip(1) =~= tail + from + rest);
        assert forall|i: int| 0 <= i < tail.len() implies !from.is_prefix_of(
            #[trigger] (tail + from + rest).skip(i),
        ) by {
            assert((tail + from + rest).skip(i) =~= s.skip(i + 1));
        }
        replaced_at_the_first_occurrence(tail, from, to, rest);
        assert(seq![s[0]] + (tail + to + replaced(rest, from, to)) =~= before + to + replaced(
            rest,
            from,
            to,
        ));
    }
}

/// A part occurs in a text exactly where the text can be split into what stands before the part,
/// the part, and what stands behind it.
pub proof fn part_occurs_between_two_others(before: Seq<char>, part: Seq<char>, after: Seq<char>)
    ensures
        occurs(part, before + part + after),
{
    let s = before + part + after;
    assert(s.skip(before.len() as int).subrange(0, part.len() as int) =~= part);
    assert(part.is_prefix_of(s.skip(before.len() as int)));
}

/// A part that occurs in a text can be cut out of it.
pub proof fn occurring_part_can_be_cut_out(part: Seq<char>, s: Seq<char>)
    requires
        occurs(part, s),
    ensures
        exists|before: Seq<char>, after: Seq<char>| s == #[trigger] (before + part + after),
{
    let i = choose|i: int| 0 <= i <= s.len() && part.is_prefix_of(#[trigger] s.skip(i));
    assert(part =~= s.skip(i).subrange(0, part.len() as int));
    assert(s.take(i) + part + s.skip(i + part.len()) =~= s);
}

/// Two lists are joined with one separator between them; a list of one text is joined as that
/// text, and an empty one as nothing.
pub proof fn joined_lists_are_joined_by_a_separator(
    one: Seq<Seq<char>>,
    other: Seq<Seq<char>>,
    separator: Seq<char>,
)
    requires
        one.len() > 0,
        other.len() > 0,
    ensures
        joined(one + other, separator) == joined(one, separator) + separator + joined(
            other,
            separator,
        ),
        joined(seq![one[0]], separator) == one[0],
        joined(seq![], separator) == Seq::<char>::empty(),
    decreases other.len(),
{
    if other.len() == 1 {
        assert((one + other).drop_last() =~= one);
    } else {
        assert((one + other).drop_last() =~= one + other.drop_last());
        joined_lists_are_joined_by_a_separator(one, other.drop_last(), separator);
        assert((joined(one, separator) + separator + joined(other.drop_last(), separator))
            + separator + other.last() =~= joined(one, separator) + separator + (joined(
            other.drop_last(),
            separator,
        ) + separator + other.last()));
    }
}

/// The number that a numeral of decimal digits stands for.
pub open spec fn numeral_value(s: Seq<char>) -> int
    decreases s.len(),
{
    if s.len() == 0 {
        0
    } else {
        10 * numeral_value(s.drop_last()) + (s.last() as int - '0' as int)
    }
}

/// A numeral stands for the number that it was written for, in decimal digits, and begins with a
/// zero only where that is all of it.
pub proof fn decimal_stands_for_its_number(n: nat)
    ensures
        numeral_value(decimal(n)) == n,
        forall|i: int| 0 <= i < decimal(n).len() ==> '0' <= #[trigger] decimal(n)[i] <= '9',
        decimal(n).len() > 0,
        decimal(n)[0] == '0' ==> decimal(n).len() == 1,
    decreases n,
{
    decimal_is_all_digits(n);
    assert(numeral_value(Seq::<char>::empty()) == 0);
    if n < 10 {
        assert(decimal(n).drop_last() =~= Seq::<char>::empty());
        assert(decimal(n).last() == digit(n));
        assert(digit(n) as int == '0' as int + n);
    } else {
        let tens = n / 10;
        decimal_stands_for_its_number(tens);
        assert(decimal(n).drop_last() =~= decimal(tens));
        assert(decimal(n).last() == digit(n % 10));
        assert(digit(n % 10) as int == '0' as int + n % 10);
        assert(decimal(n)[0] == decimal(tens)[0]);
        if tens < 10 {
            assert(decimal(tens)[0] == digit(tens));
            assert(digit(tens) as int == '0' as int + tens);
        } else {
            decimal_is_not_empty(tens / 10);
        }
    }
}

/// A number that is not negative is written as its numeral, and a negative one as a minus sign and
/// the numeral of its size.
pub proof fn signed_decimal_has_a_sign_where_negative(n: nat)
    ensures
        signed_decimal(n as int) == decimal(n),
        n > 0 ==> signed_decimal(-n) == seq!['-'] + decimal(n),
{
    reveal_strlit("-");
    assert("-"@ =~= seq!['-']);
}

} // verus!
