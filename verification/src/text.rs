//! Text built and taken apart as sequences of characters.
use vstd::prelude::*;

verus! {

/// The standard library's `String::push`: the given character is appended to
/// the end, and nothing else changes.
pub assume_specification[ String::push ](s: &mut String, ch: char)
    ensures
        final(s)@ == old(s)@.push(ch),
;

/// Whether two texts hold the same characters.
pub fn same(a: &str, b: &str) -> (r: bool)
    ensures
        r == (a@ == b@),
{
    a.to_owned() == b.to_owned()
}

/// The characters of a text, in order.
pub fn chars_of(s: &str) -> (v: Vec<char>)
    ensures
        v@ == s@,
{
    let mut v: Vec<char> = Vec::new();
    for c in it: s.chars()
        invariant
            v@ == s@.take(it.index() as int),
            it.seq() == s@,
    {
        assert(s@.take(it.index() as int).push(c) =~= s@.take(it.index() as int + 1));
        v.push(c);
    }
    assert(s@.take(s@.len() as int) =~= s@);
    v
}

/// The text whose characters are the given ones.
pub fn string_of(v: &Vec<char>) -> (s: String)
    ensures
        s@ == v@,
{
    slice_text(v, 0, v.len())
}

/// The text made of the characters from `from` up to `to`.
pub fn slice_text(v: &Vec<char>, from: usize, to: usize) -> (s: String)
    requires
        from <= to <= v@.len(),
    ensures
        s@ == v@.subrange(from as int, to as int),
{
    let mut s = String::new();
    let mut i: usize = from;
    assert(s@ =~= v@.subrange(from as int, from as int));
    while i < to
        invariant
            from <= i <= to <= v@.len(),
            s@ == v@.subrange(from as int, i as int),
        decreases to - i,
    {
        assert(v@.subrange(from as int, i as int).push(v@[i as int]) =~= v@.subrange(
            from as int,
            i as int + 1,
        ));
        s.push(v[i]);
        i = i + 1;
    }
    s
}

/// Two texts, one after the other.
pub fn cat(a: &str, b: &str) -> (s: String)
    ensures
        s@ == a@ + b@,
{
    let mut s = a.to_owned();
    s.append(b);
    s
}

/// Three texts, one after the other.
pub fn cat3(a: &str, b: &str, c: &str) -> (s: String)
    ensures
        s@ == a@ + b@ + c@,
{
    let mut s = cat(a, b);
    s.append(c);
    s
}

/// Five texts, one after the other.
pub fn cat5(a: &str, b: &str, c: &str, d: &str, e: &str) -> (s: String)
    ensures
        s@ == a@ + b@ + c@ + d@ + e@,
{
    let mut s = cat3(a, b, c);
    s.append(d);
    s.append(e);
    s
}

/// A copy of an optional text.
pub fn clone_opt(s: &Option<String>) -> (r: Option<String>)
    ensures
        r == *s,
{
    match s {
        Some(t) => Some(t.clone()),
        None => None,
    }
}

/// The characters of an optional text.
pub open spec fn opt_text(s: Option<String>) -> Option<Seq<char>> {
    match s {
        Some(t) => Some(t@),
        None => None,
    }
}

/// The characters of each text of a list.
pub open spec fn texts(v: Seq<String>) -> Seq<Seq<char>> {
    Seq::new(v.len(), |i: int| v[i]@)
}

/// The characters of each text of a list of optional texts.
pub open spec fn opt_texts(v: Seq<Option<String>>) -> Seq<Option<Seq<char>>> {
    Seq::new(v.len(), |i: int| opt_text(v[i]))
}

/// Appending a text to a list appends its characters.
pub broadcast proof fn texts_push(v: Seq<String>, s: String)
    ensures
        #[trigger] texts(v.push(s)) == texts(v).push(s@),
{
    assert(texts(v.push(s)) =~= texts(v).push(s@));
}

/// The first place in a list that holds `s`.
pub open spec fn first_index(v: Seq<Seq<char>>, s: Seq<char>) -> Option<int>
    decreases v.len(),
{
    if v.len() == 0 {
        None
    } else {
        match first_index(v.drop_last(), s) {
            Some(i) => Some(i),
            None => if v.last() == s {
                Some(v.len() - 1)
            } else {
                None
            },
        }
    }
}

/// A place that [`first_index`] names holds the text, and none before it does;
/// where it names none, no place holds it.
pub proof fn first_index_is_first(v: Seq<Seq<char>>, s: Seq<char>)
    ensures
        match first_index(v, s) {
            Some(i) => 0 <= i < v.len() && v[i] == s && (forall|j: int|
                0 <= j < i ==> v[j] != s),
            None => forall|j: int| 0 <= j < v.len() ==> v[j] != s,
        },
    decreases v.len(),
{
    if v.len() > 0 {
        first_index_is_first(v.drop_last(), s);
        assert(forall|j: int| 0 <= j < v.len() - 1 ==> v.drop_last()[j] == v[j]);
    }
}

/// Where in a list a text first stands.
pub fn position(v: &Vec<String>, s: &str) -> (r: Option<usize>)
    ensures
        match r {
            Some(i) => first_index(texts(v@), s@) == Some(i as int),
            None => first_index(texts(v@), s@) is None,
        },
{
    let mut i: usize = 0;
    while i < v.len()
        invariant
            i <= v@.len(),
            first_index(texts(v@).take(i as int), s@) is None,
        decreases v@.len() - i,
    {
        assert(texts(v@).take(i as int + 1).drop_last() =~= texts(v@).take(i as int));
        if same(v[i].as_str(), s) {
            proof {
                position_settled(texts(v@), s@, i as int);
            }
            return Some(i);
        }
        i = i + 1;
    }
    assert(texts(v@).take(i as int) =~= texts(v@));
    None
}

/// A text found at the end of a prefix is where the whole list first holds it.
proof fn position_settled(v: Seq<Seq<char>>, s: Seq<char>, i: int)
    requires
        0 <= i < v.len(),
        first_index(v.take(i), s) is None,
        v[i] == s,
    ensures
        first_index(v, s) == Some(i),
    decreases v.len(),
{
    if i == v.len() - 1 {
        assert(v.drop_last() =~= v.take(i));
    } else {
        assert(v.drop_last().take(i) =~= v.take(i));
        position_settled(v.drop_last(), s, i);
    }
}

/// Whether a list holds a text.
pub fn contains(v: &Vec<String>, s: &str) -> (r: bool)
    ensures
        r == texts(v@).contains(s@),
{
    proof {
        first_index_is_first(texts(v@), s@);
    }
    match position(v, s) {
        Some(_) => true,
        None => false,
    }
}

/// The decimal digit of a number below ten.
pub open spec fn digit(d: int) -> char {
    if d == 0 {
        '0'
    } else if d == 1 {
        '1'
    } else if d == 2 {
        '2'
    } else if d == 3 {
        '3'
    } else if d == 4 {
        '4'
    } else if d == 5 {
        '5'
    } else if d == 6 {
        '6'
    } else if d == 7 {
        '7'
    } else if d == 8 {
        '8'
    } else {
        '9'
    }
}

fn digit_char(d: u128) -> (c: char)
    requires
        d < 10,
    ensures
        c == digit(d as int),
{
    match d {
        0 => '0',
        1 => '1',
        2 => '2',
        3 => '3',
        4 => '4',
        5 => '5',
        6 => '6',
        7 => '7',
        8 => '8',
        _ => '9',
    }
}

/// A number in decimal, without leading zeros.
pub open spec fn decimal(n: nat) -> Seq<char>
    decreases n,
{
    if n < 10 {
        seq![digit(n as int)]
    } else {
        decimal(n / 10).push(digit((n % 10) as int))
    }
}

/// Writes a number in decimal.
pub fn to_decimal(n: u128) -> (s: String)
    ensures
        s@ == decimal(n as nat),
    decreases n,
{
    if n < 10 {
        let mut s = String::new();
        s.push(digit_char(n));
        assert(s@ =~= seq![digit(n as int)]);
        s
    } else {
        let mut s = to_decimal(n / 10);
        s.push(digit_char(n % 10));
        s
    }
}

/// The value of a run of decimal digits, or nothing where some character is
/// not a digit.
pub open spec fn digits_value(s: Seq<char>) -> Option<nat>
    decreases s.len(),
{
    if s.len() == 0 {
        Some(0)
    } else {
        match digits_value(s.drop_last()) {
            Some(v) => if '0' <= s.last() && s.last() <= '9' {
                Some((10 * v + (s.last() as int - '0' as int)) as nat)
            } else {
                None
            },
            None => None,
        }
    }
}

/// The number a text names: decimal digits with an optional leading `+`, and
/// small enough for the machine. Anything else names nothing.
pub open spec fn index_named(s: Seq<char>) -> Option<usize> {
    let digits = if s.len() > 0 && s[0] == '+' {
        s.skip(1)
    } else {
        s
    };
    if digits.len() == 0 {
        None
    } else {
        match digits_value(digits) {
            Some(v) => if v <= usize::MAX {
                Some(v as usize)
            } else {
                None
            },
            None => None,
        }
    }
}

/// A longer run of digits names no smaller number, and none if a shorter
/// prefix of it names none.
proof fn digits_grow(s: Seq<char>, i: int)
    requires
        0 <= i <= s.len(),
    ensures
        digits_value(s.take(i)) is None ==> digits_value(s) is None,
        digits_value(s) is Some ==> digits_value(s.take(i)) is Some && digits_value(s)->0
            >= digits_value(s.take(i))->0,
    decreases s.len() - i,
{
    if i < s.len() {
        digits_grow(s, i + 1);
        assert(s.take(i + 1).drop_last() =~= s.take(i));
    } else {
        assert(s.take(i) =~= s);
    }
}

/// Reads the number a text names.
pub fn read_index(s: &str) -> (r: Option<usize>)
    ensures
        r == index_named(s@),
{
    let v = chars_of(s);
    let mut i: usize = 0;
    if v.len() > 0 && v[0] == '+' {
        i = 1;
    }
    if i == v.len() {
        assert(v@.skip(i as int).len() == 0);
        return None;
    }
    let ghost start: int = i as int;
    let ghost digits = if s@.len() > 0 && s@[0] == '+' {
        s@.skip(1)
    } else {
        s@
    };
    assert(digits =~= v@.skip(start));
    let mut n: usize = 0;
    assert(digits.take(0) =~= Seq::<char>::empty());
    while i < v.len()
        invariant
            start <= i <= v@.len(),
            v@ == s@,
            digits == v@.skip(start),
            start == 0 || start == 1,
            digits == (if s@.len() > 0 && s@[0] == '+' {
                s@.skip(1)
            } else {
                s@
            }),
            digits.len() > 0,
            digits_value(digits.take(i - start)) == Some(n as nat),
        decreases v@.len() - i,
    {
        let c = v[i];
        proof {
            assert(digits.take(i - start + 1).drop_last() =~= digits.take(i - start));
            assert(digits.take(i - start + 1).last() == c);
            digits_grow(digits, i - start + 1);
        }
        if c < '0' || c > '9' {
            return None;
        }
        let d: usize = (c as u32 - '0' as u32) as usize;
        if n > (usize::MAX - d) / 10 {
            return None;
        }
        n = n * 10 + d;
        i = i + 1;
    }
    assert(digits.take(i - start) =~= digits);
    Some(n)
}

/// What [`to_decimal`] writes names the number it was given.
pub proof fn decimal_names_its_number(n: nat)
    ensures
        digits_value(decimal(n)) == Some(n),
        decimal(n).len() > 0,
        decimal(n)[0] != '+',
        n <= usize::MAX ==> index_named(decimal(n)) == Some(n as usize),
    decreases n,
{
    reveal_with_fuel(digits_value, 2);
    if n < 10 {
        assert(decimal(n).drop_last() =~= Seq::<char>::empty());
    } else {
        decimal_names_its_number(n / 10);
        assert(decimal(n).drop_last() =~= decimal(n / 10));
        assert(decimal(n).last() == digit((n % 10) as int));
    }
}

/// The space characters of Unicode, which trimming takes off.
pub open spec fn is_space(c: char) -> bool {
    let u = c as u32;
    ||| 0x09 <= u <= 0x0d
    ||| u == 0x20
    ||| u == 0x85
    ||| u == 0xa0
    ||| u == 0x1680
    ||| 0x2000 <= u <= 0x200a
    ||| u == 0x2028
    ||| u == 0x2029
    ||| u == 0x202f
    ||| u == 0x205f
    ||| u == 0x3000
}

/// Whether a character is one that trimming takes off.
pub fn space(c: char) -> (r: bool)
    ensures
        r == is_space(c),
{
    let u: u32 = c as u32;
    (0x09 <= u && u <= 0x0d) || u == 0x20 || u == 0x85 || u == 0xa0 || u == 0x1680 || (0x2000 <= u
        && u <= 0x200a) || u == 0x2028 || u == 0x2029 || u == 0x202f || u == 0x205f || u == 0x3000
}

/// A text without the spaces it ends with.
pub open spec fn trim_end(s: Seq<char>) -> Seq<char>
    decreases s.len(),
{
    if s.len() > 0 && is_space(s.last()) {
        trim_end(s.drop_last())
    } else {
        s
    }
}

/// A text without the spaces it begins and ends with.
pub open spec fn trimmed(s: Seq<char>) -> Seq<char>
    decreases s.len(),
{
    if s.len() > 0 && is_space(s[0]) {
        trimmed(s.skip(1))
    } else {
        trim_end(s)
    }
}

/// A text without the spaces it begins and ends with.
pub fn trim(s: &str) -> (r: String)
    ensures
        r@ == trimmed(s@),
{
    let v = chars_of(s);
    let mut from: usize = 0;
    assert(v@.skip(0) =~= v@);
    while from < v.len() && space(v[from])
        invariant
            from <= v@.len(),
            trimmed(v@.skip(from as int)) == trimmed(v@),
        decreases v@.len() - from,
    {
        assert(v@.skip(from as int).skip(1) =~= v@.skip(from as int + 1));
        from = from + 1;
    }
    let mut to: usize = v.len();
    assert(v@.subrange(from as int, to as int) =~= v@.skip(from as int));
    while to > from && space(v[to - 1])
        invariant
            from <= to <= v@.len(),
            trim_end(v@.subrange(from as int, to as int)) == trim_end(v@.skip(from as int)),
        decreases to,
    {
        assert(v@.subrange(from as int, to as int).drop_last() =~= v@.subrange(
            from as int,
            to as int - 1,
        ));
        to = to - 1;
    }
    slice_text(&v, from, to)
}

/// The control characters, which have no place on one line of text.
pub open spec fn is_control(c: char) -> bool {
    c as u32 <= 0x1f || 0x7f <= c as u32 <= 0x9f
}

/// Whether a character is a control character.
pub fn control(c: char) -> (r: bool)
    ensures
        r == is_control(c),
{
    let u: u32 = c as u32;
    u <= 0x1f || (0x7f <= u && u <= 0x9f)
}

/// A text on one line: each run of control characters between two other
/// characters is one space, and one at either end is nothing.
pub open spec fn one_line(s: Seq<char>) -> Seq<char>
    decreases s.len(),
{
    if s.len() == 0 {
        Seq::empty()
    } else {
        let before = one_line(s.drop_last());
        if is_control(s.last()) {
            before
        } else if s.len() > 1 && is_control(s[s.len() - 2]) && before.len() > 0 {
            before.push(' ').push(s.last())
        } else {
            before.push(s.last())
        }
    }
}

/// Flattens a pasted run of text to one line.
pub fn as_one_line(text: &str) -> (out: String)
    ensures
        out@ == one_line(text@),
{
    let v = chars_of(text);
    let mut out = String::new();
    let mut n: usize = 0;
    let mut gap = false;
    let mut i: usize = 0;
    assert(v@.take(0) =~= Seq::<char>::empty());
    while i < v.len()
        invariant
            i <= v@.len(),
            out@ == one_line(v@.take(i as int)),
            (n > 0) == (out@.len() > 0),
            gap == (i > 0 && is_control(v@[i - 1]) && out@.len() > 0),
        decreases v@.len() - i,
    {
        let c = v[i];
        proof {
            assert(v@.take(i as int + 1).drop_last() =~= v@.take(i as int));
            assert(v@.take(i as int + 1).last() == c);
        }
        if control(c) {
            gap = n > 0;
        } else {
            if gap {
                out.push(' ');
                gap = false;
            }
            out.push(c);
            n = 1;
        }
        i = i + 1;
    }
    assert(v@.take(i as int) =~= v@);
    out
}

/// A text on one line holds no control character, and ends in a character of
/// its own rather than in a space that stood for a gap.
pub proof fn one_line_is_one_line(s: Seq<char>)
    ensures
        forall|i: int| 0 <= i < one_line(s).len() ==> !is_control(#[trigger] one_line(s)[i]),
        one_line(s).len() > 0 ==> s.contains(one_line(s).last()),
    decreases s.len(),
{
    if s.len() > 0 {
        one_line_is_one_line(s.drop_last());
        let before = s.drop_last();
        if is_control(s.last()) {
            if one_line(before).len() > 0 {
                let j = choose|j: int| 0 <= j < before.len() && before[j] == one_line(before).last();
                assert(s[j] == one_line(s).last());
            }
        } else {
            assert(s[s.len() - 1] == one_line(s).last());
        }
    }
}

/// A text that holds no control character is already on one line.
pub proof fn one_line_keeps_a_line(s: Seq<char>)
    requires
        forall|i: int| 0 <= i < s.len() ==> !is_control(#[trigger] s[i]),
    ensures
        one_line(s) == s,
    decreases s.len(),
{
    if s.len() > 0 {
        let before = s.drop_last();
        assert forall|i: int| 0 <= i < before.len() implies !is_control(#[trigger] before[i]) by {
            assert(before[i] == s[i]);
        }
        one_line_keeps_a_line(before);
        assert(!is_control(s[s.len() - 1]));
        if s.len() > 1 {
            assert(!is_control(s[s.len() - 2]));
        }
        assert(one_line(s) =~= s);
    } else {
        assert(one_line(s) =~= s);
    }
}

/// Some texts one after the other, with another between each two.
pub open spec fn joined(parts: Seq<Seq<char>>, between: Seq<char>) -> Seq<char>
    decreases parts.len(),
{
    if parts.len() == 0 {
        Seq::empty()
    } else if parts.len() == 1 {
        parts[0]
    } else {
        joined(parts.drop_last(), between) + between + parts.last()
    }
}

/// Writes some texts one after the other, with another between each two.
pub fn join(parts: &Vec<String>, between: &str) -> (s: String)
    ensures
        s@ == joined(texts(parts@), between@),
{
    let mut s = String::new();
    let mut i: usize = 0;
    assert(texts(parts@).take(0) =~= Seq::empty());
    while i < parts.len()
        invariant
            i <= parts@.len(),
            s@ == joined(texts(parts@).take(i as int), between@),
        decreases parts@.len() - i,
    {
        proof {
            let upto = texts(parts@).take(i as int + 1);
            assert(upto.drop_last() =~= texts(parts@).take(i as int));
            assert(upto.last() == parts@[i as int]@);
        }
        if i > 0 {
            s.append(between);
        }
        s.append(parts[i].as_str());
        i = i + 1;
    }
    assert(texts(parts@).take(i as int) =~= texts(parts@));
    s
}

/// Trimming takes off the spaces around a text and nothing of the text: what
/// begins and ends with other characters comes out as it went in, whatever
/// spaces stood around it.
pub proof fn only_the_spaces_around_a_text_go(before: Seq<char>, s: Seq<char>, after: Seq<char>)
    requires
        forall|i: int| 0 <= i < before.len() ==> is_space(#[trigger] before[i]),
        forall|i: int| 0 <= i < after.len() ==> is_space(#[trigger] after[i]),
        s.len() > 0,
        !is_space(s[0]),
        !is_space(s.last()),
    ensures
        trimmed(before + s + after) == s,
    decreases before.len(),
{
    let t = before + s + after;
    if before.len() > 0 {
        assert(t[0] == before[0]);
        let rest = before.skip(1);
        assert forall|i: int| 0 <= i < rest.len() implies is_space(#[trigger] rest[i]) by {
            assert(rest[i] == before[i + 1]);
        }
        assert(t.skip(1) =~= rest + s + after);
        only_the_spaces_around_a_text_go(rest, s, after);
    } else {
        assert(t[0] == s[0]);
        assert(t =~= s + after);
        spaces_at_the_end_go(s, after);
    }
}

proof fn spaces_at_the_end_go(s: Seq<char>, after: Seq<char>)
    requires
        forall|i: int| 0 <= i < after.len() ==> is_space(#[trigger] after[i]),
        s.len() > 0,
        !is_space(s.last()),
    ensures
        trim_end(s + after) == s,
    decreases after.len(),
{
    if after.len() > 0 {
        assert((s + after).last() == after.last());
        let rest = after.drop_last();
        assert((s + after).drop_last() =~= s + rest);
        spaces_at_the_end_go(s, rest);
    } else {
        assert(s + after =~= s);
    }
}

/// A text of nothing but spaces is trimmed to nothing.
pub proof fn a_text_of_spaces_is_trimmed_to_nothing(s: Seq<char>)
    requires
        forall|i: int| 0 <= i < s.len() ==> is_space(#[trigger] s[i]),
    ensures
        trimmed(s) == Seq::<char>::empty(),
    decreases s.len(),
{
    if s.len() > 0 {
        let rest = s.skip(1);
        assert forall|i: int| 0 <= i < rest.len() implies is_space(#[trigger] rest[i]) by {
            assert(rest[i] == s[i + 1]);
        }
        assert(is_space(s[0]));
        a_text_of_spaces_is_trimmed_to_nothing(rest);
    }
}

/// The characters that are spaces: blanks, tabs and line ends among them, and
/// no letter, digit or sign.
pub proof fn blanks_and_line_ends_are_spaces(c: char)
    ensures
        is_space(' ') && is_space('\t') && is_space('\n') && is_space('\r'),
        is_space('\u{85}') && is_space('\u{a0}') && is_space('\u{1680}') && is_space('\u{3000}'),
        is_space('\u{2000}') && is_space('\u{200a}') && is_space('\u{2028}') && is_space('\u{2029}'),
        is_space('\u{202f}') && is_space('\u{205f}'),
        '!' <= c && c <= '~' ==> !is_space(c),
        !is_space('\u{200b}') && !is_space('\u{180e}') && !is_space('\u{feff}'),
        '\u{3000}' < c ==> !is_space(c),
{
}

/// The control characters: those below the blank, and those from delete on to
/// the end of their row.
pub proof fn what_does_not_print_is_a_control(c: char)
    ensures
        is_control('\n') && is_control('\r') && is_control('\t') && is_control('\u{0}')
            && is_control('\u{1b}') && is_control('\u{7f}') && is_control('\u{9f}'),
        ' ' <= c && c <= '~' ==> !is_control(c),
        '\u{a0}' <= c ==> !is_control(c),
        c < ' ' ==> is_control(c),
{
}

/// A run of control characters between two others becomes one space, and one
/// before the first becomes nothing.
pub proof fn a_gap_becomes_one_space(a: Seq<char>, gap: Seq<char>, c: char)
    requires
        gap.len() > 0,
        forall|i: int| 0 <= i < gap.len() ==> is_control(#[trigger] gap[i]),
        !is_control(c),
    ensures
        one_line(a + gap) == one_line(a),
        one_line(a).len() > 0 ==> one_line((a + gap).push(c)) == one_line(a).push(' ').push(c),
        one_line(a).len() == 0 ==> one_line((a + gap).push(c)) == seq![c],
    decreases gap.len(),
{
    a_gap_is_dropped(a, gap);
    let s = (a + gap).push(c);
    assert(s.drop_last() =~= a + gap);
    assert(s[s.len() - 2] == gap.last());
    if one_line(a).len() == 0 {
        assert(one_line(s) =~= seq![c]);
    }
}

proof fn a_gap_is_dropped(a: Seq<char>, gap: Seq<char>)
    requires
        forall|i: int| 0 <= i < gap.len() ==> is_control(#[trigger] gap[i]),
    ensures
        one_line(a + gap) == one_line(a),
    decreases gap.len(),
{
    if gap.len() > 0 {
        let rest = gap.drop_last();
        assert((a + gap).drop_last() =~= a + rest);
        assert((a + gap).last() == gap.last());
        a_gap_is_dropped(a, rest);
    } else {
        assert(a + gap =~= a);
    }
}

/// Texts are joined in order, with the text between only between two of them.
pub proof fn texts_are_joined_in_order(
    parts: Seq<Seq<char>>,
    last: Seq<char>,
    between: Seq<char>,
)
    ensures
        joined(Seq::empty(), between) == Seq::<char>::empty(),
        joined(seq![last], between) == last,
        parts.len() > 0 ==> joined(parts.push(last), between) == joined(parts, between) + between
            + last,
{
    assert(parts.push(last).drop_last() =~= parts);
}

/// A number that was written in decimal is made of digits alone, and is read
/// back with or without a plus before it.
pub proof fn a_number_is_read_back(n: nat)
    requires
        n <= usize::MAX,
    ensures
        index_named(decimal(n)) == Some(n as usize),
        index_named(seq!['+'] + decimal(n)) == Some(n as usize),
        index_named(Seq::empty()) is None,
        index_named(seq!['+']) is None,
{
    decimal_names_its_number(n);
    let s = seq!['+'] + decimal(n);
    assert(s.skip(1) =~= decimal(n));
    assert(seq!['+'].skip(1) =~= Seq::<char>::empty());
}

} // verus!
