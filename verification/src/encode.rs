//! Text written so that something else reads it back: a URL, a shell, a
//! terminal.
use vstd::prelude::*;

use crate::text::{cat5, chars_of};

verus! {

/// The bytes that stand for themselves in a query value.
pub open spec fn is_plain(b: u8) -> bool {
    ||| 0x41 <= b <= 0x5a
    ||| 0x61 <= b <= 0x7a
    ||| 0x30 <= b <= 0x39
    ||| b == 0x2d
    ||| b == 0x5f
    ||| b == 0x2e
    ||| b == 0x7e
    ||| b == 0x2f
}

/// The upper-case hexadecimal digit of a number below sixteen.
pub open spec fn hex_upper(d: int) -> char {
    if d < 10 {
        crate::text::digit(d)
    } else if d == 10 {
        'A'
    } else if d == 11 {
        'B'
    } else if d == 12 {
        'C'
    } else if d == 13 {
        'D'
    } else if d == 14 {
        'E'
    } else {
        'F'
    }
}

/// The lower-case hexadecimal digit of a number below sixteen.
pub open spec fn hex_lower(d: int) -> char {
    if d < 10 {
        crate::text::digit(d)
    } else if d == 10 {
        'a'
    } else if d == 11 {
        'b'
    } else if d == 12 {
        'c'
    } else if d == 13 {
        'd'
    } else if d == 14 {
        'e'
    } else {
        'f'
    }
}

fn hex_upper_char(d: u8) -> (c: char)
    requires
        d < 16,
    ensures
        c == hex_upper(d as int),
{
    match d {
        0 => '0',
        1 => '1',
        2 => '2',
        3 => '3',
        4 => '4',
        5 => '5',
        6 => '6',
        7 => '7',
        8 => '8',
        9 => '9',
        10 => 'A',
        11 => 'B',
        12 => 'C',
        13 => 'D',
        14 => 'E',
        _ => 'F',
    }
}

fn hex_lower_char(d: u64) -> (c: char)
    requires
        d < 16,
    ensures
        c == hex_lower(d as int),
{
    match d {
        0 => '0',
        1 => '1',
        2 => '2',
        3 => '3',
        4 => '4',
        5 => '5',
        6 => '6',
        7 => '7',
        8 => '8',
        9 => '9',
        10 => 'a',
        11 => 'b',
        12 => 'c',
        13 => 'd',
        14 => 'e',
        _ => 'f',
    }
}

/// A byte as it stands in a query value: itself, or `%` and two digits.
pub open spec fn url_byte(b: u8) -> Seq<char> {
    if is_plain(b) {
        seq![b as char]
    } else {
        seq!['%', hex_upper((b / 16) as int), hex_upper((b % 16) as int)]
    }
}

/// Bytes as they stand in a query value.
pub open spec fn url_bytes(s: Seq<u8>) -> Seq<char>
    decreases s.len(),
{
    if s.len() == 0 {
        Seq::empty()
    } else {
        url_bytes(s.drop_last()) + url_byte(s.last())
    }
}

/// A text as it stands in a query value: its UTF-8 bytes, escaped.
pub open spec fn url_text(s: Seq<char>) -> Seq<char> {
    url_bytes(vstd::utf8::encode_utf8(s))
}

/// Escapes a text for a query value.
pub fn urlencode(s: &str) -> (out: String)
    ensures
        out@ == url_text(s@),
{
    let bytes = s.as_bytes();
    let mut out = String::new();
    let mut i: usize = 0;
    assert(bytes@.take(0) =~= Seq::<u8>::empty());
    while i < bytes.len()
        invariant
            i <= bytes@.len(),
            out@ == url_bytes(bytes@.take(i as int)),
        decreases bytes@.len() - i,
    {
        let b: u8 = bytes[i];
        let ghost before = out@;
        assert(bytes@.take(i as int + 1).drop_last() =~= bytes@.take(i as int));
        if (0x41 <= b && b <= 0x5a) || (0x61 <= b && b <= 0x7a) || (0x30 <= b && b <= 0x39) || b
            == 0x2d || b == 0x5f || b == 0x2e || b == 0x7e || b == 0x2f {
            out.push(b as char);
        } else {
            out.push('%');
            out.push(hex_upper_char(b / 16));
            out.push(hex_upper_char(b % 16));
        }
        assert(out@ =~= before + url_byte(b));
        i = i + 1;
    }
    assert(bytes@.take(i as int) =~= bytes@);
    out
}

/// The number a hexadecimal digit stands for.
pub open spec fn hex_value(c: char) -> int {
    if '0' <= c && c <= '9' {
        c as int - '0' as int
    } else {
        c as int - 'A' as int + 10
    }
}

/// The bytes a query value stands for, read from its front.
pub open spec fn url_read(s: Seq<char>) -> Seq<u8>
    decreases s.len(),
{
    if s.len() == 0 {
        Seq::empty()
    } else if s[0] == '%' && s.len() >= 3 {
        seq![(16 * hex_value(s[1]) + hex_value(s[2])) as u8] + url_read(s.skip(3))
    } else {
        seq![s[0] as u8] + url_read(s.skip(1))
    }
}

proof fn url_read_step(b: u8, rest: Seq<char>)
    ensures
        url_read(url_byte(b) + rest) == seq![b] + url_read(rest),
{
    let s = url_byte(b) + rest;
    if is_plain(b) {
        assert(s.skip(1) =~= rest);
        assert((b as char) as u8 == b) by {
            assert(b < 128);
        }
    } else {
        assert(s.skip(3) =~= rest);
        assert(hex_value(hex_upper((b / 16) as int)) == b / 16);
        assert(hex_value(hex_upper((b % 16) as int)) == b % 16);
        assert(16 * (b / 16) + (b % 16) == b as int);
    }
}

proof fn url_bytes_front(s: Seq<u8>)
    requires
        s.len() > 0,
    ensures
        url_bytes(s) == url_byte(s[0]) + url_bytes(s.skip(1)),
    decreases s.len(),
{
    reveal_with_fuel(url_bytes, 2);
    if s.len() == 1 {
        assert(s.drop_last() =~= Seq::<u8>::empty());
        assert(s.skip(1) =~= Seq::<u8>::empty());
        assert(url_bytes(s) =~= url_byte(s[0]));
        assert(url_byte(s[0]) + url_bytes(s.skip(1)) =~= url_byte(s[0]));
    } else {
        url_bytes_front(s.drop_last());
        assert(s.drop_last().skip(1) =~= s.skip(1).drop_last());
        assert(url_byte(s[0]) + url_bytes(s.skip(1)) =~= url_byte(s[0]) + url_bytes(
            s.skip(1).drop_last(),
        ) + url_byte(s.last()));
    }
}

proof fn url_bytes_read_back(s: Seq<u8>)
    ensures
        url_read(url_bytes(s)) == s,
    decreases s.len(),
{
    if s.len() == 0 {
        assert(url_read(url_bytes(s)) =~= s);
    } else {
        url_bytes_front(s);
        url_read_step(s[0], url_bytes(s.skip(1)));
        url_bytes_read_back(s.skip(1));
        assert(seq![s[0]] + s.skip(1) =~= s);
    }
}

/// An escaped text stands for the bytes of the text it was made from, so two
/// different texts are never escaped alike.
pub proof fn url_text_reads_back(s: Seq<char>)
    ensures
        url_read(url_text(s)) == vstd::utf8::encode_utf8(s),
        vstd::utf8::decode_utf8(url_read(url_text(s))) == s,
{
    url_bytes_read_back(vstd::utf8::encode_utf8(s));
    vstd::utf8::encode_utf8_decode_utf8(s);
}

/// An escaped text holds none of the characters that part a query: it is made
/// of letters, digits, `-`, `_`, `.`, `~`, `/` and `%` alone.
pub proof fn url_bytes_are_safe(s: Seq<u8>)
    ensures
        forall|i: int|
            0 <= i < url_bytes(s).len() ==> {
                let c = #[trigger] url_bytes(s)[i];
                c == '%' || ((c as u32) < 128 && is_plain(c as u8))
            },
    decreases s.len(),
{
    if s.len() > 0 {
        url_bytes_are_safe(s.drop_last());
        let b = s.last();
        let front = url_bytes(s.drop_last());
        assert forall|i: int| 0 <= i < url_bytes(s).len() implies {
            let c = #[trigger] url_bytes(s)[i];
            c == '%' || ((c as u32) < 128 && is_plain(c as u8))
        } by {
            if i < front.len() {
                assert(url_bytes(s)[i] == front[i]);
            } else {
                assert(url_bytes(s)[i] == url_byte(b)[i - front.len()]);
                if is_plain(b) {
                    assert((b as char) as u8 == b);
                } else {
                    hex_is_plain((b / 16) as int);
                    hex_is_plain((b % 16) as int);
                }
            }
        }
    }
}

proof fn hex_is_plain(d: int)
    requires
        0 <= d < 16,
    ensures
        (hex_upper(d) as u32) < 128,
        is_plain(hex_upper(d) as u8),
{
}

/// The characters of a text with each quote written as `'\''`.
pub open spec fn quotes_escaped(s: Seq<char>) -> Seq<char>
    decreases s.len(),
{
    if s.len() == 0 {
        Seq::empty()
    } else if s.last() == '\'' {
        quotes_escaped(s.drop_last()) + seq!['\'', '\\', '\'', '\'']
    } else {
        quotes_escaped(s.drop_last()).push(s.last())
    }
}

/// A text as one word of a shell command.
pub open spec fn quoted(s: Seq<char>) -> Seq<char> {
    seq!['\''] + quotes_escaped(s) + seq!['\'']
}

/// Writes a text as one word of a shell command.
pub fn shell_quote(s: &str) -> (out: String)
    ensures
        out@ == quoted(s@),
{
    let v = chars_of(s);
    let mut out = String::new();
    out.push('\'');
    let mut i: usize = 0;
    assert(v@.take(0) =~= Seq::<char>::empty());
    assert(out@ =~= seq!['\''] + quotes_escaped(v@.take(0)));
    while i < v.len()
        invariant
            i <= v@.len(),
            out@ == seq!['\''] + quotes_escaped(v@.take(i as int)),
        decreases v@.len() - i,
    {
        let c = v[i];
        assert(v@.take(i as int + 1).drop_last() =~= v@.take(i as int));
        if c == '\'' {
            out.push('\'');
            out.push('\\');
            out.push('\'');
            out.push('\'');
        } else {
            out.push(c);
        }
        assert(out@ =~= seq!['\''] + quotes_escaped(v@.take(i as int + 1)));
        i = i + 1;
    }
    assert(v@.take(i as int) =~= v@);
    out.push('\'');
    assert(out@ =~= quoted(s@));
    out
}

/// What a shell takes a word to mean, as far as quotes and backslashes go.
/// `inside` says whether the reader stands inside single quotes.
pub open spec fn shell_read(s: Seq<char>, inside: bool) -> Seq<char>
    decreases s.len(),
{
    if s.len() == 0 {
        Seq::empty()
    } else if inside {
        if s[0] == '\'' {
            shell_read(s.skip(1), false)
        } else {
            seq![s[0]] + shell_read(s.skip(1), true)
        }
    } else if s[0] == '\'' {
        shell_read(s.skip(1), true)
    } else if s[0] == '\\' && s.len() > 1 {
        seq![s[1]] + shell_read(s.skip(2), false)
    } else {
        seq![s[0]] + shell_read(s.skip(1), false)
    }
}

proof fn quotes_escaped_front(s: Seq<char>)
    requires
        s.len() > 0,
    ensures
        quotes_escaped(s) == quotes_escaped(seq![s[0]]) + quotes_escaped(s.skip(1)),
    decreases s.len(),
{
    reveal_with_fuel(quotes_escaped, 2);
    if s.len() == 1 {
        assert(s =~= seq![s[0]]);
        assert(s.skip(1) =~= Seq::<char>::empty());
        assert(quotes_escaped(s) + quotes_escaped(s.skip(1)) =~= quotes_escaped(s));
    } else {
        quotes_escaped_front(s.drop_last());
        assert(s.drop_last().skip(1) =~= s.skip(1).drop_last());
        assert(s.drop_last()[0] == s[0]);
        let tail = if s.last() == '\'' {
            seq!['\'', '\\', '\'', '\'']
        } else {
            seq![s.last()]
        };
        assert(quotes_escaped(s) =~= quotes_escaped(s.drop_last()) + tail);
        assert(quotes_escaped(s.skip(1)) =~= quotes_escaped(s.skip(1).drop_last()) + tail);
        assert(quotes_escaped(s) =~= quotes_escaped(seq![s[0]]) + quotes_escaped(s.skip(1)));
    }
}

proof fn quotes_read_back(s: Seq<char>)
    ensures
        shell_read(quotes_escaped(s) + seq!['\''], true) == s,
    decreases s.len(),
{
    reveal_with_fuel(shell_read, 5);
    if s.len() == 0 {
        let w = quotes_escaped(s) + seq!['\''];
        assert(w =~= seq!['\'']);
        assert(w.skip(1) =~= Seq::<char>::empty());
        assert(shell_read(w, true) =~= s);
    } else {
        quotes_escaped_front(s);
        quotes_read_back(s.skip(1));
        reveal_with_fuel(quotes_escaped, 2);
        let rest = quotes_escaped(s.skip(1)) + seq!['\''];
        let w = quotes_escaped(s) + seq!['\''];
        assert(seq![s[0]].drop_last() =~= Seq::<char>::empty());
        if s[0] == '\'' {
            assert(quotes_escaped(seq![s[0]]) =~= seq!['\'', '\\', '\'', '\'']);
            assert(w =~= seq!['\'', '\\', '\'', '\''] + rest);
            assert(w.skip(1) =~= seq!['\\', '\'', '\''] + rest);
            assert(w.skip(1).skip(2) =~= seq!['\''] + rest);
            assert(w.skip(1).skip(2).skip(1) =~= rest);
            assert(shell_read(w, true) == shell_read(w.skip(1), false));
            assert(shell_read(w.skip(1), false) == seq!['\''] + shell_read(
                w.skip(1).skip(2),
                false,
            ));
            assert(shell_read(w.skip(1).skip(2), false) == shell_read(rest, true));
        } else {
            assert(quotes_escaped(seq![s[0]]) =~= seq![s[0]]);
            assert(w =~= seq![s[0]] + rest);
            assert(w.skip(1) =~= rest);
        }
        assert(seq![s[0]] + s.skip(1) =~= s);
    }
}

/// A shell reads a quoted text back as the text itself, whatever it holds.
pub proof fn quoted_reads_back(s: Seq<char>)
    ensures
        shell_read(quoted(s), false) == s,
{
    quotes_read_back(s);
    assert(quoted(s).skip(1) =~= quotes_escaped(s) + seq!['\'']);
}

/// A number in lower-case hexadecimal, without leading zeros.
pub open spec fn hex(n: nat) -> Seq<char>
    decreases n,
{
    if n < 16 {
        seq![hex_lower(n as int)]
    } else {
        hex(n / 16).push(hex_lower((n % 16) as int))
    }
}

fn to_hex(n: u64) -> (s: String)
    ensures
        s@ == hex(n as nat),
    decreases n,
{
    if n < 16 {
        let mut s = String::new();
        s.push(hex_lower_char(n));
        assert(s@ =~= seq![hex_lower(n as int)]);
        s
    } else {
        let mut s = to_hex(n / 16);
        s.push(hex_lower_char(n % 16));
        s
    }
}

/// What opens a hyperlink on a terminal: the link's number, which makes the
/// cells of one link one link, and where it leads.
pub fn open_link(id: u64, url: &str) -> (s: String)
    ensures
        s@ == "\x1b]8;id="@ + hex(id as nat) + ";"@ + url@ + "\x1b\\"@,
{
    let n = to_hex(id);
    cat5("\x1b]8;id=", n.as_str(), ";", url, "\x1b\\")
}

/// What stands for itself in a query: letters, digits and five signs. What
/// parts a query or its values never does.
pub proof fn what_parts_a_query_is_escaped(b: u8)
    ensures
        b == '&' as u8 || b == '?' as u8 || b == '#' as u8 || b == '=' as u8 || b == '+' as u8 || b
            == '%' as u8 || b == ' ' as u8 || b < 0x20 || b >= 0x7f ==> !is_plain(b) && url_byte(
            b,
        ).len() == 3 && url_byte(b)[0] == '%',
        'a' as u8 <= b <= 'z' as u8 || 'A' as u8 <= b <= 'Z' as u8 || '0' as u8 <= b <= '9' as u8
            || b == '-' as u8 || b == '_' as u8 || b == '.' as u8 || b == '~' as u8 || b
            == '/' as u8 ==> is_plain(b) && url_byte(b) == seq![b as char],
{
}

/// A text is quoted by a quote at either end, and nothing of it but its quotes
/// is written otherwise.
pub proof fn a_text_without_quotes_is_only_put_between_two(s: Seq<char>)
    requires
        forall|i: int| 0 <= i < s.len() ==> #[trigger] s[i] != '\'',
    ensures
        quoted(s) == seq!['\''] + s + seq!['\''],
    decreases s.len(),
{
    only_quotes_are_escaped(s);
}

proof fn only_quotes_are_escaped(s: Seq<char>)
    requires
        forall|i: int| 0 <= i < s.len() ==> #[trigger] s[i] != '\'',
    ensures
        quotes_escaped(s) == s,
    decreases s.len(),
{
    if s.len() > 0 {
        only_quotes_are_escaped(s.drop_last());
        assert(s.last() != '\'');
        assert(s.drop_last().push(s.last()) =~= s);
    } else {
        assert(quotes_escaped(s) =~= s);
    }
}

/// A number is written in sixteens, its last digit last, in lower case.
pub proof fn a_number_is_written_in_sixteens(k: nat, d: nat)
    requires
        d < 16,
    ensures
        hex(d) == seq![hex_lower(d as int)],
        k > 0 ==> hex(16 * k + d) == hex(k).push(hex_lower(d as int)),
        d < 10 ==> hex_lower(d as int) as int == '0' as int + d,
        d >= 10 ==> hex_lower(d as int) as int == 'a' as int + d - 10,
        d < 10 ==> hex_upper(d as int) as int == '0' as int + d,
        d >= 10 ==> hex_upper(d as int) as int == 'A' as int + d - 10,
{
    if k > 0 {
        vstd::arithmetic::div_mod::lemma_fundamental_div_mod_converse(
            (16 * k + d) as int,
            16,
            k as int,
            d as int,
        );
    }
}

} // verus!
