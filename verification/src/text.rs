//! Text helpers shared by the rest of the library.

use vstd::prelude::*;
use vstd::string::{StrSliceExecFns, StringExecFns};

verus! {

/// The characters of a piece of text, the form in which contracts speak of it.
pub type Text = Seq<char>;

/// Whether two string slices hold the same characters.
pub fn str_eq(a: &str, b: &str) -> (same: bool)
    ensures
        same == (a@ == b@),
{
    let x = a.to_owned();
    let y = b.to_owned();
    x == y
}

/// Whether two strings hold the same characters.
pub fn string_eq(a: &String, b: &String) -> (same: bool)
    ensures
        same == (a@ == b@),
{
    *a == *b
}

/// Whether two optional strings hold the same text, or are both absent.
pub fn opt_string_eq(a: &Option<String>, b: &Option<String>) -> (same: bool)
    ensures
        same == (a.deep_view() == b.deep_view()),
{
    match a {
        Some(x) => match b {
            Some(y) => string_eq(x, y),
            None => false,
        },
        None => b.is_none(),
    }
}

/// A copy of an optional string.
pub fn clone_opt_string(a: &Option<String>) -> (copy: Option<String>)
    ensures
        copy.deep_view() == a.deep_view(),
{
    match a {
        Some(s) => Some(s.clone()),
        None => None,
    }
}

/// A copy of a list of strings.
pub fn clone_strings(list: &Vec<String>) -> (copy: Vec<String>)
    ensures
        copy.deep_view() == list.deep_view(),
{
    let copy = list.clone();
    assert(copy.deep_view() =~= list.deep_view());
    copy
}

/// A copy of an optional list of strings.
pub fn clone_opt_strings(list: &Option<Vec<String>>) -> (copy: Option<Vec<String>>)
    ensures
        copy.deep_view() == list.deep_view(),
{
    match list {
        Some(l) => Some(clone_strings(l)),
        None => None,
    }
}

/// The character of a decimal digit.
pub open spec fn digit_char(d: nat) -> char {
    if d == 0 {
        '0'
    } else if d == 1 {
        '1'
    } else if d == 2 {
        '2'
    } else if d == 3 {
        '3'
    } else if d == 4 {
        '4'
    } else if d == 5 {
        '5'
    } else if d == 6 {
        '6'
    } else if d == 7 {
        '7'
    } else if d == 8 {
        '8'
    } else {
        '9'
    }
}

/// A number written in decimal, without sign or leading zeros.
pub open spec fn decimal(n: nat) -> Text
    decreases n,
{
    if n < 10 {
        seq![digit_char(n)]
    } else {
        decimal(n / 10).push(digit_char(n % 10))
    }
}

fn digit_str(d: u64) -> (s: &'static str)
    requires
        d < 10,
    ensures
        s@ == seq![digit_char(d as nat)],
{
    proof {
        reveal_strlit("0");
        reveal_strlit("1");
        reveal_strlit("2");
        reveal_strlit("3");
        reveal_strlit("4");
        reveal_strlit("5");
        reveal_strlit("6");
        reveal_strlit("7");
        reveal_strlit("8");
        reveal_strlit("9");
    }
    let s = if d == 0 {
        "0"
    } else if d == 1 {
        "1"
    } else if d == 2 {
        "2"
    } else if d == 3 {
        "3"
    } else if d == 4 {
        "4"
    } else if d == 5 {
        "5"
    } else if d == 6 {
        "6"
    } else if d == 7 {
        "7"
    } else if d == 8 {
        "8"
    } else {
        "9"
    };
    assert(s@ =~= seq![digit_char(d as nat)]);
    s
}

/// Writes a number in decimal.
pub fn u64_to_string(v: u64) -> (s: String)
    ensures
        s@ == decimal(v as nat),
    decreases v,
{
    if v < 10 {
        digit_str(v).to_owned()
    } else {
        let mut s = u64_to_string(v / 10);
        s.append(digit_str(v % 10));
        assert(s@ =~= decimal(v as nat));
        s
    }
}

/// The text of `s` in upper case, as the standard library maps it.
pub uninterp spec fn uppercase(s: Text) -> Text;

/// `str::to_uppercase` of the standard library: the text in upper case.
#[verifier::external_body]
pub(crate) fn to_uppercase(s: &str) -> (upper: String)
    ensures
        upper@ == uppercase(s@),
{
    s.to_uppercase()
}

/// Whether two texts are the same but for the case of their letters.
pub fn eq_ignore_case(a: &str, b: &str) -> (same: bool)
    ensures
        same == (uppercase(a@) == uppercase(b@)),
{
    let x = to_uppercase(a);
    let y = to_uppercase(b);
    x == y
}

/// Whether a character is a digit in base 16.
pub open spec fn is_hex_digit(c: char) -> bool {
    ('0' <= c && c <= '9') || ('a' <= c && c <= 'f') || ('A' <= c && c <= 'F')
}

/// Whether a text has the form of a UUID: 32 digits in base 16, in groups of
/// 8, 4, 4, 4 and 12 with a hyphen between them.
pub open spec fn is_uuid_text(t: Text) -> bool {
    &&& t.len() == 36
    &&& forall|i: int|
        0 <= i < 36 ==> if i == 8 || i == 13 || i == 18 || i == 23 {
            #[trigger] t[i] == '-'
        } else {
            is_hex_digit(t[i])
        }
}

/// Whether a string has the form of a UUID.
pub fn is_uuid(value: &str) -> (b: bool)
    ensures
        b == is_uuid_text(value@),
{
    if value.unicode_len() != 36 {
        return false;
    }
    let mut i: usize = 0;
    while i < 36
        invariant
            i <= 36,
            value@.len() == 36,
            forall|j: int|
                0 <= j < i ==> if j == 8 || j == 13 || j == 18 || j == 23 {
                    #[trigger] value@[j] == '-'
                } else {
                    is_hex_digit(value@[j])
                },
        decreases 36 - i,
    {
        let c = value.get_char(i);
        let ok = if i == 8 || i == 13 || i == 18 || i == 23 {
            c == '-'
        } else {
            ('0' <= c && c <= '9') || ('a' <= c && c <= 'f') || ('A' <= c && c <= 'F')
        };
        if !ok {
            return false;
        }
        i += 1;
    }
    true
}

/// The pieces of a text between its dots, in their order: one more than
/// there are dots.
pub open spec fn dot_fields(t: Text) -> Seq<Text>
    decreases t.len(),
{
    if t.len() == 0 {
        seq![Seq::empty()]
    } else {
        let init = dot_fields(t.drop_last());
        if t.last() == '.' {
            init.push(Seq::empty())
        } else {
            init.update(init.len() - 1, init.last().push(t.last()))
        }
    }
}

/// There is always a last piece.
pub proof fn lemma_dot_fields_len(t: Text)
    ensures
        dot_fields(t).len() >= 1,
    decreases t.len(),
{
    if t.len() > 0 {
        lemma_dot_fields_len(t.drop_last());
    }
}

/// The pieces of a text between its dots, in their order.
pub fn split_dots(s: &str) -> (fields: Vec<String>)
    ensures
        fields.deep_view() == dot_fields(s@),
{
    let ghost t = s@;
    let n = s.unicode_len();
    let mut done: Vec<String> = Vec::new();
    let mut start: usize = 0;
    let mut i: usize = 0;
    proof {
        assert(t.take(0) =~= Seq::<char>::empty());
        assert(done.deep_view().push(t.subrange(0, 0)) =~= dot_fields(t.take(0)));
    }
    while i < n
        invariant
            start <= i <= n,
            n == t.len(),
            t == s@,
            done.deep_view().push(t.subrange(start as int, i as int)) == dot_fields(
                t.take(i as int),
            ),
        decreases n - i,
    {
        let c = s.get_char(i);
        proof {
            assert(t.take(i as int + 1).drop_last() =~= t.take(i as int));
            assert(t.take(i as int + 1).last() == c);
        }
        let ghost before = done.deep_view();
        let ghost piece = t.subrange(start as int, i as int);
        if c == '.' {
            done.push(s.substring_char(start, i).to_owned());
            start = i + 1;
            proof {
                assert(done.deep_view() =~= before.push(piece));
                assert(t.subrange(start as int, i as int + 1) =~= Seq::<char>::empty());
                assert(done.deep_view().push(t.subrange(start as int, i as int + 1))
                    =~= before.push(piece).push(Seq::empty()));
            }
        } else {
            proof {
                let init = before.push(piece);
                assert(init.last() == piece);
                assert(t.subrange(start as int, i as int + 1) =~= piece.push(c));
                assert(done.deep_view().push(t.subrange(start as int, i as int + 1))
                    =~= init.update(init.len() - 1, init.last().push(c)));
            }
        }
        i += 1;
    }
    let ghost before = done.deep_view();
    done.push(s.substring_char(start, n).to_owned());
    proof {
        assert(t.take(n as int) =~= t);
        assert(done.deep_view() =~= before.push(t.subrange(start as int, n as int)));
    }
    done
}

/// Whether a character is a decimal digit.
pub open spec fn is_digit(c: char) -> bool {
    '0' <= c && c <= '9'
}

/// The number that a decimal digit stands for.
pub open spec fn digit_value(c: char) -> nat {
    (c as u32 - '0' as u32) as nat
}

/// The number that a text of decimal digits stands for; none where it holds
/// anything else. The empty text stands for zero.
pub open spec fn digits_value(t: Text) -> Option<nat>
    decreases t.len(),
{
    if t.len() == 0 {
        Some(0)
    } else {
        match digits_value(t.drop_last()) {
            Some(v) => if is_digit(t.last()) {
                Some(v * 10 + digit_value(t.last()))
            } else {
                None
            },
            None => None,
        }
    }
}

/// The number that a text is read as: an optional sign, then decimal digits
/// and nothing else, at least one, standing for a number that 32 bits hold
/// with their sign. None for any other text.
pub open spec fn parsed_i32(t: Text) -> Option<i32> {
    let signed = t.len() > 0 && (t[0] == '-' || t[0] == '+');
    let negative = t.len() > 0 && t[0] == '-';
    let body = if signed {
        t.skip(1)
    } else {
        t
    };
    if body.len() == 0 {
        None
    } else {
        match digits_value(body) {
            None => None,
            Some(v) => {
                let n = if negative {
                    -(v as int)
                } else {
                    v as int
                };
                if -0x8000_0000 <= n <= 0x7fff_ffff {
                    Some(n as i32)
                } else {
                    None
                }
            },
        }
    }
}

/// A text of digits stands for no less than its beginnings do, and its
/// beginnings are texts of digits too.
pub proof fn lemma_digits_grow(t: Text, k: int)
    requires
        0 <= k <= t.len(),
        digits_value(t) is Some,
    ensures
        digits_value(t.take(k)) is Some,
        digits_value(t.take(k)).unwrap() <= digits_value(t).unwrap(),
    decreases t.len(),
{
    if k == t.len() {
        assert(t.take(k) =~= t);
    } else {
        assert(t.drop_last().take(k) =~= t.take(k));
        lemma_digits_grow(t.drop_last(), k);
    }
}

/// A text with something else than digits in its beginning stands for no
/// number.
pub proof fn lemma_digits_fail(t: Text, k: int)
    requires
        0 <= k <= t.len(),
        digits_value(t.take(k)) is None,
    ensures
        digits_value(t) is None,
    decreases t.len(),
{
    if k == t.len() {
        assert(t.take(k) =~= t);
    } else {
        assert(t.drop_last().take(k) =~= t.take(k));
        lemma_digits_fail(t.drop_last(), k);
    }
}

/// Reads a text as a 32-bit signed integer.
pub fn parse_i32(s: &str) -> (n: Option<i32>)
    ensures
        n == parsed_i32(s@),
{
    let ghost t = s@;
    let len = s.unicode_len();
    if len == 0 {
        return None;
    }
    let first = s.get_char(0);
    let negative = first == '-';
    let begin: usize = if first == '-' || first == '+' {
        1
    } else {
        0
    };
    if begin == len {
        assert(t.skip(1).len() == 0);
        return None;
    }
    let ghost body = t.skip(begin as int);
    assert(body =~= (if t.len() > 0 && (t[0] == '-' || t[0] == '+') {
        t.skip(1)
    } else {
        t
    }));
    let mut value: u64 = 0;
    let mut i: usize = begin;
    assert(body.take(0) =~= Seq::<char>::empty());
    while i < len
        invariant
            begin <= i <= len,
            len == t.len(),
            t == s@,
            body == t.skip(begin as int),
            body.len() > 0,
            body == (if t.len() > 0 && (t[0] == '-' || t[0] == '+') {
                t.skip(1)
            } else {
                t
            }),
            value <= 0x8000_0000,
            digits_value(body.take(i - begin)) == Some(value as nat),
        decreases len - i,
    {
        let c = s.get_char(i);
        proof {
            assert(body.take(i - begin + 1).drop_last() =~= body.take(i - begin));
            assert(body.take(i - begin + 1).last() == c);
        }
        if !('0' <= c && c <= '9') {
            proof {
                lemma_digits_fail(body, i - begin + 1);
            }
            return None;
        }
        let d = (c as u32 - '0' as u32) as u64;
        value = value * 10 + d;
        if value > 0x8000_0000 {
            proof {
                assert(digits_value(body.take(i - begin + 1)) == Some(value as nat));
                if digits_value(body) is Some {
                    lemma_digits_grow(body, i - begin + 1);
                }
            }
            return None;
        }
        i += 1;
    }
    assert(body.take(len - begin) =~= body);
    if negative {
        if value == 0x8000_0000 {
            Some(-0x8000_0000i32)
        } else {
            Some(-(value as i32))
        }
    } else if value > 0x7fff_ffff {
        None
    } else {
        Some(value as i32)
    }
}

/// Whether `a` comes before `b` or is `b`, in the order of the standard
/// library: character by character by the code of the characters, a text
/// before its extensions.
pub open spec fn text_le(a: Text, b: Text) -> bool
    decreases a.len(),
{
    if a.len() == 0 {
        true
    } else if b.len() == 0 {
        false
    } else if a[0] != b[0] {
        (a[0] as u32) < (b[0] as u32)
    } else {
        text_le(a.skip(1), b.skip(1))
    }
}

/// Whether the texts of a list are in order.
pub open spec fn texts_sorted(s: Seq<Text>) -> bool {
    forall|i: int, j: int| 0 <= i <= j < s.len() ==> text_le(#[trigger] s[i], #[trigger] s[j])
}

/// `sort_unstable` of the standard library on a list of strings: the same
/// strings, in the order of the standard library.
#[verifier::external_body]
pub(crate) fn sort_strings(list: &mut Vec<String>)
    ensures
        final(list).deep_view().to_multiset() == old(list).deep_view().to_multiset(),
        texts_sorted(final(list).deep_view()),
{
    list.sort_unstable();
}

} // verus!
