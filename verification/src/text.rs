//! Text helpers over `str`/`String`, specified on their `Seq<char>` views.

use vstd::prelude::*;
use vstd::string::*;
use vstd::std_specs::iter::IteratorSpec;
use vstd::utf8::{decode_utf8, encode_utf8, valid_utf8};

verus! {

/// The Unicode `White_Space` property, which `char::is_whitespace` and
/// `str::trim` use.
pub open spec fn is_white_space(c: char) -> bool {
    ||| ('\u{9}' <= c && c <= '\u{d}')
    ||| c == ' '
    ||| c == '\u{85}'
    ||| c == '\u{a0}'
    ||| c == '\u{1680}'
    ||| ('\u{2000}' <= c && c <= '\u{200a}')
    ||| c == '\u{2028}'
    ||| c == '\u{2029}'
    ||| c == '\u{202f}'
    ||| c == '\u{205f}'
    ||| c == '\u{3000}'
}

/// `s` without its leading white space.
pub open spec fn trim_start(s: Seq<char>) -> Seq<char>
    decreases s.len(),
{
    if s.len() > 0 && is_white_space(s[0]) {
        trim_start(s.drop_first())
    } else {
        s
    }
}

/// `s` without its trailing white space.
pub open spec fn trim_end(s: Seq<char>) -> Seq<char>
    decreases s.len(),
{
    if s.len() > 0 && is_white_space(s.last()) {
        trim_end(s.drop_last())
    } else {
        s
    }
}

/// `s` without leading and trailing white space.
pub open spec fn trim(s: Seq<char>) -> Seq<char> {
    trim_end(trim_start(s))
}

/// `trim_start` leaves nothing, or a text that starts with other than white
/// space.
pub proof fn lemma_trim_start_front(s: Seq<char>)
    ensures
        trim_start(s).len() == 0 || !is_white_space(trim_start(s)[0]),
    decreases s.len(),
{
    if s.len() > 0 && is_white_space(s[0]) {
        lemma_trim_start_front(s.drop_first());
    }
}

/// `trim_end` leaves nothing, or a text that ends with other than white
/// space.
pub proof fn lemma_trim_end_back(s: Seq<char>)
    ensures
        trim_end(s).len() == 0 || !is_white_space(trim_end(s).last()),
    decreases s.len(),
{
    if s.len() > 0 && is_white_space(s.last()) {
        lemma_trim_end_back(s.drop_last());
    }
}

/// `trim_end` keeps a leading character that is not white space.
pub proof fn lemma_trim_end_keeps_front(s: Seq<char>)
    requires
        s.len() > 0,
        !is_white_space(s[0]),
    ensures
        trim_end(s).len() > 0,
        trim_end(s)[0] == s[0],
    decreases s.len(),
{
    if is_white_space(s.last()) {
        assert(s.len() > 1);
        lemma_trim_end_keeps_front(s.drop_last());
    }
}

/// Trimming a trimmed text changes nothing.
pub proof fn lemma_trim_idempotent(s: Seq<char>)
    ensures
        trim(trim(s)) == trim(s),
{
    let t = trim(s);
    lemma_trim_start_front(s);
    lemma_trim_end_back(trim_start(s));
    if trim_start(s).len() > 0 {
        lemma_trim_end_keeps_front(trim_start(s));
    }
    assert(trim_start(t) == t);
}

/// A text is blank when nothing but white space is in it.
pub open spec fn is_blank_spec(s: Seq<char>) -> bool {
    trim(s).len() == 0
}

/// `str::trim`: the slice without leading and trailing `White_Space` characters.
#[verifier::external_body]
pub(crate) fn trim_str(s: &str) -> (r: &str)
    ensures
        r@ == trim(s@),
{
    s.trim()
}

/// Whether `s` holds nothing but white space.
pub fn is_blank(s: &str) -> (b: bool)
    ensures
        b == is_blank_spec(s@),
{
    trim_str(s).is_empty()
}

/// A new `String` holding `s` trimmed.
pub fn trimmed(s: &str) -> (r: String)
    ensures
        r@ == trim(s@),
{
    trim_str(s).to_owned()
}

/// The view of an optional `String`.
pub open spec fn opt_view(o: Option<String>) -> Option<Seq<char>> {
    match o {
        Some(s) => Some(s@),
        None => None,
    }
}

/// `value` trimmed, or `default` when `value` is blank.
pub open spec fn or_default(value: Seq<char>, default: Seq<char>) -> Seq<char> {
    if is_blank_spec(value) {
        default
    } else {
        trim(value)
    }
}

/// `value` trimmed when it is not blank, else `default_value`.
pub fn non_empty_or_default(value: &str, default_value: String) -> (r: String)
    ensures
        r@ == or_default(value@, default_value@),
{
    let t = trim_str(value);
    if t.is_empty() {
        default_value
    } else {
        t.to_owned()
    }
}

/// Whether two texts hold the same characters.
pub fn str_eq(a: &str, b: &str) -> (r: bool)
    ensures
        r == (a@ == b@),
{
    a.to_owned() == b.to_owned()
}

/// `String::push`: appends one character.
#[verifier::external_body]
pub(crate) fn push_char(s: &mut String, c: char)
    ensures
        final(s)@ == old(s)@.push(c),
{
    s.push(c)
}

/// A new `String` holding the characters of `a` followed by those of `b`.
pub fn concat2(a: &str, b: &str) -> (r: String)
    ensures
        r@ == a@ + b@,
{
    a.to_owned().concat(b)
}

/// A new `String` holding `a`, `b` and `c` one after the other.
pub fn concat3(a: &str, b: &str, c: &str) -> (r: String)
    ensures
        r@ == a@ + b@ + c@,
{
    a.to_owned().concat(b).concat(c)
}

/// The character of a decimal digit.
pub open spec fn digit_char(d: nat) -> char {
    if d == 0 { '0' }
    else if d == 1 { '1' }
    else if d == 2 { '2' }
    else if d == 3 { '3' }
    else if d == 4 { '4' }
    else if d == 5 { '5' }
    else if d == 6 { '6' }
    else if d == 7 { '7' }
    else if d == 8 { '8' }
    else { '9' }
}

/// The decimal notation of `n`, as `Display` writes an unsigned integer.
pub open spec fn decimal(n: nat) -> Seq<char>
    decreases n,
{
    if n < 10 {
        seq![digit_char(n)]
    } else {
        decimal(n / 10).push(digit_char(n % 10))
    }
}

fn digit(d: u64) -> (c: char)
    requires
        d < 10,
    ensures
        c == digit_char(d as nat),
{
    match d {
        0 => '0',
        1 => '1',
        2 => '2',
        3 => '3',
        4 => '4',
        5 => '5',
        6 => '6',
        7 => '7',
        8 => '8',
        _ => '9',
    }
}

/// The decimal notation of `n`.
pub fn u64_to_decimal(n: u64) -> (r: String)
    ensures
        r@ == decimal(n as nat),
    decreases n,
{
    if n < 10 {
        let mut s = String::new();
        push_char(&mut s, digit(n));
        s
    } else {
        let mut s = u64_to_decimal(n / 10);
        push_char(&mut s, digit(n % 10));
        s
    }
}

/// A main path separator that a platform has: `/` (Unix) or `\\`
/// (Windows).
pub open spec fn is_platform_separator(c: char) -> bool {
    c == '/' || c == '\\'
}

/// Whether `c` separates the parts of a path on a platform whose main
/// separator is `sep`: `/` does on every platform, and `sep` does too.
pub open spec fn is_separator(c: char, sep: char) -> bool {
    c == '/' || c == sep
}

/// Whether `c` is an ASCII letter.
pub open spec fn is_ascii_letter(c: char) -> bool {
    (65 <= c as u32 <= 90) || (97 <= c as u32 <= 122)
}

/// Whether `base` names a drive and nothing more, such as `C:`, on a
/// platform whose main separator is a backslash (Windows), where a path
/// joined to a bare drive is put right behind it.
pub open spec fn is_bare_drive(base: Seq<char>, sep: char) -> bool {
    sep == '\\' && base.len() == 2 && is_ascii_letter(base[0]) && base[1] == ':'
}

/// `base` joined with the relative path `rel`, as `PathBuf::join` does on a
/// platform whose main separator is `sep`: the separator goes between them
/// unless `base` is empty, already ends with a separator or is a bare drive.
pub open spec fn join_path(base: Seq<char>, rel: Seq<char>, sep: char) -> Seq<char> {
    if base.len() == 0 || is_separator(base.last(), sep) || is_bare_drive(base, sep) {
        base + rel
    } else {
        base + seq![sep] + rel
    }
}

fn is_ascii_letter_char(c: char) -> (r: bool)
    ensures
        r == is_ascii_letter(c),
{
    let u = c as u32;
    (65 <= u && u <= 90) || (97 <= u && u <= 122)
}

/// The text holding the one character `c`.
fn char_text(c: char) -> (r: String)
    ensures
        r@ == seq![c],
{
    let mut s = String::new();
    push_char(&mut s, c);
    assert(s@ =~= seq![c]);
    s
}

/// `base` joined with the relative path `rel` (see `join_path`).
pub fn join_path_str(base: &str, rel: &str, sep: char) -> (r: String)
    ensures
        r@ == join_path(base@, rel@, sep),
{
    let n = base.unicode_len();
    if n == 0 {
        return concat2(base, rel);
    }
    let last = base.get_char(n - 1);
    let bare = sep == '\\' && n == 2 && is_ascii_letter_char(base.get_char(0))
        && base.get_char(1) == ':';
    if last == '/' || last == sep || bare {
        concat2(base, rel)
    } else {
        let s = char_text(sep);
        concat3(base, s.as_str(), rel)
    }
}

/// The UTF-8 bytes of the separator `sep`.
pub open spec fn separator_bytes(sep: char) -> Seq<u8> {
    encode_utf8(seq![sep])
}

/// Whether the bytes `s` end with the bytes `t`.
pub open spec fn ends_with_bytes(s: Seq<u8>, t: Seq<u8>) -> bool {
    t.len() <= s.len() && s.subrange(s.len() - t.len(), s.len() as int) == t
}

/// Whether `b` is the byte of an ASCII letter.
pub open spec fn is_ascii_letter_byte(b: u8) -> bool {
    (65 <= b <= 90) || (97 <= b <= 122)
}

/// `is_bare_drive` over the bytes of a path.
pub open spec fn is_bare_drive_bytes(base: Seq<u8>, sep: char) -> bool {
    sep == '\\' && base.len() == 2 && is_ascii_letter_byte(base[0]) && base[1] == 58u8
}

/// The bytes of `base` joined with the relative path `rel`, as
/// `PathBuf::join` does on a platform whose main separator is `sep` (see
/// `join_path`).
pub open spec fn join_bytes(base: Seq<u8>, rel: Seq<u8>, sep: char) -> Seq<u8> {
    if base.len() == 0 || base.last() == 47u8 || ends_with_bytes(base, separator_bytes(sep))
        || is_bare_drive_bytes(base, sep) {
        base + rel
    } else {
        base + separator_bytes(sep) + rel
    }
}

/// Appends the bytes `tail` to `out`.
pub(crate) fn push_bytes(out: &mut Vec<u8>, tail: &[u8])
    ensures
        final(out)@ == old(out)@ + tail@,
{
    let ghost head = out@;
    let m = tail.len();
    let mut j: usize = 0;
    while j < m
        invariant
            m == tail@.len(),
            0 <= j <= m,
            out@ == head + tail@.take(j as int),
        decreases m - j,
    {
        out.push(tail[j]);
        j = j + 1;
        assert(out@ =~= head + tail@.take(j as int));
    }
    assert(tail@.take(m as int) =~= tail@);
}

/// Whether the bytes `s` end with the bytes `t`.
fn ends_with_slice(s: &[u8], t: &[u8]) -> (r: bool)
    ensures
        r == ends_with_bytes(s@, t@),
{
    let n = s.len();
    let m = t.len();
    if m > n {
        return false;
    }
    let k = n - m;
    let mut j: usize = 0;
    while j < m
        invariant
            n == s@.len(),
            m == t@.len(),
            k == n - m,
            0 <= j <= m,
            forall|i: int| 0 <= i < j ==> s@[k + i] == t@[i],
        decreases m - j,
    {
        if s[k + j] != t[j] {
            assert(s@.subrange(k as int, n as int)[j as int] != t@[j as int]);
            return false;
        }
        j = j + 1;
    }
    assert(s@.subrange(k as int, n as int) =~= t@);
    true
}

/// The path `base` joined with the relative path `rel` (see `join_bytes`).
pub fn join_path_bytes(base: &[u8], rel: &str, sep: char) -> (r: Vec<u8>)
    ensures
        r@ == join_bytes(base@, encode_utf8(rel@), sep),
{
    let sep_text = char_text(sep);
    let sep_bytes = sep_text.as_str().as_bytes();
    let n = base.len();
    let joined = n == 0 || base[n - 1] == 47u8 || ends_with_slice(base, sep_bytes)
        || (sep == '\\' && n == 2 && ((65u8 <= base[0] && base[0] <= 90u8) || (97u8 <= base[0]
        && base[0] <= 122u8)) && base[1] == 58u8);
    let mut out: Vec<u8> = Vec::new();
    push_bytes(&mut out, base);
    if !joined {
        push_bytes(&mut out, sep_bytes);
    }
    push_bytes(&mut out, rel.as_bytes());
    out
}

/// What `String::from_utf8_lossy` makes of some bytes.
pub uninterp spec fn lossy_text(bytes: Seq<u8>) -> Seq<char>;

/// `String::from_utf8_lossy`: the bytes as text. Bytes that are valid UTF-8
/// give the text they encode; otherwise each invalid sequence becomes
/// U+FFFD, so bytes that are not empty never give an empty text. Which text
/// comes of invalid bytes is named, not stated.
#[verifier::external_body]
pub(crate) fn utf8_lossy(bytes: &[u8]) -> (r: String)
    ensures
        r@ == lossy_text(bytes@),
        valid_utf8(bytes@) ==> r@ == decode_utf8(bytes@),
        bytes@.len() > 0 ==> r@.len() > 0,
{
    String::from_utf8_lossy(bytes).into_owned()
}

/// Whether `suffix` is the tail of `s`.
pub open spec fn ends_with(s: Seq<char>, suffix: Seq<char>) -> bool {
    suffix.len() <= s.len() && s.subrange(s.len() - suffix.len(), s.len() as int) == suffix
}

/// The characters of `s`, in order.
pub fn chars_of(s: &str) -> (r: Vec<char>)
    ensures
        r@ == s@,
{
    let mut it = s.chars();
    let mut out: Vec<char> = Vec::new();
    loop
        invariant
            it.obeys_prophetic_iter_laws(),
            it.remaining() == s@.skip(out@.len() as int),
            out@ == s@.take(out@.len() as int),
            out@.len() <= s@.len(),
        decreases s@.len() - out@.len(),
    {
        let ghost before = it.remaining();
        match it.next() {
            Some(c) => {
                assert(s@.skip(out@.len() as int)[0] == s@[out@.len() as int]);
                out.push(c);
                assert(s@.skip(out@.len() as int) =~= before.drop_first());
                assert(out@ =~= s@.take(out@.len() as int));
            },
            None => {
                assert(out@ =~= s@);
                return out;
            },
        }
    }
}

/// A `String` holding the characters of `v`, in order.
pub fn string_of(v: &Vec<char>) -> (r: String)
    ensures
        r@ == v@,
{
    let mut s = String::new();
    let n = v.len();
    let mut i: usize = 0;
    while i < n
        invariant
            n == v@.len(),
            0 <= i <= n,
            s@ == v@.take(i as int),
        decreases n - i,
    {
        push_char(&mut s, v[i]);
        assert(s@ =~= v@.take(i + 1));
        i = i + 1;
    }
    assert(v@.take(n as int) =~= v@);
    s
}

} // verus!
