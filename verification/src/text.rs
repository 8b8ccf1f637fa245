//! Small string utilities shared by the command builders and parsers.
//!
//! Every function here is specified over the sequence of characters that a
//! string holds.

use vstd::prelude::*;
use vstd::string::*;

verus! {

/// `String::push` appends exactly one character to the end of the string.
pub assume_specification[ String::push ](s: &mut String, c: char)
    ensures
        final(s)@ == old(s)@.push(c),
;

/// The characters of `s`, in order.
pub fn chars_of(s: &str) -> (out: Vec<char>)
    ensures
        out@ == s@,
{
    let n: usize = s.unicode_len();
    let mut out: Vec<char> = Vec::new();
    let mut i: usize = 0;
    while i < n
        invariant
            n == s@.len(),
            i <= n,
            out@ == s@.subrange(0, i as int),
        decreases n - i,
    {
        out.push(s.get_char(i));
        i += 1;
        assert(out@ =~= s@.subrange(0, i as int));
    }
    assert(out@ =~= s@);
    out
}

/// Appends the characters `chars[from..to]` to `out`.
pub fn push_range(out: &mut String, chars: &Vec<char>, from: usize, to: usize)
    requires
        from <= to <= chars@.len(),
    ensures
        final(out)@ == old(out)@ + chars@.subrange(from as int, to as int),
{
    let mut i: usize = from;
    while i < to
        invariant
            from <= i <= to,
            to <= chars@.len(),
            out@ == old(out)@ + chars@.subrange(from as int, i as int),
        decreases to - i,
    {
        out.push(chars[i]);
        i += 1;
        assert(out@ =~= old(out)@ + chars@.subrange(from as int, i as int));
    }
}

/// A string holding exactly the characters of `chars`.
pub fn string_of(chars: &Vec<char>) -> (out: String)
    ensures
        out@ == chars@,
{
    let mut out = String::new();
    push_range(&mut out, chars, 0, chars.len());
    assert(out@ =~= chars@);
    out
}

/// Whether two string slices hold the same characters.
pub fn str_eq(a: &str, b: &str) -> (r: bool)
    ensures
        r == (a@ == b@),
{
    a.to_owned() == b.to_owned()
}

/// Whether `s` begins with `prefix`.
pub fn starts_with(s: &Vec<char>, prefix: &str) -> (r: bool)
    ensures
        r == prefix@.is_prefix_of(s@),
{
    let p = chars_of(prefix);
    if p.len() > s.len() {
        return false;
    }
    let mut i: usize = 0;
    while i < p.len()
        invariant
            i <= p@.len() <= s@.len(),
            p@ == prefix@,
            forall|k: int| 0 <= k < i ==> p@[k] == s@[k],
        decreases p@.len() - i,
    {
        if p[i] != s[i] {
            assert(p@[i as int] != s@.subrange(0, p@.len() as int)[i as int]);
            return false;
        }
        i += 1;
    }
    assert(p@ =~= s@.subrange(0, p@.len() as int));
    true
}

/// The character that writes the decimal digit `d`.
pub open spec fn digit_char(d: nat) -> char
    recommends
        d < 10,
{
    if d == 0 {
        '0'
    } else if d == 1 {
        '1'
    } else if d == 2 {
        '2'
    } else if d == 3 {
        '3'
    } else if d == 4 {
        '4'
    } else if d == 5 {
        '5'
    } else if d == 6 {
        '6'
    } else if d == 7 {
        '7'
    } else if d == 8 {
        '8'
    } else {
        '9'
    }
}

/// The decimal numeral of `n`: no sign, no leading zeros, `"0"` for zero.
pub open spec fn decimal_text(n: nat) -> Seq<char>
    decreases n,
{
    if n < 10 {
        seq![digit_char(n)]
    } else {
        decimal_text(n / 10).push(digit_char(n % 10))
    }
}

fn digit_of(d: u64) -> (c: char)
    requires
        d < 10,
    ensures
        c == digit_char(d as nat),
{
    if d == 0 {
        '0'
    } else if d == 1 {
        '1'
    } else if d == 2 {
        '2'
    } else if d == 3 {
        '3'
    } else if d == 4 {
        '4'
    } else if d == 5 {
        '5'
    } else if d == 6 {
        '6'
    } else if d == 7 {
        '7'
    } else if d == 8 {
        '8'
    } else {
        '9'
    }
}

/// Appends the decimal numeral of `n` to `out`.
pub fn push_decimal(out: &mut String, n: u64)
    ensures
        final(out)@ == old(out)@ + decimal_text(n as nat),
    decreases n,
{
    if n < 10 {
        out.push(digit_of(n));
        assert(out@ =~= old(out)@ + decimal_text(n as nat));
    } else {
        push_decimal(out, n / 10);
        out.push(digit_of(n % 10));
        assert(out@ =~= old(out)@ + decimal_text(n as nat));
    }
}

/// The decimal numeral of `n` as a string.
pub fn decimal(n: u64) -> (out: String)
    ensures
        out@ == decimal_text(n as nat),
{
    let mut out = String::new();
    push_decimal(&mut out, n);
    assert(out@ =~= decimal_text(n as nat));
    out
}

/// The decimal numeral of a signed number, with a leading `-` when negative.
pub open spec fn signed_decimal_text(n: int) -> Seq<char> {
    if n < 0 {
        seq!['-'] + decimal_text((-n) as nat)
    } else {
        decimal_text(n as nat)
    }
}

/// The decimal numeral of `n` as a string.
pub fn signed_decimal(n: i32) -> (out: String)
    ensures
        out@ == signed_decimal_text(n as int),
{
    let mut out = String::new();
    if n < 0 {
        out.push('-');
        let magnitude: u64 = (-(n as i64)) as u64;
        push_decimal(&mut out, magnitude);
        assert(out@ =~= signed_decimal_text(n as int));
    } else {
        push_decimal(&mut out, n as u64);
        assert(out@ =~= signed_decimal_text(n as int));
    }
    out
}

/// Lower-case form of an ASCII capital letter; every other character is kept.
pub open spec fn ascii_lower_char(c: char) -> char {
    if 'A' <= c && c <= 'Z' {
        ((c as u8) + 32) as char
    } else {
        c
    }
}

/// `s` with every ASCII capital letter replaced by its lower-case form.
pub open spec fn ascii_lower_text(s: Seq<char>) -> Seq<char> {
    Seq::new(s.len(), |i: int| ascii_lower_char(s[i]))
}

/// Lower-cases the ASCII capital letters of `s`.
pub fn ascii_lower(s: &str) -> (out: String)
    ensures
        out@ == ascii_lower_text(s@),
{
    let chars = chars_of(s);
    let mut out = String::new();
    let mut i: usize = 0;
    while i < chars.len()
        invariant
            i <= chars@.len(),
            chars@ == s@,
            out@ == ascii_lower_text(s@).subrange(0, i as int),
        decreases chars@.len() - i,
    {
        let c: char = chars[i];
        if 'A' <= c && c <= 'Z' {
            out.push(((c as u8) + 32) as char);
        } else {
            out.push(c);
        }
        i += 1;
        assert(out@ =~= ascii_lower_text(s@).subrange(0, i as int));
    }
    assert(out@ =~= ascii_lower_text(s@));
    out
}

/// Whether `c` has the Unicode property `White_Space`.
pub open spec fn is_space(c: char) -> bool {
    let u = c as u32;
    (0x09 <= u && u <= 0x0D) || u == 0x20 || u == 0x85 || u == 0xA0 || u == 0x1680 || (0x2000 <= u
        && u <= 0x200A) || u == 0x2028 || u == 0x2029 || u == 0x202F || u == 0x205F || u == 0x3000
}

/// Whether `c` is white space.
pub fn is_whitespace(c: char) -> (r: bool)
    ensures
        r == is_space(c),
{
    let u: u32 = c as u32;
    (0x09 <= u && u <= 0x0D) || u == 0x20 || u == 0x85 || u == 0xA0 || u == 0x1680 || (0x2000 <= u
        && u <= 0x200A) || u == 0x2028 || u == 0x2029 || u == 0x202F || u == 0x205F || u == 0x3000
}

/// How many characters of white space `s` begins with.
pub open spec fn leading_space(s: Seq<char>) -> nat
    decreases s.len(),
{
    if s.len() > 0 && is_space(s[0]) {
        1 + leading_space(s.skip(1))
    } else {
        0
    }
}

/// How many characters of white space `s` ends with.
pub open spec fn trailing_space(s: Seq<char>) -> nat
    decreases s.len(),
{
    if s.len() > 0 && is_space(s.last()) {
        1 + trailing_space(s.drop_last())
    } else {
        0
    }
}

/// `s` without the white space at its two ends.
pub open spec fn trim_text(s: Seq<char>) -> Seq<char> {
    let rest = s.skip(leading_space(s) as int);
    rest.take(rest.len() - trailing_space(rest))
}

proof fn lemma_leading_space(s: Seq<char>, a: int)
    requires
        0 <= a <= s.len(),
        forall|k: int| 0 <= k < a ==> is_space(#[trigger] s[k]),
        a == s.len() || !is_space(s[a]),
    ensures
        leading_space(s) == a,
    decreases a,
{
    if a > 0 {
        let rest = s.skip(1);
        assert forall|k: int| 0 <= k < a - 1 implies is_space(#[trigger] rest[k]) by {
            assert(rest[k] == s[k + 1]);
        }
        if a < s.len() {
            assert(rest[a - 1] == s[a]);
        }
        lemma_leading_space(rest, a - 1);
    }
}

proof fn lemma_trailing_space(s: Seq<char>, b: int)
    requires
        0 <= b <= s.len(),
        forall|k: int| b <= k < s.len() ==> is_space(#[trigger] s[k]),
        b == 0 || !is_space(s[b - 1]),
    ensures
        trailing_space(s) == s.len() - b,
    decreases s.len() - b,
{
    if b < s.len() {
        let rest = s.drop_last();
        assert forall|k: int| b <= k < rest.len() implies is_space(#[trigger] rest[k]) by {
            assert(rest[k] == s[k]);
        }
        if b > 0 {
            assert(rest[b - 1] == s[b - 1]);
        }
        lemma_trailing_space(rest, b);
    }
}

/// The bounds of `chars` without the white space at its two ends.
pub fn trim_bounds(chars: &Vec<char>) -> (r: (usize, usize))
    ensures
        r.0 <= r.1 <= chars@.len(),
        r.0 == leading_space(chars@),
        r.1 == chars@.len() - trailing_space(chars@.skip(r.0 as int)),
        chars@.subrange(r.0 as int, r.1 as int) == trim_text(chars@),
{
    let n: usize = chars.len();
    let mut a: usize = 0;
    while a < n && is_whitespace(chars[a])
        invariant
            a <= n,
            n == chars@.len(),
            forall|k: int| 0 <= k < a ==> is_space(#[trigger] chars@[k]),
        decreases n - a,
    {
        a += 1;
    }
    let mut b: usize = n;
    while b > a && is_whitespace(chars[b - 1])
        invariant
            a <= b <= n,
            n == chars@.len(),
            forall|k: int| b <= k < n ==> is_space(#[trigger] chars@[k]),
        decreases b,
    {
        b -= 1;
    }
    proof {
        let s = chars@;
        lemma_leading_space(s, a as int);
        let rest = s.skip(a as int);
        assert forall|k: int| b - a <= k < rest.len() implies is_space(#[trigger] rest[k]) by {
            assert(rest[k] == s[k + a]);
        }
        if b > a {
            assert(rest[b - a - 1] == s[b - 1]);
        }
        lemma_trailing_space(rest, b - a);
        assert(s.subrange(a as int, b as int) =~= rest.take(rest.len() - trailing_space(rest)));
    }
    (a, b)
}

/// Whether `s` is empty or holds white space only.
pub open spec fn is_blank_text(s: Seq<char>) -> bool {
    trim_text(s).len() == 0
}

/// Whether `s` is empty or holds white space only.
pub fn is_blank(s: &str) -> (r: bool)
    ensures
        r == is_blank_text(s@),
{
    let chars = chars_of(s);
    let (a, b) = trim_bounds(&chars);
    a == b
}

/// Whether `c` is one of `0`..`9`.
pub open spec fn is_digit(c: char) -> bool {
    '0' <= c && c <= '9'
}

/// The number that a sequence of decimal digits writes.
pub open spec fn digits_value(s: Seq<char>) -> nat
    decreases s.len(),
{
    if s.len() == 0 {
        0
    } else {
        digits_value(s.drop_last()) * 10 + ((s.last() as u32) - ('0' as u32)) as nat
    }
}

/// Whether every character of `s` is a decimal digit.
pub open spec fn all_digits(s: Seq<char>) -> bool {
    forall|i: int| 0 <= i < s.len() ==> is_digit(#[trigger] s[i])
}

/// The unsigned 64-bit number that `s` writes in decimal: an optional `+`,
/// then at least one digit, nothing else, and a value that fits.
pub open spec fn parse_u64_text(s: Seq<char>) -> Option<u64> {
    let body = if s.len() > 0 && s[0] == '+' {
        s.skip(1)
    } else {
        s
    };
    if body.len() == 0 || !all_digits(body) || digits_value(body) > u64::MAX {
        None
    } else {
        Some(digits_value(body) as u64)
    }
}

proof fn lemma_prefix_value(s: Seq<char>, i: int)
    requires
        0 <= i <= s.len(),
        all_digits(s),
    ensures
        digits_value(s.take(i)) <= digits_value(s),
    decreases s.len(),
{
    if i < s.len() {
        let front = s.drop_last();
        assert forall|k: int| 0 <= k < front.len() implies is_digit(#[trigger] front[k]) by {
            assert(front[k] == s[k]);
        }
        lemma_prefix_value(front, i);
        assert(front.take(i) =~= s.take(i));
        assert(is_digit(s.last()));
    } else {
        assert(s.take(i) =~= s);
    }
}

/// Reads `chars[from..to]` as an unsigned decimal number.
pub fn parse_u64(chars: &Vec<char>, from: usize, to: usize) -> (r: Option<u64>)
    requires
        from <= to <= chars@.len(),
    ensures
        r == parse_u64_text(chars@.subrange(from as int, to as int)),
{
    let ghost whole = chars@.subrange(from as int, to as int);
    let mut i: usize = from;
    if i < to && chars[i] == '+' {
        i += 1;
    }
    let start: usize = i;
    let ghost body = chars@.subrange(start as int, to as int);
    assert(body =~= if whole.len() > 0 && whole[0] == '+' {
        whole.skip(1)
    } else {
        whole
    });
    if start == to {
        return None;
    }
    let mut acc: u64 = 0;
    assert(body.take(0) =~= Seq::<char>::empty());
    while i < to
        invariant
            start <= i <= to,
            to <= chars@.len(),
            body == chars@.subrange(start as int, to as int),
            whole == chars@.subrange(from as int, to as int),
            from <= start,
            body == if whole.len() > 0 && whole[0] == '+' {
                whole.skip(1)
            } else {
                whole
            },
            forall|k: int| 0 <= k < i - start ==> is_digit(#[trigger] body[k]),
            acc == digits_value(body.take(i - start)),
        decreases to - i,
    {
        let c: char = chars[i];
        assert(body[i - start] == c);
        if !('0' <= c && c <= '9') {
            return None;
        }
        let d: u64 = ((c as u32) - ('0' as u32)) as u64;
        let ghost next = body.take(i - start + 1);
        assert(next.drop_last() =~= body.take(i - start));
        assert(next.last() == c);
        assert(digits_value(next) == acc * 10 + d);
        if acc > (u64::MAX - d) / 10 {
            proof {
                if all_digits(body) {
                    lemma_prefix_value(body, i - start + 1);
                }
            }
            return None;
        }
        acc = acc * 10 + d;
        i += 1;
    }
    assert(body.take(to - start) =~= body);
    Some(acc)
}

/// The text that `bytes` decode to as UTF-8 when every malformed sequence is
/// replaced by U+FFFD.
pub uninterp spec fn lossy_text(bytes: Seq<u8>) -> Seq<char>;

/// `String::from_utf8_lossy`: decodes `bytes` as UTF-8, putting U+FFFD in the
/// place of each malformed sequence. Well-formed input decodes to exactly the
/// text it encodes.
#[verifier::external_body]
pub(crate) fn from_utf8_lossy(bytes: &[u8]) -> (out: String)
    ensures
        out@ == lossy_text(bytes@),
        vstd::utf8::valid_utf8(bytes@) ==> out@ == vstd::utf8::decode_utf8(bytes@),
{
    String::from_utf8_lossy(bytes).into_owned()
}

/// The byte count that the text of a size query amounts to: the number it
/// writes once the white space around it is removed, and zero where that is
/// no unsigned 64-bit decimal number.
pub open spec fn size_of_text(text: Seq<char>) -> u64 {
    match parse_u64_text(trim_text(text)) {
        Some(n) => n,
        None => 0,
    }
}

/// Reads a byte count from the text of a size query. Never fails: text that
/// is no number counts as zero.
pub fn parse_size_text(text: &str) -> (n: u64)
    ensures
        n == size_of_text(text@),
{
    let chars = chars_of(text);
    let (a, b) = trim_bounds(&chars);
    match parse_u64(&chars, a, b) {
        Some(n) => n,
        None => 0,
    }
}

/// Reads a byte count from the raw output of a size query, decoded leniently
/// as UTF-8. Never fails: output that is no number counts as zero.
pub fn parse_size(output: &[u8]) -> (n: u64)
    ensures
        n == size_of_text(lossy_text(output@)),
{
    let text = from_utf8_lossy(output);
    parse_size_text(text.as_str())
}

/// The position of the last `c` in `s`, or -1 where `s` holds none.
pub open spec fn last_index_of(s: Seq<char>, c: char) -> int
    decreases s.len(),
{
    if s.len() == 0 {
        -1
    } else if s.last() == c {
        s.len() - 1
    } else {
        last_index_of(s.drop_last(), c)
    }
}

proof fn lemma_last_index_of(s: Seq<char>, c: char, k: int)
    requires
        -1 <= k < s.len(),
        k >= 0 ==> s[k] == c,
        forall|j: int| k < j < s.len() ==> #[trigger] s[j] != c,
    ensures
        last_index_of(s, c) == k,
    decreases s.len(),
{
    if s.len() > 0 && k < s.len() - 1 {
        let front = s.drop_last();
        assert(s.last() == s[s.len() - 1]);
        assert forall|j: int| k < j < front.len() implies #[trigger] front[j] != c by {
            assert(front[j] == s[j]);
        }
        if k >= 0 {
            assert(front[k] == s[k]);
        }
        lemma_last_index_of(front, c, k);
    }
}

/// The position of the last `c` in `chars[from..]`, counted from `from`.
fn find_last(chars: &Vec<char>, from: usize, c: char) -> (r: Option<usize>)
    requires
        from <= chars@.len(),
    ensures
        match r {
            Some(k) => k < chars@.len() - from && last_index_of(chars@.skip(from as int), c) == k,
            None => last_index_of(chars@.skip(from as int), c) == -1,
        },
{
    let ghost tail = chars@.skip(from as int);
    let mut i: usize = chars.len();
    while i > from
        invariant
            from <= i <= chars@.len(),
            tail == chars@.skip(from as int),
            forall|j: int| i - from <= j < tail.len() ==> #[trigger] tail[j] != c,
        decreases i,
    {
        i -= 1;
        assert(tail[i - from] == chars@[i as int]);
        if chars[i] == c {
            proof {
                lemma_last_index_of(tail, c, i - from);
            }
            return Some(i - from);
        }
    }
    proof {
        lemma_last_index_of(tail, c, -1);
    }
    None
}

/// The last component of a `/`-separated path: what follows its last `/`.
pub open spec fn file_name_text(path: Seq<char>) -> Seq<char> {
    path.skip(last_index_of(path, '/') + 1)
}

/// The last component of a path without its final extension: the component
/// up to its last `.`, or all of it where it holds no `.` past its first
/// character.
pub open spec fn file_stem_text(path: Seq<char>) -> Seq<char> {
    let name = file_name_text(path);
    let dot = last_index_of(name, '.');
    if dot <= 0 {
        name
    } else {
        name.take(dot)
    }
}

/// The last component of a path without its final extension.
pub fn file_stem(path: &str) -> (out: String)
    ensures
        out@ == file_stem_text(path@),
{
    let chars = chars_of(path);
    let total: usize = chars.len();
    let start: usize = match find_last(&chars, 0, '/') {
        Some(k) => k + 1,
        None => 0,
    };
    assert(chars@.skip(0) =~= chars@);
    let ghost name = chars@.skip(start as int);
    let end: usize = match find_last(&chars, start, '.') {
        Some(k) => if k == 0 {
            total
        } else {
            start + k
        },
        None => total,
    };
    let mut out = String::new();
    push_range(&mut out, &chars, start, end);
    proof {
        let dot = last_index_of(name, '.');
        if dot <= 0 {
            assert(chars@.subrange(start as int, end as int) =~= name);
        } else {
            assert(chars@.subrange(start as int, end as int) =~= name.take(dot));
        }
        assert(out@ =~= file_stem_text(path@));
    }
    out
}

/// `name` placed in the directory `dir`: a `/` is put between the two unless
/// `dir` is empty or already ends in one, and a `name` that begins with `/`
/// stands alone.
pub open spec fn join_path_text(dir: Seq<char>, name: Seq<char>) -> Seq<char> {
    if name.len() > 0 && name[0] == '/' {
        name
    } else if dir.len() == 0 || dir.last() == '/' {
        dir + name
    } else {
        dir + seq!['/'] + name
    }
}

/// `name` placed in the directory `dir`.
pub fn join_path(dir: &str, name: &str) -> (out: String)
    ensures
        out@ == join_path_text(dir@, name@),
{
    let d = chars_of(dir);
    let n = chars_of(name);
    if n.len() > 0 && n[0] == '/' {
        return String::from_str(name);
    }
    let mut out = String::from_str(dir);
    if d.len() > 0 && d[d.len() - 1] != '/' {
        out.push('/');
    }
    out.append(name);
    assert(out@ =~= join_path_text(dir@, name@));
    out
}

/// The texts that a list of strings holds, in order.
pub open spec fn texts(list: Seq<String>) -> Seq<Seq<char>> {
    Seq::new(list.len(), |i: int| list[i]@)
}

/// `items` written one after another with `sep` between each two.
pub open spec fn join_text(items: Seq<Seq<char>>, sep: Seq<char>) -> Seq<char>
    decreases items.len(),
{
    if items.len() == 0 {
        Seq::<char>::empty()
    } else if items.len() == 1 {
        items[0]
    } else {
        join_text(items.drop_last(), sep) + sep + items.last()
    }
}

/// Each of `items` with `prefix` in front of it.
pub open spec fn prefixed(items: Seq<Seq<char>>, prefix: Seq<char>) -> Seq<Seq<char>> {
    Seq::new(items.len(), |i: int| prefix + items[i])
}

/// `list` with `item` added at its end unless it holds `item` already.
pub open spec fn with_unique(list: Seq<Seq<char>>, item: Seq<char>) -> Seq<Seq<char>> {
    if list.contains(item) {
        list
    } else {
        list.push(item)
    }
}

/// Adding an item that is not yet there keeps a list free of repetitions.
pub proof fn lemma_with_unique_no_duplicates(list: Seq<Seq<char>>, item: Seq<char>)
    requires
        list.no_duplicates(),
    ensures
        with_unique(list, item).no_duplicates(),
        with_unique(list, item).contains(item),
{
    if !list.contains(item) {
        let after = list.push(item);
        assert forall|i: int, j: int| 0 <= i < after.len() && 0 <= j < after.len() && i != j implies after[i]
            != after[j] by {
            if i < list.len() && j < list.len() {
                assert(list[i] != list[j]);
            } else if i < list.len() {
                assert(list.contains(list[i]));
            } else {
                assert(list.contains(list[j]));
            }
        }
        assert(after[list.len() as int] == item);
    }
}

/// Whether `list` holds a string with the characters of `item`.
pub fn holds_text(list: &Vec<String>, item: &str) -> (r: bool)
    ensures
        r == texts(list@).contains(item@),
{
    let mut i: usize = 0;
    while i < list.len()
        invariant
            i <= list@.len(),
            forall|k: int| 0 <= k < i ==> texts(list@)[k] != item@,
        decreases list@.len() - i,
    {
        if str_eq(list[i].as_str(), item) {
            assert(texts(list@)[i as int] == item@);
            return true;
        }
        i += 1;
    }
    false
}

/// Writes the strings of `list` one after another, each with `prefix` in
/// front of it, with `sep` between each two.
pub fn join(list: &Vec<String>, prefix: &str, sep: &str) -> (out: String)
    ensures
        out@ == join_text(prefixed(texts(list@), prefix@), sep@),
{
    let ghost items = prefixed(texts(list@), prefix@);
    let mut out = String::new();
    let mut i: usize = 0;
    while i < list.len()
        invariant
            i <= list@.len(),
            items == prefixed(texts(list@), prefix@),
            out@ == join_text(items.take(i as int), sep@),
        decreases list@.len() - i,
    {
        let ghost before = items.take(i as int);
        let ghost after = items.take(i + 1);
        assert(after.drop_last() =~= before);
        assert(after.last() == prefix@ + list@[i as int]@);
        if i > 0 {
            out.append(sep);
        }
        out.append(prefix);
        out.append(list[i].as_str());
        proof {
            if i == 0 {
                assert(out@ =~= prefix@ + list@[0]@);
                assert(after[0] == after.last());
            } else {
                assert(out@ =~= join_text(before, sep@) + sep@ + after.last());
            }
        }
        i += 1;
    }
    assert(items.take(list@.len() as int) =~= items);
    out
}

/// `list` after each of `items` was added in turn unless it was there already.
pub open spec fn with_all_unique(list: Seq<Seq<char>>, items: Seq<Seq<char>>) -> Seq<Seq<char>>
    decreases items.len(),
{
    if items.len() == 0 {
        list
    } else {
        with_unique(with_all_unique(list, items.drop_last()), items.last())
    }
}

/// Adding items one by one, each only if it is not there yet, keeps a list
/// free of repetitions.
pub proof fn lemma_with_all_unique_no_duplicates(list: Seq<Seq<char>>, items: Seq<Seq<char>>)
    requires
        list.no_duplicates(),
    ensures
        with_all_unique(list, items).no_duplicates(),
    decreases items.len(),
{
    if items.len() > 0 {
        lemma_with_all_unique_no_duplicates(list, items.drop_last());
        lemma_with_unique_no_duplicates(with_all_unique(list, items.drop_last()), items.last());
    }
}

/// Whether `pat` occurs somewhere in `s`.
pub open spec fn occurs_in(s: Seq<char>, pat: Seq<char>) -> bool
    decreases s.len(),
{
    if s.len() < pat.len() {
        false
    } else if pat.is_prefix_of(s) {
        true
    } else if s.len() == 0 {
        false
    } else {
        occurs_in(s.skip(1), pat)
    }
}

/// `s` with every occurrence of `pat` replaced by `with`: occurrences are
/// found from left to right and do not overlap. An empty pattern is replaced
/// nowhere.
pub open spec fn replace_text(s: Seq<char>, pat: Seq<char>, with: Seq<char>) -> Seq<char>
    decreases s.len(),
{
    if s.len() < pat.len() || s.len() == 0 {
        s
    } else if pat.len() > 0 && pat.is_prefix_of(s) {
        with + replace_text(s.skip(pat.len() as int), pat, with)
    } else {
        seq![s[0]] + replace_text(s.skip(1), pat, with)
    }
}

/// Replacing a pattern that does not occur changes nothing.
pub proof fn lemma_replace_absent(s: Seq<char>, pat: Seq<char>, with: Seq<char>)
    requires
        !occurs_in(s, pat),
    ensures
        replace_text(s, pat, with) == s,
    decreases s.len(),
{
    if s.len() >= pat.len() && s.len() > 0 {
        lemma_replace_absent(s.skip(1), pat, with);
        assert(seq![s[0]] + s.skip(1) =~= s);
    }
}

/// Whether `pat` stands in `chars` at position `at`.
fn matches_at(chars: &Vec<char>, at: usize, pat: &Vec<char>) -> (r: bool)
    requires
        at <= chars@.len(),
    ensures
        r == pat@.is_prefix_of(chars@.skip(at as int)),
{
    let ghost tail = chars@.skip(at as int);
    let total: usize = chars.len();
    if pat.len() > total - at {
        return false;
    }
    let mut k: usize = 0;
    while k < pat.len()
        invariant
            k <= pat@.len() <= chars@.len() - at,
            at <= chars@.len(),
            total == chars@.len(),
            tail == chars@.skip(at as int),
            forall|j: int| 0 <= j < k ==> pat@[j] == tail[j],
        decreases pat@.len() - k,
    {
        assert(tail[k as int] == chars@[at + k]);
        if pat[k] != chars[at + k] {
            assert(pat@[k as int] != tail.subrange(0, pat@.len() as int)[k as int]);
            return false;
        }
        k += 1;
    }
    assert(pat@ =~= tail.subrange(0, pat@.len() as int));
    true
}

/// Whether `pat` occurs somewhere in `s`.
pub fn contains(s: &str, pat: &str) -> (r: bool)
    ensures
        r == occurs_in(s@, pat@),
{
    let chars = chars_of(s);
    let p = chars_of(pat);
    let mut i: usize = 0;
    assert(chars@.skip(0) =~= chars@);
    loop
        invariant
            i <= chars@.len(),
            chars@ == s@,
            p@ == pat@,
            occurs_in(s@, pat@) == occurs_in(chars@.skip(i as int), p@),
        decreases chars@.len() - i,
    {
        if matches_at(&chars, i, &p) {
            return true;
        }
        if i == chars.len() {
            return false;
        }
        assert(chars@.skip(i as int).skip(1) =~= chars@.skip(i + 1));
        i += 1;
    }
}

/// `template` with every occurrence of `pat` replaced by `with`. An empty
/// pattern is replaced nowhere.
pub fn replace(template: &str, pat: &str, with: &str) -> (out: String)
    ensures
        out@ == replace_text(template@, pat@, with@),
{
    let chars = chars_of(template);
    let p = chars_of(pat);
    let n: usize = chars.len();
    let m: usize = p.len();
    if m == 0 {
        proof {
            lemma_replace_empty_pattern(template@, pat@, with@);
        }
        return String::from_str(template);
    }
    let mut out = String::new();
    let mut i: usize = 0;
    assert(chars@.skip(0) =~= chars@);
    while i < n
        invariant
            i <= n,
            n == chars@.len(),
            m == p@.len(),
            m > 0,
            chars@ == template@,
            p@ == pat@,
            out@ + replace_text(chars@.skip(i as int), p@, with@) == replace_text(
                template@,
                pat@,
                with@,
            ),
        decreases n - i,
    {
        let ghost tail = chars@.skip(i as int);
        if matches_at(&chars, i, &p) {
            assert(tail.skip(m as int) =~= chars@.skip(i + m));
            assert(out@ + (with@ + replace_text(tail.skip(m as int), p@, with@)) =~= out@ + with@
                + replace_text(tail.skip(m as int), p@, with@));
            out.append(with);
            i += m;
        } else {
            assert(tail.skip(1) =~= chars@.skip(i + 1));
            assert(tail[0] == chars@[i as int]);
            proof {
                if tail.len() < m {
                    assert(tail =~= seq![tail[0]] + tail.skip(1));
                    lemma_replace_short(tail.skip(1), p@, with@);
                }
            }
            assert(out@ + (seq![tail[0]] + replace_text(tail.skip(1), p@, with@)) =~= out@.push(
                tail[0],
            ) + replace_text(tail.skip(1), p@, with@));
            out.push(chars[i]);
            i += 1;
        }
    }
    assert(chars@.skip(n as int) =~= Seq::<char>::empty());
    assert(out@ + Seq::<char>::empty() =~= out@);
    out
}

proof fn lemma_replace_empty_pattern(s: Seq<char>, pat: Seq<char>, with: Seq<char>)
    requires
        pat.len() == 0,
    ensures
        replace_text(s, pat, with) == s,
    decreases s.len(),
{
    if s.len() > 0 {
        lemma_replace_empty_pattern(s.skip(1), pat, with);
        assert(seq![s[0]] + s.skip(1) =~= s);
    }
}

proof fn lemma_replace_short(s: Seq<char>, pat: Seq<char>, with: Seq<char>)
    requires
        s.len() < pat.len(),
    ensures
        replace_text(s, pat, with) == s,
{
}

/// `s` without the run of `c` at its end.
pub open spec fn strip_trailing(s: Seq<char>, c: char) -> Seq<char>
    decreases s.len(),
{
    if s.len() > 0 && s.last() == c {
        strip_trailing(s.drop_last(), c)
    } else {
        s
    }
}

proof fn lemma_strip_trailing(s: Seq<char>, c: char, b: int)
    requires
        0 <= b <= s.len(),
        forall|k: int| b <= k < s.len() ==> #[trigger] s[k] == c,
        b == 0 || s[b - 1] != c,
    ensures
        strip_trailing(s, c) == s.take(b),
    decreases s.len() - b,
{
    if b < s.len() {
        let front = s.drop_last();
        assert forall|k: int| b <= k < front.len() implies #[trigger] front[k] == c by {
            assert(front[k] == s[k]);
        }
        if b > 0 {
            assert(front[b - 1] == s[b - 1]);
        }
        lemma_strip_trailing(front, c, b);
        assert(front.take(b) =~= s.take(b));
    } else {
        assert(s.take(b) =~= s);
    }
}

/// `s` without the run of `c` at its end.
pub fn trim_end_matches(s: &str, c: char) -> (out: String)
    ensures
        out@ == strip_trailing(s@, c),
{
    let chars = chars_of(s);
    let mut b: usize = chars.len();
    while b > 0 && chars[b - 1] == c
        invariant
            b <= chars@.len(),
            forall|k: int| b <= k < chars@.len() ==> #[trigger] chars@[k] == c,
        decreases b,
    {
        b -= 1;
    }
    proof {
        lemma_strip_trailing(chars@, c, b as int);
    }
    let mut out = String::new();
    push_range(&mut out, &chars, 0, b);
    assert(out@ =~= chars@.take(b as int));
    out
}

} // verus!
