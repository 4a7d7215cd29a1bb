//! Character-level helpers shared by the identifier parser and the renderers.
use vstd::prelude::*;
use vstd::string::StrSliceExecFns;

verus! {

/// The characters of `s`, one by one.
pub fn chars_of(s: &str) -> (out: Vec<char>)
    ensures
        out@ == s@,
{
    let n = s.unicode_len();
    let mut out: Vec<char> = Vec::new();
    let mut i: usize = 0;
    while i < n
        invariant
            n == s@.len(),
            i <= n,
            out@ == s@.subrange(0, i as int),
        decreases n - i,
    {
        out.push(s.get_char(i));
        i = i + 1;
    }
    assert(out@ == s@);
    out
}

/// Whether the characters in `a` spell exactly `lit`.
pub fn chars_eq_str(a: &Vec<char>, lit: &str) -> (r: bool)
    ensures
        r == (a@ == lit@),
{
    let b = chars_of(lit);
    if a.len() != b.len() {
        return false;
    }
    let mut i: usize = 0;
    while i < a.len()
        invariant
            a@.len() == b@.len(),
            b@ == lit@,
            i <= a@.len(),
            forall|j: int| 0 <= j < i ==> a@[j] == b@[j],
        decreases a.len() - i,
    {
        if a[i] != b[i] {
            return false;
        }
        i = i + 1;
    }
    assert(a@ =~= b@);
    true
}

/// Whether the characters `a` start with the characters of `prefix`.
pub fn chars_start_with(a: &Vec<char>, prefix: &str) -> (r: bool)
    ensures
        r == (prefix@.len() <= a@.len() && a@.subrange(0, prefix@.len() as int) == prefix@),
{
    let b = chars_of(prefix);
    if b.len() > a.len() {
        return false;
    }
    let mut i: usize = 0;
    while i < b.len()
        invariant
            b@.len() <= a@.len(),
            b@ == prefix@,
            i <= b@.len(),
            forall|j: int| 0 <= j < i ==> a@[j] == b@[j],
        decreases b.len() - i,
    {
        if a[i] != b[i] {
            assert(a@.subrange(0, b@.len() as int)[i as int] != b@[i as int]);
            return false;
        }
        i = i + 1;
    }
    assert(a@.subrange(0, b@.len() as int) =~= b@);
    true
}

/// The pieces of `s` between the separators `sep`, in order, as `str::split` gives them; a
/// string without separators is one piece.
pub open spec fn split_on(s: Seq<char>, sep: char) -> Seq<Seq<char>>
    decreases s.len(),
{
    if s.len() == 0 {
        seq![Seq::<char>::empty()]
    } else {
        let r = split_on(s.drop_last(), sep);
        if s.last() == sep {
            r.push(Seq::<char>::empty())
        } else {
            r.update(r.len() - 1, r.last().push(s.last()))
        }
    }
}

pub proof fn lemma_split_on_nonempty(s: Seq<char>, sep: char)
    ensures
        split_on(s, sep).len() >= 1,
    decreases s.len(),
{
    if s.len() > 0 {
        lemma_split_on_nonempty(s.drop_last(), sep);
    }
}

/// The character sequences held by a list of character vectors.
pub open spec fn views_of(v: Seq<Vec<char>>) -> Seq<Seq<char>> {
    v.map_values(|p: Vec<char>| p@)
}

/// Splits `s` at every `sep`.
pub fn split_chars(s: &Vec<char>, sep: char) -> (parts: Vec<Vec<char>>)
    ensures
        views_of(parts@) == split_on(s@, sep),
{
    let mut parts: Vec<Vec<char>> = Vec::new();
    let mut cur: Vec<char> = Vec::new();
    let mut i: usize = 0;
    assert(s@.subrange(0, 0) =~= Seq::<char>::empty());
    assert(views_of(parts@).push(cur@) =~= split_on(s@.subrange(0, 0), sep));
    while i < s.len()
        invariant
            i <= s@.len(),
            views_of(parts@).push(cur@) == split_on(s@.subrange(0, i as int), sep),
        decreases s.len() - i,
    {
        let c = s[i];
        let ghost prefix = s@.subrange(0, i as int);
        let ghost next = s@.subrange(0, i + 1);
        assert(next.drop_last() =~= prefix);
        assert(next.last() == c);
        proof {
            lemma_split_on_nonempty(prefix, sep);
        }
        if c == sep {
            let done = cur;
            let ghost before = parts@;
            parts.push(done);
            assert(views_of(parts@) =~= views_of(before).push(done@));
            cur = Vec::new();
            assert(views_of(parts@).push(cur@) =~= split_on(next, sep));
        } else {
            cur.push(c);
            assert(views_of(parts@).push(cur@) =~= split_on(next, sep));
        }
        i = i + 1;
    }
    assert(s@.subrange(0, s@.len() as int) =~= s@);
    let ghost before = parts@;
    parts.push(cur);
    assert(views_of(parts@) =~= views_of(before).push(parts@.last()@));
    parts
}

pub open spec fn is_digit(c: char) -> bool {
    '0' <= c && c <= '9'
}

pub open spec fn digit_value(c: char) -> nat {
    (c as int - '0' as int) as nat
}

pub open spec fn all_digits(s: Seq<char>) -> bool {
    forall|i: int| 0 <= i < s.len() ==> is_digit(#[trigger] s[i])
}

/// The number that the decimal digits `s` spell.
pub open spec fn decimal_value(s: Seq<char>) -> nat
    decreases s.len(),
{
    if s.len() == 0 {
        0
    } else {
        decimal_value(s.drop_last()) * 10 + digit_value(s.last())
    }
}

/// The digits of an unsigned number: one leading `+` is allowed.
pub open spec fn unsigned_digits(s: Seq<char>) -> Seq<char> {
    if s.len() > 0 && s[0] == '+' {
        s.skip(1)
    } else {
        s
    }
}

/// How `u8`'s `FromStr` reads `s`: decimal digits after at most one `+`, at most 255.
pub open spec fn parse_u8_spec(s: Seq<char>) -> Option<u8> {
    let d = unsigned_digits(s);
    if d.len() > 0 && all_digits(d) && decimal_value(d) <= 255 {
        Some(decimal_value(d) as u8)
    } else {
        None
    }
}

/// Reads a `u8` written in decimal, as `u8`'s `FromStr` does.
pub fn parse_u8_chars(s: &Vec<char>) -> (r: Option<u8>)
    ensures
        r == parse_u8_spec(s@),
{
    let ghost d = unsigned_digits(s@);
    let start: usize = if s.len() > 0 && s[0] == '+' { 1 } else { 0 };
    assert(d =~= s@.skip(start as int));
    if start >= s.len() {
        return None;
    }
    let mut acc: u32 = 0;
    let mut i: usize = start;
    assert(s@.subrange(start as int, start as int) =~= Seq::<char>::empty());
    while i < s.len()
        invariant
            start <= i <= s@.len(),
            d =~= s@.skip(start as int),
            d == unsigned_digits(s@),
            forall|j: int| start <= j < i ==> is_digit(#[trigger] s@[j]),
            acc as nat == if decimal_value(s@.subrange(start as int, i as int)) <= 256 {
                decimal_value(s@.subrange(start as int, i as int))
            } else {
                256
            },
        decreases s.len() - i,
    {
        let c = s[i];
        if !(c >= '0' && c <= '9') {
            assert(d[i - start] == c);
            assert(!is_digit(d[i - start]));
            assert(!all_digits(d));
            assert(d == unsigned_digits(s@));
            return None;
        }
        let ghost prev = s@.subrange(start as int, i as int);
        let ghost next = s@.subrange(start as int, i + 1);
        assert(next.drop_last() =~= prev);
        assert(next.last() == c);
        let digit: u32 = (c as u32) - ('0' as u32);
        let grown: u32 = acc * 10 + digit;
        acc = if grown > 256 { 256 } else { grown };
        i = i + 1;
    }
    assert(s@.subrange(start as int, s@.len() as int) =~= d);
    assert(all_digits(d));
    if acc > 255 {
        None
    } else {
        Some(acc as u8)
    }
}

/// The decimal digits of `n`, most significant first, without leading zeros.
pub open spec fn decimal_spec(n: nat) -> Seq<char>
    decreases n,
{
    if n < 10 {
        seq![digit_char(n)]
    } else {
        decimal_spec(n / 10).push(digit_char(n % 10))
    }
}

/// The character of the decimal digit `d`.
pub open spec fn digit_char(d: nat) -> char {
    if d == 0 { '0' }
    else if d == 1 { '1' }
    else if d == 2 { '2' }
    else if d == 3 { '3' }
    else if d == 4 { '4' }
    else if d == 5 { '5' }
    else if d == 6 { '6' }
    else if d == 7 { '7' }
    else if d == 8 { '8' }
    else { '9' }
}

fn digit_char_exec(d: usize) -> (c: char)
    requires
        d < 10,
    ensures
        c == digit_char(d as nat),
{
    if d == 0 { '0' }
    else if d == 1 { '1' }
    else if d == 2 { '2' }
    else if d == 3 { '3' }
    else if d == 4 { '4' }
    else if d == 5 { '5' }
    else if d == 6 { '6' }
    else if d == 7 { '7' }
    else if d == 8 { '8' }
    else { '9' }
}

/// Appends one character to `s` (std's `String::push`).
#[verifier::external_body]
pub(crate) fn push_char(s: &mut String, c: char)
    ensures
        final(s)@ == old(s)@.push(c),
{
    s.push(c);
}

/// Appends the characters of `t` to `s`.
pub fn push_str(s: &mut String, t: &str)
    ensures
        final(s)@ == old(s)@ + t@,
{
    let chars = chars_of(t);
    let mut i: usize = 0;
    while i < chars.len()
        invariant
            chars@ == t@,
            i <= chars@.len(),
            s@ == old(s)@ + chars@.subrange(0, i as int),
        decreases chars.len() - i,
    {
        push_char(s, chars[i]);
        assert(chars@.subrange(0, i + 1) =~= chars@.subrange(0, i as int).push(chars@[i as int]));
        i = i + 1;
    }
    assert(chars@.subrange(0, chars@.len() as int) =~= chars@);
}

/// Appends the characters in `t` to `s`.
pub fn push_chars(s: &mut String, t: &Vec<char>)
    ensures
        final(s)@ == old(s)@ + t@,
{
    let mut i: usize = 0;
    while i < t.len()
        invariant
            i <= t@.len(),
            s@ == old(s)@ + t@.subrange(0, i as int),
        decreases t.len() - i,
    {
        push_char(s, t[i]);
        assert(t@.subrange(0, i + 1) =~= t@.subrange(0, i as int).push(t@[i as int]));
        i = i + 1;
    }
    assert(t@.subrange(0, t@.len() as int) =~= t@);
}

/// A new string holding the characters of `t`.
pub fn string_of(t: &str) -> (s: String)
    ensures
        s@ == t@,
{
    let mut s = String::new();
    push_str(&mut s, t);
    assert(s@ =~= t@);
    s
}

/// Appends the decimal digits of `n` to `s`.
pub fn push_decimal(s: &mut String, n: usize)
    ensures
        final(s)@ == old(s)@ + decimal_spec(n as nat),
    decreases n,
{
    if n < 10 {
        let c = digit_char_exec(n);
        push_char(s, c);
        assert(decimal_spec(n as nat) =~= seq![c]);
    } else {
        push_decimal(s, n / 10);
        let c = digit_char_exec(n % 10);
        push_char(s, c);
        assert(old(s)@ + decimal_spec(n as nat) =~= old(s)@ + decimal_spec((n / 10) as nat) + seq![c]);
    }
}

/// The decimal digits of `n`.
pub fn decimal_string(n: usize) -> (s: String)
    ensures
        s@ == decimal_spec(n as nat),
{
    let mut s = String::new();
    push_decimal(&mut s, n);
    assert(s@ =~= decimal_spec(n as nat));
    s
}

/// Whether `a` comes strictly before `b` in the order of strings: character by character,
/// and a proper prefix first.
pub open spec fn seq_lt(a: Seq<char>, b: Seq<char>) -> bool
    decreases a.len(),
{
    if b.len() == 0 {
        false
    } else if a.len() == 0 {
        true
    } else if a[0] != b[0] {
        (a[0] as int) < (b[0] as int)
    } else {
        seq_lt(a.drop_first(), b.drop_first())
    }
}

pub proof fn lemma_seq_lt_irreflexive(a: Seq<char>)
    ensures
        !seq_lt(a, a),
    decreases a.len(),
{
    if a.len() > 0 {
        lemma_seq_lt_irreflexive(a.drop_first());
    }
}

pub proof fn lemma_seq_lt_total(a: Seq<char>, b: Seq<char>)
    ensures
        a == b || seq_lt(a, b) || seq_lt(b, a),
        !(seq_lt(a, b) && seq_lt(b, a)),
    decreases a.len(),
{
    if a.len() > 0 && b.len() > 0 {
        if a[0] == b[0] {
            lemma_seq_lt_total(a.drop_first(), b.drop_first());
            if a.drop_first() == b.drop_first() {
                assert(a =~= seq![a[0]] + a.drop_first());
                assert(b =~= seq![b[0]] + b.drop_first());
            }
        } else {
            assert((a[0] as int) != (b[0] as int));
        }
    } else if a.len() == 0 && b.len() == 0 {
        assert(a =~= b);
    }
}

pub proof fn lemma_seq_lt_transitive(a: Seq<char>, b: Seq<char>, c: Seq<char>)
    requires
        seq_lt(a, b),
        seq_lt(b, c),
    ensures
        seq_lt(a, c),
    decreases a.len(),
{
    if a.len() > 0 && b.len() > 0 && c.len() > 0 {
        if a[0] == b[0] && b[0] == c[0] {
            lemma_seq_lt_transitive(a.drop_first(), b.drop_first(), c.drop_first());
        }
    }
}

/// Whether `a` and `b` hold the same characters.
pub fn chars_eq(a: &Vec<char>, b: &Vec<char>) -> (r: bool)
    ensures
        r == (a@ == b@),
{
    if a.len() != b.len() {
        return false;
    }
    let mut i: usize = 0;
    while i < a.len()
        invariant
            a@.len() == b@.len(),
            i <= a@.len(),
            forall|j: int| 0 <= j < i ==> a@[j] == b@[j],
        decreases a.len() - i,
    {
        if a[i] != b[i] {
            return false;
        }
        i = i + 1;
    }
    assert(a@ =~= b@);
    true
}

/// Whether the characters `a` come strictly before `b` in the order of strings.
pub fn chars_lt(a: &Vec<char>, b: &Vec<char>) -> (r: bool)
    ensures
        r == seq_lt(a@, b@),
{
    let mut i: usize = 0;
    assert(a@.skip(0) =~= a@);
    assert(b@.skip(0) =~= b@);
    while i < a.len() && i < b.len()
        invariant
            i <= a@.len(),
            i <= b@.len(),
            seq_lt(a@.skip(i as int), b@.skip(i as int)) == seq_lt(a@, b@),
        decreases a.len() - i,
    {
        assert(a@.skip(i as int)[0] == a@[i as int]);
        assert(b@.skip(i as int)[0] == b@[i as int]);
        if a[i] != b[i] {
            return a[i] < b[i];
        }
        assert(a@.skip(i as int).drop_first() =~= a@.skip(i + 1));
        assert(b@.skip(i as int).drop_first() =~= b@.skip(i + 1));
        i = i + 1;
    }
    i < b.len()
}

/// Unicode `White_Space`, the characters that `char::is_whitespace` accepts.
pub open spec fn is_whitespace(c: char) -> bool {
    ('\u{9}' <= c && c <= '\u{d}') || c == ' ' || c == '\u{85}' || c == '\u{a0}' || c == '\u{1680}'
        || ('\u{2000}' <= c && c <= '\u{200a}') || c == '\u{2028}' || c == '\u{2029}'
        || c == '\u{202f}' || c == '\u{205f}' || c == '\u{3000}'
}

fn is_whitespace_char(c: char) -> (r: bool)
    ensures
        r == is_whitespace(c),
{
    ('\u{9}' <= c && c <= '\u{d}') || c == ' ' || c == '\u{85}' || c == '\u{a0}' || c == '\u{1680}'
        || ('\u{2000}' <= c && c <= '\u{200a}') || c == '\u{2028}' || c == '\u{2029}'
        || c == '\u{202f}' || c == '\u{205f}' || c == '\u{3000}'
}

/// `s` without its leading whitespace.
pub open spec fn trim_start(s: Seq<char>) -> Seq<char>
    decreases s.len(),
{
    if s.len() > 0 && is_whitespace(s[0]) { trim_start(s.drop_first()) } else { s }
}

/// `s` without its trailing whitespace.
pub open spec fn trim_end(s: Seq<char>) -> Seq<char>
    decreases s.len(),
{
    if s.len() > 0 && is_whitespace(s.last()) { trim_end(s.drop_last()) } else { s }
}

/// `s` without leading or trailing whitespace, as `str::trim` gives it.
pub open spec fn trimmed(s: Seq<char>) -> Seq<char> {
    trim_end(trim_start(s))
}

/// The characters of `s` between its leading and its trailing whitespace.
pub fn trim_chars(s: &Vec<char>) -> (r: Vec<char>)
    ensures
        r@ == trimmed(s@),
{
    let n = s.len();
    let mut i: usize = 0;
    assert(s@.skip(0) =~= s@);
    while i < n && is_whitespace_char(s[i])
        invariant
            n == s@.len(),
            i <= n,
            trim_start(s@) == trim_start(s@.skip(i as int)),
        decreases n - i,
    {
        assert(s@.skip(i as int).drop_first() =~= s@.skip(i + 1));
        i = i + 1;
    }
    assert(trim_start(s@.skip(i as int)) == s@.skip(i as int));
    let mut j: usize = n;
    assert(s@.subrange(i as int, n as int) =~= s@.skip(i as int));
    while j > i && is_whitespace_char(s[j - 1])
        invariant
            n == s@.len(),
            i <= j <= n,
            trim_start(s@) == s@.skip(i as int),
            trimmed(s@) == trim_end(s@.subrange(i as int, j as int)),
        decreases j - i,
    {
        assert(s@.subrange(i as int, j as int).drop_last() =~= s@.subrange(i as int, j - 1));
        j = j - 1;
    }
    assert(trim_end(s@.subrange(i as int, j as int)) == s@.subrange(i as int, j as int));
    let mut r: Vec<char> = Vec::new();
    let mut k: usize = i;
    while k < j
        invariant
            i <= k <= j <= n,
            n == s@.len(),
            r@ == s@.subrange(i as int, k as int),
        decreases j - k,
    {
        r.push(s[k]);
        assert(s@.subrange(i as int, k + 1) =~= s@.subrange(i as int, k as int).push(s@[k as int]));
        k = k + 1;
    }
    r
}

/// Why a string is not an unsigned number (std's `IntErrorKind`, for unsigned types).
#[derive(Debug, Clone, Copy, PartialEq, Eq, Hash, Structural)]
pub enum IntParseError {
    Empty,
    InvalidDigit,
    PosOverflow,
}

impl IntParseError {
    /// The text of the error, as std's `ParseIntError` shows it.
    pub fn message(&self) -> (r: &'static str)
        ensures
            r == (match *self {
                IntParseError::Empty => "cannot parse integer from empty string",
                IntParseError::InvalidDigit => "invalid digit found in string",
                IntParseError::PosOverflow => "number too large to fit in target type",
            }),
    {
        match self {
            IntParseError::Empty => "cannot parse integer from empty string",
            IntParseError::InvalidDigit => "invalid digit found in string",
            IntParseError::PosOverflow => "number too large to fit in target type",
        }
    }
}

/// Reads the digits `d` from the left onto `acc`: the first character that is not a digit,
/// or the first digit that takes the number past `usize::MAX`, decides the error.
pub open spec fn scan_digits(d: Seq<char>, acc: nat) -> Result<nat, IntParseError>
    decreases d.len(),
{
    if d.len() == 0 {
        Ok(acc)
    } else if !is_digit(d[0]) {
        Err(IntParseError::InvalidDigit)
    } else if acc * 10 + digit_value(d[0]) > usize::MAX {
        Err(IntParseError::PosOverflow)
    } else {
        scan_digits(d.drop_first(), acc * 10 + digit_value(d[0]))
    }
}

/// How `usize`'s `FromStr` reads `s`: decimal digits after at most one `+`.
pub open spec fn parse_usize_spec(s: Seq<char>) -> Result<usize, IntParseError> {
    if s.len() == 0 {
        Err(IntParseError::Empty)
    } else if unsigned_digits(s).len() == 0 {
        Err(IntParseError::InvalidDigit)
    } else {
        match scan_digits(unsigned_digits(s), 0) {
            Ok(v) => Ok(v as usize),
            Err(e) => Err(e),
        }
    }
}

proof fn lemma_scan_digits_bounded(d: Seq<char>, acc: nat)
    requires
        acc <= usize::MAX,
    ensures
        scan_digits(d, acc) matches Ok(v) ==> v <= usize::MAX,
    decreases d.len(),
{
    if d.len() > 0 && is_digit(d[0]) && acc * 10 + digit_value(d[0]) <= usize::MAX {
        lemma_scan_digits_bounded(d.drop_first(), acc * 10 + digit_value(d[0]));
    }
}

/// Reads a `usize` written in decimal, as `usize`'s `FromStr` does.
pub fn parse_usize_chars(s: &Vec<char>) -> (r: Result<usize, IntParseError>)
    ensures
        r == parse_usize_spec(s@),
{
    if s.len() == 0 {
        return Err(IntParseError::Empty);
    }
    let ghost d = unsigned_digits(s@);
    let start: usize = if s[0] == '+' { 1 } else { 0 };
    assert(d =~= s@.skip(start as int));
    if start >= s.len() {
        return Err(IntParseError::InvalidDigit);
    }
    let mut acc: usize = 0;
    let mut i: usize = start;
    proof {
        lemma_scan_digits_bounded(d, 0);
    }
    while i < s.len()
        invariant
            start <= i <= s@.len(),
            d == unsigned_digits(s@),
            d =~= s@.skip(start as int),
            scan_digits(d, 0) == scan_digits(s@.skip(i as int), acc as nat),
        decreases s.len() - i,
    {
        let c = s[i];
        assert(s@.skip(i as int)[0] == c);
        if !(c >= '0' && c <= '9') {
            return Err(IntParseError::InvalidDigit);
        }
        let digit: usize = ((c as u32) - ('0' as u32)) as usize;
        assert(digit as nat == digit_value(c));
        assert(s@.skip(i as int).drop_first() =~= s@.skip(i + 1));
        match acc.checked_mul(10) {
            None => {
                return Err(IntParseError::PosOverflow);
            },
            Some(m) => match m.checked_add(digit) {
                None => {
                    return Err(IntParseError::PosOverflow);
                },
                Some(next) => {
                    acc = next;
                },
            },
        }
        i = i + 1;
    }
    assert(s@.skip(i as int) =~= Seq::<char>::empty());
    Ok(acc)
}

/// `s` with every occurrence of `pat` replaced by `rep`, taken from the left and without
/// overlaps, as `str::replace` does for a non-empty pattern.
pub open spec fn replaced(s: Seq<char>, pat: Seq<char>, rep: Seq<char>) -> Seq<char>
    decreases s.len(),
{
    if pat.len() == 0 || s.len() < pat.len() {
        s
    } else if s.subrange(0, pat.len() as int) == pat {
        rep + replaced(s.skip(pat.len() as int), pat, rep)
    } else {
        seq![s[0]] + replaced(s.drop_first(), pat, rep)
    }
}

fn matches_at(s: &Vec<char>, at: usize, pat: &Vec<char>) -> (r: bool)
    requires
        at <= s@.len(),
    ensures
        r == (pat@.len() <= s@.len() - at && s@.skip(at as int).subrange(0, pat@.len() as int) == pat@),
{
    if pat.len() > s.len() - at {
        return false;
    }
    let mut k: usize = 0;
    while k < pat.len()
        invariant
            pat@.len() <= s@.len() - at,
            at <= s@.len(),
            s@.len() == s.len(),
            k <= pat@.len(),
            forall|j: int| 0 <= j < k ==> s@[at + j] == pat@[j],
        decreases pat.len() - k,
    {
        if s[at + k] != pat[k] {
            assert(s@.skip(at as int).subrange(0, pat@.len() as int)[k as int] != pat@[k as int]);
            return false;
        }
        k = k + 1;
    }
    assert(s@.skip(at as int).subrange(0, pat@.len() as int) =~= pat@);
    true
}

/// The characters of `s` with every occurrence of `pat` replaced by `rep` (`str::replace`).
pub fn replace_chars(s: &Vec<char>, pat: &Vec<char>, rep: &Vec<char>) -> (r: Vec<char>)
    requires
        pat@.len() > 0,
    ensures
        r@ == replaced(s@, pat@, rep@),
{
    let mut out: Vec<char> = Vec::new();
    let mut i: usize = 0;
    assert(s@.skip(0) =~= s@);
    while i < s.len()
        invariant
            pat@.len() > 0,
            i <= s@.len(),
            out@ + replaced(s@.skip(i as int), pat@, rep@) == replaced(s@, pat@, rep@),
        decreases s.len() - i,
    {
        let ghost rest = s@.skip(i as int);
        if matches_at(s, i, pat) {
            assert(rest.skip(pat@.len() as int) =~= s@.skip(i + pat@.len()));
            let ghost before = out@;
            let mut k: usize = 0;
            while k < rep.len()
                invariant
                    k <= rep@.len(),
                    out@ == before + rep@.subrange(0, k as int),
                decreases rep.len() - k,
            {
                out.push(rep[k]);
                assert(rep@.subrange(0, k + 1) =~= rep@.subrange(0, k as int).push(rep@[k as int]));
                k = k + 1;
            }
            assert(rep@.subrange(0, rep@.len() as int) =~= rep@);
            assert(out@ + replaced(s@.skip(i + pat@.len()), pat@, rep@) =~= before + (rep@ + replaced(rest.skip(pat@.len() as int), pat@, rep@)));
            i = i + pat.len();
        } else {
            assert(rest.drop_first() =~= s@.skip(i + 1));
            let ghost before = out@;
            out.push(s[i]);
            assert(out@ + replaced(s@.skip(i + 1), pat@, rep@) =~= before + (seq![rest[0]] + replaced(rest.drop_first(), pat@, rep@)));
            i = i + 1;
        }
    }
    assert(s@.skip(i as int) =~= Seq::<char>::empty());
    assert(out@ + Seq::<char>::empty() =~= out@);
    out
}

} // verus!
