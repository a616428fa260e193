//! Character-level string helpers shared by the command logic: literal
//! comparison, decimal integers in both directions, comma lists.

use vstd::prelude::*;

verus! {

/// Appends one character to a `String` (`String::push`).
#[verifier::external_body]
fn push_char(s: &mut String, c: char)
    ensures
        final(s)@ == old(s)@.push(c),
{
    s.push(c);
}

/// The characters of a string slice, in order.
pub fn chars_of(s: &str) -> (v: Vec<char>)
    ensures
        v@ == s@,
{
    let n = s.unicode_len();
    let mut v: Vec<char> = Vec::new();
    let mut i: usize = 0;
    while i < n
        invariant
            n == s@.len(),
            i <= n,
            v@ == s@.take(i as int),
        decreases n - i,
    {
        let c = s.get_char(i);
        v.push(c);
        assert(s@.take((i + 1) as int) =~= s@.take(i as int).push(c));
        i = i + 1;
    }
    assert(s@.take(n as int) =~= s@);
    v
}

/// A `String` holding exactly the given characters.
pub fn string_from_chars(v: &[char]) -> (s: String)
    ensures
        s@ == v@,
{
    let mut s = String::new();
    let mut i: usize = 0;
    while i < v.len()
        invariant
            i <= v@.len(),
            s@ == v@.take(i as int),
        decreases v@.len() - i,
    {
        push_char(&mut s, v[i]);
        assert(v@.take((i + 1) as int) =~= v@.take(i as int).push(v@[i as int]));
        i = i + 1;
    }
    assert(v@.take(v@.len() as int) =~= v@);
    s
}

/// Whether two character sequences are equal.
pub fn chars_eq(a: &[char], b: &[char]) -> (r: bool)
    ensures
        r == (a@ == b@),
{
    if a.len() != b.len() {
        return false;
    }
    let mut i: usize = 0;
    while i < a.len()
        invariant
            a@.len() == b@.len(),
            i <= a@.len(),
            forall|j: int| 0 <= j < i ==> a@[j] == b@[j],
        decreases a@.len() - i,
    {
        if a[i] != b[i] {
            return false;
        }
        i = i + 1;
    }
    assert(a@ =~= b@);
    true
}

/// Whether a character sequence spells the given literal.
pub fn is_lit(a: &[char], lit: &str) -> (r: bool)
    ensures
        r == (a@ == lit@),
{
    let l = chars_of(lit);
    chars_eq(a, l.as_slice())
}

/// Whether a string spells the given literal.
pub fn str_is(s: &String, lit: &str) -> (r: bool)
    ensures
        r == (s@ == lit@),
{
    let l = String::from_str(lit);
    *s == l
}

/// Concatenation of two character vectors.
pub fn cat(a: &[char], b: &[char]) -> (r: Vec<char>)
    ensures
        r@ == a@ + b@,
{
    let mut r: Vec<char> = Vec::new();
    let mut i: usize = 0;
    while i < a.len()
        invariant
            i <= a@.len(),
            r@ == a@.take(i as int),
        decreases a@.len() - i,
    {
        r.push(a[i]);
        assert(a@.take((i + 1) as int) =~= a@.take(i as int).push(a@[i as int]));
        i = i + 1;
    }
    let mut j: usize = 0;
    while j < b.len()
        invariant
            i == a@.len(),
            j <= b@.len(),
            r@ == a@ + b@.take(j as int),
        decreases b@.len() - j,
    {
        r.push(b[j]);
        assert(a@ + b@.take((j + 1) as int) =~= (a@ + b@.take(j as int)).push(b@[j as int]));
        j = j + 1;
    }
    assert(a@.take(a@.len() as int) =~= a@);
    assert(b@.take(b@.len() as int) =~= b@);
    r
}

/// The characters `a[from..to]`.
pub fn slice_chars(a: &[char], from: usize, to: usize) -> (r: Vec<char>)
    requires
        from <= to <= a@.len(),
    ensures
        r@ == a@.subrange(from as int, to as int),
{
    let mut r: Vec<char> = Vec::new();
    let mut i: usize = from;
    while i < to
        invariant
            from <= i <= to,
            to <= a@.len(),
            r@ == a@.subrange(from as int, i as int),
        decreases to - i,
    {
        r.push(a[i]);
        assert(a@.subrange(from as int, (i + 1) as int) =~= a@.subrange(from as int, i as int).push(
            a@[i as int],
        ));
        i = i + 1;
    }
    r
}

// ---------------------------------------------------------------------------
// decimal integers
// ---------------------------------------------------------------------------

pub open spec fn is_digit(c: char) -> bool {
    '0' <= c && c <= '9'
}

pub open spec fn digit_val(c: char) -> nat {
    (c as int - '0' as int) as nat
}

pub open spec fn all_digits(s: Seq<char>) -> bool {
    forall|i: int| 0 <= i < s.len() ==> is_digit(#[trigger] s[i])
}

/// The number a string of decimal digits denotes.
pub open spec fn digits_value(s: Seq<char>) -> nat
    decreases s.len(),
{
    if s.len() == 0 {
        0
    } else {
        digits_value(s.drop_last()) * 10 + digit_val(s.last())
    }
}

/// The integer that `str::parse` reads from `s`: an optional sign (`-` only
/// when `signed`), then one or more decimal digits, nothing else.
pub open spec fn parse_int(s: Seq<char>, signed: bool) -> Option<int> {
    if s.len() > 0 && (s[0] == '+' || (signed && s[0] == '-')) {
        let rest = s.skip(1);
        if rest.len() > 0 && all_digits(rest) {
            if s[0] == '-' {
                Some(-(digits_value(rest) as int))
            } else {
                Some(digits_value(rest) as int)
            }
        } else {
            None
        }
    } else if s.len() > 0 && all_digits(s) {
        Some(digits_value(s) as int)
    } else {
        None
    }
}

/// `parse_int` restricted to the range `lo..=hi` of the target type.
pub open spec fn parse_int_in(s: Seq<char>, signed: bool, lo: int, hi: int) -> Option<int> {
    match parse_int(s, signed) {
        Some(v) => if lo <= v && v <= hi {
            Some(v)
        } else {
            None
        },
        None => None,
    }
}

proof fn lemma_digits_value_grows(s: Seq<char>, c: char)
    requires
        is_digit(c),
    ensures
        digits_value(s.push(c)) == digits_value(s) * 10 + digit_val(c),
        digits_value(s.push(c)) >= digits_value(s),
{
    assert(s.push(c).drop_last() =~= s);
}

/// Reads a decimal integer of the range `lo..=hi` as `str::parse` does.
pub fn parse_int_exec(s: &[char], signed: bool, lo: i128, hi: i128) -> (r: Option<i128>)
    requires
        -0x1_0000_0000_0000_0000 <= lo <= hi <= 0x1_0000_0000_0000_0000,
    ensures
        r matches Some(v) ==> parse_int_in(s@, signed, lo as int, hi as int) == Some(v as int),
        r is None ==> parse_int_in(s@, signed, lo as int, hi as int) is None,
{
    let n = s.len();
    if n == 0 {
        return None;
    }
    let first = s[0];
    let has_sign = first == '+' || (signed && first == '-');
    let start: usize = if has_sign { 1 } else { 0 };
    if start >= n {
        return None;
    }
    let ghost digits = s@.skip(start as int);
    assert(start == 0 ==> digits =~= s@);
    let mut acc: u128 = 0;
    let mut over = false;
    let mut i: usize = start;
    while i < n
        invariant
            n == s@.len(),
            start <= i <= n,
            digits == s@.skip(start as int),
            start == (if has_sign { 1usize } else { 0usize }),
            first == s@[0],
            has_sign == (first == '+' || (signed && first == '-')),
            all_digits(s@.subrange(start as int, i as int)),
            !over ==> acc as nat == digits_value(s@.subrange(start as int, i as int)),
            !over ==> acc <= 0x2_0000_0000_0000_0000,
            over ==> digits_value(s@.subrange(start as int, i as int)) > 0x2_0000_0000_0000_0000,
        decreases n - i,
    {
        let c = s[i];
        if !('0' <= c && c <= '9') {
            assert(!all_digits(digits)) by {
                assert(digits[i - start] == c);
            }
            assert(parse_int(s@, signed) is None) by {
                if has_sign {
                    assert(s@.skip(1) =~= digits);
                } else {
                    assert(s@ =~= digits);
                }
            }
            return None;
        }
        let d: u128 = if c == '0' { 0 } else if c == '1' { 1 } else if c == '2' { 2 } else if c
            == '3' { 3 } else if c == '4' { 4 } else if c == '5' { 5 } else if c == '6' { 6 } else if c
            == '7' { 7 } else if c == '8' { 8 } else { 9 };
        assert(d as nat == digit_val(c));
        proof {
            lemma_digits_value_grows(s@.subrange(start as int, i as int), c);
            assert(s@.subrange(start as int, (i + 1) as int) =~= s@.subrange(start as int, i as int).push(
                c,
            ));
        }
        if !over {
            let next = acc * 10 + d;
            if next > 0x2_0000_0000_0000_0000 {
                over = true;
            } else {
                acc = next;
            }
        }
        i = i + 1;
    }
    assert(s@.subrange(start as int, n as int) =~= digits);
    assert(parse_int(s@, signed) == if first == '-' {
        Some(-(digits_value(digits) as int))
    } else {
        Some(digits_value(digits) as int)
    });
    if over {
        return None;
    }
    let v: i128 = if first == '-' { -(acc as i128) } else { acc as i128 };
    if lo <= v && v <= hi {
        Some(v)
    } else {
        None
    }
}

pub open spec fn digit_char(d: nat) -> char {
    if d == 0 { '0' }
    else if d == 1 { '1' }
    else if d == 2 { '2' }
    else if d == 3 { '3' }
    else if d == 4 { '4' }
    else if d == 5 { '5' }
    else if d == 6 { '6' }
    else if d == 7 { '7' }
    else if d == 8 { '8' }
    else { '9' }
}

/// The decimal spelling of a natural number, without leading zeros.
pub open spec fn decimal(n: nat) -> Seq<char>
    decreases n,
{
    if n < 10 {
        seq![digit_char(n)]
    } else {
        decimal(n / 10).push(digit_char(n % 10))
    }
}

/// The decimal spelling of an integer, as `Display` writes it.
pub open spec fn int_text(i: int) -> Seq<char> {
    if i < 0 {
        seq!['-'] + decimal((-i) as nat)
    } else {
        decimal(i as nat)
    }
}

fn digit_char_exec(d: u64) -> (c: char)
    requires
        d < 10,
    ensures
        c == digit_char(d as nat),
{
    if d == 0 { '0' }
    else if d == 1 { '1' }
    else if d == 2 { '2' }
    else if d == 3 { '3' }
    else if d == 4 { '4' }
    else if d == 5 { '5' }
    else if d == 6 { '6' }
    else if d == 7 { '7' }
    else if d == 8 { '8' }
    else { '9' }
}

/// The decimal spelling of `n`.
pub fn decimal_exec(n: u64) -> (r: Vec<char>)
    ensures
        r@ == decimal(n as nat),
    decreases n,
{
    if n < 10 {
        let mut r = Vec::new();
        r.push(digit_char_exec(n));
        assert(r@ =~= seq![digit_char(n as nat)]);
        r
    } else {
        let mut r = decimal_exec(n / 10);
        r.push(digit_char_exec(n % 10));
        r
    }
}

/// The decimal spelling of a signed integer.
pub fn int_text_exec(v: i64) -> (r: Vec<char>)
    ensures
        r@ == int_text(v as int),
{
    if v < 0 {
        let m: u64 = (-(v as i128)) as u64;
        let d = decimal_exec(m);
        let mut minus = Vec::new();
        minus.push('-');
        let r = cat(minus.as_slice(), d.as_slice());
        assert(minus@ =~= seq!['-']);
        r
    } else {
        decimal_exec(v as u64)
    }
}

/// The decimal spelling of a count.
pub fn usize_text_exec(v: usize) -> (r: Vec<char>)
    ensures
        r@ == int_text(v as int),
{
    decimal_exec(v as u64)
}

/// `prefix`, the decimal spelling of `n`, then `suffix`.
pub fn with_number(prefix: &str, n: i64, suffix: &str) -> (r: String)
    ensures
        r@ == prefix@ + int_text(n as int) + suffix@,
{
    let a = chars_of(prefix);
    let b = int_text_exec(n);
    let c = chars_of(suffix);
    let ab = cat(a.as_slice(), b.as_slice());
    let abc = cat(ab.as_slice(), c.as_slice());
    string_from_chars(abc.as_slice())
}

/// A copy of a list of strings.
pub fn clone_strings(v: &Vec<String>) -> (r: Vec<String>)
    ensures
        r.deep_view() == v.deep_view(),
{
    let mut out: Vec<String> = Vec::new();
    let mut i: usize = 0;
    while i < v.len()
        invariant
            i <= v@.len(),
            out.deep_view() =~= v.deep_view().take(i as int),
        decreases v@.len() - i,
    {
        out.push(v[i].clone());
        assert(v.deep_view().take(i + 1) =~= v.deep_view().take(i as int).push(v@[i as int]@));
        i = i + 1;
    }
    assert(v.deep_view().take(i as int) =~= v.deep_view());
    out
}

/// The concatenation of two strings.
pub fn join2(a: &String, b: &String) -> (r: String)
    ensures
        r@ == a@ + b@,
{
    let va = chars_of(a.as_str());
    let vb = chars_of(b.as_str());
    let ab = cat(va.as_slice(), vb.as_slice());
    string_from_chars(ab.as_slice())
}

/// `a/b` followed by `suffix`, the numbers in decimal.
pub fn ratio_text(a: usize, b: usize, suffix: &str) -> (r: String)
    ensures
        r@ == int_text(a as int) + "/"@ + int_text(b as int) + suffix@,
{
    let x = with_count("", a, "/");
    let y = with_count("", b, suffix);
    proof {
        reveal_strlit("");
        assert(""@ + int_text(a as int) + "/"@ =~= int_text(a as int) + "/"@);
        assert(""@ + int_text(b as int) + suffix@ =~= int_text(b as int) + suffix@);
    }
    let r = join2(&x, &y);
    assert(r@ =~= int_text(a as int) + "/"@ + int_text(b as int) + suffix@);
    r
}

/// `prefix`, the decimal spelling of the count `n`, then `suffix`.
pub fn with_count(prefix: &str, n: usize, suffix: &str) -> (r: String)
    ensures
        r@ == prefix@ + int_text(n as int) + suffix@,
{
    let a = chars_of(prefix);
    let b = usize_text_exec(n);
    let c = chars_of(suffix);
    let ab = cat(a.as_slice(), b.as_slice());
    let abc = cat(ab.as_slice(), c.as_slice());
    string_from_chars(abc.as_slice())
}

/// The concatenation of three pieces of text.
pub fn concat3(a: &str, b: &str, c: &str) -> (r: String)
    ensures
        r@ == a@ + b@ + c@,
{
    let va = chars_of(a);
    let vb = chars_of(b);
    let vc = chars_of(c);
    let ab = cat(va.as_slice(), vb.as_slice());
    let abc = cat(ab.as_slice(), vc.as_slice());
    string_from_chars(abc.as_slice())
}

// ---------------------------------------------------------------------------
// comma-separated lists
// ---------------------------------------------------------------------------

/// The pieces of `s` between the separators, as `str::split(sep)` yields
/// them.
pub open spec fn split_on(s: Seq<char>, sep: char) -> Seq<Seq<char>>
    decreases s.len(),
{
    if s.len() == 0 {
        seq![Seq::<char>::empty()]
    } else if s.last() == sep {
        split_on(s.drop_last(), sep).push(Seq::<char>::empty())
    } else {
        let r = split_on(s.drop_last(), sep);
        r.update(r.len() - 1, r.last().push(s.last()))
    }
}

/// The pieces of `s` between commas.
pub open spec fn split_commas(s: Seq<char>) -> Seq<Seq<char>> {
    split_on(s, ',')
}

/// Splitting yields at least one piece, the empty string splitting into
/// one empty piece.
pub proof fn lemma_split_on_nonempty(s: Seq<char>, sep: char)
    ensures
        split_on(s, sep).len() >= 1,
    decreases s.len(),
{
    if s.len() > 0 {
        lemma_split_on_nonempty(s.drop_last(), sep);
    }
}

/// Splits `s` at every comma.
pub fn split_commas_exec(s: &[char]) -> (r: Vec<Vec<char>>)
    ensures
        r.deep_view() == split_commas(s@),
{
    split_on_exec(s, ',')
}

/// Splits `s` at every `sep`.
pub fn split_on_exec(s: &[char], sep: char) -> (r: Vec<Vec<char>>)
    ensures
        r.deep_view() == split_on(s@, sep),
{
    let mut out: Vec<Vec<char>> = Vec::new();
    let mut cur: Vec<char> = Vec::new();
    let mut i: usize = 0;
    assert(s@.take(0) =~= Seq::<char>::empty());
    assert(out.deep_view().push(cur@) =~= split_on(s@.take(0), sep));
    while i < s.len()
        invariant
            i <= s@.len(),
            out.deep_view().push(cur@) == split_on(s@.take(i as int), sep),
        decreases s@.len() - i,
    {
        let c = s[i];
        let ghost before = s@.take(i as int);
        assert(s@.take((i + 1) as int).drop_last() =~= before);
        assert(s@.take((i + 1) as int).last() == c);
        if c == sep {
            let ghost old_out = out.deep_view();
            let ghost old_cur = cur@;
            let done = cur;
            assert(done.deep_view() =~= done@);
            out.push(done);
            cur = Vec::new();
            assert(out.deep_view() =~= old_out.push(old_cur));
            assert(out.deep_view().push(cur@) =~= split_on(s@.take((i + 1) as int), sep));
        } else {
            let ghost old_out = out.deep_view();
            let ghost old_cur = cur@;
            cur.push(c);
            proof {
                lemma_split_on_nonempty(before, sep);
                let r = split_on(before, sep);
                assert(r =~= old_out.push(old_cur));
                assert(r.update(r.len() - 1, r.last().push(c)) =~= old_out.push(old_cur.push(c)));
            }
            assert(out.deep_view().push(cur@) =~= split_on(s@.take((i + 1) as int), sep));
        }
        i = i + 1;
    }
    assert(s@.take(s@.len() as int) =~= s@);
    let ghost old_out = out.deep_view();
    let ghost old_cur = cur@;
    assert(cur.deep_view() =~= cur@);
    out.push(cur);
    assert(out.deep_view() =~= old_out.push(old_cur));
    out
}

} // verus!
