//! Character-level text machinery shared by the whole decode pipeline.
//!
//! All parsing works over `Vec<char>` / `&[char]`, modelled as `Seq<char>`,
//! so that every step of the grammar is stated and proved over one
//! mathematical text model.

use vstd::arithmetic::div_mod::lemma_fundamental_div_mod;
use vstd::prelude::*;

verus! {

// ----------------------------------------------------------------------
// character classes
// ----------------------------------------------------------------------

/// ASCII whitespace, as `char::is_ascii_whitespace` defines it.
pub open spec fn is_ascii_ws(c: char) -> bool {
    c == ' ' || c == '\t' || c == '\n' || c == '\r' || c == '\x0c'
}

/// Runtime test for [`is_ascii_ws`].
pub fn ascii_ws(c: char) -> (r: bool)
    ensures
        r == is_ascii_ws(c),
{
    c == ' ' || c == '\t' || c == '\n' || c == '\r' || c == '\x0c'
}

/// A character allowed in a key identifier: `[0-9A-Za-z_]`.
pub open spec fn is_ident_char(c: char) -> bool {
    ||| '0' as u32 <= c as u32 && c as u32 <= '9' as u32
    ||| 'a' as u32 <= c as u32 && c as u32 <= 'z' as u32
    ||| 'A' as u32 <= c as u32 && c as u32 <= 'Z' as u32
    ||| c == '_'
}

/// Runtime test for [`is_ident_char`].
pub fn ident_char(c: char) -> (r: bool)
    ensures
        r == is_ident_char(c),
{
    let u = c as u32;
    ('0' as u32 <= u && u <= '9' as u32) || ('a' as u32 <= u && u <= 'z' as u32) || ('A' as u32
        <= u && u <= 'Z' as u32) || c == '_'
}

/// A decimal digit `0-9`.
pub open spec fn is_dec_digit(c: char) -> bool {
    '0' as u32 <= c as u32 && c as u32 <= '9' as u32
}

/// The value of a decimal digit (0 outside the digit range).
pub open spec fn dec_val(c: char) -> nat {
    if is_dec_digit(c) {
        (c as u32 - '0' as u32) as nat
    } else {
        0
    }
}

/// A hexadecimal digit as `char::to_digit(16)` accepts it: `0-9a-fA-F`.
pub open spec fn is_hex_digit(c: char) -> bool {
    ||| is_dec_digit(c)
    ||| 'a' as u32 <= c as u32 && c as u32 <= 'f' as u32
    ||| 'A' as u32 <= c as u32 && c as u32 <= 'F' as u32
}

/// The value of a hexadecimal digit (0 outside the digit range).
pub open spec fn hex_val(c: char) -> nat {
    if is_dec_digit(c) {
        (c as u32 - '0' as u32) as nat
    } else if 'a' as u32 <= c as u32 && c as u32 <= 'f' as u32 {
        (c as u32 - 'a' as u32 + 10) as nat
    } else if 'A' as u32 <= c as u32 && c as u32 <= 'F' as u32 {
        (c as u32 - 'A' as u32 + 10) as nat
    } else {
        0
    }
}

/// Runtime decimal-digit decoder; mirrors `char::to_digit(10)`.
pub fn dec_digit(c: char) -> (r: Option<u32>)
    ensures
        r is Some <==> is_dec_digit(c),
        r is Some ==> r == Some(dec_val(c) as u32) && dec_val(c) < 10,
{
    let u = c as u32;
    if '0' as u32 <= u && u <= '9' as u32 {
        Some(u - '0' as u32)
    } else {
        None
    }
}

/// Runtime hexadecimal-digit decoder; mirrors `char::to_digit(16)`.
pub fn hex_digit(c: char) -> (r: Option<u32>)
    ensures
        r is Some <==> is_hex_digit(c),
        r is Some ==> r == Some(hex_val(c) as u32) && hex_val(c) < 16,
{
    let u = c as u32;
    if '0' as u32 <= u && u <= '9' as u32 {
        Some(u - '0' as u32)
    } else if 'a' as u32 <= u && u <= 'f' as u32 {
        Some(u - 'a' as u32 + 10)
    } else if 'A' as u32 <= u && u <= 'F' as u32 {
        Some(u - 'A' as u32 + 10)
    } else {
        None
    }
}

// ----------------------------------------------------------------------
// trimming
// ----------------------------------------------------------------------

/// The sequence with its leading ASCII whitespace removed.
pub open spec fn trim_start_spec(s: Seq<char>) -> Seq<char>
    decreases s.len(),
{
    if s.len() > 0 && is_ascii_ws(s[0]) {
        trim_start_spec(s.drop_first())
    } else {
        s
    }
}

/// The sequence with its trailing ASCII whitespace removed.
pub open spec fn trim_end_spec(s: Seq<char>) -> Seq<char>
    decreases s.len(),
{
    if s.len() > 0 && is_ascii_ws(s.last()) {
        trim_end_spec(s.drop_last())
    } else {
        s
    }
}

/// The sequence with ASCII whitespace removed from both ends.
pub open spec fn trim_spec(s: Seq<char>) -> Seq<char> {
    trim_end_spec(trim_start_spec(s))
}

pub proof fn lemma_trim_start_skip(s: Seq<char>, lo: int)
    requires
        0 <= lo <= s.len(),
        forall|i: int| 0 <= i < lo ==> is_ascii_ws(s[i]),
        lo == s.len() || !is_ascii_ws(s[lo]),
    ensures
        trim_start_spec(s) == s.skip(lo),
    decreases lo,
{
    if lo == 0 {
        assert(s.skip(0) =~= s);
    } else {
        assert(is_ascii_ws(s[0]));
        lemma_trim_start_skip(s.drop_first(), lo - 1);
        assert(s.drop_first().skip(lo - 1) =~= s.skip(lo));
    }
}

proof fn lemma_trim_end_take(s: Seq<char>, hi: int)
    requires
        0 <= hi <= s.len(),
        forall|i: int| hi <= i < s.len() ==> is_ascii_ws(s[i]),
        hi == 0 || !is_ascii_ws(s[hi - 1]),
    ensures
        trim_end_spec(s) == s.take(hi),
    decreases s.len() - hi,
{
    if hi == s.len() {
        assert(s.take(hi) =~= s);
    } else {
        assert(is_ascii_ws(s.last()));
        lemma_trim_end_take(s.drop_last(), hi);
        assert(s.drop_last().take(hi) =~= s.take(hi));
    }
}

/// Copies `s` with ASCII whitespace trimmed from both ends.
pub fn trim_chars(s: &[char]) -> (r: Vec<char>)
    ensures
        r@ == trim_spec(s@),
{
    let n = s.len();
    let mut lo: usize = 0;
    while lo < n && ascii_ws(s[lo])
        invariant
            0 <= lo <= n == s@.len(),
            forall|i: int| 0 <= i < lo ==> is_ascii_ws(s@[i]),
        decreases n - lo,
    {
        lo = lo + 1;
    }
    proof {
        lemma_trim_start_skip(s@, lo as int);
    }
    let mut hi: usize = n;
    while hi > lo && ascii_ws(s[hi - 1])
        invariant
            lo <= hi <= n == s@.len(),
            forall|i: int| hi <= i < n ==> is_ascii_ws(s@[i]),
        decreases hi,
    {
        hi = hi - 1;
    }
    proof {
        let t = s@.skip(lo as int);
        lemma_trim_end_take(t, hi - lo);
        assert(t.take(hi - lo) =~= s@.subrange(lo as int, hi as int));
    }
    let mut r: Vec<char> = Vec::new();
    let mut i: usize = lo;
    while i < hi
        invariant
            lo <= i <= hi <= s@.len(),
            r@ == s@.subrange(lo as int, i as int),
        decreases hi - i,
    {
        r.push(s[i]);
        proof {
            assert(s@.subrange(lo as int, i + 1) =~= s@.subrange(lo as int, i as int).push(
                s@[i as int],
            ));
        }
        i = i + 1;
    }
    r
}

/// Copies `s` with leading ASCII whitespace trimmed.
pub fn trim_start_chars(s: &[char]) -> (r: Vec<char>)
    ensures
        r@ == trim_start_spec(s@),
{
    let n = s.len();
    let mut lo: usize = 0;
    while lo < n && ascii_ws(s[lo])
        invariant
            0 <= lo <= n == s@.len(),
            forall|i: int| 0 <= i < lo ==> is_ascii_ws(s@[i]),
        decreases n - lo,
    {
        lo = lo + 1;
    }
    proof {
        lemma_trim_start_skip(s@, lo as int);
    }
    let mut r: Vec<char> = Vec::new();
    let mut i: usize = lo;
    while i < n
        invariant
            lo <= i <= n == s@.len(),
            r@ == s@.subrange(lo as int, i as int),
        decreases n - i,
    {
        r.push(s[i]);
        proof {
            assert(s@.subrange(lo as int, i + 1) =~= s@.subrange(lo as int, i as int).push(
                s@[i as int],
            ));
        }
        i = i + 1;
    }
    proof {
        assert(s@.subrange(lo as int, n as int) =~= s@.skip(lo as int));
    }
    r
}

// ----------------------------------------------------------------------
// unsigned and signed decimal numbers
// ----------------------------------------------------------------------

/// Whether every character of `s` is a decimal digit.
pub open spec fn all_dec_digits(s: Seq<char>) -> bool {
    forall|i: int| 0 <= i < s.len() ==> is_dec_digit(s[i])
}

/// The value of a digit string, most significant digit first.
pub open spec fn dec_digits_val(s: Seq<char>) -> nat
    decreases s.len(),
{
    if s.len() == 0 {
        0
    } else {
        dec_digits_val(s.drop_last()) * 10 + dec_val(s.last())
    }
}

proof fn lemma_dec_digits_val_take_le(s: Seq<char>, i: int)
    requires
        0 <= i <= s.len(),
    ensures
        dec_digits_val(s.take(i)) <= dec_digits_val(s),
    decreases s.len(),
{
    if i < s.len() {
        assert(s.drop_last().take(i) =~= s.take(i));
        lemma_dec_digits_val_take_le(s.drop_last(), i);
    } else {
        assert(s.take(i) =~= s);
    }
}

/// The digit run of an unsigned number token (an optional leading `+`
/// stripped).
pub open spec fn unsigned_digits(s: Seq<char>) -> Seq<char> {
    if s.len() > 0 && s[0] == '+' {
        s.drop_first()
    } else {
        s
    }
}

/// Whether `s` is a well-formed unsigned decimal token: an optional `+`
/// followed by at least one digit and nothing else.
pub open spec fn unsigned_wf(s: Seq<char>) -> bool {
    unsigned_digits(s).len() >= 1 && all_dec_digits(unsigned_digits(s))
}

/// What `str::parse::<u64>` returns on `s`.
pub open spec fn parse_u64_spec(s: Seq<char>) -> Option<u64> {
    if unsigned_wf(s) && dec_digits_val(unsigned_digits(s)) <= u64::MAX {
        Some(dec_digits_val(unsigned_digits(s)) as u64)
    } else {
        None
    }
}

/// Parses `s[from..]` as a non-empty run of decimal digits.
fn parse_dec_run(s: &[char], from: usize) -> (r: Option<u64>)
    requires
        from <= s@.len(),
    ensures
        ({
            let digits = s@.skip(from as int);
            match r {
                Some(v) => digits.len() >= 1 && all_dec_digits(digits) && dec_digits_val(digits)
                    == v,
                None => digits.len() == 0 || !all_dec_digits(digits) || dec_digits_val(digits)
                    > u64::MAX,
            }
        }),
{
    let ghost digits = s@.skip(from as int);
    let n = s.len();
    if from == n {
        return None;
    }
    let mut acc: u64 = 0;
    let mut i: usize = from;
    while i < n
        invariant
            from <= i <= n == s@.len(),
            digits == s@.skip(from as int),
            forall|j: int| from <= j < i ==> is_dec_digit(s@[j]),
            acc == dec_digits_val(s@.subrange(from as int, i as int)),
        decreases n - i,
    {
        let d: u32 = match dec_digit(s[i]) {
            Some(d) => d,
            None => {
                proof {
                    assert(!is_dec_digit(digits[i - from]));
                }
                return None;
            },
        };
        let d64: u64 = d as u64;
        proof {
            assert(s@.subrange(from as int, i + 1).drop_last() =~= s@.subrange(
                from as int,
                i as int,
            ));
            assert(s@.subrange(from as int, i + 1).last() == s@[i as int]);
        }
        if acc > (u64::MAX - d64) / 10 {
            proof {
                let m = (u64::MAX - d64) as int;
                assert(acc * 10 > m) by (nonlinear_arith)
                    requires
                        acc > m / 10,
                        m >= 0,
                        acc >= 0,
                        m == 10 * (m / 10) + m % 10,
                        0 <= m % 10 < 10,
                ;
                assert(dec_digits_val(s@.subrange(from as int, i + 1)) > u64::MAX);
                if all_dec_digits(digits) {
                    assert(digits.take(i + 1 - from) =~= s@.subrange(from as int, i + 1));
                    lemma_dec_digits_val_take_le(digits, i + 1 - from);
                }
            }
            return None;
        }
        proof {
            let m = (u64::MAX - d64) as int;
            assert(acc * 10 <= m - m % 10) by (nonlinear_arith)
                requires
                    acc <= m / 10,
                    m >= 0,
                    acc >= 0,
                    m == 10 * (m / 10) + m % 10,
                    0 <= m % 10 < 10,
            ;
        }
        acc = acc * 10 + d64;
        i = i + 1;
    }
    proof {
        assert(s@.subrange(from as int, n as int) =~= digits);
    }
    Some(acc)
}

/// Mirrors `str::parse::<u64>`.
pub fn parse_u64_chars(s: &[char]) -> (r: Option<u64>)
    ensures
        r == parse_u64_spec(s@),
{
    if s.len() == 0 {
        return None;
    }
    let start: usize = if s[0] == '+' {
        1
    } else {
        0
    };
    proof {
        assert(unsigned_digits(s@) =~= s@.skip(start as int));
    }
    parse_dec_run(s, start)
}

/// What `str::parse::<u32>` returns on `s`.
pub open spec fn parse_u32_spec(s: Seq<char>) -> Option<u32> {
    if unsigned_wf(s) && dec_digits_val(unsigned_digits(s)) <= u32::MAX {
        Some(dec_digits_val(unsigned_digits(s)) as u32)
    } else {
        None
    }
}

/// Mirrors `str::parse::<u32>`.
pub fn parse_u32_chars(s: &[char]) -> (r: Option<u32>)
    ensures
        r == parse_u32_spec(s@),
{
    match parse_u64_chars(s) {
        Some(v) => if v <= u32::MAX as u64 {
            Some(v as u32)
        } else {
            None
        },
        None => None,
    }
}

/// What `str::parse::<u8>` returns on `s`.
pub open spec fn parse_u8_spec(s: Seq<char>) -> Option<u8> {
    if unsigned_wf(s) && dec_digits_val(unsigned_digits(s)) <= u8::MAX {
        Some(dec_digits_val(unsigned_digits(s)) as u8)
    } else {
        None
    }
}

/// Mirrors `str::parse::<u8>`.
pub fn parse_u8_chars(s: &[char]) -> (r: Option<u8>)
    ensures
        r == parse_u8_spec(s@),
{
    match parse_u64_chars(s) {
        Some(v) => if v <= u8::MAX as u64 {
            Some(v as u8)
        } else {
            None
        },
        None => None,
    }
}

/// The digit run of a signed number token (an optional leading `+` or `-`
/// stripped).
pub open spec fn signed_digits(s: Seq<char>) -> Seq<char> {
    if s.len() > 0 && (s[0] == '+' || s[0] == '-') {
        s.drop_first()
    } else {
        s
    }
}

/// Whether `s` is a well-formed signed decimal token.
pub open spec fn signed_wf(s: Seq<char>) -> bool {
    signed_digits(s).len() >= 1 && all_dec_digits(signed_digits(s))
}

/// The mathematical value of a signed decimal token.
pub open spec fn signed_val(s: Seq<char>) -> int {
    if s.len() > 0 && s[0] == '-' {
        -(dec_digits_val(signed_digits(s)) as int)
    } else {
        dec_digits_val(signed_digits(s)) as int
    }
}

/// What `str::parse::<i32>` returns on `s`.
pub open spec fn parse_i32_spec(s: Seq<char>) -> Option<i32> {
    if signed_wf(s) && i32::MIN <= signed_val(s) <= i32::MAX {
        Some(signed_val(s) as i32)
    } else {
        None
    }
}

/// Mirrors `str::parse::<i32>`.
pub fn parse_i32_chars(s: &[char]) -> (r: Option<i32>)
    ensures
        r == parse_i32_spec(s@),
{
    if s.len() == 0 {
        return None;
    }
    let neg = s[0] == '-';
    let start: usize = if s[0] == '-' || s[0] == '+' {
        1
    } else {
        0
    };
    proof {
        assert(signed_digits(s@) =~= s@.skip(start as int));
    }
    match parse_dec_run(s, start) {
        Some(m) => {
            if neg {
                if m <= 2147483648u64 {
                    if m == 2147483648u64 {
                        Some(i32::MIN)
                    } else {
                        Some(-(m as i32))
                    }
                } else {
                    None
                }
            } else {
                if m <= 2147483647u64 {
                    Some(m as i32)
                } else {
                    None
                }
            }
        },
        None => None,
    }
}

// ----------------------------------------------------------------------
// booleans
// ----------------------------------------------------------------------

/// The token `true`.
pub open spec fn true_chars() -> Seq<char> {
    seq!['t', 'r', 'u', 'e']
}

/// The token `false`.
pub open spec fn false_chars() -> Seq<char> {
    seq!['f', 'a', 'l', 's', 'e']
}

/// What `str::parse::<bool>` returns on `s`: only the exact literal
/// tokens are accepted.
pub open spec fn parse_bool_spec(s: Seq<char>) -> Option<bool> {
    if s == true_chars() {
        Some(true)
    } else if s == false_chars() {
        Some(false)
    } else {
        None
    }
}

/// Mirrors `str::parse::<bool>`.
pub fn parse_bool_chars(s: &[char]) -> (r: Option<bool>)
    ensures
        r == parse_bool_spec(s@),
{
    if s.len() == 4 && s[0] == 't' && s[1] == 'r' && s[2] == 'u' && s[3] == 'e' {
        proof {
            assert(s@ =~= true_chars());
        }
        Some(true)
    } else if s.len() == 5 && s[0] == 'f' && s[1] == 'a' && s[2] == 'l' && s[3] == 's' && s[4]
        == 'e' {
        proof {
            assert(s@ =~= false_chars());
        }
        Some(false)
    } else {
        proof {
            if s@ == true_chars() {
                assert(s@.len() == 4 && s@[0] == 't' && s@[1] == 'r' && s@[2] == 'u' && s@[3]
                    == 'e');
            }
            if s@ == false_chars() {
                assert(s@.len() == 5 && s@[0] == 'f' && s@[1] == 'a' && s@[2] == 'l' && s@[3] == 's'
                    && s@[4] == 'e');
            }
        }
        None
    }
}

// ----------------------------------------------------------------------
// decimal rendering
// ----------------------------------------------------------------------

/// The character of one decimal digit (`'0'` outside the digit range).
pub open spec fn dec_char(d: nat) -> char {
    if d == 1 {
        '1'
    } else if d == 2 {
        '2'
    } else if d == 3 {
        '3'
    } else if d == 4 {
        '4'
    } else if d == 5 {
        '5'
    } else if d == 6 {
        '6'
    } else if d == 7 {
        '7'
    } else if d == 8 {
        '8'
    } else if d == 9 {
        '9'
    } else {
        '0'
    }
}

/// The usual decimal rendering of `n`: no sign, no leading zeros except
/// for `0` itself.
pub open spec fn dec_str(n: nat) -> Seq<char>
    decreases n,
{
    if n < 10 {
        seq![dec_char(n)]
    } else {
        dec_str(n / 10) + seq![dec_char(n % 10)]
    }
}

/// Appends the decimal rendering of `n` to `out`.
pub fn push_dec(n: u64, out: &mut Vec<char>)
    ensures
        final(out)@ == old(out)@ + dec_str(n as nat),
    decreases n,
{
    if n < 10 {
        out.push(dec_digit_char((n % 10) as u32));
    } else {
        push_dec(n / 10, out);
        out.push(dec_digit_char((n % 10) as u32));
    }
}

/// The character of one decimal digit value.
fn dec_digit_char(d: u32) -> (r: char)
    requires
        d < 10,
    ensures
        r == dec_char(d as nat),
{
    if d == 1 {
        '1'
    } else if d == 2 {
        '2'
    } else if d == 3 {
        '3'
    } else if d == 4 {
        '4'
    } else if d == 5 {
        '5'
    } else if d == 6 {
        '6'
    } else if d == 7 {
        '7'
    } else if d == 8 {
        '8'
    } else if d == 9 {
        '9'
    } else {
        '0'
    }
}

/// Every character of a decimal rendering is a digit, and the rendering
/// evaluates back to the number it renders.
pub proof fn lemma_dec_str_val(n: nat)
    ensures
        all_dec_digits(dec_str(n)),
        dec_digits_val(dec_str(n)) == n,
    decreases n,
{
    if n < 10 {
        assert(dec_str(n) =~= seq![dec_char(n)]);
        assert(dec_str(n).drop_last() =~= Seq::<char>::empty());
        assert(is_dec_digit(dec_char(n)) && dec_val(dec_char(n)) == n);
        assert(dec_digits_val(dec_str(n)) == dec_digits_val(Seq::<char>::empty()) * 10 + dec_val(
            dec_char(n),
        ));
    } else {
        lemma_fundamental_div_mod(n as int, 10);
        lemma_dec_str_val(n / 10);
        let front = dec_str(n / 10);
        let w = front + seq![dec_char(n % 10)];
        assert(dec_str(n) == w);
        assert(w.drop_last() =~= front);
        assert(w.last() == dec_char(n % 10));
        assert(is_dec_digit(dec_char(n % 10)) && dec_val(dec_char(n % 10)) == n % 10);
        assert(dec_digits_val(w) == dec_digits_val(w.drop_last()) * 10 + dec_val(w.last()));
        assert(dec_digits_val(w) == (n / 10) * 10 + (n % 10));
        assert(forall|i: int| 0 <= i < w.len() ==> is_dec_digit(#[trigger] w[i])) by {
            assert(forall|i: int| 0 <= i < front.len() ==> is_dec_digit(#[trigger] front[i]));
            assert(forall|i: int|
                0 <= i < w.len() ==> #[trigger] w[i] == if i < front.len() {
                    front[i]
                } else {
                    dec_char(n % 10)
                });
        }
    }
}

/// Distinct numbers have distinct decimal renderings.
pub proof fn lemma_dec_str_injective(a: nat, b: nat)
    requires
        dec_str(a) == dec_str(b),
    ensures
        a == b,
{
    lemma_dec_str_val(a);
    lemma_dec_str_val(b);
}

// ----------------------------------------------------------------------
// splitting on a delimiter
// ----------------------------------------------------------------------

/// Whether the delimiter `d` occurs in `s` at position `i`.
pub open spec fn match_at(s: Seq<char>, d: Seq<char>, i: int) -> bool {
    0 <= i && i + d.len() <= s.len() && s.subrange(i, i + d.len()) == d
}

/// `parts` with `c` prepended to its first element.
pub open spec fn prepend_first(c: Seq<char>, parts: Seq<Seq<char>>) -> Seq<Seq<char>> {
    parts.update(0, c + parts[0])
}

/// What `str::split(d)` yields on `s`, in order, for a non-empty
/// delimiter `d`: fields between non-overlapping leftmost delimiter
/// occurrences, empty fields included.
pub open spec fn split_spec(s: Seq<char>, d: Seq<char>) -> Seq<Seq<char>>
    decreases s.len(),
{
    if s.len() == 0 {
        seq![s]
    } else if 0 < d.len() <= s.len() && s.subrange(0, d.len() as int) == d {
        seq![Seq::<char>::empty()] + split_spec(s.skip(d.len() as int), d)
    } else {
        prepend_first(seq![s[0]], split_spec(s.drop_first(), d))
    }
}

/// A split yields at most one field more than the text has characters.
pub proof fn lemma_split_count(s: Seq<char>, d: Seq<char>)
    requires
        d.len() >= 1,
    ensures
        split_spec(s, d).len() <= s.len() + 1,
    decreases s.len(),
{
    if s.len() == 0 {
    } else if 0 < d.len() <= s.len() && s.subrange(0, d.len() as int) == d {
        lemma_split_count(s.skip(d.len() as int), d);
        assert(split_spec(s, d).len() == 1 + split_spec(s.skip(d.len() as int), d).len());
    } else {
        lemma_split_count(s.drop_first(), d);
        lemma_split_len_pos(s.drop_first(), d);
        let t = split_spec(s.drop_first(), d);
        assert(split_spec(s, d) == prepend_first(seq![s[0]], t));
        assert(t.update(0, seq![s[0]] + t[0]).len() == t.len());
        assert(split_spec(s, d).len() == t.len());
    }
}

/// A split always yields at least one field.
pub proof fn lemma_split_len_pos(s: Seq<char>, d: Seq<char>)
    ensures
        split_spec(s, d).len() >= 1,
    decreases s.len(),
{
    if s.len() == 0 {
    } else if 0 < d.len() <= s.len() && s.subrange(0, d.len() as int) == d {
        lemma_split_len_pos(s.skip(d.len() as int), d);
    } else {
        lemma_split_len_pos(s.drop_first(), d);
    }
}

/// Runtime test for [`match_at`].
fn delim_at(s: &[char], d: &[char], i: usize) -> (r: bool)
    requires
        i <= s@.len(),
    ensures
        r == match_at(s@, d@, i as int),
{
    let n = s.len();
    let dl = d.len();
    if dl > n - i {
        return false;
    }
    let mut j: usize = 0;
    while j < dl
        invariant
            0 <= j <= dl == d@.len(),
            i + dl <= n == s@.len(),
            forall|k: int| 0 <= k < j ==> s@[i + k] == d@[k],
        decreases dl - j,
    {
        if s[i + j] != d[j] {
            proof {
                assert(s@.subrange(i as int, i + dl) != d@) by {
                    assert(s@.subrange(i as int, i + dl)[j as int] == s@[i + j]);
                }
            }
            return false;
        }
        j = j + 1;
    }
    proof {
        assert(s@.subrange(i as int, i + dl) =~= d@);
    }
    true
}

/// Splits `s` on the delimiter `d`, as `str::split` does.
pub fn split_on(s: &[char], d: &[char]) -> (r: Vec<Vec<char>>)
    requires
        d@.len() >= 1,
    ensures
        r@.len() == split_spec(s@, d@).len(),
        forall|i: int| 0 <= i < r@.len() ==> r@[i]@ == split_spec(s@, d@)[i],
{
    let ghost target = split_spec(s@, d@);
    let n = s.len();
    let dl = d.len();
    let mut out: Vec<Vec<char>> = Vec::new();
    let mut cur: Vec<char> = Vec::new();
    let mut i: usize = 0;
    proof {
        assert(s@.skip(0) =~= s@);
        lemma_split_len_pos(s@, d@);
        assert(out@.map_values(|x: Vec<char>| x@) =~= Seq::<Seq<char>>::empty());
        assert(Seq::<char>::empty() + target[0] =~= target[0]);
        assert(prepend_first(cur@, split_spec(s@, d@)) =~= target);
    }
    while i < n
        invariant
            0 <= i <= n == s@.len(),
            dl == d@.len(),
            dl >= 1,
            target == split_spec(s@, d@),
            target =~= out@.map_values(|x: Vec<char>| x@) + prepend_first(
                cur@,
                split_spec(s@.skip(i as int), d@),
            ),
        decreases n - i,
    {
        let ghost rest = s@.skip(i as int);
        let ghost pview = out@.map_values(|x: Vec<char>| x@);
        if delim_at(s, d, i) {
            proof {
                assert(rest.len() > 0);
                assert(rest.subrange(0, dl as int) =~= s@.subrange(i as int, i + dl));
                assert(rest.skip(dl as int) =~= s@.skip(i + dl));
                let tail = split_spec(s@.skip(i + dl), d@);
                lemma_split_len_pos(s@.skip(i + dl), d@);
                assert(split_spec(rest, d@) == seq![Seq::<char>::empty()] + tail);
                assert((seq![Seq::<char>::empty()] + tail)[0] == Seq::<char>::empty());
                assert(prepend_first(cur@, split_spec(rest, d@)) =~= seq![cur@] + tail);
                assert(prepend_first(Seq::<char>::empty(), tail) =~= tail);
                assert((out@.push(cur)).map_values(|x: Vec<char>| x@) =~= pview + seq![cur@]);
                assert(pview + (seq![cur@] + tail) =~= (pview + seq![cur@]) + tail);
            }
            out.push(cur);
            cur = Vec::new();
            i = i + dl;
        } else {
            let c = s[i];
            proof {
                assert(rest.len() > 0);
                assert(rest[0] == s@[i as int]);
                if 0 < dl <= rest.len() && rest.subrange(0, dl as int) == d@ {
                    assert(rest.subrange(0, dl as int) =~= s@.subrange(i as int, i + dl));
                    assert(match_at(s@, d@, i as int));
                }
                let tail = split_spec(rest.drop_first(), d@);
                lemma_split_len_pos(rest.drop_first(), d@);
                assert(split_spec(rest, d@) == prepend_first(seq![rest[0]], tail));
                assert(rest.drop_first() =~= s@.skip(i + 1));
                assert(prepend_first(cur@, prepend_first(seq![c], tail)) =~= prepend_first(
                    cur@.push(c),
                    tail,
                )) by {
                    assert(prepend_first(seq![c], tail)[0] == seq![c] + tail[0]);
                    assert(cur@ + (seq![c] + tail[0]) =~= cur@.push(c) + tail[0]);
                }
                assert((cur@.push(c)) =~= cur@ + seq![c]);
            }
            cur.push(c);
            i = i + 1;
        }
    }
    proof {
        let rest = s@.skip(n as int);
        assert(rest =~= Seq::<char>::empty());
        assert(split_spec(rest, d@) == seq![rest]);
        assert(prepend_first(cur@, split_spec(rest, d@)) =~= seq![cur@]);
        assert((out@.push(cur)).map_values(|x: Vec<char>| x@) =~= out@.map_values(
            |x: Vec<char>| x@,
        ) + seq![cur@]);
    }
    out.push(cur);
    proof {
        let rview = out@.map_values(|x: Vec<char>| x@);
        assert(target =~= rview);
        assert(forall|i: int| 0 <= i < out@.len() ==> rview[i] == #[trigger] out@[i]@);
    }
    out
}

/// The primary 2-character field delimiter of entity records.
pub open spec fn angle_delim() -> Seq<char> {
    seq!['<', '>']
}

/// The fields of one entity record: the parts of `s` between `<>` tokens.
pub open spec fn angle_fields(s: Seq<char>) -> Seq<Seq<char>> {
    split_spec(s, angle_delim())
}

/// Splits `s` on a delimiter given as a string literal.
pub fn split_str(s: &[char], d: &str) -> (r: Vec<Vec<char>>)
    requires
        d@.len() >= 1,
    ensures
        r@.len() == split_spec(s@, d@).len(),
        forall|i: int| 0 <= i < r@.len() ==> r@[i]@ == split_spec(s@, d@)[i],
{
    let dc = chars_of(d);
    split_on(s, dc.as_slice())
}

// ----------------------------------------------------------------------
// strings and character vectors
// ----------------------------------------------------------------------

/// The characters of `s`, in order.
pub fn chars_of(s: &str) -> (r: Vec<char>)
    ensures
        r@ == s@,
{
    let mut r: Vec<char> = Vec::new();
    for c in it: s.chars()
        invariant
            it.seq() == s@,
            r@ == it.seq().take(it.index() as int),
    {
        proof {
            assert(it.seq().take(it.index() + 1) =~= it.seq().take(it.index() as int).push(
                it.seq()[it.index() as int],
            ));
        }
        r.push(c);
    }
    proof {
        assert(s@.take(s@.len() as int) =~= s@);
    }
    r
}

/// Appends one character to a `String`.
///
/// Relies on `String::push`: the pushed character becomes the new last
/// character and nothing else changes.
#[verifier::external_body]
pub fn push_char(s: &mut String, c: char)
    ensures
        final(s)@ == old(s)@ + seq![c],
{
    s.push(c);
}

/// Builds a `String` holding exactly the given characters.
pub fn string_from_chars(v: &[char]) -> (r: String)
    ensures
        r@ == v@,
{
    let mut r = String::new();
    let n = v.len();
    let mut i: usize = 0;
    while i < n
        invariant
            0 <= i <= n == v@.len(),
            r@ == v@.take(i as int),
        decreases n - i,
    {
        push_char(&mut r, v[i]);
        proof {
            assert(v@.take(i + 1) =~= v@.take(i as int) + seq![v@[i as int]]);
        }
        i = i + 1;
    }
    proof {
        assert(v@.take(n as int) =~= v@);
    }
    r
}

/// Copies the characters of `s` between positions `a` and `b`.
pub fn copy_range(s: &[char], a: usize, b: usize) -> (r: Vec<char>)
    requires
        a <= b <= s@.len(),
    ensures
        r@ == s@.subrange(a as int, b as int),
{
    let mut r: Vec<char> = Vec::new();
    let mut i: usize = a;
    while i < b
        invariant
            a <= i <= b <= s@.len(),
            r@ == s@.subrange(a as int, i as int),
        decreases b - i,
    {
        r.push(s[i]);
        proof {
            assert(s@.subrange(a as int, i + 1) =~= s@.subrange(a as int, i as int).push(
                s@[i as int],
            ));
        }
        i = i + 1;
    }
    r
}

/// Copies a whole character slice.
pub fn copy_chars(s: &[char]) -> (r: Vec<char>)
    ensures
        r@ == s@,
{
    let r = copy_range(s, 0, s.len());
    proof {
        assert(s@.subrange(0, s@.len() as int) =~= s@);
    }
    r
}

/// Whether two character slices hold the same characters.
pub fn chars_eq(a: &[char], b: &[char]) -> (r: bool)
    ensures
        r == (a@ == b@),
{
    let n = a.len();
    if n != b.len() {
        return false;
    }
    let mut i: usize = 0;
    while i < n
        invariant
            0 <= i <= n == a@.len() == b@.len(),
            forall|j: int| 0 <= j < i ==> a@[j] == b@[j],
        decreases n - i,
    {
        if a[i] != b[i] {
            return false;
        }
        i = i + 1;
    }
    proof {
        assert(a@ =~= b@);
    }
    true
}

// ----------------------------------------------------------------------
// comma-separated integer lists
// ----------------------------------------------------------------------

/// The comma-separated fields of `s`.
pub open spec fn comma_fields(s: Seq<char>) -> Seq<Seq<char>> {
    split_spec(s, seq![','])
}

/// Whether every comma-separated field of `s` parses as `u32`.
pub open spec fn u32_list_ok(s: Seq<char>) -> bool {
    forall|i: int|
        0 <= i < comma_fields(s).len() ==> parse_u32_spec(#[trigger] comma_fields(s)[i]) is Some
}

/// The `u32` values of the comma-separated fields of `s`.
pub open spec fn u32_list_val(s: Seq<char>) -> Seq<u32> {
    Seq::new(comma_fields(s).len(), |i: int| parse_u32_spec(comma_fields(s)[i])->0)
}

/// Parses a comma-separated list of `u32` values; the empty string is one
/// (empty, malformed) field.
pub fn parse_u32_list(s: &[char]) -> (r: Option<Vec<u32>>)
    ensures
        match r {
            Some(v) => u32_list_ok(s@) && v@ == u32_list_val(s@),
            None => !u32_list_ok(s@),
        },
{
    let mut delim: Vec<char> = Vec::new();
    delim.push(',');
    proof {
        assert(delim@ =~= seq![',']);
    }
    let parts = split_on(s, delim.as_slice());
    let mut out: Vec<u32> = Vec::new();
    let n = parts.len();
    let mut i: usize = 0;
    while i < n
        invariant
            0 <= i <= n == parts@.len(),
            n == comma_fields(s@).len(),
            forall|j: int| 0 <= j < n ==> parts@[j]@ == #[trigger] comma_fields(s@)[j],
            out@.len() == i,
            forall|j: int|
                0 <= j < i ==> parse_u32_spec(#[trigger] comma_fields(s@)[j]) == Some(out@[j]),
        decreases n - i,
    {
        match parse_u32_chars(parts[i].as_slice()) {
            Some(v) => {
                out.push(v);
            },
            None => {
                proof {
                    assert(parse_u32_spec(comma_fields(s@)[i as int]) is None);
                }
                return None;
            },
        }
        i = i + 1;
    }
    proof {
        assert(out@ =~= u32_list_val(s@));
    }
    Some(out)
}

/// Whether every comma-separated field of `s` parses as `i32`.
pub open spec fn i32_list_ok(s: Seq<char>) -> bool {
    forall|i: int|
        0 <= i < comma_fields(s).len() ==> parse_i32_spec(#[trigger] comma_fields(s)[i]) is Some
}

/// The `i32` values of the comma-separated fields of `s`.
pub open spec fn i32_list_val(s: Seq<char>) -> Seq<i32> {
    Seq::new(comma_fields(s).len(), |i: int| parse_i32_spec(comma_fields(s)[i])->0)
}

/// Parses a comma-separated list of `i32` values.
pub fn parse_i32_list(s: &[char]) -> (r: Option<Vec<i32>>)
    ensures
        match r {
            Some(v) => i32_list_ok(s@) && v@ == i32_list_val(s@),
            None => !i32_list_ok(s@),
        },
{
    let mut delim: Vec<char> = Vec::new();
    delim.push(',');
    proof {
        assert(delim@ =~= seq![',']);
    }
    let parts = split_on(s, delim.as_slice());
    let mut out: Vec<i32> = Vec::new();
    let n = parts.len();
    let mut i: usize = 0;
    while i < n
        invariant
            0 <= i <= n == parts@.len(),
            n == comma_fields(s@).len(),
            forall|j: int| 0 <= j < n ==> parts@[j]@ == #[trigger] comma_fields(s@)[j],
            out@.len() == i,
            forall|j: int|
                0 <= j < i ==> parse_i32_spec(#[trigger] comma_fields(s@)[j]) == Some(out@[j]),
        decreases n - i,
    {
        match parse_i32_chars(parts[i].as_slice()) {
            Some(v) => {
                out.push(v);
            },
            None => {
                proof {
                    assert(parse_i32_spec(comma_fields(s@)[i as int]) is None);
                }
                return None;
            },
        }
        i = i + 1;
    }
    proof {
        assert(out@ =~= i32_list_val(s@));
    }
    Some(out)
}

} // verus!
