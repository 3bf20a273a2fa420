//! Text helpers shared by the rest of the library.

use vstd::prelude::*;
use vstd::string::*;
use vstd::utf8::*;

verus! {

/// The text of an optional string.
pub open spec fn opt_text(o: Option<String>) -> Option<Seq<char>> {
    match o {
        Some(s) => Some(s@),
        None => None,
    }
}

/// A result with both of its sides seen through their views.
pub open spec fn result_view<T: View, E: View>(r: Result<T, E>) -> Result<T::V, E::V> {
    match r {
        Ok(t) => Ok(t@),
        Err(e) => Err(e@),
    }
}

/// The texts of a sequence of strings, in order.
pub open spec fn texts(v: Seq<String>) -> Seq<Seq<char>> {
    Seq::new(v.len(), |i: int| v[i]@)
}

/// `parts` written one after another with `sep` between neighbours.
pub open spec fn joined(parts: Seq<Seq<char>>, sep: Seq<char>) -> Seq<char>
    decreases parts.len(),
{
    if parts.len() == 0 {
        Seq::empty()
    } else if parts.len() == 1 {
        parts[0]
    } else {
        joined(parts.drop_last(), sep) + sep + parts.last()
    }
}

/// `first` if it is there, else `second`.
pub open spec fn first_of(first: Option<Seq<char>>, second: Option<Seq<char>>) -> Option<Seq<char>> {
    if first is Some {
        first
    } else {
        second
    }
}

/// Whether `s` begins with `prefix`.
pub open spec fn starts_with<T>(s: Seq<T>, prefix: Seq<T>) -> bool {
    prefix.len() <= s.len() && s.subrange(0, prefix.len() as int) == prefix
}

/// Whether two strings hold the same text.
pub fn str_eq(a: &str, b: &str) -> (r: bool)
    ensures
        r == (a@ == b@),
{
    let x = a.as_bytes();
    let y = b.as_bytes();
    proof {
        encode_utf8_decode_utf8(a@);
        encode_utf8_decode_utf8(b@);
    }
    if x.len() != y.len() {
        return false;
    }
    let mut i: usize = 0;
    while i < x.len()
        invariant
            i <= x@.len(),
            x@.len() == y@.len(),
            x@ == a.spec_bytes(),
            y@ == b.spec_bytes(),
            forall|j: int| 0 <= j < i ==> x@[j] == y@[j],
        decreases x@.len() - i,
    {
        if x[i] != y[i] {
            return false;
        }
        i += 1;
    }
    assert(x@ =~= y@);
    true
}

/// The number of bytes that a string takes.
pub fn byte_len(s: &str) -> (n: usize)
    ensures
        n == s.spec_bytes().len(),
{
    s.as_bytes().len()
}

/// A copy of an optional string.
pub fn clone_opt(o: &Option<String>) -> (r: Option<String>)
    ensures
        opt_text(r) == opt_text(*o),
{
    match o {
        Some(s) => Some(s.clone()),
        None => None,
    }
}

/// A copy of a list of strings.
pub fn clone_strings(v: &Vec<String>) -> (r: Vec<String>)
    ensures
        texts(r@) == texts(v@),
{
    let mut out: Vec<String> = Vec::new();
    let mut i: usize = 0;
    while i < v.len()
        invariant
            i <= v@.len(),
            out@.len() == i,
            forall|j: int| 0 <= j < i ==> out@[j]@ == v@[j]@,
        decreases v@.len() - i,
    {
        out.push(v[i].clone());
        i += 1;
    }
    assert(texts(out@) =~= texts(v@));
    out
}

/// The first of two optional strings that is present.
pub fn first_present(first: Option<String>, second: Option<String>) -> (r: Option<String>)
    ensures
        opt_text(r) == first_of(opt_text(first), opt_text(second)),
{
    match first {
        Some(s) => Some(s),
        None => second,
    }
}

/// Joins `parts` with `sep` between neighbours; the empty list gives the empty string.
pub fn join(parts: &Vec<String>, sep: &str) -> (r: String)
    ensures
        r@ == joined(texts(parts@), sep@),
{
    let mut out = String::new();
    let mut i: usize = 0;
    while i < parts.len()
        invariant
            i <= parts@.len(),
            out@ == joined(texts(parts@).take(i as int), sep@),
        decreases parts@.len() - i,
    {
        let ghost before = texts(parts@).take(i as int);
        let ghost after = texts(parts@).take(i as int + 1);
        assert(after.drop_last() =~= before);
        assert(after.last() == parts@[i as int]@);
        if i > 0 {
            out.append(sep);
        } else {
            assert(out@ + parts@[0]@ =~= parts@[0]@);
        }
        out.append(parts[i].as_str());
        i += 1;
    }
    assert(texts(parts@).take(parts@.len() as int) =~= texts(parts@));
    out
}

/// The name of the temporary file that is written before it takes the
/// place of the file named `file_name`; `fallback` names the file where
/// its path ends in no name.
pub open spec fn sibling_tmp_name(file_name: Option<Seq<char>>, fallback: Seq<char>) -> Seq<char> {
    match file_name {
        Some(name) => name + ".tmp"@,
        None => fallback + ".tmp"@,
    }
}

/// The name of the temporary sibling of a file: the file's name with
/// `.tmp` behind it.
pub fn tmp_sibling(file_name: Option<&str>, fallback: &str) -> (r: String)
    ensures
        r@ == sibling_tmp_name(
            match file_name {
                Some(name) => Some(name@),
                None => None,
            },
            fallback@,
        ),
{
    let mut out = match file_name {
        Some(name) => String::from_str(name),
        None => String::from_str(fallback),
    };
    out.append(".tmp");
    out
}

/// The character of a digit.
pub open spec fn digit_char(d: nat) -> char
    recommends
        d < 10,
{
    ((48 + d) as u8) as char
}

/// A number written in base ten.
pub open spec fn decimal_chars(n: nat) -> Seq<char>
    decreases n,
{
    if n < 10 {
        seq![digit_char(n)]
    } else {
        decimal_chars(n / 10).push(digit_char(n % 10))
    }
}

/// A number written in base ten, with a minus sign before it where it
/// is below zero.
pub open spec fn signed_chars(n: int) -> Seq<char> {
    if n < 0 {
        seq!['-'] + decimal_chars((-n) as nat)
    } else {
        decimal_chars(n as nat)
    }
}

/// The text of a digit.
fn digit_text(d: u64) -> (r: &'static str)
    requires
        d < 10,
    ensures
        r@ == seq![digit_char(d as nat)],
{
    proof {
        reveal_strlit("0");
        reveal_strlit("1");
        reveal_strlit("2");
        reveal_strlit("3");
        reveal_strlit("4");
        reveal_strlit("5");
        reveal_strlit("6");
        reveal_strlit("7");
        reveal_strlit("8");
        reveal_strlit("9");
    }
    let r = if d == 0 {
        "0"
    } else if d == 1 {
        "1"
    } else if d == 2 {
        "2"
    } else if d == 3 {
        "3"
    } else if d == 4 {
        "4"
    } else if d == 5 {
        "5"
    } else if d == 6 {
        "6"
    } else if d == 7 {
        "7"
    } else if d == 8 {
        "8"
    } else {
        "9"
    };
    assert(r@ =~= seq![digit_char(d as nat)]);
    r
}

/// Writes a number in base ten.
pub fn decimal_text(n: u64) -> (r: String)
    ensures
        r@ == decimal_chars(n as nat),
{
    let mut low: Vec<u64> = Vec::new();
    let mut rest = n;
    while rest >= 10
        invariant
            forall|j: int| 0 <= j < low@.len() ==> low@[j] < 10,
            decimal_chars(n as nat) == decimal_chars(rest as nat) + Seq::new(
                low@.len(),
                |j: int| digit_char(low@[low@.len() - 1 - j] as nat),
            ),
        decreases rest,
    {
        let ghost before = low@;
        let digit = rest % 10;
        low.push(digit);
        assert(decimal_chars(rest as nat) == decimal_chars((rest / 10) as nat).push(
            digit_char(digit as nat),
        ));
        assert(decimal_chars((rest / 10) as nat).push(digit_char(digit as nat)) + Seq::new(
            before.len(),
            |j: int| digit_char(before[before.len() - 1 - j] as nat),
        ) =~= decimal_chars((rest / 10) as nat) + Seq::new(
            low@.len(),
            |j: int| digit_char(low@[low@.len() - 1 - j] as nat),
        ));
        rest = rest / 10;
    }
    let mut out = String::from_str(digit_text(rest));
    let ghost digits = low@;
    let ghost total = low@.len();
    assert(out@ + Seq::new(
        total,
        |j: int| digit_char(digits[total - 1 - j] as nat),
    ).subrange(0, 0) =~= out@);
    while low.len() > 0
        invariant
            low@.len() <= total,
            total == digits.len(),
            low@ == digits.take(low@.len() as int),
            forall|j: int| 0 <= j < digits.len() ==> digits[j] < 10,
            out@ == decimal_chars(rest as nat) + Seq::new(
                total,
                |j: int| digit_char(digits[total - 1 - j] as nat),
            ).subrange(0, total - low@.len()),
        decreases low@.len(),
    {
        let ghost written = out@;
        let ghost left = low@.len();
        match low.pop() {
            Some(digit) => {
                assert(digit == digits[left - 1]);
                out.append(digit_text(digit));
                assert(low@ =~= digits.take(left - 1));
                assert(out@ =~= decimal_chars(rest as nat) + Seq::new(
                    total,
                    |j: int| digit_char(digits[total - 1 - j] as nat),
                ).subrange(0, total - left + 1));
            },
            None => {},
        }
    }
    assert(Seq::new(total, |j: int| digit_char(digits[total - 1 - j] as nat)).subrange(
        0,
        total as int,
    ) =~= Seq::new(total, |j: int| digit_char(digits[total - 1 - j] as nat)));
    out
}

/// Writes a number in base ten, with its sign where it is below zero.
pub fn signed_text(n: i64) -> (r: String)
    ensures
        r@ == signed_chars(n as int),
{
    if n < 0 {
        let magnitude: u64 = ((-(n + 1)) as u64) + 1;
        let mut out = String::from_str("-");
        proof {
            reveal_strlit("-");
        }
        assert("-"@ =~= seq!['-']);
        let digits = decimal_text(magnitude);
        out.append(digits.as_str());
        out
    } else {
        decimal_text(n as u64)
    }
}

/// Decodes bytes as UTF-8.
///
/// Trusted: `core::str::from_utf8` accepts exactly the well-formed UTF-8
/// byte strings, and the string it gives holds the bytes it was given.
#[verifier::external_body]
pub(crate) fn utf8_text(bytes: &[u8]) -> (r: Option<&str>)
    ensures
        r is Some <==> valid_utf8(bytes@),
        r matches Some(s) ==> s.spec_bytes() == bytes@,
{
    core::str::from_utf8(bytes).ok()
}

/// What `str::trim` leaves of a text: the text without the white space at
/// its two ends, white space being what Unicode calls `White_Space`.
pub uninterp spec fn trimmed(s: Seq<char>) -> Seq<char>;

/// Strips the white space at both ends of `s`.
///
/// Trusted: the result of `str::trim` is a function of the text alone.
#[verifier::external_body]
pub(crate) fn trim(s: &str) -> (r: &str)
    ensures
        r@ == trimmed(s@),
{
    s.trim()
}

/// Puts a character at the end of a string.
///
/// Trusted: `String::push` appends the character and changes nothing else.
#[verifier::external_body]
pub(crate) fn push_char(s: &mut String, c: char)
    ensures
        final(s)@ == old(s)@.push(c),
{
    s.push(c);
}

/// Takes the last character off a string, if it has one.
///
/// Trusted: `String::pop` removes the last character and returns it,
/// and leaves an empty string empty.
#[verifier::external_body]
pub(crate) fn pop_char(s: &mut String) -> (r: Option<char>)
    ensures
        old(s)@.len() == 0 ==> r is None && final(s)@ == old(s)@,
        old(s)@.len() > 0 ==> r == Some(old(s)@.last()) && final(s)@ == old(s)@.drop_last(),
{
    s.pop()
}

/// Whether `s` begins with `prefix`.
pub fn has_prefix(s: &str, prefix: &str) -> (r: bool)
    ensures
        r == starts_with(s@, prefix@),
{
    let n = prefix.unicode_len();
    if s.unicode_len() < n {
        return false;
    }
    let mut i: usize = 0;
    while i < n
        invariant
            i <= n,
            n == prefix@.len(),
            n <= s@.len(),
            forall|j: int| 0 <= j < i ==> s@[j] == prefix@[j],
        decreases n - i,
    {
        if s.get_char(i) != prefix.get_char(i) {
            assert(s@.subrange(0, n as int)[i as int] != prefix@[i as int]);
            return false;
        }
        i += 1;
    }
    assert(s@.subrange(0, n as int) =~= prefix@);
    true
}

/// What is left of `s` after its first `n` characters; nothing where
/// `s` has no more than `n`.
pub fn after_chars(s: &str, n: usize) -> (r: &str)
    ensures
        r@ == if n <= s@.len() {
            s@.skip(n as int)
        } else {
            Seq::empty()
        },
{
    let len = s.unicode_len();
    if n <= len {
        let r = s.substring_char(n, len);
        assert(r@ =~= s@.skip(n as int));
        r
    } else {
        let r = s.substring_char(len, len);
        assert(r@ =~= Seq::<char>::empty());
        r
    }
}

/// Whether `s` holds nothing but white space.
pub fn is_blank(s: &str) -> (r: bool)
    ensures
        r == (trimmed(s@).len() == 0),
{
    trim(s).is_empty()
}

/// How a list of texts is written for the eye: in square brackets, each
/// text in double quotes with what cannot be printed escaped, as the
/// `{:?}` format writes a list of strings.
pub uninterp spec fn debug_list(items: Seq<Seq<char>>) -> Seq<char>;

/// Writes a list of strings as the `{:?}` format does.
///
/// Trusted: what `Debug` writes for a `Vec<String>` depends on the texts alone.
#[verifier::external_body]
pub(crate) fn debug_strings(items: &Vec<String>) -> (r: String)
    ensures
        r@ == debug_list(texts(items@)),
{
    format!("{:?}", items)
}

} // verus!
