//! Opaque random tokens: API keys, login links, reset strings and reset codes.

use vstd::prelude::*;

verus! {

/// The characters that a token may be drawn from.
#[derive(Clone, Copy, Debug, PartialEq, Eq, Structural)]
pub enum Charset {
    /// The 62 ASCII letters and digits.
    Alphanumeric,
    /// The ten ASCII digits.
    Digits,
}

/// `b` is the code of an ASCII letter or digit.
pub open spec fn is_alphanumeric_byte(b: u8) -> bool {
    ||| 0x30 <= b <= 0x39
    ||| 0x41 <= b <= 0x5a
    ||| 0x61 <= b <= 0x7a
}

/// `c` is an ASCII digit.
pub open spec fn is_digit(c: char) -> bool {
    '0' <= c <= '9'
}

/// `c` is an ASCII letter or digit.
pub open spec fn is_alphanumeric(c: char) -> bool {
    ||| '0' <= c <= '9'
    ||| 'A' <= c <= 'Z'
    ||| 'a' <= c <= 'z'
}

impl Charset {
    /// `c` belongs to the character set.
    pub open spec fn contains(self, c: char) -> bool {
        match self {
            Charset::Alphanumeric => is_alphanumeric(c),
            Charset::Digits => is_digit(c),
        }
    }
}

/// `text` has `length` characters, each of them from `charset`.
pub open spec fn is_token(text: Seq<char>, length: nat, charset: Charset) -> bool {
    &&& text.len() == length
    &&& forall|i: int| 0 <= i < text.len() ==> charset.contains(#[trigger] text[i])
}

/// The character of the digit `d`.
pub open spec fn digit_char(d: nat) -> char
    recommends
        d < 10,
{
    (0x30 + d) as u8 as char
}

/// `n` written in decimal, without leading zeros.
pub open spec fn decimal(n: nat) -> Seq<char>
    decreases n,
{
    if n < 10 {
        seq![digit_char(n)]
    } else {
        decimal(n / 10).push(digit_char(n % 10))
    }
}

/// `String::push`: the character is appended at the end.
pub assume_specification[ String::push ](s: &mut String, c: char)
    ensures
        final(s)@ == old(s)@.push(c),
;

/// `rand::Rng::sample` of `rand::distributions::Alphanumeric` on the thread's
/// generator: every outcome is the code of an ASCII letter or digit.
#[verifier::external_body]
fn sample_alphanumeric() -> (b: u8)
    ensures
        is_alphanumeric_byte(b),
{
    rand::Rng::sample(&mut rand::thread_rng(), rand::distributions::Alphanumeric)
}

/// `rand::Rng::gen_range` over `low..high` on the thread's generator: every
/// outcome lies in the half-open range. The range must not be empty.
#[verifier::external_body]
fn sample_range(low: u32, high: u32) -> (r: u32)
    requires
        low < high,
    ensures
        low <= r < high,
{
    rand::Rng::gen_range(&mut rand::thread_rng(), low..high)
}

/// One unpredictable character of `charset`.
fn random_char(charset: Charset) -> (c: char)
    ensures
        charset.contains(c),
{
    match charset {
        Charset::Alphanumeric => {
            let b = sample_alphanumeric();
            b as char
        },
        Charset::Digits => {
            let d = sample_range(0, 10);
            (0x30u8 + d as u8) as char
        },
    }
}

/// An unpredictable token of `length` characters drawn from `charset`.
pub fn generate(length: usize, charset: Charset) -> (token: String)
    ensures
        is_token(token@, length as nat, charset),
{
    let mut token = String::new();
    let mut i: usize = 0;
    while i < length
        invariant
            i <= length,
            is_token(token@, i as nat, charset),
        decreases length - i,
    {
        let c = random_char(charset);
        token.push(c);
        i = i + 1;
    }
    token
}

/// An unpredictable number in `1..limit`.
pub fn generate_code(limit: u32) -> (code: u32)
    requires
        1 < limit,
    ensures
        1 <= code < limit,
{
    sample_range(1, limit)
}

/// The decimal digits of `n`, most significant first.
pub fn to_decimal(n: u32) -> (text: String)
    ensures
        text@ == decimal(n as nat),
{
    let mut digits: Vec<char> = Vec::new();
    digits.push((0x30u8 + (n % 10) as u8) as char);
    let mut rest: u32 = n / 10;
    while rest > 0
        invariant
            digits.len() >= 1,
            decimal(n as nat) == (if rest == 0 {
                Seq::<char>::empty()
            } else {
                decimal(rest as nat)
            }) + digits@.reverse(),
        decreases rest,
    {
        let ghost before = digits@;
        digits.push((0x30u8 + (rest % 10) as u8) as char);
        proof {
            assert(digits@.reverse() =~= seq![digit_char((rest % 10) as nat)] + before.reverse());
        }
        rest = rest / 10;
    }
    let mut text = String::new();
    let mut i: usize = digits.len();
    while i > 0
        invariant
            i <= digits.len(),
            text@ == digits@.reverse().subrange(0, digits.len() - i),
        decreases i,
    {
        i = i - 1;
        text.push(digits[i]);
    }
    proof {
        assert(text@ =~= digits@.reverse());
    }
    text
}

} // verus!
