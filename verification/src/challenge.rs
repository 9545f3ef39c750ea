//! The two values of a pending second-factor challenge: the identifier of a
//! login attempt and the six-digit code sent to the user.

use vstd::prelude::*;
use vstd::string::StringExecFns;
use crate::text::to_chars;

verus! {

/// What the failure to read an attempt identifier says before the text.
pub const INVALID_UUID_PREFIX: &'static str = "Invalid UUID: ";

/// What the failure to read a code says before the text.
pub const INVALID_CODE_PREFIX: &'static str = "Invalid 2FA code: ";

/// Number of digits in a code.
pub const CODE_LENGTH: usize = 6;

/// Smallest number a generated code stands for.
pub const CODE_MIN: u32 = 100_000;

/// Largest number a generated code stands for.
pub const CODE_MAX: u32 = 999_999;

/// A decimal digit.
pub open spec fn is_digit(c: char) -> bool {
    '0' <= c && c <= '9'
}

/// A digit or a letter from `a` to `f`.
pub open spec fn is_lower_hex(c: char) -> bool {
    is_digit(c) || ('a' <= c && c <= 'f')
}

/// The canonical text of an identifier: 36 characters, hyphens at the four
/// group boundaries and lower-case hexadecimal digits elsewhere.
pub open spec fn is_hyphenated_uuid(s: Seq<char>) -> bool {
    &&& s.len() == 36
    &&& forall|i: int|
        0 <= i < 36 ==> if i == 8 || i == 13 || i == 18 || i == 23 {
            #[trigger] s[i] == '-'
        } else {
            is_lower_hex(s[i])
        }
}

/// The canonical text of a random identifier: the version digit is `4`
/// and the variant digit is one of `8`, `9`, `a` and `b`.
pub open spec fn is_random_uuid(s: Seq<char>) -> bool {
    &&& is_hyphenated_uuid(s)
    &&& s[14] == '4'
    &&& (s[19] == '8' || s[19] == '9' || s[19] == 'a' || s[19] == 'b')
}

/// Exactly six decimal digits.
pub open spec fn is_valid_code(s: Seq<char>) -> bool {
    &&& s.len() == CODE_LENGTH
    &&& forall|i: int| 0 <= i < s.len() ==> is_digit(#[trigger] s[i])
}

/// The character of the digit `d`.
pub open spec fn digit_char(d: int) -> char {
    if d == 0 {
        '0'
    } else if d == 1 {
        '1'
    } else if d == 2 {
        '2'
    } else if d == 3 {
        '3'
    } else if d == 4 {
        '4'
    } else if d == 5 {
        '5'
    } else if d == 6 {
        '6'
    } else if d == 7 {
        '7'
    } else if d == 8 {
        '8'
    } else {
        '9'
    }
}

/// The six decimal digits of `n`, most significant first.
pub open spec fn code_digits(n: int) -> Seq<char> {
    seq![
        digit_char((n / 100_000) % 10),
        digit_char((n / 10_000) % 10),
        digit_char((n / 1_000) % 10),
        digit_char((n / 100) % 10),
        digit_char((n / 10) % 10),
        digit_char(n % 10),
    ]
}

/// What `uuid::Uuid::parse_str` makes of a text: the canonical text of the
/// identifier it reads, or `None` where it reads none.
pub uninterp spec fn uuid_canonical_text(text: Seq<char>) -> Option<Seq<char>>;

/// Calls `uuid::Uuid::parse_str` and prints the identifier it returns. The
/// contract names the outcome and claims two things of a printed
/// identifier: it has the hyphenated lower-case form, and it reads back as
/// itself.
#[verifier::external_body]
fn parse_uuid(text: &str) -> (r: Option<String>)
    ensures
        uuid_canonical_text(text@) == match r {
            Some(s) => Some(s@),
            None => None,
        },
        r matches Some(s) ==> is_hyphenated_uuid(s@) && uuid_canonical_text(s@) == Some(s@),
{
    match uuid::Uuid::parse_str(text) {
        Ok(id) => Some(id.to_string()),
        Err(_) => None,
    }
}

/// Calls `uuid::Uuid::new_v4` and prints the identifier. Which identifier
/// comes back is left open; the contract claims only that its text has the
/// hyphenated lower-case form with the version and variant digits of a
/// random identifier, and reads back as itself.
#[verifier::external_body]
fn fresh_uuid() -> (s: String)
    ensures
        is_random_uuid(s@),
        uuid_canonical_text(s@) == Some(s@),
{
    uuid::Uuid::new_v4().to_string()
}

/// Calls `random_range` of `rand::Rng` on the thread's generator with the
/// inclusive range from `low` to `high`. The contract claims only that the
/// number lies in that range; an empty range is left out because the call
/// panics on it.
#[verifier::external_body]
fn random_in_range(low: u32, high: u32) -> (n: u32)
    requires
        low <= high,
    ensures
        low <= n <= high,
{
    rand::Rng::random_range(&mut rand::rng(), low..=high)
}

fn quote_after(prefix: &str, text: &str) -> (message: String)
    ensures
        message@ == prefix@ + text@,
{
    let mut message = String::from_str(prefix);
    message.append(text);
    message
}

/// The identifier of one login attempt, in canonical text.
pub struct LoginAttemptId {
    id: String,
}

impl View for LoginAttemptId {
    type V = Seq<char>;

    closed spec fn view(&self) -> Seq<char> {
        self.id@
    }
}

impl LoginAttemptId {
    /// Every identifier is held in canonical text.
    #[verifier::type_invariant]
    spec fn well_formed(&self) -> bool {
        is_hyphenated_uuid(self.id@) && uuid_canonical_text(self.id@) == Some(self.id@)
    }

    /// Reads `id` as an identifier. Succeeds exactly when the text names
    /// one, and then holds its canonical text; otherwise the failure
    /// quotes the text.
    pub fn parse(id: String) -> (r: Result<LoginAttemptId, String>)
        ensures
            match r {
                Ok(v) => uuid_canonical_text(id@) == Some(v@),
                Err(message) => uuid_canonical_text(id@) is None && message@
                    == INVALID_UUID_PREFIX@ + id@,
            },
    {
        match parse_uuid(id.as_str()) {
            Some(text) => Ok(LoginAttemptId { id: text }),
            None => Err(quote_after(INVALID_UUID_PREFIX, id.as_str())),
        }
    }

    /// A fresh random identifier.
    pub fn generate() -> (r: LoginAttemptId)
        ensures
            is_random_uuid(r@),
            uuid_canonical_text(r@) == Some(r@),
    {
        LoginAttemptId { id: fresh_uuid() }
    }

    /// The canonical text, which reads back as this identifier.
    pub fn as_str(&self) -> (s: &str)
        ensures
            s@ == self@,
            is_hyphenated_uuid(self@),
            uuid_canonical_text(self@) == Some(self@),
    {
        proof {
            use_type_invariant(self);
        }
        self.id.as_str()
    }
}

impl Default for LoginAttemptId {
    fn default() -> (r: Self)
        ensures
            is_random_uuid(r@),
            uuid_canonical_text(r@) == Some(r@),
    {
        LoginAttemptId::generate()
    }
}

impl Clone for LoginAttemptId {
    fn clone(&self) -> (r: Self)
        ensures
            r@ == self@,
    {
        proof {
            use_type_invariant(self);
        }
        LoginAttemptId { id: self.id.clone() }
    }
}

impl PartialEq for LoginAttemptId {
    fn eq(&self, other: &Self) -> (b: bool) {
        self.id == other.id
    }
}

impl vstd::std_specs::cmp::PartialEqSpecImpl for LoginAttemptId {
    open spec fn obeys_eq_spec() -> bool {
        true
    }

    open spec fn eq_spec(&self, other: &Self) -> bool {
        self@ == other@
    }
}

fn digit_text(d: u32) -> (s: &'static str)
    requires
        d < 10,
    ensures
        s@ == seq![digit_char(d as int)],
{
    proof {
        reveal_strlit("0");
        reveal_strlit("1");
        reveal_strlit("2");
        reveal_strlit("3");
        reveal_strlit("4");
        reveal_strlit("5");
        reveal_strlit("6");
        reveal_strlit("7");
        reveal_strlit("8");
        reveal_strlit("9");
    }
    let s = if d == 0 {
        "0"
    } else if d == 1 {
        "1"
    } else if d == 2 {
        "2"
    } else if d == 3 {
        "3"
    } else if d == 4 {
        "4"
    } else if d == 5 {
        "5"
    } else if d == 6 {
        "6"
    } else if d == 7 {
        "7"
    } else if d == 8 {
        "8"
    } else {
        "9"
    };
    assert(s@ =~= seq![digit_char(d as int)]);
    s
}

/// A six-digit code.
pub struct TwoFACode {
    code: String,
}

impl View for TwoFACode {
    type V = Seq<char>;

    closed spec fn view(&self) -> Seq<char> {
        self.code@
    }
}

impl TwoFACode {
    /// Every code is six decimal digits.
    #[verifier::type_invariant]
    spec fn well_formed(&self) -> bool {
        is_valid_code(self.code@)
    }

    /// Accepts `code` exactly when it is six decimal digits, and keeps its
    /// text unchanged; otherwise the failure quotes the text.
    pub fn parse(code: String) -> (r: Result<TwoFACode, String>)
        ensures
            is_valid_code(code@) <==> r is Ok,
            r matches Ok(c) ==> c@ == code@,
            r matches Err(message) ==> message@ == INVALID_CODE_PREFIX@ + code@,
    {
        let chars = to_chars(code.as_str());
        if chars.len() != CODE_LENGTH {
            return Err(quote_after(INVALID_CODE_PREFIX, code.as_str()));
        }
        let mut i: usize = 0;
        while i < CODE_LENGTH
            invariant
                i <= CODE_LENGTH,
                chars@ == code@,
                chars@.len() == CODE_LENGTH,
                forall|j: int| 0 <= j < i ==> is_digit(#[trigger] chars@[j]),
            decreases CODE_LENGTH - i,
        {
            let c = chars[i];
            if !('0' <= c && c <= '9') {
                assert(!is_digit(code@[i as int]));
                return Err(quote_after(INVALID_CODE_PREFIX, code.as_str()));
            }
            i += 1;
        }
        Ok(TwoFACode { code })
    }

    /// The code that stands for `n`: its six decimal digits.
    pub fn from_number(n: u32) -> (r: TwoFACode)
        requires
            CODE_MIN <= n <= CODE_MAX,
        ensures
            r@ == code_digits(n as int),
    {
        let mut text = String::from_str(digit_text(n / 100_000 % 10));
        text.append(digit_text(n / 10_000 % 10));
        text.append(digit_text(n / 1_000 % 10));
        text.append(digit_text(n / 100 % 10));
        text.append(digit_text(n / 10 % 10));
        text.append(digit_text(n % 10));
        assert(text@ =~= code_digits(n as int));
        TwoFACode { code: text }
    }

    /// A fresh random code, drawn from the numbers between `CODE_MIN` and
    /// `CODE_MAX`.
    pub fn generate() -> (r: TwoFACode)
        ensures
            exists|n: int| CODE_MIN <= n <= CODE_MAX && r@ == code_digits(n),
    {
        let n = random_in_range(CODE_MIN, CODE_MAX);
        TwoFACode::from_number(n)
    }

    /// The six digits.
    pub fn as_str(&self) -> (s: &str)
        ensures
            s@ == self@,
            is_valid_code(self@),
    {
        proof {
            use_type_invariant(self);
        }
        self.code.as_str()
    }
}

impl Default for TwoFACode {
    fn default() -> (r: Self)
        ensures
            exists|n: int| CODE_MIN <= n <= CODE_MAX && r@ == code_digits(n),
    {
        TwoFACode::generate()
    }
}

impl Clone for TwoFACode {
    fn clone(&self) -> (r: Self)
        ensures
            r@ == self@,
    {
        proof {
            use_type_invariant(self);
        }
        TwoFACode { code: self.code.clone() }
    }
}

impl PartialEq for TwoFACode {
    fn eq(&self, other: &Self) -> (b: bool) {
        self.code == other.code
    }
}

impl vstd::std_specs::cmp::PartialEqSpecImpl for TwoFACode {
    open spec fn obeys_eq_spec() -> bool {
        true
    }

    open spec fn eq_spec(&self, other: &Self) -> bool {
        self@ == other@
    }
}

/// The digits of a number are a valid code.
pub proof fn lemma_code_digits_valid(n: int)
    requires
        0 <= n,
    ensures
        is_valid_code(code_digits(n)),
{
}

} // verus!
