//! Credential value types: validated e-mail addresses and passwords, and the
//! user record built from them.

use vstd::prelude::*;
use vstd::string::StringSliceAdditionalSpecFns;
use crate::errors::CredentialError;
use crate::text::to_chars;

verus! {

/// Shortest accepted password, in bytes of its UTF-8 encoding.
pub const MIN_PASSWORD_LENGTH: usize = 8;

/// What a password shows when it is printed.
pub const PASSWORD_MASK: &'static str = "******";

/// An ASCII letter.
pub open spec fn is_letter(c: char) -> bool {
    ('a' <= c && c <= 'z') || ('A' <= c && c <= 'Z')
}

/// A character allowed before the `@`: letters, digits and `._%+-`.
pub open spec fn is_local_char(c: char) -> bool {
    is_letter(c) || ('0' <= c && c <= '9') || c == '.' || c == '_' || c == '%' || c == '+' || c
        == '-'
}

/// A character allowed in the domain: letters, digits, `.` and `-`.
pub open spec fn is_domain_char(c: char) -> bool {
    is_letter(c) || ('0' <= c && c <= '9') || c == '.' || c == '-'
}

/// `s` reads as an address whose `@` stands at `at` and whose last dot stands
/// at `dot`: a non-empty local part, a non-empty domain name, and a final
/// label of at least two letters.
pub open spec fn splits_as_email(s: Seq<char>, at: int, dot: int) -> bool {
    &&& 0 < at
    &&& at + 1 < dot
    &&& dot + 2 < s.len()
    &&& s[at] == '@'
    &&& s[dot] == '.'
    &&& forall|i: int| 0 <= i < at ==> is_local_char(#[trigger] s[i])
    &&& forall|i: int| at < i < dot ==> is_domain_char(#[trigger] s[i])
    &&& forall|i: int| dot < i < s.len() ==> is_letter(#[trigger] s[i])
}

/// The address syntax: `local@domain.tld`.
pub open spec fn is_valid_email(s: Seq<char>) -> bool {
    exists|at: int, dot: int| splits_as_email(s, at, dot)
}

/// The password policy: at least eight bytes.
pub open spec fn is_valid_password(s: Seq<char>) -> bool {
    vstd::utf8::encode_utf8(s).len() >= MIN_PASSWORD_LENGTH
}

fn letter(c: char) -> (b: bool)
    ensures
        b == is_letter(c),
{
    ('a' <= c && c <= 'z') || ('A' <= c && c <= 'Z')
}

fn local_char(c: char) -> (b: bool)
    ensures
        b == is_local_char(c),
{
    letter(c) || ('0' <= c && c <= '9') || c == '.' || c == '_' || c == '%' || c == '+' || c == '-'
}

fn domain_char(c: char) -> (b: bool)
    ensures
        b == is_domain_char(c),
{
    letter(c) || ('0' <= c && c <= '9') || c == '.' || c == '-'
}

/// Decides the address syntax on a sequence of characters.
pub fn validate_email(chars: &Vec<char>) -> (ok: bool)
    ensures
        ok == is_valid_email(chars@),
{
    let n = chars.len();
    let mut at: usize = 0;
    while at < n && local_char(chars[at])
        invariant
            at <= n,
            n == chars@.len(),
            forall|i: int| 0 <= i < at ==> is_local_char(#[trigger] chars@[i]),
        decreases n - at,
    {
        at += 1;
    }
    if at == 0 || at >= n || chars[at] != '@' {
        proof {
            assert forall|a: int, d: int| !splits_as_email(chars@, a, d) by {
                if splits_as_email(chars@, a, d) {
                    if a < at {
                        assert(is_local_char(chars@[a]));
                    } else if a > at {
                        assert(is_local_char(chars@[at as int]));
                    }
                }
            }
        }
        return false;
    }
    let mut end: usize = n;
    while end > at + 1 && letter(chars[end - 1])
        invariant
            at < end <= n,
            n == chars@.len(),
            forall|i: int| end <= i < n ==> is_letter(#[trigger] chars@[i]),
        decreases end,
    {
        end -= 1;
    }
    if n - end < 2 || end < at + 3 || chars[end - 1] != '.' {
        proof {
            assert forall|a: int, d: int| !splits_as_email(chars@, a, d) by {
                if splits_as_email(chars@, a, d) {
                    if a < at {
                        assert(is_local_char(chars@[a]));
                    } else if a > at {
                        assert(is_local_char(chars@[at as int]));
                    }
                    if d + 1 < end {
                        assert(is_letter(chars@[end - 1]));
                    } else if d + 1 > end {
                        assert(is_letter(chars@[d]));
                    }
                }
            }
        }
        return false;
    }
    let dot: usize = end - 1;
    let mut k: usize = at + 1;
    while k < dot && domain_char(chars[k])
        invariant
            at < k <= dot,
            dot < n,
            n == chars@.len(),
            forall|i: int| at < i < k ==> is_domain_char(#[trigger] chars@[i]),
        decreases dot - k,
    {
        k += 1;
    }
    if k < dot {
        proof {
            assert forall|a: int, d: int| !splits_as_email(chars@, a, d) by {
                if splits_as_email(chars@, a, d) {
                    if a < at {
                        assert(is_local_char(chars@[a]));
                    } else if a > at {
                        assert(is_local_char(chars@[at as int]));
                    }
                    if d < dot {
                        assert(is_letter(chars@[dot as int]));
                    } else if d > dot {
                        assert(is_letter(chars@[d]));
                    }
                    assert(is_domain_char(chars@[k as int]));
                }
            }
        }
        return false;
    }
    assert(splits_as_email(chars@, at as int, dot as int));
    true
}

/// A validated e-mail address. Two addresses are equal when their text is
/// equal, letter case included.
#[derive(Hash)]
pub struct Email {
    email: String,
}

impl View for Email {
    type V = Seq<char>;

    closed spec fn view(&self) -> Seq<char> {
        self.email@
    }
}

impl Email {
    /// Every address satisfies the address syntax.
    #[verifier::type_invariant]
    spec fn well_formed(&self) -> bool {
        is_valid_email(self.email@)
    }

    /// Accepts `email` exactly when it satisfies the address syntax, and
    /// keeps its text unchanged. Any other text is `InvalidFormat`.
    pub fn parse(email: String) -> (r: Result<Email, CredentialError>)
        ensures
            is_valid_email(email@) <==> r is Ok,
            r matches Ok(e) ==> e@ == email@,
            r matches Err(e) ==> e == CredentialError::InvalidFormat,
    {
        let chars = to_chars(email.as_str());
        if validate_email(&chars) {
            Ok(Email { email })
        } else {
            Err(CredentialError::InvalidFormat)
        }
    }

    /// The owned text of the address, used as a key by the stores.
    pub fn as_string(&self) -> (s: &String)
        ensures
            s@ == self@,
            is_valid_email(self@),
    {
        proof {
            use_type_invariant(self);
        }
        &self.email
    }

    /// The text of the address, which satisfies the address syntax.
    pub fn to_str(&self) -> (s: &str)
        ensures
            s@ == self@,
            is_valid_email(self@),
    {
        proof {
            use_type_invariant(self);
        }
        self.email.as_str()
    }

}

impl Clone for Email {
    fn clone(&self) -> (r: Self)
        ensures
            r@ == self@,
    {
        proof {
            use_type_invariant(self);
        }
        Email { email: self.email.clone() }
    }
}

impl PartialEq for Email {
    fn eq(&self, other: &Self) -> (b: bool) {
        self.email == other.email
    }
}

impl Eq for Email {

}

impl vstd::std_specs::cmp::PartialEqSpecImpl for Email {
    open spec fn obeys_eq_spec() -> bool {
        true
    }

    open spec fn eq_spec(&self, other: &Self) -> bool {
        self@ == other@
    }
}

/// A password that meets the password policy. Equality compares the secret
/// text itself.
pub struct Password {
    secret: String,
}

impl View for Password {
    type V = Seq<char>;

    closed spec fn view(&self) -> Seq<char> {
        self.secret@
    }
}

impl Password {
    /// Every password meets the password policy.
    #[verifier::type_invariant]
    spec fn well_formed(&self) -> bool {
        is_valid_password(self.secret@)
    }

    /// Accepts `secret` exactly when it is at least eight bytes long, and
    /// keeps its text unchanged. Any shorter text is `TooShort`.
    pub fn parse(secret: String) -> (r: Result<Password, CredentialError>)
        ensures
            is_valid_password(secret@) <==> r is Ok,
            r matches Ok(p) ==> p@ == secret@,
            r matches Err(e) ==> e == CredentialError::TooShort,
    {
        if secret.as_str().as_bytes().len() >= MIN_PASSWORD_LENGTH {
            Ok(Password { secret })
        } else {
            Err(CredentialError::TooShort)
        }
    }

    /// The masked form, which never shows the secret.
    pub fn to_str(&self) -> (s: &'static str)
        ensures
            s@ == PASSWORD_MASK@,
    {
        PASSWORD_MASK
    }

    /// The secret text, for the store that has to hash or compare it. It
    /// meets the password policy.
    pub fn expose(&self) -> (s: &str)
        ensures
            s@ == self@,
            is_valid_password(self@),
    {
        proof {
            use_type_invariant(self);
        }
        self.secret.as_str()
    }

}

impl Clone for Password {
    fn clone(&self) -> (r: Self)
        ensures
            r@ == self@,
    {
        proof {
            use_type_invariant(self);
        }
        Password { secret: self.secret.clone() }
    }
}

impl PartialEq for Password {
    fn eq(&self, other: &Self) -> (b: bool) {
        self.secret == other.secret
    }
}

impl Eq for Password {

}

impl vstd::std_specs::cmp::PartialEqSpecImpl for Password {
    open spec fn obeys_eq_spec() -> bool {
        true
    }

    open spec fn eq_spec(&self, other: &Self) -> bool {
        self@ == other@
    }
}

/// What a user record says, as plain values.
pub struct UserView {
    pub email: Seq<char>,
    pub password: Seq<char>,
    pub requires_2fa: bool,
}

/// A user record: the address that identifies the user, the password (or
/// its hash, where the store keeps hashes), and whether login asks for a
/// second factor.
pub struct User {
    pub email: Email,
    pub password: Password,
    pub requires_2fa: bool,
}

impl View for User {
    type V = UserView;

    open spec fn view(&self) -> UserView {
        UserView {
            email: self.email@,
            password: self.password@,
            requires_2fa: self.requires_2fa,
        }
    }
}

impl User {
    /// The record with exactly these three values.
    pub fn new(email: Email, password: Password, requires_2fa: bool) -> (u: User)
        ensures
            u.email == email,
            u.password == password,
            u.requires_2fa == requires_2fa,
    {
        User { email, password, requires_2fa }
    }
}

impl Clone for User {
    fn clone(&self) -> (r: Self)
        ensures
            r@ == self@,
    {
        User {
            email: self.email.clone(),
            password: self.password.clone(),
            requires_2fa: self.requires_2fa,
        }
    }
}

impl PartialEq for User {
    fn eq(&self, other: &Self) -> (b: bool) {
        self.email == other.email && self.password == other.password && self.requires_2fa
            == other.requires_2fa
    }
}

impl Eq for User {

}

impl vstd::std_specs::cmp::PartialEqSpecImpl for User {
    open spec fn obeys_eq_spec() -> bool {
        true
    }

    open spec fn eq_spec(&self, other: &Self) -> bool {
        self@ == other@
    }
}

/// An address without `@` does not satisfy the address syntax; the empty
/// text is one such.
pub proof fn lemma_email_needs_at(s: Seq<char>)
    requires
        forall|i: int| 0 <= i < s.len() ==> s[i] != '@',
    ensures
        !is_valid_email(s),
{
    assert forall|at: int, dot: int| !splits_as_email(s, at, dot) by {
        if splits_as_email(s, at, dot) {
            assert(s[at] == '@');
        }
    }
}

/// The empty text is no password.
pub proof fn lemma_empty_password_invalid()
    ensures
        !is_valid_password(Seq::<char>::empty()),
{
    reveal_with_fuel(vstd::utf8::encode_utf8, 1);
    assert(vstd::utf8::encode_utf8(Seq::<char>::empty()).len() == 0);
}

} // verus!
