//! Structural validation of registration input.
//!
//! The rules: both name fields are at least 3 characters long, the email
//! address matches the grammar below, and the password is non-empty.
//! Validation fails fast, reporting the first field that breaks its rule,
//! and touches no stored state.
//!
//! Email grammar: `local '@' domain`, where
//! - `local` is 1 to 64 characters, each an ASCII letter or digit or one
//!   of ``. ! # $ % & ' * + / = ? ^ _ ` { | } ~ -``;
//! - `domain` is 1 to 255 characters, made of labels separated by single
//!   dots; every character is an ASCII letter, digit, `-` or `.`; each
//!   label starts and ends with a letter or digit (so no leading,
//!   trailing or doubled dots, and no label edged by a hyphen).
//!
//! Since `@` is neither a local nor a domain character, a valid address
//! contains exactly one `@`.

use vstd::prelude::*;

use crate::models::RegisterUser;

verus! {

/// ASCII letter or digit.
pub open spec fn is_alnum(c: char) -> bool {
    ('a' <= c && c <= 'z') || ('A' <= c && c <= 'Z') || ('0' <= c && c <= '9')
}

/// Characters allowed in the part before the `@`.
pub open spec fn is_local_char(c: char) -> bool {
    ||| is_alnum(c)
    ||| c == '.'
    ||| c == '!'
    ||| c == '#'
    ||| c == '$'
    ||| c == '%'
    ||| c == '&'
    ||| c == '\''
    ||| c == '*'
    ||| c == '+'
    ||| c == '/'
    ||| c == '='
    ||| c == '?'
    ||| c == '^'
    ||| c == '_'
    ||| c == '`'
    ||| c == '{'
    ||| c == '|'
    ||| c == '}'
    ||| c == '~'
    ||| c == '-'
}

/// Characters allowed in the part after the `@`.
pub open spec fn is_domain_char(c: char) -> bool {
    is_alnum(c) || c == '-' || c == '.'
}

/// A well-formed part before the `@`.
pub open spec fn spec_valid_local(p: Seq<char>) -> bool {
    &&& 1 <= p.len() <= 64
    &&& forall|j: int| 0 <= j < p.len() ==> is_local_char(#[trigger] p[j])
}

/// A well-formed part after the `@`.
pub open spec fn spec_valid_domain(d: Seq<char>) -> bool {
    &&& 1 <= d.len() <= 255
    &&& forall|j: int| 0 <= j < d.len() ==> is_domain_char(#[trigger] d[j])
    &&& is_alnum(d[0])
    &&& is_alnum(d[d.len() - 1])
    &&& forall|j: int|
        0 <= j < d.len() && #[trigger] d[j] == '.' ==> 0 < j && j + 1 < d.len() && is_alnum(
            d[j - 1],
        ) && is_alnum(d[j + 1])
}

/// A syntactically valid email address.
pub open spec fn spec_valid_email(s: Seq<char>) -> bool {
    exists|i: int|
        0 <= i < s.len() && #[trigger] s[i] == '@' && spec_valid_local(s.subrange(0, i))
            && spec_valid_domain(s.subrange(i + 1, s.len() as int))
}

/// ASCII letter or digit, decided in executable code.
fn check_alnum(c: char) -> (r: bool)
    ensures
        r == is_alnum(c),
{
    ('a' <= c && c <= 'z') || ('A' <= c && c <= 'Z') || ('0' <= c && c <= '9')
}

/// Local-part character, decided in executable code.
fn check_local_char(c: char) -> (r: bool)
    ensures
        r == is_local_char(c),
{
    check_alnum(c) || c == '.' || c == '!' || c == '#' || c == '$' || c == '%' || c == '&' || c
        == '\'' || c == '*' || c == '+' || c == '/' || c == '=' || c == '?' || c == '^' || c == '_'
        || c == '`' || c == '{' || c == '|' || c == '}' || c == '~' || c == '-'
}

/// Domain character, decided in executable code.
fn check_domain_char(c: char) -> (r: bool)
    ensures
        r == is_domain_char(c),
{
    check_alnum(c) || c == '-' || c == '.'
}

/// Position of the first `@` in `s`, if any.
fn find_at_sign(s: &str) -> (r: Option<usize>)
    ensures
        match r {
            Option::Some(i) => i < s@.len() && s@[i as int] == '@' && forall|j: int|
                0 <= j < i ==> s@[j] != '@',
            Option::None => forall|j: int| 0 <= j < s@.len() ==> s@[j] != '@',
        },
{
    let len = s.unicode_len();
    let mut i: usize = 0;
    while i < len
        invariant
            len == s@.len(),
            0 <= i <= len,
            forall|j: int| 0 <= j < i ==> s@[j] != '@',
        decreases len - i,
    {
        if s.get_char(i) == '@' {
            return Option::Some(i);
        }
        i = i + 1;
    }
    Option::None
}

/// A valid address splits only at its first `@`: any index that splits it
/// into a valid local part and a valid domain is that first `@`.
proof fn lemma_split_is_first_at(s: Seq<char>, at: int, i: int)
    requires
        0 <= at < s.len(),
        s[at] == '@',
        forall|j: int| 0 <= j < at ==> s[j] != '@',
        0 <= i < s.len(),
        s[i] == '@',
        spec_valid_local(s.subrange(0, i)),
        spec_valid_domain(s.subrange(i + 1, s.len() as int)),
    ensures
        i == at,
{
    if i < at {
        assert(s[i] != '@');
    } else if i > at {
        let p = s.subrange(0, i);
        assert(p[at] == '@');
        assert(is_local_char(p[at]));
        assert(!is_local_char('@'));
    }
}

/// If the parts on either side of the first `@` do not both conform,
/// the whole string is not a valid address.
proof fn lemma_bad_split(s: Seq<char>, at: int)
    requires
        0 <= at < s.len(),
        s[at] == '@',
        forall|j: int| 0 <= j < at ==> s[j] != '@',
        !(spec_valid_local(s.subrange(0, at)) && spec_valid_domain(
            s.subrange(at + 1, s.len() as int),
        )),
    ensures
        !spec_valid_email(s),
{
    if spec_valid_email(s) {
        let i = choose|i: int|
            0 <= i < s.len() && #[trigger] s[i] == '@' && spec_valid_local(s.subrange(0, i))
                && spec_valid_domain(s.subrange(i + 1, s.len() as int));
        lemma_split_is_first_at(s, at, i);
    }
}

/// Whether `s` is a syntactically valid email address.
pub fn is_valid_email(s: &str) -> (r: bool)
    ensures
        r == spec_valid_email(s@),
{
    let len = s.unicode_len();
    let at = match find_at_sign(s) {
        Option::Some(at) => at,
        Option::None => {
            return false;
        },
    };
    let ghost local = s@.subrange(0, at as int);
    let ghost domain = s@.subrange(at as int + 1, s@.len() as int);

    // The local part: length and character classes.
    if at < 1 || at > 64 {
        proof {
            lemma_bad_split(s@, at as int);
        }
        return false;
    }
    let mut j: usize = 0;
    while j < at
        invariant
            len == s@.len(),
            at < len,
            s@[at as int] == '@',
            forall|jj: int| 0 <= jj < at ==> s@[jj] != '@',
            local == s@.subrange(0, at as int),
            1 <= at <= 64,
            0 <= j <= at,
            forall|jj: int| 0 <= jj < j ==> is_local_char(#[trigger] s@[jj]),
        decreases at - j,
    {
        if !check_local_char(s.get_char(j)) {
            proof {
                assert(local[j as int] == s@[j as int]);
                lemma_bad_split(s@, at as int);
            }
            return false;
        }
        j = j + 1;
    }
    proof {
        assert forall|jj: int| 0 <= jj < local.len() implies is_local_char(#[trigger] local[jj]) by {
            assert(local[jj] == s@[jj]);
        }
        assert(spec_valid_local(local));
    }

    // The domain: length, edge characters, character classes, dot rule.
    let dlen = len - at - 1;
    if dlen < 1 || dlen > 255 {
        proof {
            lemma_bad_split(s@, at as int);
        }
        return false;
    }
    if !check_alnum(s.get_char(at + 1)) {
        proof {
            assert(domain[0] == s@[at as int + 1]);
            lemma_bad_split(s@, at as int);
        }
        return false;
    }
    if !check_alnum(s.get_char(len - 1)) {
        proof {
            assert(domain[domain.len() - 1] == s@[s@.len() - 1]);
            lemma_bad_split(s@, at as int);
        }
        return false;
    }
    let mut k: usize = 0;
    while k < dlen
        invariant
            len == s@.len(),
            at + 1 + dlen == len,
            s@[at as int] == '@',
            forall|jj: int| 0 <= jj < at ==> s@[jj] != '@',
            1 <= dlen <= 255,
            0 <= k <= dlen,
            domain == s@.subrange(at as int + 1, s@.len() as int),
            forall|kk: int| 0 <= kk < k ==> is_domain_char(#[trigger] domain[kk]),
            forall|kk: int|
                0 <= kk < k && #[trigger] domain[kk] == '.' ==> 0 < kk && kk + 1 < dlen && is_alnum(
                    domain[kk - 1],
                ) && is_alnum(domain[kk + 1]),
        decreases dlen - k,
    {
        let c = s.get_char(at + 1 + k);
        proof {
            assert(domain[k as int] == s@[at as int + 1 + k]);
        }
        if !check_domain_char(c) {
            proof {
                lemma_bad_split(s@, at as int);
            }
            return false;
        }
        if c == '.' {
            if k == 0 || k + 1 == dlen {
                proof {
                    lemma_bad_split(s@, at as int);
                }
                return false;
            }
            let before_ok = check_alnum(s.get_char(at + k));
            let after_ok = check_alnum(s.get_char(at + 2 + k));
            proof {
                assert(domain[k as int - 1] == s@[at as int + k]);
                assert(domain[k as int + 1] == s@[at as int + 2 + k]);
            }
            if !before_ok || !after_ok {
                proof {
                    lemma_bad_split(s@, at as int);
                }
                return false;
            }
        }
        k = k + 1;
    }
    proof {
        assert(spec_valid_domain(domain));
        assert(spec_valid_email(s@)) by {
            assert(s@[at as int] == '@' && spec_valid_local(s@.subrange(0, at as int))
                && spec_valid_domain(s@.subrange(at as int + 1, s@.len() as int)));
        }
    }
    true
}

/// The first constraint a registration request breaks, by field and rule.
#[derive(Debug)]
pub struct ValidationError {
    pub field: String,
    pub rule: String,
}

/// A name field of acceptable length.
pub open spec fn spec_valid_name(s: Seq<char>) -> bool {
    s.len() >= 3
}

/// An acceptable password: non-empty.
pub open spec fn spec_valid_password(p: Seq<char>) -> bool {
    p.len() >= 1
}

/// A registration request that passes every validation rule.
pub open spec fn spec_valid_register(req: RegisterUser) -> bool {
    &&& spec_valid_name(req.first_name@)
    &&& spec_valid_name(req.last_name@)
    &&& spec_valid_email(req.email_id@)
    &&& spec_valid_password(req.password@)
}

/// The field reported for an invalid request: the first one, in the order
/// first name, last name, email, password, whose rule is broken.
pub open spec fn spec_invalid_field(req: RegisterUser) -> Seq<char> {
    if !spec_valid_name(req.first_name@) {
        "first_name"@
    } else if !spec_valid_name(req.last_name@) {
        "last_name"@
    } else if !spec_valid_email(req.email_id@) {
        "email_id"@
    } else {
        "password"@
    }
}

/// The rule reported alongside [`spec_invalid_field`].
pub open spec fn spec_invalid_rule(req: RegisterUser) -> Seq<char> {
    if !spec_valid_name(req.first_name@) || !spec_valid_name(req.last_name@) {
        "length_min_3"@
    } else if !spec_valid_email(req.email_id@) {
        "email"@
    } else {
        "non_empty"@
    }
}

/// Check a registration request against every rule, failing fast with the
/// first field that breaks one. Touches no stored state.
pub fn validate_register(req: &RegisterUser) -> (r: Result<(), ValidationError>)
    ensures
        r is Ok <==> spec_valid_register(*req),
        r matches Err(e) ==> e.field@ == spec_invalid_field(*req) && e.rule@ == spec_invalid_rule(
            *req,
        ),
{
    if req.first_name.as_str().unicode_len() < 3 {
        return Err(
            ValidationError {
                field: String::from_str("first_name"),
                rule: String::from_str("length_min_3"),
            },
        );
    }
    if req.last_name.as_str().unicode_len() < 3 {
        return Err(
            ValidationError {
                field: String::from_str("last_name"),
                rule: String::from_str("length_min_3"),
            },
        );
    }
    if !is_valid_email(req.email_id.as_str()) {
        return Err(
            ValidationError { field: String::from_str("email_id"), rule: String::from_str("email") },
        );
    }
    if req.password.as_str().unicode_len() < 1 {
        return Err(
            ValidationError {
                field: String::from_str("password"),
                rule: String::from_str("non_empty"),
            },
        );
    }
    Ok(())
}

} // verus!
