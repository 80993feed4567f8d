use vstd::prelude::*;

verus! {

/// ASCII letters.
pub open spec fn is_letter(c: char) -> bool {
    ('a' <= c && c <= 'z') || ('A' <= c && c <= 'Z')
}

/// ASCII letters and digits.
pub open spec fn is_alnum(c: char) -> bool {
    is_letter(c) || ('0' <= c && c <= '9')
}

/// Characters allowed before the `@` of an address.
pub open spec fn is_local_char(c: char) -> bool {
    is_alnum(c) || c == '.' || c == '_' || c == '%' || c == '+' || c == '-'
}

/// Characters allowed between the `@` and the final dot of an address.
pub open spec fn is_domain_char(c: char) -> bool {
    is_alnum(c) || c == '.' || c == '-'
}

/// The three character classes that make up an address.
pub enum CharClass {
    Local,
    Domain,
    Letter,
}

pub open spec fn in_class(k: CharClass, c: char) -> bool {
    match k {
        CharClass::Local => is_local_char(c),
        CharClass::Domain => is_domain_char(c),
        CharClass::Letter => is_letter(c),
    }
}

/// `s` reads `local@domain.tld` with the `@` at `at` and the dot before the
/// top-level domain at `dot`: a non-empty local part, a non-empty domain and
/// a top-level domain of two or more letters.
pub open spec fn is_email_split(s: Seq<char>, at: int, dot: int) -> bool {
    &&& 0 < at
    &&& at + 1 < dot
    &&& dot + 2 < s.len()
    &&& s[at] == '@'
    &&& s[dot] == '.'
    &&& forall|i: int| 0 <= i < at ==> is_local_char(#[trigger] s[i])
    &&& forall|i: int| at < i < dot ==> is_domain_char(#[trigger] s[i])
    &&& forall|i: int| dot < i < s.len() ==> is_letter(#[trigger] s[i])
}

/// The text is a well-formed e-mail address.
pub open spec fn email_shape(s: Seq<char>) -> bool {
    exists|at: int, dot: int| is_email_split(s, at, dot)
}

fn char_in_class(c: char, k: &CharClass) -> (r: bool)
    ensures
        r == in_class(*k, c),
{
    let letter = ('a' <= c && c <= 'z') || ('A' <= c && c <= 'Z');
    let alnum = letter || ('0' <= c && c <= '9');
    match k {
        CharClass::Local => alnum || c == '.' || c == '_' || c == '%' || c == '+' || c == '-',
        CharClass::Domain => alnum || c == '.' || c == '-',
        CharClass::Letter => letter,
    }
}

/// Every character of `s` in `from..to` belongs to class `k`.
fn span_in_class(s: &str, from: usize, to: usize, k: &CharClass) -> (r: bool)
    requires
        from <= to <= s@.len(),
    ensures
        r == forall|i: int| from <= i < to ==> in_class(*k, #[trigger] s@[i]),
{
    let mut i: usize = from;
    while i < to
        invariant
            from <= i <= to,
            to <= s@.len(),
            forall|j: int| from <= j < i ==> in_class(*k, #[trigger] s@[j]),
        decreases to - i,
    {
        if !char_in_class(s.get_char(i), k) {
            return false;
        }
        i = i + 1;
    }
    true
}

/// Whether `email` has the shape `local@domain.tld`: the local part made of
/// letters, digits and `._%+-`, the domain of letters, digits, `.` and `-`,
/// and a top-level domain of at least two letters.
pub fn is_valid_email(email: &str) -> (r: bool)
    ensures
        r == email_shape(email@),
{
    let ghost s = email@;
    let n = email.unicode_len();
    let mut at: usize = 0;
    while at < n && email.get_char(at) != '@'
        invariant
            at <= n,
            s == email@,
            n == s.len(),
            forall|k: int| 0 <= k < at ==> s[k] != '@',
        decreases n - at,
    {
        at = at + 1;
    }
    if at == n {
        assert(!email_shape(s)) by {
            if exists|a: int, d: int| is_email_split(s, a, d) {
                let (a, d) = choose|a: int, d: int| is_email_split(s, a, d);
                assert(s[a] == '@');
            }
        }
        return false;
    }
    let mut end: usize = n;
    while end > 0 && email.get_char(end - 1) != '.'
        invariant
            end <= n,
            s == email@,
            n == s.len(),
            forall|k: int| end <= k < n ==> s[k] != '.',
        decreases end,
    {
        end = end - 1;
    }
    if end == 0 {
        assert(!email_shape(s)) by {
            if exists|a: int, d: int| is_email_split(s, a, d) {
                let (a, d) = choose|a: int, d: int| is_email_split(s, a, d);
                assert(s[d] == '.');
            }
        }
        return false;
    }
    let dot: usize = end - 1;
    let ok = 0 < at && at + 1 < dot && n - dot > 2
        && span_in_class(email, 0, at, &CharClass::Local)
        && span_in_class(email, at + 1, dot, &CharClass::Domain)
        && span_in_class(email, dot + 1, n, &CharClass::Letter);
    if ok {
        assert(is_email_split(s, at as int, dot as int));
    } else {
        assert(!email_shape(s)) by {
            if exists|a: int, d: int| is_email_split(s, a, d) {
                let (a, d) = choose|a: int, d: int| is_email_split(s, a, d);
                if a < at {
                    assert(s[a] == '@');
                }
                if at < a {
                    assert(is_local_char(s[at as int]));
                }
                if d < dot {
                    assert(is_letter(s[dot as int]));
                }
                if dot < d {
                    assert(s[d] == '.');
                }
                assert(a == at && d == dot);
            }
        }
    }
    ok
}

/// Whether two texts are equal, character for character.
pub(crate) fn same_text(a: &str, b: &str) -> (r: bool)
    ensures
        r == (a@ == b@),
{
    let n = a.unicode_len();
    if n != b.unicode_len() {
        return false;
    }
    let mut i: usize = 0;
    while i < n
        invariant
            i <= n,
            n == a@.len(),
            n == b@.len(),
            forall|j: int| 0 <= j < i ==> a@[j] == b@[j],
        decreases n - i,
    {
        if a.get_char(i) != b.get_char(i) {
            return false;
        }
        i = i + 1;
    }
    assert(a@ =~= b@);
    true
}

/// Whether a submitted password and its confirmation are the same text.
pub fn passwords_match(password: &str, confirm: &str) -> (r: bool)
    ensures
        r == (password@ == confirm@),
{
    same_text(password, confirm)
}

} // verus!
