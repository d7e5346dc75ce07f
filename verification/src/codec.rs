//! Deterministic textual encoding of token claims.
//!
//! A claims payload is rendered as decimal timestamps and length-prefixed
//! strings, so that parsing is exact: every encoded payload parses back to
//! the claims it came from, and the parser consumes exactly the payload,
//! leaving the signature that follows it untouched.

use vstd::prelude::*;

verus! {

/// `c` is a decimal digit.
pub open spec fn is_digit(c: char) -> bool {
    ||| c == '0'
    ||| c == '1'
    ||| c == '2'
    ||| c == '3'
    ||| c == '4'
    ||| c == '5'
    ||| c == '6'
    ||| c == '7'
    ||| c == '8'
    ||| c == '9'
}

/// Numeric value of a digit character.
pub open spec fn digit_val(c: char) -> nat {
    if c == '0' {
        0
    } else if c == '1' {
        1
    } else if c == '2' {
        2
    } else if c == '3' {
        3
    } else if c == '4' {
        4
    } else if c == '5' {
        5
    } else if c == '6' {
        6
    } else if c == '7' {
        7
    } else if c == '8' {
        8
    } else {
        9
    }
}

/// Digit character of a value below ten.
pub open spec fn digit_char(d: nat) -> char {
    if d == 0 {
        '0'
    } else if d == 1 {
        '1'
    } else if d == 2 {
        '2'
    } else if d == 3 {
        '3'
    } else if d == 4 {
        '4'
    } else if d == 5 {
        '5'
    } else if d == 6 {
        '6'
    } else if d == 7 {
        '7'
    } else if d == 8 {
        '8'
    } else {
        '9'
    }
}

/// Decimal rendering of a natural number, most significant digit first.
pub open spec fn dec(n: nat) -> Seq<char>
    decreases n,
{
    if n < 10 {
        seq![digit_char(n)]
    } else {
        dec(n / 10).push(digit_char(n % 10))
    }
}

/// Every decimal rendering is a non-empty run of digits.
pub proof fn lemma_dec_digits(n: nat)
    ensures
        dec(n).len() >= 1,
        forall|i: int| 0 <= i < dec(n).len() ==> is_digit(#[trigger] dec(n)[i]),
    decreases n,
{
    if n >= 10 {
        lemma_dec_digits(n / 10);
        assert(forall|i: int|
            0 <= i < dec(n / 10).len() ==> #[trigger] dec(n)[i] == dec(n / 10)[i]);
    }
}

/// First position at or after `i` that does not hold a digit.
pub open spec fn digits_end(s: Seq<char>, i: int) -> int
    decreases s.len() - i,
{
    if 0 <= i < s.len() && is_digit(s[i]) {
        digits_end(s, i + 1)
    } else {
        i
    }
}

/// Value of the digit run `s[i .. j)`.
pub open spec fn digits_val(s: Seq<char>, i: int, j: int) -> nat
    decreases j - i,
{
    if j <= i {
        0
    } else {
        digits_val(s, i, j - 1) * 10 + digit_val(s[j - 1])
    }
}

/// A maximal digit run ends exactly where the digits stop.
pub proof fn lemma_digits_end_of_run(s: Seq<char>, i: int, j: int)
    requires
        0 <= i <= j <= s.len(),
        forall|k: int| i <= k < j ==> is_digit(s[k]),
        j == s.len() || !is_digit(s[j]),
    ensures
        digits_end(s, i) == j,
    decreases j - i,
{
    if i < j {
        lemma_digits_end_of_run(s, i + 1, j);
    }
}

/// Equal digit runs have equal values.
pub proof fn lemma_digits_val_congruence(s1: Seq<char>, i1: int, s2: Seq<char>, i2: int, len: int)
    requires
        len >= 0,
        0 <= i1,
        i1 + len <= s1.len(),
        0 <= i2,
        i2 + len <= s2.len(),
        forall|k: int| 0 <= k < len ==> s1[#[trigger] (i1 + k)] == s2[i2 + k],
    ensures
        digits_val(s1, i1, i1 + len) == digits_val(s2, i2, i2 + len),
    decreases len,
{
    if len > 0 {
        lemma_digits_val_congruence(s1, i1, s2, i2, len - 1);
        assert(s1[i1 + (len - 1)] == s2[i2 + (len - 1)]);
    }
}

/// The decimal rendering of `n` evaluates back to `n`.
pub proof fn lemma_dec_val(n: nat)
    ensures
        digits_val(dec(n), 0, dec(n).len() as int) == n,
    decreases n,
{
    if n < 10 {
        assert(digits_val(dec(n), 0, 1) == digits_val(dec(n), 0, 0) * 10 + digit_val(dec(n)[0]));
    } else {
        lemma_dec_val(n / 10);
        let prev = dec(n / 10);
        let full = dec(n);
        let len = prev.len() as int;
        assert(full[len] == digit_char(n % 10));
        lemma_digits_val_congruence(full, 0, prev, 0, len);
        assert(digits_val(full, 0, len + 1) == digits_val(full, 0, len) * 10 + digit_val(
            full[len],
        ));
        assert(digit_val(digit_char(n % 10)) == n % 10);
        assert(n / 10 * 10 + n % 10 == n) by {
            vstd::arithmetic::div_mod::lemma_fundamental_div_mod(n as int, 10);
        }
    }
}

/// Greedy decimal number parse from position `i`: the value and the
/// position after the digits, or nothing when no digit starts there or
/// the value does not fit a `u64`.
pub open spec fn parse_nat(s: Seq<char>, i: int) -> Option<(u64, int)> {
    let j = digits_end(s, i);
    if j == i {
        None
    } else if digits_val(s, i, j) > u64::MAX {
        None
    } else {
        Some((digits_val(s, i, j) as u64, j))
    }
}

/// A decimal rendering followed by a non-digit (or the end) parses back
/// to its value.
pub proof fn lemma_parse_nat_at(s: Seq<char>, n: u64, i: int)
    requires
        0 <= i,
        i + dec(n as nat).len() <= s.len(),
        forall|k: int| 0 <= k < dec(n as nat).len() ==> s[i + k] == #[trigger] dec(n as nat)[k],
        i + dec(n as nat).len() == s.len() || !is_digit(s[i + dec(n as nat).len()]),
    ensures
        parse_nat(s, i) == Some((n, i + dec(n as nat).len() as int)),
{
    let len = dec(n as nat).len() as int;
    lemma_dec_digits(n as nat);
    assert(forall|k: int| i <= k < i + len ==> is_digit(s[k])) by {
        assert(forall|k: int| i <= k < i + len ==> s[k] == dec(n as nat)[k - i]);
    }
    lemma_digits_end_of_run(s, i, i + len);
    lemma_digits_val_congruence(s, i, dec(n as nat), 0, len);
    lemma_dec_val(n as nat);
}

/// Whether `c` is a decimal digit.
pub fn is_digit_char(c: char) -> (r: bool)
    ensures
        r == is_digit(c),
{
    c == '0' || c == '1' || c == '2' || c == '3' || c == '4' || c == '5' || c == '6' || c == '7'
        || c == '8' || c == '9'
}

/// Numeric value of a digit character.
fn digit_value(c: char) -> (d: u64)
    requires
        is_digit(c),
    ensures
        d as nat == digit_val(c),
{
    if c == '0' {
        0
    } else if c == '1' {
        1
    } else if c == '2' {
        2
    } else if c == '3' {
        3
    } else if c == '4' {
        4
    } else if c == '5' {
        5
    } else if c == '6' {
        6
    } else if c == '7' {
        7
    } else if c == '8' {
        8
    } else {
        9
    }
}

/// The one-character string of a digit value.
fn digit_literal(d: u64) -> (r: &'static str)
    requires
        d < 10,
    ensures
        r@ =~= seq![digit_char(d as nat)],
{
    proof {
        reveal_strlit("0");
        reveal_strlit("1");
        reveal_strlit("2");
        reveal_strlit("3");
        reveal_strlit("4");
        reveal_strlit("5");
        reveal_strlit("6");
        reveal_strlit("7");
        reveal_strlit("8");
        reveal_strlit("9");
    }
    if d == 0 {
        "0"
    } else if d == 1 {
        "1"
    } else if d == 2 {
        "2"
    } else if d == 3 {
        "3"
    } else if d == 4 {
        "4"
    } else if d == 5 {
        "5"
    } else if d == 6 {
        "6"
    } else if d == 7 {
        "7"
    } else if d == 8 {
        "8"
    } else {
        "9"
    }
}

/// Decimal rendering of `n`.
pub fn dec_str(n: u64) -> (r: String)
    ensures
        r@ == dec(n as nat),
    decreases n,
{
    if n < 10 {
        let r = digit_literal(n).to_owned();
        proof {
            assert(r@ =~= dec(n as nat));
        }
        r
    } else {
        let mut s = dec_str(n / 10);
        s.append(digit_literal(n % 10));
        proof {
            assert(s@ =~= dec(n as nat));
        }
        s
    }
}

/// Greedy decimal number parse from `start`; mirrors [`parse_nat`].
pub fn take_nat(s: &str, start: usize, len: usize) -> (r: Option<(u64, usize)>)
    requires
        len == s@.len(),
        start <= len,
    ensures
        match r {
            Some(p) => parse_nat(s@, start as int) == Some((p.0, p.1 as int)) && start < p.1
                <= len,
            None => parse_nat(s@, start as int) is None,
        },
{
    let mut j: usize = start;
    let mut acc: u64 = 0;
    let mut overflow: bool = false;
    while j < len && is_digit_char(s.get_char(j))
        invariant
            len == s@.len(),
            start <= j <= len,
            digits_end(s@, start as int) == digits_end(s@, j as int),
            forall|k: int| start <= k < j ==> is_digit(s@[k]),
            !overflow ==> acc as nat == digits_val(s@, start as int, j as int),
            overflow ==> digits_val(s@, start as int, j as int) > u64::MAX,
        decreases len - j,
    {
        let c = s.get_char(j);
        let d = digit_value(c);
        let wide: u128 = acc as u128 * 10 + d as u128;
        proof {
            assert(digits_val(s@, start as int, j + 1) == digits_val(s@, start as int, j as int)
                * 10 + digit_val(s@[j as int]));
        }
        if wide > u64::MAX as u128 {
            overflow = true;
        } else if !overflow {
            acc = wide as u64;
        }
        j = j + 1;
    }
    proof {
        assert(digits_end(s@, j as int) == j);
    }
    if j == start {
        None
    } else if overflow {
        None
    } else {
        Some((acc, j))
    }
}

/// Length-prefixed encoding of a string value.
pub open spec fn enc_str(v: Seq<char>) -> Seq<char> {
    dec(v.len()) + seq![':'] + v
}

/// Parse of a length-prefixed string from position `i`.
pub open spec fn parse_str(s: Seq<char>, i: int) -> Option<(Seq<char>, int)> {
    match parse_nat(s, i) {
        None => None,
        Some((n, j)) => if j < s.len() && s[j] == ':' && j + 1 + n <= s.len() {
            Some((s.subrange(j + 1, j + 1 + n), j + 1 + n))
        } else {
            None
        },
    }
}

/// One-character encoding of a boolean.
pub open spec fn enc_bool(b: bool) -> Seq<char> {
    if b {
        seq!['1']
    } else {
        seq!['0']
    }
}

/// Parse of a boolean flag from position `i`.
pub open spec fn parse_bool(s: Seq<char>, i: int) -> Option<(bool, int)> {
    if i < s.len() && s[i] == '1' {
        Some((true, i + 1))
    } else if i < s.len() && s[i] == '0' {
        Some((false, i + 1))
    } else {
        None
    }
}

/// Encoding of an optional string: a marker for absence, or a marker
/// followed by the string.
pub open spec fn enc_opt_str(o: Option<Seq<char>>) -> Seq<char> {
    match o {
        None => seq!['n'],
        Some(v) => seq!['v'] + enc_str(v),
    }
}

/// Parse of an optional string from position `i`.
pub open spec fn parse_opt_str(s: Seq<char>, i: int) -> Option<(Option<Seq<char>>, int)> {
    if i < s.len() && s[i] == 'n' {
        Some((None, i + 1))
    } else if i < s.len() && s[i] == 'v' {
        match parse_str(s, i + 1) {
            None => None,
            Some((v, j)) => Some((Some(v), j)),
        }
    } else {
        None
    }
}

/// `s` holds `t` starting at position `i`.
pub open spec fn starts_at(s: Seq<char>, i: int, t: Seq<char>) -> bool {
    &&& 0 <= i
    &&& i + t.len() <= s.len()
    &&& s.subrange(i, i + t.len() as int) == t
}

/// Holding a concatenation at `i` is holding its parts in order.
pub proof fn lemma_starts_at_split(s: Seq<char>, i: int, a: Seq<char>, b: Seq<char>)
    requires
        starts_at(s, i, a + b),
    ensures
        starts_at(s, i, a),
        starts_at(s, i + a.len(), b),
{
    assert forall|k: int| 0 <= k < a.len() implies s.subrange(i, i + a.len() as int)[k] == a[k] by {
        assert(s.subrange(i, i + (a + b).len() as int)[k] == (a + b)[k]);
    }
    assert(s.subrange(i, i + a.len() as int) =~= a);
    assert forall|k: int|
        0 <= k < b.len() implies s.subrange(i + a.len(), i + a.len() + b.len() as int)[k] == b[k] by {
        assert(s.subrange(i, i + (a + b).len() as int)[a.len() + k] == (a + b)[a.len() + k]);
    }
    assert(s.subrange(i + a.len(), i + a.len() + b.len() as int) =~= b);
}

/// A string value small enough that its length prefix parses back.
pub open spec fn str_wf(v: Seq<char>) -> bool {
    v.len() <= u64::MAX
}

/// Well-formedness of an optional string value.
pub open spec fn opt_str_wf(o: Option<Seq<char>>) -> bool {
    o matches Some(v) ==> str_wf(v)
}

/// A decimal rendering at `i` followed by a non-digit parses back;
/// `starts_at` form of [`lemma_parse_nat_at`].
pub proof fn lemma_parse_nat_starts(s: Seq<char>, n: u64, i: int)
    requires
        starts_at(s, i, dec(n as nat)),
        i + dec(n as nat).len() == s.len() || !is_digit(s[i + dec(n as nat).len()]),
    ensures
        parse_nat(s, i) == Some((n, i + dec(n as nat).len() as int)),
{
    assert(forall|k: int|
        0 <= k < dec(n as nat).len() ==> s[i + k] == #[trigger] dec(n as nat)[k]) by {
        assert(forall|k: int|
            0 <= k < dec(n as nat).len() ==> #[trigger] dec(n as nat)[k] == s.subrange(
                i,
                i + dec(n as nat).len() as int,
            )[k]);
    }
    lemma_parse_nat_at(s, n, i);
}

/// An encoded string at `i` parses back to its value.
pub proof fn lemma_parse_str_at(s: Seq<char>, v: Seq<char>, i: int)
    requires
        starts_at(s, i, enc_str(v)),
        str_wf(v),
    ensures
        parse_str(s, i) == Some((v, i + enc_str(v).len() as int)),
{
    let n = v.len() as u64;
    let pre = dec(v.len());
    lemma_starts_at_split(s, i, pre + seq![':'], v);
    lemma_starts_at_split(s, i, pre, seq![':']);
    let j = i + pre.len();
    assert(s[j] == ':') by {
        assert(s.subrange(j, j + 1)[0] == ':');
    }
    lemma_parse_nat_starts(s, n, i);
    assert(s.subrange(j + 1, j + 1 + n as int) =~= v) by {
        assert(forall|k: int|
            0 <= k < v.len() ==> s[j + 1 + k] == #[trigger] v[k]) by {
            assert(forall|k: int|
                0 <= k < v.len() ==> #[trigger] v[k] == s.subrange(
                    i + (pre + seq![':']).len(),
                    i + (pre + seq![':']).len() + v.len() as int,
                )[k]);
        }
    }
}

/// An encoded boolean at `i` parses back to its value.
pub proof fn lemma_parse_bool_at(s: Seq<char>, b: bool, i: int)
    requires
        starts_at(s, i, enc_bool(b)),
    ensures
        parse_bool(s, i) == Some((b, i + 1)),
{
    assert(s[i] == enc_bool(b)[0]) by {
        assert(s.subrange(i, i + 1)[0] == enc_bool(b)[0]);
    }
}

/// An encoded optional string at `i` parses back to its value.
pub proof fn lemma_parse_opt_str_at(s: Seq<char>, o: Option<Seq<char>>, i: int)
    requires
        starts_at(s, i, enc_opt_str(o)),
        opt_str_wf(o),
    ensures
        parse_opt_str(s, i) == Some((o, i + enc_opt_str(o).len() as int)),
{
    match o {
        None => {
            assert(s[i] == 'n') by {
                assert(s.subrange(i, i + 1)[0] == 'n');
            }
        },
        Some(v) => {
            lemma_starts_at_split(s, i, seq!['v'], enc_str(v));
            assert(s[i] == 'v') by {
                assert(s.subrange(i, i + 1)[0] == 'v');
            }
            assert(s[i] != 'n');
            lemma_parse_str_at(s, v, i + 1);
        },
    }
}

/// An identity embedded in a token: an anonymous guest, a backend user,
/// or a student.
#[derive(Debug, Clone, PartialEq)]
pub enum Subject {
    Guest { name: String, role: String },
    User(crate::users::GetUserDTO),
    Student { id: String, name: String },
}

/// Mathematical shape of a [`Subject`].
pub ghost enum SubjectView {
    Guest { name: Seq<char>, role: Seq<char> },
    User(crate::users::GetUserDTOView),
    Student { id: Seq<char>, name: Seq<char> },
}

impl View for Subject {
    type V = SubjectView;

    open spec fn view(&self) -> SubjectView {
        match self {
            Subject::Guest { name, role } => SubjectView::Guest { name: name@, role: role@ },
            Subject::User(u) => SubjectView::User(u@),
            Subject::Student { id, name } => SubjectView::Student { id: id@, name: name@ },
        }
    }
}

impl Subject {
    /// The anonymous identity handed to unauthenticated clients.
    pub fn guest() -> (r: Subject)
        ensures
            r@ == (SubjectView::Guest { name: "Guest"@, role: "Guest"@ }),
    {
        Subject::Guest { name: "Guest".to_owned(), role: "Guest".to_owned() }
    }
}

/// The signed payload of a token: an optional subject and the issue and
/// expiry instants, in seconds since the epoch.
#[derive(Debug, Clone, PartialEq)]
pub struct TokenCliams {
    pub user: Option<Subject>,
    pub iat: u64,
    pub exp: u64,
}

/// Mathematical shape of a [`TokenCliams`].
pub ghost struct ClaimsView {
    pub user: Option<SubjectView>,
    pub iat: u64,
    pub exp: u64,
}

impl View for TokenCliams {
    type V = ClaimsView;

    open spec fn view(&self) -> ClaimsView {
        ClaimsView {
            user: match self.user {
                Some(sub) => Some(sub@),
                None => None,
            },
            iat: self.iat,
            exp: self.exp,
        }
    }
}

/// Encoding of the user shape embedded in tokens.
pub open spec fn enc_user_dto(u: crate::users::GetUserDTOView) -> Seq<char> {
    enc_str(u.id) + enc_str(u.name) + enc_str(u.email) + enc_str(u.mobile_number) + enc_str(
        u.user_type,
    ) + enc_bool(u.is_active) + enc_opt_str(u.access_token) + enc_opt_str(u.created_at)
        + enc_opt_str(u.updated_at)
}

/// Encoding of a subject, introduced by a one-character tag.
pub open spec fn enc_subject(sub: SubjectView) -> Seq<char> {
    match sub {
        SubjectView::Guest { name, role } => seq!['g'] + enc_str(name) + enc_str(role),
        SubjectView::User(u) => seq!['u'] + enc_user_dto(u),
        SubjectView::Student { id, name } => seq!['s'] + enc_str(id) + enc_str(name),
    }
}

/// Encoding of the optional subject field of a claims payload.
pub open spec fn enc_user_field(user: Option<SubjectView>) -> Seq<char> {
    match user {
        None => seq!['n'],
        Some(sub) => enc_subject(sub),
    }
}

/// The full claims payload: both instants in decimal, then the subject.
pub open spec fn enc_claims(c: ClaimsView) -> Seq<char> {
    dec(c.iat as nat) + seq![';'] + dec(c.exp as nat) + seq![';'] + enc_user_field(c.user)
}

/// Parse of the embedded user shape from position `i`.
pub open spec fn parse_user_dto(s: Seq<char>, i: int) -> Option<
    (crate::users::GetUserDTOView, int),
> {
    match parse_str(s, i) {
        None => None,
        Some((id, i1)) => match parse_str(s, i1) {
            None => None,
            Some((name, i2)) => match parse_str(s, i2) {
                None => None,
                Some((email, i3)) => match parse_str(s, i3) {
                    None => None,
                    Some((mobile_number, i4)) => match parse_str(s, i4) {
                        None => None,
                        Some((user_type, i5)) => match parse_bool(s, i5) {
                            None => None,
                            Some((is_active, i6)) => match parse_opt_str(s, i6) {
                                None => None,
                                Some((access_token, i7)) => match parse_opt_str(s, i7) {
                                    None => None,
                                    Some((created_at, i8)) => match parse_opt_str(s, i8) {
                                        None => None,
                                        Some((updated_at, i9)) => Some(
                                            (
                                                crate::users::GetUserDTOView {
                                                    id,
                                                    name,
                                                    email,
                                                    mobile_number,
                                                    user_type,
                                                    is_active,
                                                    access_token,
                                                    created_at,
                                                    updated_at,
                                                },
                                                i9,
                                            ),
                                        ),
                                    },
                                },
                            },
                        },
                    },
                },
            },
        },
    }
}

/// Parse of a tagged subject from position `i`.
pub open spec fn parse_subject(s: Seq<char>, i: int) -> Option<(SubjectView, int)> {
    if i < s.len() && s[i] == 'g' {
        match parse_str(s, i + 1) {
            None => None,
            Some((name, j1)) => match parse_str(s, j1) {
                None => None,
                Some((role, j2)) => Some((SubjectView::Guest { name, role }, j2)),
            },
        }
    } else if i < s.len() && s[i] == 'u' {
        match parse_user_dto(s, i + 1) {
            None => None,
            Some((u, j)) => Some((SubjectView::User(u), j)),
        }
    } else if i < s.len() && s[i] == 's' {
        match parse_str(s, i + 1) {
            None => None,
            Some((id, j1)) => match parse_str(s, j1) {
                None => None,
                Some((name, j2)) => Some((SubjectView::Student { id, name }, j2)),
            },
        }
    } else {
        None
    }
}

/// Parse of the optional subject field from position `i`.
pub open spec fn parse_user_field(s: Seq<char>, i: int) -> Option<(Option<SubjectView>, int)> {
    if i < s.len() && s[i] == 'n' {
        Some((None, i + 1))
    } else {
        match parse_subject(s, i) {
            None => None,
            Some((sub, j)) => Some((Some(sub), j)),
        }
    }
}

/// Parse of a whole claims payload from the start of `s`; the returned
/// position is the first one the payload does not cover.
pub open spec fn parse_claims_prefix(s: Seq<char>) -> Option<(ClaimsView, int)> {
    match parse_nat(s, 0) {
        None => None,
        Some((iat, i1)) => if i1 < s.len() && s[i1] == ';' {
            match parse_nat(s, i1 + 1) {
                None => None,
                Some((exp, i2)) => if i2 < s.len() && s[i2] == ';' {
                    match parse_user_field(s, i2 + 1) {
                        None => None,
                        Some((user, j)) => Some((ClaimsView { user, iat, exp }, j)),
                    }
                } else {
                    None
                },
            }
        } else {
            None
        },
    }
}

/// Every string field of the embedded user shape is small enough to
/// round-trip through its length prefix.
pub open spec fn user_dto_wf(u: crate::users::GetUserDTOView) -> bool {
    &&& str_wf(u.id)
    &&& str_wf(u.name)
    &&& str_wf(u.email)
    &&& str_wf(u.mobile_number)
    &&& str_wf(u.user_type)
    &&& opt_str_wf(u.access_token)
    &&& opt_str_wf(u.created_at)
    &&& opt_str_wf(u.updated_at)
}

/// Well-formedness of a subject value.
pub open spec fn subject_wf(sub: SubjectView) -> bool {
    match sub {
        SubjectView::Guest { name, role } => str_wf(name) && str_wf(role),
        SubjectView::User(u) => user_dto_wf(u),
        SubjectView::Student { id, name } => str_wf(id) && str_wf(name),
    }
}

/// Well-formedness of a claims payload.
pub open spec fn claims_wf(c: ClaimsView) -> bool {
    c.user matches Some(sub) ==> subject_wf(sub)
}

/// An encoded user shape at `i` parses back to its value.
pub proof fn lemma_parse_user_dto_at(s: Seq<char>, u: crate::users::GetUserDTOView, i: int)
    requires
        starts_at(s, i, enc_user_dto(u)),
        user_dto_wf(u),
    ensures
        parse_user_dto(s, i) == Some((u, i + enc_user_dto(u).len() as int)),
{
    let p1 = enc_str(u.id);
    let p2 = enc_str(u.name);
    let p3 = enc_str(u.email);
    let p4 = enc_str(u.mobile_number);
    let p5 = enc_str(u.user_type);
    let p6 = enc_bool(u.is_active);
    let p7 = enc_opt_str(u.access_token);
    let p8 = enc_opt_str(u.created_at);
    let p9 = enc_opt_str(u.updated_at);
    lemma_starts_at_split(s, i, p1 + p2 + p3 + p4 + p5 + p6 + p7 + p8, p9);
    let o8 = i + (p1 + p2 + p3 + p4 + p5 + p6 + p7 + p8).len();
    lemma_starts_at_split(s, i, p1 + p2 + p3 + p4 + p5 + p6 + p7, p8);
    let o7 = i + (p1 + p2 + p3 + p4 + p5 + p6 + p7).len();
    lemma_starts_at_split(s, i, p1 + p2 + p3 + p4 + p5 + p6, p7);
    let o6 = i + (p1 + p2 + p3 + p4 + p5 + p6).len();
    lemma_starts_at_split(s, i, p1 + p2 + p3 + p4 + p5, p6);
    let o5 = i + (p1 + p2 + p3 + p4 + p5).len();
    lemma_starts_at_split(s, i, p1 + p2 + p3 + p4, p5);
    let o4 = i + (p1 + p2 + p3 + p4).len();
    lemma_starts_at_split(s, i, p1 + p2 + p3, p4);
    let o3 = i + (p1 + p2 + p3).len();
    lemma_starts_at_split(s, i, p1 + p2, p3);
    let o2 = i + (p1 + p2).len();
    lemma_starts_at_split(s, i, p1, p2);
    let o1 = i + p1.len();
    lemma_parse_str_at(s, u.id, i);
    lemma_parse_str_at(s, u.name, o1);
    lemma_parse_str_at(s, u.email, o2);
    lemma_parse_str_at(s, u.mobile_number, o3);
    lemma_parse_str_at(s, u.user_type, o4);
    lemma_parse_bool_at(s, u.is_active, o5);
    lemma_parse_opt_str_at(s, u.access_token, o6);
    lemma_parse_opt_str_at(s, u.created_at, o7);
    lemma_parse_opt_str_at(s, u.updated_at, o8);
}

/// An encoded subject at `i` parses back to its value.
pub proof fn lemma_parse_subject_at(s: Seq<char>, sub: SubjectView, i: int)
    requires
        starts_at(s, i, enc_subject(sub)),
        subject_wf(sub),
    ensures
        parse_subject(s, i) == Some((sub, i + enc_subject(sub).len() as int)),
{
    match sub {
        SubjectView::Guest { name, role } => {
            lemma_starts_at_split(s, i, seq!['g'] + enc_str(name), enc_str(role));
            lemma_starts_at_split(s, i, seq!['g'], enc_str(name));
            assert(s[i] == 'g') by {
                assert(s.subrange(i, i + 1)[0] == 'g');
            }
            lemma_parse_str_at(s, name, i + 1);
            lemma_parse_str_at(s, role, i + 1 + enc_str(name).len());
        },
        SubjectView::User(u) => {
            lemma_starts_at_split(s, i, seq!['u'], enc_user_dto(u));
            assert(s[i] == 'u') by {
                assert(s.subrange(i, i + 1)[0] == 'u');
            }
            lemma_parse_user_dto_at(s, u, i + 1);
        },
        SubjectView::Student { id, name } => {
            lemma_starts_at_split(s, i, seq!['s'] + enc_str(id), enc_str(name));
            lemma_starts_at_split(s, i, seq!['s'], enc_str(id));
            assert(s[i] == 's') by {
                assert(s.subrange(i, i + 1)[0] == 's');
            }
            lemma_parse_str_at(s, id, i + 1);
            lemma_parse_str_at(s, name, i + 1 + enc_str(id).len());
        },
    }
}

/// An encoded subject field at `i` parses back to its value.
pub proof fn lemma_parse_user_field_at(s: Seq<char>, user: Option<SubjectView>, i: int)
    requires
        starts_at(s, i, enc_user_field(user)),
        user matches Some(sub) ==> subject_wf(sub),
    ensures
        parse_user_field(s, i) == Some((user, i + enc_user_field(user).len() as int)),
{
    match user {
        None => {
            assert(s[i] == 'n') by {
                assert(s.subrange(i, i + 1)[0] == 'n');
            }
        },
        Some(sub) => {
            lemma_parse_subject_at(s, sub, i);
            assert(s[i] == enc_subject(sub)[0]) by {
                assert(s.subrange(i, i + enc_subject(sub).len() as int)[0] == enc_subject(sub)[0]);
            }
            match sub {
                SubjectView::Guest { .. } => assert(s[i] == 'g'),
                SubjectView::User(..) => assert(s[i] == 'u'),
                SubjectView::Student { .. } => assert(s[i] == 's'),
            }
        },
    }
}

/// The heart of the round trip: an encoded claims payload, followed by
/// anything at all, parses back to exactly that payload, and the parse
/// consumes exactly the payload.
pub proof fn lemma_parse_claims_of_enc(c: ClaimsView, rest: Seq<char>)
    requires
        claims_wf(c),
    ensures
        parse_claims_prefix(enc_claims(c) + rest) == Some((c, enc_claims(c).len() as int)),
{
    let s = enc_claims(c) + rest;
    let p1 = dec(c.iat as nat);
    let p2 = dec(c.exp as nat);
    let pu = enc_user_field(c.user);
    assert(starts_at(s, 0, enc_claims(c))) by {
        assert(s.subrange(0, enc_claims(c).len() as int) =~= enc_claims(c));
    }
    lemma_starts_at_split(s, 0, p1 + seq![';'] + p2 + seq![';'], pu);
    lemma_starts_at_split(s, 0, p1 + seq![';'] + p2, seq![';']);
    lemma_starts_at_split(s, 0, p1 + seq![';'], p2);
    lemma_starts_at_split(s, 0, p1, seq![';']);
    let i1 = p1.len() as int;
    let i2 = (p1 + seq![';'] + p2).len() as int;
    let iu = (p1 + seq![';'] + p2 + seq![';']).len() as int;
    assert(s[i1] == ';') by {
        assert(s.subrange(i1, i1 + 1)[0] == ';');
    }
    assert(s[i2] == ';') by {
        assert(s.subrange(i2, i2 + 1)[0] == ';');
    }
    lemma_parse_nat_starts(s, c.iat, 0);
    lemma_parse_nat_starts(s, c.exp, i1 + 1);
    lemma_parse_user_field_at(s, c.user, iu);
}

/// The encoding is injective: distinct claims have distinct payloads.
/// So a token accepted under different claims than it was issued with
/// must carry a different payload — and, to pass verification, the HMAC
/// tag of that different payload.
pub proof fn lemma_enc_claims_injective(c1: ClaimsView, c2: ClaimsView)
    requires
        claims_wf(c1),
        claims_wf(c2),
        enc_claims(c1) == enc_claims(c2),
    ensures
        c1 == c2,
{
    lemma_parse_claims_of_enc(c1, Seq::<char>::empty());
    lemma_parse_claims_of_enc(c2, Seq::<char>::empty());
    assert(enc_claims(c1) + Seq::<char>::empty() =~= enc_claims(c1));
    assert(enc_claims(c2) + Seq::<char>::empty() =~= enc_claims(c2));
}

/// Appends a length-prefixed string field.
fn append_str_field(out: &mut String, v: &str)
    ensures
        final(out)@ == old(out)@ + enc_str(v@),
{
    let len_u64: u64 = v.unicode_len() as u64;
    let num = dec_str(len_u64);
    out.append(num.as_str());
    out.append(":");
    out.append(v);
    proof {
        reveal_strlit(":");
        assert(":"@ =~= seq![':']);
        assert(out@ =~= old(out)@ + enc_str(v@));
    }
}

/// Appends a boolean flag field.
fn append_bool_field(out: &mut String, b: bool)
    ensures
        final(out)@ == old(out)@ + enc_bool(b),
{
    if b {
        out.append("1");
    } else {
        out.append("0");
    }
    proof {
        reveal_strlit("1");
        reveal_strlit("0");
        assert(out@ =~= old(out)@ + enc_bool(b));
    }
}

/// Appends an optional string field.
fn append_opt_field(out: &mut String, v: &Option<String>)
    ensures
        final(out)@ == old(out)@ + enc_opt_str(crate::users::view_opt_string(*v)),
{
    match v {
        None => {
            out.append("n");
            proof {
                reveal_strlit("n");
                assert(out@ =~= old(out)@ + enc_opt_str(
                    crate::users::view_opt_string(*v),
                ));
            }
        },
        Some(x) => {
            out.append("v");
            proof {
                reveal_strlit("v");
            }
            append_str_field(out, x.as_str());
            proof {
                assert(out@ =~= old(out)@ + enc_opt_str(
                    crate::users::view_opt_string(*v),
                ));
            }
        },
    }
}

/// Appends the embedded user shape.
fn append_user_dto(out: &mut String, u: &crate::users::GetUserDTO)
    ensures
        final(out)@ == old(out)@ + enc_user_dto(u@),
{
    append_str_field(out, u.id.as_str());
    append_str_field(out, u.name.as_str());
    append_str_field(out, u.email.as_str());
    append_str_field(out, u.mobile_number.as_str());
    append_str_field(out, u.user_type.as_str());
    append_bool_field(out, u.is_active);
    append_opt_field(out, &u.access_token);
    append_opt_field(out, &u.created_at);
    append_opt_field(out, &u.updated_at);
    proof {
        assert(out@ =~= old(out)@ + enc_user_dto(u@));
    }
}

/// Appends a tagged subject.
fn append_subject(out: &mut String, sub: &Subject)
    ensures
        final(out)@ == old(out)@ + enc_subject(sub@),
{
    match sub {
        Subject::Guest { name, role } => {
            out.append("g");
            proof {
                reveal_strlit("g");
            }
            append_str_field(out, name.as_str());
            append_str_field(out, role.as_str());
            proof {
                assert(out@ =~= old(out)@ + enc_subject(sub@));
            }
        },
        Subject::User(u) => {
            out.append("u");
            proof {
                reveal_strlit("u");
            }
            append_user_dto(out, u);
            proof {
                assert(out@ =~= old(out)@ + enc_subject(sub@));
            }
        },
        Subject::Student { id, name } => {
            out.append("s");
            proof {
                reveal_strlit("s");
            }
            append_str_field(out, id.as_str());
            append_str_field(out, name.as_str());
            proof {
                assert(out@ =~= old(out)@ + enc_subject(sub@));
            }
        },
    }
}

/// Renders a claims payload into its textual encoding.
pub fn encode_claims(c: &TokenCliams) -> (r: String)
    ensures
        r@ == enc_claims(c@),
{
    let mut out = String::new();
    let iat_str = dec_str(c.iat);
    out.append(iat_str.as_str());
    out.append(";");
    let exp_str = dec_str(c.exp);
    out.append(exp_str.as_str());
    out.append(";");
    proof {
        reveal_strlit(";");
        assert(";"@ =~= seq![';']);
    }
    match &c.user {
        None => {
            out.append("n");
            proof {
                reveal_strlit("n");
                assert(out@ =~= enc_claims(c@));
            }
        },
        Some(sub) => {
            append_subject(&mut out, sub);
            proof {
                assert(out@ =~= enc_claims(c@));
            }
        },
    }
    out
}

/// Parse of a length-prefixed string field; mirrors [`parse_str`].
fn take_string(s: &str, start: usize, len: usize) -> (r: Option<(String, usize)>)
    requires
        len == s@.len(),
        start <= len,
    ensures
        match r {
            Some(p) => parse_str(s@, start as int) == Some((p.0@, p.1 as int)) && start <= p.1
                <= len,
            None => parse_str(s@, start as int) is None,
        },
{
    match take_nat(s, start, len) {
        None => None,
        Some((n, j)) => {
            if j < len && s.get_char(j) == ':' {
                let rem: usize = len - j - 1;
                if n <= rem as u64 {
                    let n_us: usize = n as usize;
                    let sub = s.substring_char(j + 1, j + 1 + n_us);
                    Some((sub.to_owned(), j + 1 + n_us))
                } else {
                    None
                }
            } else {
                None
            }
        },
    }
}

/// Parse of a boolean flag field; mirrors [`parse_bool`].
fn take_bool(s: &str, start: usize, len: usize) -> (r: Option<(bool, usize)>)
    requires
        len == s@.len(),
        start <= len,
    ensures
        match r {
            Some(p) => parse_bool(s@, start as int) == Some((p.0, p.1 as int)) && start <= p.1
                <= len,
            None => parse_bool(s@, start as int) is None,
        },
{
    if start < len {
        let c = s.get_char(start);
        if c == '1' {
            Some((true, start + 1))
        } else if c == '0' {
            Some((false, start + 1))
        } else {
            None
        }
    } else {
        None
    }
}

/// Parse of an optional string field; mirrors [`parse_opt_str`].
fn take_opt_string(s: &str, start: usize, len: usize) -> (r: Option<(Option<String>, usize)>)
    requires
        len == s@.len(),
        start <= len,
    ensures
        match r {
            Some(p) => parse_opt_str(s@, start as int) == Some(
                (crate::users::view_opt_string(p.0), p.1 as int),
            ) && start <= p.1 <= len,
            None => parse_opt_str(s@, start as int) is None,
        },
{
    if start < len {
        let c = s.get_char(start);
        if c == 'n' {
            Some((None, start + 1))
        } else if c == 'v' {
            match take_string(s, start + 1, len) {
                None => None,
                Some((v, j)) => Some((Some(v), j)),
            }
        } else {
            None
        }
    } else {
        None
    }
}

/// Parse of the embedded user shape; mirrors [`parse_user_dto`].
fn take_user_dto(s: &str, start: usize, len: usize) -> (r: Option<(crate::users::GetUserDTO, usize)>)
    requires
        len == s@.len(),
        start <= len,
    ensures
        match r {
            Some(p) => parse_user_dto(s@, start as int) == Some((p.0@, p.1 as int)) && start
                <= p.1 <= len,
            None => parse_user_dto(s@, start as int) is None,
        },
{
    let (id, i1) = match take_string(s, start, len) {
        None => {
            return None;
        },
        Some(p) => p,
    };
    let (name, i2) = match take_string(s, i1, len) {
        None => {
            return None;
        },
        Some(p) => p,
    };
    let (email, i3) = match take_string(s, i2, len) {
        None => {
            return None;
        },
        Some(p) => p,
    };
    let (mobile_number, i4) = match take_string(s, i3, len) {
        None => {
            return None;
        },
        Some(p) => p,
    };
    let (user_type, i5) = match take_string(s, i4, len) {
        None => {
            return None;
        },
        Some(p) => p,
    };
    let (is_active, i6) = match take_bool(s, i5, len) {
        None => {
            return None;
        },
        Some(p) => p,
    };
    let (access_token, i7) = match take_opt_string(s, i6, len) {
        None => {
            return None;
        },
        Some(p) => p,
    };
    let (created_at, i8) = match take_opt_string(s, i7, len) {
        None => {
            return None;
        },
        Some(p) => p,
    };
    let (updated_at, i9) = match take_opt_string(s, i8, len) {
        None => {
            return None;
        },
        Some(p) => p,
    };
    Some(
        (
            crate::users::GetUserDTO {
                id,
                name,
                email,
                mobile_number,
                user_type,
                is_active,
                access_token,
                created_at,
                updated_at,
            },
            i9,
        ),
    )
}

/// Parse of a tagged subject; mirrors [`parse_subject`].
fn take_subject(s: &str, start: usize, len: usize) -> (r: Option<(Subject, usize)>)
    requires
        len == s@.len(),
        start <= len,
    ensures
        match r {
            Some(p) => parse_subject(s@, start as int) == Some((p.0@, p.1 as int)) && start
                <= p.1 <= len,
            None => parse_subject(s@, start as int) is None,
        },
{
    if start < len {
        let c = s.get_char(start);
        if c == 'g' {
            match take_string(s, start + 1, len) {
                None => None,
                Some((name, j1)) => match take_string(s, j1, len) {
                    None => None,
                    Some((role, j2)) => Some((Subject::Guest { name, role }, j2)),
                },
            }
        } else if c == 'u' {
            match take_user_dto(s, start + 1, len) {
                None => None,
                Some((u, j)) => Some((Subject::User(u), j)),
            }
        } else if c == 's' {
            match take_string(s, start + 1, len) {
                None => None,
                Some((id, j1)) => match take_string(s, j1, len) {
                    None => None,
                    Some((name, j2)) => Some((Subject::Student { id, name }, j2)),
                },
            }
        } else {
            None
        }
    } else {
        None
    }
}

/// Parse of the optional subject field; mirrors [`parse_user_field`].
fn take_user_field(s: &str, start: usize, len: usize) -> (r: Option<(Option<Subject>, usize)>)
    requires
        len == s@.len(),
        start <= len,
    ensures
        match r {
            Some(p) => parse_user_field(s@, start as int) == Some(
                (
                    match p.0 {
                        Some(sub) => Some(sub@),
                        None => None,
                    },
                    p.1 as int,
                ),
            ) && start <= p.1 <= len,
            None => parse_user_field(s@, start as int) is None,
        },
{
    if start < len && s.get_char(start) == 'n' {
        Some((None, start + 1))
    } else {
        match take_subject(s, start, len) {
            None => None,
            Some((sub, j)) => Some((Some(sub), j)),
        }
    }
}

/// Parse of a whole claims payload from the start of `s`; mirrors
/// [`parse_claims_prefix`]. The returned position is the first one the
/// payload does not cover.
pub fn decode_claims(s: &str) -> (r: Option<(TokenCliams, usize)>)
    ensures
        match r {
            Some(p) => parse_claims_prefix(s@) == Some((p.0@, p.1 as int)) && p.1 <= s@.len(),
            None => parse_claims_prefix(s@) is None,
        },
{
    let len: usize = s.unicode_len();
    let (iat, i1) = match take_nat(s, 0, len) {
        None => {
            return None;
        },
        Some(p) => p,
    };
    if !(i1 < len && s.get_char(i1) == ';') {
        return None;
    }
    let (exp, i2) = match take_nat(s, i1 + 1, len) {
        None => {
            return None;
        },
        Some(p) => p,
    };
    if !(i2 < len && s.get_char(i2) == ';') {
        return None;
    }
    let (user, j) = match take_user_field(s, i2 + 1, len) {
        None => {
            return None;
        },
        Some(p) => p,
    };
    Some((TokenCliams { user, iat, exp }, j))
}

} // verus!
