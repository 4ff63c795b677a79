//! Configuration values from named variables: parsing of boolean and integer
//! settings, and a reader over a set of variables with an optional key
//! prefix. The caller supplies the variables (for instance, a snapshot of the
//! process environment) as plain key/value pairs.

use vstd::prelude::*;
use vstd::string::{StrSliceExecFns, StringExecFns};

verus! {

/// Lowers one ASCII letter code point; leaves every other code point as it
/// is.
pub open spec fn ascii_lower(u: u32) -> u32 {
    if 65 <= u <= 90 {
        (u + 32) as u32
    } else {
        u
    }
}

/// Character sequences that agree up to ASCII letter case.
pub open spec fn eq_ignore_ascii_case_spec(a: Seq<char>, b: Seq<char>) -> bool {
    a.len() == b.len() && (forall|i: int|
        0 <= i < a.len() ==> ascii_lower(#[trigger] a[i] as u32) == ascii_lower(b[i] as u32))
}

/// Compares two strings ignoring ASCII letter case.
pub fn eq_ignore_ascii_case(a: &str, b: &str) -> (r: bool)
    ensures
        r == eq_ignore_ascii_case_spec(a@, b@),
{
    let na = a.unicode_len();
    let nb = b.unicode_len();
    if na != nb {
        return false;
    }
    let mut i: usize = 0;
    while i < na
        invariant
            0 <= i <= na,
            na == a@.len(),
            na == b@.len(),
            forall|j: int| 0 <= j < i ==> ascii_lower(#[trigger] a@[j] as u32) == ascii_lower(
                b@[j] as u32,
            ),
        decreases na - i,
    {
        let ca = a.get_char(i) as u32;
        let cb = b.get_char(i) as u32;
        let la = if 65 <= ca && ca <= 90 {
            ca + 32
        } else {
            ca
        };
        let lb = if 65 <= cb && cb <= 90 {
            cb + 32
        } else {
            cb
        };
        if la != lb {
            return false;
        }
        i = i + 1;
    }
    true
}

/// The boolean a configuration value stands for, ignoring ASCII letter case:
/// `true`, `1`, `yes` and `on` are true; `false`, `0`, `no` and `off` are
/// false; anything else is no boolean.
pub open spec fn spec_parse_bool(s: Seq<char>) -> Option<bool> {
    if eq_ignore_ascii_case_spec(s, "true"@) || eq_ignore_ascii_case_spec(s, "1"@)
        || eq_ignore_ascii_case_spec(s, "yes"@) || eq_ignore_ascii_case_spec(s, "on"@) {
        Some(true)
    } else if eq_ignore_ascii_case_spec(s, "false"@) || eq_ignore_ascii_case_spec(s, "0"@)
        || eq_ignore_ascii_case_spec(s, "no"@) || eq_ignore_ascii_case_spec(s, "off"@) {
        Some(false)
    } else {
        None
    }
}

/// Parses a boolean configuration value, ignoring ASCII letter case.
pub fn parse_bool(value: &str) -> (r: Option<bool>)
    ensures
        r == spec_parse_bool(value@),
{
    if eq_ignore_ascii_case(value, "true") || eq_ignore_ascii_case(value, "1")
        || eq_ignore_ascii_case(value, "yes") || eq_ignore_ascii_case(value, "on") {
        Some(true)
    } else if eq_ignore_ascii_case(value, "false") || eq_ignore_ascii_case(value, "0")
        || eq_ignore_ascii_case(value, "no") || eq_ignore_ascii_case(value, "off") {
        Some(false)
    } else {
        None
    }
}

/// Whether a character is a decimal digit.
pub open spec fn is_digit_char(c: char) -> bool {
    48 <= c as u32 <= 57
}

/// The value of one decimal digit character.
pub open spec fn digit_val(c: char) -> int
    recommends
        is_digit_char(c),
{
    c as u32 - 48
}

/// Whether every character of the sequence is a decimal digit.
pub open spec fn all_digits(s: Seq<char>) -> bool {
    forall|i: int| 0 <= i < s.len() ==> is_digit_char(#[trigger] s[i])
}

/// The value of a digit sequence read as a decimal number.
pub open spec fn dec_val(s: Seq<char>) -> int
    recommends
        all_digits(s),
    decreases s.len(),
{
    if s.len() == 0 {
        0
    } else {
        dec_val(s.drop_last()) * 10 + digit_val(s.last())
    }
}

/// Ten to the `k`.
pub open spec fn pow10(k: nat) -> int
    decreases k,
{
    if k == 0 {
        1
    } else {
        10 * pow10((k - 1) as nat)
    }
}

/// A digit sequence's value is below ten to its length.
pub proof fn lemma_dec_val_bounds(s: Seq<char>)
    requires
        all_digits(s),
    ensures
        0 <= dec_val(s) < pow10(s.len()),
    decreases s.len(),
{
    if s.len() > 0 {
        assert(all_digits(s.drop_last()));
        lemma_dec_val_bounds(s.drop_last());
    }
}

/// A digit sequence with a nonzero first digit is at least ten to one less
/// than its length.
pub proof fn lemma_dec_val_lower(s: Seq<char>)
    requires
        all_digits(s),
        s.len() >= 1,
        digit_val(s[0]) >= 1,
    ensures
        dec_val(s) >= pow10((s.len() - 1) as nat),
    decreases s.len(),
{
    assert(is_digit_char(s[s.len() - 1]));
    assert(s.last() == s[s.len() - 1]);
    if s.len() == 1 {
        assert(dec_val(s.drop_last()) == 0);
        assert(dec_val(s) == digit_val(s[0]));
        assert(pow10(0) == 1);
    } else {
        assert(all_digits(s.drop_last()));
        assert(s.drop_last()[0] == s[0]);
        lemma_dec_val_lower(s.drop_last());
        assert(pow10((s.len() - 1) as nat) == 10 * pow10((s.len() - 2) as nat));
        assert(dec_val(s) == dec_val(s.drop_last()) * 10 + digit_val(s.last()));
        assert(digit_val(s.last()) >= 0);
    }
}

/// Leading zero digits do not change a sequence's decimal value.
pub proof fn lemma_dec_val_zero_prefix(s: Seq<char>, k: int)
    requires
        0 <= k <= s.len(),
        forall|i: int| 0 <= i < k ==> digit_val(#[trigger] s[i]) == 0,
    ensures
        dec_val(s) == dec_val(s.skip(k)),
    decreases s.len(),
{
    if s.len() == k {
        assert(s.skip(k) =~= Seq::<char>::empty());
        lemma_dec_val_all_zero(s);
    } else {
        let dl = s.drop_last();
        lemma_dec_val_zero_prefix(dl, k);
        assert(s.skip(k).drop_last() =~= dl.skip(k));
        assert(s.skip(k).last() == s.last());
    }
}

/// A sequence of zero digits has value zero.
pub proof fn lemma_dec_val_all_zero(s: Seq<char>)
    requires
        forall|i: int| 0 <= i < s.len() ==> digit_val(#[trigger] s[i]) == 0,
    ensures
        dec_val(s) == 0,
    decreases s.len(),
{
    if s.len() > 0 {
        lemma_dec_val_all_zero(s.drop_last());
    }
}

/// Ten to the `k` grows with `k`.
pub proof fn lemma_pow10_mono(a: nat, b: nat)
    requires
        a <= b,
    ensures
        pow10(a) <= pow10(b),
    decreases b,
{
    if a < b {
        lemma_pow10_mono(a, (b - 1) as nat);
        lemma_pow10_pos((b - 1) as nat);
    }
}

/// Ten to the `k` is positive.
pub proof fn lemma_pow10_pos(k: nat)
    ensures
        pow10(k) >= 1,
    decreases k,
{
    if k > 0 {
        lemma_pow10_pos((k - 1) as nat);
    }
}

/// The signed integer a string stands for: an optional sign, then decimal
/// digits, with the value in the i64 range; anything else is no integer.
pub open spec fn spec_parse_i64(s: Seq<char>) -> Option<i64> {
    let neg = s.len() > 0 && s[0] == '-';
    let digits = if s.len() > 0 && (s[0] == '-' || s[0] == '+') {
        s.skip(1)
    } else {
        s
    };
    if digits.len() == 0 || !all_digits(digits) {
        None
    } else {
        let v = if neg {
            -dec_val(digits)
        } else {
            dec_val(digits)
        };
        if i64::MIN <= v <= i64::MAX {
            Some(v as i64)
        } else {
            None
        }
    }
}

/// Parses a signed decimal integer: an optional `+` or `-` sign, then
/// digits. Fails on an empty string, a lone sign, any other character, and
/// any value outside the i64 range.
#[verifier::loop_isolation(false)]
#[verifier::rlimit(30)]
pub fn parse_i64(s: &str) -> (r: Option<i64>)
    ensures
        r == spec_parse_i64(s@),
{
    let n = s.unicode_len();
    if n == 0 {
        return None;
    }
    let first = s.get_char(0);
    let neg = first == '-';
    let start: usize = if first == '-' || first == '+' {
        1
    } else {
        0
    };
    if n == start {
        return None;
    }
    let ghost digits = s@.skip(start as int);
    proof {
        if start == 0 {
            assert(digits =~= s@);
        }
        assert(digits == (if s@.len() > 0 && (s@[0] == '-' || s@[0] == '+') {
            s@.skip(1)
        } else {
            s@
        }));
    }

    let mut j = start;
    while j < n
        invariant
            start <= j <= n,
            n == s@.len(),
            forall|i: int| start <= i < j ==> is_digit_char(#[trigger] s@[i]),
        decreases n - j,
    {
        let u = s.get_char(j) as u32;
        if u < 48 || u > 57 {
            proof {
                assert(digits[j - start as int] == s@[j as int]);
                assert(!all_digits(digits));
            }
            return None;
        }
        j = j + 1;
    }
    proof {
        assert forall|i: int| 0 <= i < digits.len() implies is_digit_char(
            #[trigger] digits[i],
        ) by {
            assert(digits[i] == s@[i + start]);
        }
        assert(all_digits(digits));
    }
    let mut z = start;
    while z < n
        invariant
            start <= z <= n,
            n == s@.len(),
            forall|i: int| start <= i < z ==> #[trigger] s@[i] as u32 == 48,
        decreases n - z,
    {
        if s.get_char(z) as u32 != 48 {
            break;
        }
        z = z + 1;
    }
    proof {
        assert forall|i: int| 0 <= i < z - start implies digit_val(#[trigger] digits[i]) == 0 by {
            assert(digits[i] == s@[i + start]);
        }
        lemma_dec_val_zero_prefix(digits, z - start as int);
    }
    if z == n {
        proof {
            assert(digits.skip(z - start as int) =~= Seq::<char>::empty());
            assert(dec_val(Seq::<char>::empty()) == 0);
            assert(dec_val(digits) == 0);
        }
        return Some(0);
    }
    let ghost stripped = digits.skip(z - start as int);
    proof {
        assert(stripped =~= s@.subrange(z as int, n as int));
        assert(all_digits(stripped));
        assert(stripped[0] == s@[z as int]);
        assert(digit_val(stripped[0]) >= 1);
    }
    let k = n - z;
    if k > 19 {
        proof {
            lemma_dec_val_lower(stripped);
            lemma_pow10_mono(19, (stripped.len() - 1) as nat);
            assert(pow10(19) == 10000000000000000000) by {
                reveal_with_fuel(pow10, 21);
            }
        }
        return None;
    }
    let mut acc: i128 = 0;
    let mut m = z;
    proof {
        assert(pow10(19) == 10000000000000000000) by {
            reveal_with_fuel(pow10, 21);
        }
    }
    while m < n
        invariant
            z <= m <= n,
            n == s@.len(),
            n - z <= 19,
            all_digits(s@.subrange(z as int, n as int)),
            acc == dec_val(s@.subrange(z as int, m as int)),
            0 <= acc < pow10((m - z) as nat),
            pow10(19) == 10000000000000000000,
        decreases n - m,
    {
        let u = s.get_char(m) as u32;
        proof {
            assert(is_digit_char(s@.subrange(z as int, n as int)[m - z as int]));
            lemma_pow10_mono((m - z) as nat, 18);
            assert(pow10(18) * 10 == pow10(19));
        }
        let d = (u - 48) as i128;
        acc = acc * 10 + d;
        m = m + 1;
        proof {
            let prev = s@.subrange(z as int, m - 1);
            let cur = s@.subrange(z as int, m as int);
            assert(cur.drop_last() =~= prev);
            assert(cur.last() == s@[m - 1]);
        }
    }
    proof {
        assert(s@.subrange(z as int, n as int) =~= stripped);
    }
    let v: i128 = if neg {
        -acc
    } else {
        acc
    };
    if -9223372036854775808i128 <= v && v <= 9223372036854775807i128 {
        Some(v as i64)
    } else {
        None
    }
}

/// The value of the first pair whose key is `key`, if any.
pub open spec fn spec_lookup(vars: Seq<(String, String)>, key: Seq<char>) -> Option<Seq<char>>
    decreases vars.len(),
{
    if vars.len() == 0 {
        None
    } else if vars[0].0@ == key {
        Some(vars[0].1@)
    } else {
        spec_lookup(vars.skip(1), key)
    }
}

/// A reader of named configuration variables. It looks keys up in a set of
/// key/value pairs that the caller supplies — typically a snapshot of the
/// process environment — prefixing every key with a configured prefix.
pub struct EnvReader {
    /// The prefix put before every key.
    pub prefix: String,
    /// The variables to read from.
    pub vars: Vec<(String, String)>,
}

impl EnvReader {
    /// The configured prefix.
    pub open spec fn spec_prefix(self) -> Seq<char> {
        self.prefix@
    }

    /// The variables read from.
    pub open spec fn spec_vars(self) -> Seq<(String, String)> {
        self.vars@
    }

    /// The value this reader gives for `key`: the first variable named
    /// prefix-then-key.
    pub open spec fn spec_get(self, key: Seq<char>) -> Option<Seq<char>> {
        spec_lookup(self.vars@, self.prefix@ + key)
    }

    /// A reader with no prefix and no variables.
    pub fn new() -> (r: Self)
        ensures
            r.spec_prefix() == Seq::<char>::empty(),
            r.spec_vars() == Seq::<(String, String)>::empty(),
    {
        let r = Self { prefix: String::new(), vars: Vec::new() };
        proof {
            assert(r.spec_vars() =~= Seq::<(String, String)>::empty());
        }
        r
    }

    /// Sets the key prefix.
    pub fn prefix(self, prefix: &str) -> (r: Self)
        ensures
            r.spec_prefix() == prefix@,
            r.spec_vars() == self.spec_vars(),
    {
        Self { prefix: String::from_str(prefix), vars: self.vars }
    }

    /// Supplies the variables to read from.
    pub fn vars(self, vars: Vec<(String, String)>) -> (r: Self)
        ensures
            r.spec_prefix() == self.spec_prefix(),
            r.spec_vars() == vars@,
    {
        Self { prefix: self.prefix, vars }
    }

    /// The full key: the prefix, then the key.
    fn full_key(&self, key: &str) -> (r: String)
        ensures
            r@ == self.prefix@ + key@,
    {
        self.prefix.clone().concat(key)
    }

    /// Reads a variable.
    pub fn get(&self, key: &str) -> (r: Option<String>)
        ensures
            r is Some <==> self.spec_get(key@) is Some,
            r matches Some(v) ==> self.spec_get(key@) == Some(v@),
    {
        let full = self.full_key(key);
        proof {
            assert(self.vars@.skip(0) =~= self.vars@);
        }
        let mut i: usize = 0;
        while i < self.vars.len()
            invariant
                0 <= i <= self.vars@.len(),
                full@ == self.prefix@ + key@,
                spec_lookup(self.vars@, full@) == spec_lookup(self.vars@.skip(i as int), full@),
            decreases self.vars@.len() - i,
        {
            proof {
                assert(self.vars@.skip(i as int)[0] == self.vars@[i as int]);
                assert(self.vars@.skip(i as int).skip(1) =~= self.vars@.skip(i + 1));
            }
            if self.vars[i].0.eq(&full) {
                return Some(self.vars[i].1.clone());
            }
            i = i + 1;
        }
        proof {
            assert(self.vars@.skip(i as int) =~= Seq::<(String, String)>::empty());
        }
        None
    }

    /// Reads a required variable; the error names the missing key.
    pub fn require(&self, key: &str) -> (r: Result<String, String>)
        ensures
            r is Ok <==> self.spec_get(key@) is Some,
            r matches Ok(v) ==> self.spec_get(key@) == Some(v@),
            r matches Err(e) ==> e@ == "环境变量 "@ + self.spec_prefix() + key@ + " 未设置"@,
    {
        match self.get(key) {
            Some(v) => Ok(v),
            None => {
                let mut msg = String::from_str("环境变量 ");
                msg.append(self.full_key(key).as_str());
                msg.append(" 未设置");
                proof {
                    assert(msg@ =~= "环境变量 "@ + self.spec_prefix() + key@ + " 未设置"@);
                }
                Err(msg)
            },
        }
    }

    /// Reads a variable, or returns the default when it is missing.
    pub fn get_or(&self, key: &str, default: &str) -> (r: String)
        ensures
            (match self.spec_get(key@) {
                Some(v) => r@ == v,
                None => r@ == default@,
            }),
    {
        match self.get(key) {
            Some(v) => v,
            None => String::from_str(default),
        }
    }

    /// Reads an integer variable; missing and unparsable are both `None`.
    pub fn get_int(&self, key: &str) -> (r: Option<i64>)
        ensures
            r == (match self.spec_get(key@) {
                Some(v) => spec_parse_i64(v),
                None => None::<i64>,
            }),
    {
        match self.get(key) {
            Some(v) => parse_i64(v.as_str()),
            None => None,
        }
    }

    /// Reads an integer variable, or returns the default when it is missing
    /// or not an integer.
    pub fn get_int_or(&self, key: &str, default: i64) -> (r: i64)
        ensures
            r == (match self.spec_get(key@) {
                Some(v) => (match spec_parse_i64(v) {
                    Some(n) => n,
                    None => default,
                }),
                None => default,
            }),
    {
        match self.get_int(key) {
            Some(n) => n,
            None => default,
        }
    }

    /// Reads a boolean variable; missing and unparsable are both `None`.
    pub fn get_bool(&self, key: &str) -> (r: Option<bool>)
        ensures
            r == (match self.spec_get(key@) {
                Some(v) => spec_parse_bool(v),
                None => None::<bool>,
            }),
    {
        match self.get(key) {
            Some(v) => parse_bool(v.as_str()),
            None => None,
        }
    }

    /// Reads a boolean variable, or returns the default when it is missing
    /// or not a boolean.
    pub fn get_bool_or(&self, key: &str, default: bool) -> (r: bool)
        ensures
            r == (match self.spec_get(key@) {
                Some(v) => (match spec_parse_bool(v) {
                    Some(b) => b,
                    None => default,
                }),
                None => default,
            }),
    {
        match self.get_bool(key) {
            Some(b) => b,
            None => default,
        }
    }

    /// Whether a variable is present.
    pub fn has_key(&self, key: &str) -> (r: bool)
        ensures
            r == (self.spec_get(key@) is Some),
    {
        match self.get(key) {
            Some(_) => true,
            None => false,
        }
    }
}

} // verus!
