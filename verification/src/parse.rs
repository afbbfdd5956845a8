//! The parsing contract a cached value type must provide: a total function
//! from text to either a value or a typed parse error, together with the
//! specification of exactly which texts parse and to what.

use vstd::prelude::*;

verus! {

/// A type whose values can be parsed from text.
///
/// Parsing is total: every text either parses, yielding a value for which
/// `parse_result` holds, or fails, yielding an error for which `parse_error`
/// holds — and `parse_ok` says which of the two happens.
pub trait TextValue: Sized {
    /// The typed error a failed parse reports.
    type ParseErr;

    /// Whether parsing the text `t` succeeds.
    spec fn parse_ok(t: Seq<char>) -> bool;

    /// Whether `v` is the value that the text `t` parses to.
    spec fn parse_result(t: Seq<char>, v: Self) -> bool;

    /// Whether `e` is the error that parsing the text `t` reports.
    spec fn parse_error(t: Seq<char>, e: Self::ParseErr) -> bool;

    /// Parse `s`, succeeding exactly on the texts `parse_ok` admits.
    fn parse_text(s: &str) -> (r: Result<Self, Self::ParseErr>)
        ensures
            match r {
                Ok(v) => Self::parse_ok(s@) && Self::parse_result(s@, v),
                Err(e) => !Self::parse_ok(s@) && Self::parse_error(s@, e),
            },
    ;

    /// Return a value equal to `self`, leaving `self` in place.
    fn dup(&self) -> (r: Self)
        ensures
            r == *self,
    ;
}

/// Text parses to the string holding exactly that text; this never fails.
impl TextValue for String {
    type ParseErr = ();

    open spec fn parse_ok(t: Seq<char>) -> bool {
        true
    }

    open spec fn parse_result(t: Seq<char>, v: String) -> bool {
        v@ == t
    }

    open spec fn parse_error(t: Seq<char>, e: ()) -> bool {
        false
    }

    fn parse_text(s: &str) -> (r: Result<String, ()>) {
        Ok(s.to_owned())
    }

    fn dup(&self) -> (r: String) {
        self.clone()
    }
}

/// Exactly the texts `true` and `false` parse, to the matching boolean.
impl TextValue for bool {
    type ParseErr = ();

    open spec fn parse_ok(t: Seq<char>) -> bool {
        t == "true"@ || t == "false"@
    }

    open spec fn parse_result(t: Seq<char>, v: bool) -> bool {
        v == (t == "true"@)
    }

    open spec fn parse_error(t: Seq<char>, e: ()) -> bool {
        true
    }

    fn parse_text(s: &str) -> (r: Result<bool, ()>) {
        let t: String = s.to_owned();
        let yes: String = "true".to_owned();
        if t == yes {
            Ok(true)
        } else {
            let no: String = "false".to_owned();
            if t == no {
                proof {
                    reveal_strlit("true");
                    reveal_strlit("false");
                }
                Ok(false)
            } else {
                Err(())
            }
        }
    }

    fn dup(&self) -> (r: bool) {
        *self
    }
}

/// Whether `c` is a decimal digit.
pub open spec fn is_digit(c: char) -> bool {
    '0' <= c && c <= '9'
}

/// The numeric value of the decimal digit `c`.
pub open spec fn digit_val(c: char) -> int {
    c as int - 0x30
}

/// Whether every character of `t` is a decimal digit.
pub open spec fn all_digits(t: Seq<char>) -> bool {
    forall|i: int| 0 <= i < t.len() ==> is_digit(#[trigger] t[i])
}

/// The number the digit string `t` denotes in decimal.
pub open spec fn dec_val(t: Seq<char>) -> int
    decreases t.len(),
{
    if t.len() == 0 {
        0
    } else {
        dec_val(t.drop_last()) * 10 + digit_val(t.last())
    }
}

proof fn lemma_dec_val_nonneg(t: Seq<char>)
    requires
        all_digits(t),
    ensures
        dec_val(t) >= 0,
    decreases t.len(),
{
    if t.len() > 0 {
        assert(all_digits(t.drop_last()));
        lemma_dec_val_nonneg(t.drop_last());
    }
}

/// A digit string denotes at least what any of its prefixes denotes.
proof fn lemma_dec_val_prefix(t: Seq<char>, k: int)
    requires
        all_digits(t),
        0 <= k <= t.len(),
    ensures
        dec_val(t.subrange(0, k)) <= dec_val(t),
    decreases t.len() - k,
{
    if k < t.len() {
        let longer = t.subrange(0, k + 1);
        let shorter = t.subrange(0, k);
        assert(longer.drop_last() =~= shorter);
        assert(all_digits(shorter));
        lemma_dec_val_nonneg(shorter);
        assert(dec_val(longer) == dec_val(shorter) * 10 + digit_val(t[k]));
        lemma_dec_val_prefix(t, k + 1);
    } else {
        assert(t.subrange(0, k) =~= t);
    }
}

/// Exactly the nonempty all-digit texts whose decimal value fits in the type
/// parse, to that value.
impl TextValue for u64 {
    type ParseErr = ();

    open spec fn parse_ok(t: Seq<char>) -> bool {
        t.len() > 0 && all_digits(t) && dec_val(t) <= u64::MAX
    }

    open spec fn parse_result(t: Seq<char>, v: u64) -> bool {
        v == dec_val(t)
    }

    open spec fn parse_error(t: Seq<char>, e: ()) -> bool {
        true
    }

    fn parse_text(s: &str) -> (r: Result<u64, ()>) {
        if !s.is_ascii() {
            proof {
                let ghost t = s@;
                assert(exists|i: int|
                    0 <= i < t.len() && !('\0' <= #[trigger] t[i] <= '\u{7f}')) by {
                    if forall|i: int| 0 <= i < t.len() ==> '\0' <= #[trigger] t[i] <= '\u{7f}' {
                        assert(vstd::string::is_ascii(s));
                    }
                }
                let i = choose|i: int|
                    0 <= i < t.len() && !('\0' <= #[trigger] t[i] <= '\u{7f}');
                assert(!is_digit(t[i]));
                assert(!all_digits(t));
            }
            return Err(());
        }
        let b: &[u8] = s.as_bytes();
        proof {
            vstd::string::is_ascii_spec_bytes(s);
        }
        let n: usize = b.len();
        if n == 0 {
            return Err(());
        }
        let mut acc: u64 = 0;
        let mut i: usize = 0;
        while i < n
            invariant
                n == b@.len(),
                b@.len() == s@.len(),
                forall|j: int| 0 <= j < s@.len() ==> #[trigger] b@[j] == s@[j] as u8,
                forall|j: int| 0 <= j < s@.len() ==> '\0' <= #[trigger] s@[j] <= '\u{7f}',
                0 <= i <= n,
                forall|j: int| 0 <= j < i ==> is_digit(#[trigger] s@[j]),
                acc == dec_val(s@.subrange(0, i as int)),
            decreases n - i,
        {
            let c = b[i];
            proof {
                assert(c == s@[i as int] as u8);
                assert((s@[i as int] as int) < 128);
                assert(c as int == s@[i as int] as int);
            }
            if c < 0x30 || c > 0x39 {
                proof {
                    assert(!is_digit(s@[i as int]));
                }
                return Err(());
            }
            let d: u64 = (c - 0x30) as u64;
            proof {
                assert(is_digit(s@[i as int]));
                assert(d == digit_val(s@[i as int]));
                assert(s@.subrange(0, i + 1 as int).drop_last() =~= s@.subrange(0, i as int));
                assert(dec_val(s@.subrange(0, i + 1 as int)) == dec_val(s@.subrange(0, i as int))
                    * 10 + digit_val(s@[i as int]));
            }
            let next: u64 = match acc.checked_mul(10) {
                Some(x) => match x.checked_add(d) {
                    Some(y) => y,
                    None => {
                        proof {
                            lemma_digits_overflow(s@, i as int);
                        }
                        return Err(());
                    },
                },
                None => {
                    proof {
                        lemma_digits_overflow(s@, i as int);
                    }
                    return Err(());
                },
            };
            acc = next;
            i += 1;
        }
        proof {
            assert(s@.subrange(0, n as int) =~= s@);
        }
        Ok(acc)
    }

    fn dup(&self) -> (r: u64) {
        *self
    }
}

/// When the digits through position `i` already denote more than the type
/// holds, no text with that prefix parses.
proof fn lemma_digits_overflow(t: Seq<char>, i: int)
    requires
        0 <= i < t.len(),
        forall|j: int| 0 <= j <= i ==> is_digit(#[trigger] t[j]),
        dec_val(t.subrange(0, i + 1)) > u64::MAX,
    ensures
        !<u64 as TextValue>::parse_ok(t),
{
    if all_digits(t) {
        lemma_dec_val_prefix(t, i + 1);
    }
}

} // verus!
