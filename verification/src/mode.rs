//! Octal permission-mode strings.
//!
//! A mode string denotes a POSIX permission bitmask written in base 8, with
//! any number of leading zeros tolerated (`"755"` and `"0755"` denote the
//! same value). A string is rejected unless it is non-empty, consists of
//! octal digits only, and denotes a value that fits in `u32`.

use vstd::prelude::*;

use crate::errors::InstallError;

verus! {

/// The numeric value of one digit character, relative to `'0'`.
pub open spec fn octal_digit_value(c: char) -> int {
    c as int - 48
}

/// Whether `c` is one of the digits `'0'` through `'7'`.
pub open spec fn is_octal_digit(c: char) -> bool {
    48 <= c as int && c as int <= 55
}

/// Whether every character of `s` is an octal digit.
pub open spec fn all_octal_digits(s: Seq<char>) -> bool {
    forall|i: int| 0 <= i < s.len() ==> is_octal_digit(#[trigger] s[i])
}

/// The base-8 value denoted by the digit string `s`.
pub open spec fn octal_value(s: Seq<char>) -> int
    decreases s.len(),
{
    if s.len() == 0 {
        0
    } else {
        octal_value(s.drop_last()) * 8 + octal_digit_value(s.last())
    }
}

/// Whether `s` is an acceptable mode string: non-empty, octal digits only,
/// and a value that fits in `u32`.
pub open spec fn mode_ok(s: Seq<char>) -> bool {
    &&& s.len() > 0
    &&& all_octal_digits(s)
    &&& octal_value(s) <= u32::MAX
}

proof fn lemma_octal_value_nonneg(s: Seq<char>)
    requires
        all_octal_digits(s),
    ensures
        octal_value(s) >= 0,
    decreases s.len(),
{
    if s.len() > 0 {
        assert(is_octal_digit(s[s.len() - 1]));
        assert(all_octal_digits(s.drop_last())) by {
            assert forall|i: int| 0 <= i < s.drop_last().len() implies is_octal_digit(
                #[trigger] s.drop_last()[i],
            ) by {
                assert(s.drop_last()[i] == s[i]);
            }
        }
        lemma_octal_value_nonneg(s.drop_last());
    }
}

proof fn lemma_octal_value_prefix_le(s: Seq<char>, i: int)
    requires
        all_octal_digits(s),
        0 <= i <= s.len(),
    ensures
        octal_value(s.take(i)) <= octal_value(s),
    decreases s.len(),
{
    if i == s.len() {
        assert(s.take(i) =~= s);
    } else {
        assert(is_octal_digit(s[s.len() - 1]));
        assert(all_octal_digits(s.drop_last())) by {
            assert forall|i2: int| 0 <= i2 < s.drop_last().len() implies is_octal_digit(
                #[trigger] s.drop_last()[i2],
            ) by {
                assert(s.drop_last()[i2] == s[i2]);
            }
        }
        assert(s.drop_last().take(i) =~= s.take(i));
        lemma_octal_value_prefix_le(s.drop_last(), i);
        lemma_octal_value_nonneg(s.drop_last());
    }
}

/// Parse an octal mode string into its permission bitmask.
///
/// Succeeds exactly on acceptable mode strings and returns their base-8
/// value; any other string is rejected with `InvalidMode` naming it.
pub fn parse_mode(mode: &str) -> (r: Result<u32, InstallError>)
    ensures
        mode_ok(mode@) ==> (r matches Ok(v) && v == octal_value(mode@)),
        !mode_ok(mode@) ==> (r matches Err(e) && e@ == crate::errors::InstallErrorModel::InvalidMode(
            mode@,
        )),
{
    let n = mode.unicode_len();
    if n == 0 {
        return Err(InstallError::InvalidMode(mode.to_owned()));
    }
    let mut value: u32 = 0;
    let mut i: usize = 0;
    while i < n
        invariant
            n == mode@.len(),
            0 < n,
            i <= n,
            all_octal_digits(mode@.take(i as int)),
            value == octal_value(mode@.take(i as int)),
        decreases n - i,
    {
        let c = mode.get_char(i);
        let cv = c as u32;
        if cv < 48 || cv > 55 {
            proof {
                assert(!is_octal_digit(mode@[i as int]));
                assert(!mode_ok(mode@));
            }
            return Err(InstallError::InvalidMode(mode.to_owned()));
        }
        let d = cv - 48;
        proof {
            assert(mode@.take(i + 1).drop_last() =~= mode@.take(i as int));
            assert(mode@.take(i + 1).last() == mode@[i as int]);
        }
        if value > 0x1FFF_FFFF {
            proof {
                // The prefix through this digit already exceeds u32::MAX, so
                // if the whole string is octal its value does too; otherwise
                // it has a non-octal digit. Either way it is rejected.
                assert(octal_value(mode@.take(i + 1)) > u32::MAX);
                if all_octal_digits(mode@) {
                    lemma_octal_value_prefix_le(mode@, i + 1);
                }
                assert(!mode_ok(mode@));
            }
            return Err(InstallError::InvalidMode(mode.to_owned()));
        }
        value = value * 8 + d;
        i = i + 1;
    }
    proof {
        assert(mode@.take(n as int) =~= mode@);
    }
    Ok(value)
}

proof fn lemma_leading_zero_value(s: Seq<char>)
    ensures
        octal_value(seq!['0'] + s) == octal_value(s),
    decreases s.len(),
{
    let z = seq!['0'];
    if s.len() == 0 {
        assert((z + s) =~= z);
        assert(z.drop_last() =~= Seq::<char>::empty());
        assert(octal_value(z) == octal_value(Seq::<char>::empty()) * 8 + octal_digit_value('0'));
    } else {
        assert((z + s).drop_last() =~= z + s.drop_last());
        assert((z + s).last() == s.last());
        lemma_leading_zero_value(s.drop_last());
    }
}

/// Law: prefixing an acceptable mode string with `'0'` keeps it acceptable
/// and denotes the identical numeric value.
pub proof fn lemma_mode_leading_zero(s: Seq<char>)
    requires
        mode_ok(s),
    ensures
        mode_ok(seq!['0'] + s),
        octal_value(seq!['0'] + s) == octal_value(s),
{
    let z = seq!['0'];
    lemma_leading_zero_value(s);
    assert(all_octal_digits(z + s)) by {
        assert forall|i: int| 0 <= i < (z + s).len() implies is_octal_digit(
            #[trigger] (z + s)[i],
        ) by {
            if i == 0 {
                assert((z + s)[0] == '0');
            } else {
                assert((z + s)[i] == s[i - 1]);
            }
        }
    }
}

} // verus!
