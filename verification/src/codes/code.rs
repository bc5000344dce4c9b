//! What the list shows for one entry at a given time.

use vstd::prelude::*;
use crate::codes::params::{Algorithm, MAX_DIGITS, MIN_DIGITS, Totp, TotpView};

verus! {

/// The code for the period that holds `time`, a time in seconds since the
/// epoch.
pub uninterp spec fn totp_token(
    algorithm: Algorithm,
    digits: usize,
    step: u64,
    secret: Seq<u8>,
    time: u64,
) -> Seq<char>;

/// `totp_rs::TOTP::generate`, on the parameters put together by
/// `TOTP::new_unchecked`: the code for the period that holds `time`. It is
/// the decimal number, filled with zeros to the number of digits. The call
/// is made only for a period that has a length and for 6 to 8 digits.
#[verifier::external_body]
fn generate(algorithm: Algorithm, digits: usize, step: u64, secret: &[u8], time: u64) -> (token:
    String)
    requires
        step > 0,
        MIN_DIGITS <= digits <= MAX_DIGITS,
    ensures
        token@ == totp_token(algorithm, digits, step, secret@, time),
        token@.len() == digits,
        token.is_ascii(),
{
    let algorithm = match algorithm {
        Algorithm::SHA1 => totp_rs::Algorithm::SHA1,
        Algorithm::SHA256 => totp_rs::Algorithm::SHA256,
        Algorithm::SHA512 => totp_rs::Algorithm::SHA512,
    };
    totp_rs::TOTP::new_unchecked(algorithm, digits, 0, step, secret.to_vec(), None, String::new())
        .generate(time)
}

/// A code with a space between its halves; of an odd number of characters
/// the second half is the longer.
pub open spec fn spaced(token: Seq<char>) -> Seq<char> {
    let half = token.len() as int / 2;
    token.subrange(0, half) + seq![' '] + token.subrange(half, token.len() as int)
}

/// Puts a space between the halves of a code.
pub fn space_halves(token: &str) -> (s: String)
    requires
        token.is_ascii(),
    ensures
        s@ == spaced(token@),
{
    let count = token.unicode_len();
    let half = count / 2;
    let first = token.substring_ascii(0, half);
    let second = token.substring_ascii(half, count);
    let mut s = String::from_str(first);
    s.append(" ");
    s.append(second);
    proof {
        reveal_strlit(" ");
        assert(" "@ =~= seq![' ']);
    }
    s
}

/// A time in milliseconds as the display takes it: times beyond the largest
/// that it can hold are shown as the largest.
pub open spec fn display_time(ms: int) -> i64 {
    if ms > i64::MAX {
        i64::MAX
    } else {
        ms as i64
    }
}

/// The first second of the period after the one that holds `secs`.
pub open spec fn next_period(step: u64, secs: u64) -> int {
    secs - secs % step + step
}

/// The time in seconds that the code after the current one is made for: the
/// first second of the next period, or the largest time where that is out
/// of range.
pub open spec fn next_period_time(step: u64, secs: u64) -> u64 {
    if next_period(step, secs) > u64::MAX {
        u64::MAX
    } else {
        next_period(step, secs) as u64
    }
}

/// What the list shows for one entry.
#[derive(Debug, PartialEq, Eq)]
pub struct Code {
    /// The number by which requests name the entry.
    pub unique_idx: i32,
    pub name: String,
    pub issuer: String,
    /// The current code, with a space between its halves.
    pub code: String,
    /// The code of the next period, with a space between its halves.
    pub next_code: String,
    /// The period, in milliseconds.
    pub step: i64,
    /// When the entry was made, in milliseconds since the epoch.
    pub start_unix_time: i64,
    /// When the current code runs out, in milliseconds since the epoch.
    pub valid_until_unix_time: i64,
}

/// An entry of the list as contracts see it.
pub struct CodeView {
    pub unique_idx: i32,
    pub name: Seq<char>,
    pub issuer: Seq<char>,
    pub code: Seq<char>,
    pub next_code: Seq<char>,
    pub step: i64,
    pub start_unix_time: i64,
    pub valid_until_unix_time: i64,
}

impl View for Code {
    type V = CodeView;

    open spec fn view(&self) -> CodeView {
        CodeView {
            unique_idx: self.unique_idx,
            name: self.name@,
            issuer: self.issuer@,
            code: self.code@,
            next_code: self.next_code@,
            step: self.step,
            start_unix_time: self.start_unix_time,
            valid_until_unix_time: self.valid_until_unix_time,
        }
    }
}

/// What the list shows for the parameters `totp` at `unix_time_ms`
/// milliseconds since the epoch: the codes of the current and of the next
/// period, and the end of the current period, which is the time left in it
/// added to the time that was given.
pub open spec fn code_at(unique_idx: i32, totp: TotpView, unix_time_ms: u64) -> CodeView {
    let secs = unix_time_ms / 1000;
    CodeView {
        unique_idx,
        name: totp.account_name,
        issuer: match totp.issuer {
            Some(i) => i,
            None => Seq::<char>::empty(),
        },
        code: spaced(totp_token(totp.algorithm, totp.digits, totp.step, totp.secret, secs)),
        next_code: spaced(
            totp_token(
                totp.algorithm,
                totp.digits,
                totp.step,
                totp.secret,
                next_period_time(totp.step, secs),
            ),
        ),
        step: display_time(totp.step * 1000),
        start_unix_time: display_time(unix_time_ms as int),
        valid_until_unix_time: display_time(unix_time_ms + (totp.step - secs % totp.step) * 1000),
    }
}

/// A time in milliseconds as the display takes it.
pub fn to_display_time(ms: u128) -> (t: i64)
    ensures
        t == display_time(ms as int),
{
    if ms > i64::MAX as u128 {
        i64::MAX
    } else {
        ms as i64
    }
}

/// What the list shows for an entry at `unix_time_ms` milliseconds since
/// the epoch.
pub fn totp_to_code(unique_idx: i32, totp: &Totp, unix_time_ms: u64) -> (code: Code)
    requires
        totp@.can_generate(),
    ensures
        code@ == code_at(unique_idx, totp@, unix_time_ms),
{
    let secs: u64 = unix_time_ms / 1000;
    let elapsed: u64 = secs % totp.step;
    assert(elapsed <= secs) by (nonlinear_arith)
        requires
            elapsed == secs % totp.step,
            totp.step > 0,
    ;
    let valid_duration_secs: u64 = totp.step - elapsed;
    let valid_until: u128 = unix_time_ms as u128 + (valid_duration_secs as u128) * 1000;
    let next: u128 = (secs - elapsed) as u128 + totp.step as u128;
    let next_time: u64 = if next > u64::MAX as u128 {
        u64::MAX
    } else {
        next as u64
    };
    let current = generate(totp.algorithm, totp.digits, totp.step, totp.secret.as_slice(), secs);
    let following = generate(
        totp.algorithm,
        totp.digits,
        totp.step,
        totp.secret.as_slice(),
        next_time,
    );
    let issuer = match &totp.issuer {
        Some(i) => i.clone(),
        None => String::new(),
    };
    Code {
        unique_idx,
        name: totp.account_name.clone(),
        issuer,
        code: space_halves(current.as_str()),
        next_code: space_halves(following.as_str()),
        step: to_display_time((totp.step as u128) * 1000),
        start_unix_time: to_display_time(unix_time_ms as u128),
        valid_until_unix_time: to_display_time(valid_until),
    }
}

} // verus!
