//! The parameters of a time-based one-time code, and the URL that
//! describes them.

use vstd::prelude::*;

verus! {

/// Why the parameters of a code are refused.
#[derive(Clone, Copy, Debug, PartialEq, Eq, Structural)]
pub enum Rfc6238Error {
    /// A code has 6, 7 or 8 digits; this number of digits is not allowed.
    InvalidDigits(usize),
    /// The secret has too few bits; this is the number it has.
    SecretTooSmall(usize),
}

/// Why a URL is not taken as an entry.
#[derive(Debug, PartialEq, Eq)]
pub enum UrlError {
    /// The text is no `otpauth://` URL that describes a code.
    Url,
    /// A code has 6, 7 or 8 digits; this number of digits is not allowed.
    DigitsNumber(usize),
    /// The secret has too few bits; this is the number it has.
    SecretSize(usize),
    /// The period of a code is at least one second.
    Step(u64),
    /// The issuer holds a colon.
    Issuer(String),
    /// The account name holds a colon.
    AccountName(String),
}

/// The smallest number of digits of a code.
pub const MIN_DIGITS: usize = 6;

/// The largest number of digits of a code.
pub const MAX_DIGITS: usize = 8;

/// The smallest number of bytes of a secret: 80 bits, which are in common
/// use, although 128 are recommended.
pub const MIN_SECRET_BYTES: usize = 10;

/// Checks that the number of digits is between 6 and 8.
pub fn assert_digits(digits: &usize) -> (r: Result<(), Rfc6238Error>)
    ensures
        r == (if MIN_DIGITS <= *digits <= MAX_DIGITS {
            Ok::<(), Rfc6238Error>(())
        } else {
            Err::<(), Rfc6238Error>(Rfc6238Error::InvalidDigits(*digits))
        }),
{
    if *digits < MIN_DIGITS || *digits > MAX_DIGITS {
        Err(Rfc6238Error::InvalidDigits(*digits))
    } else {
        Ok(())
    }
}

/// Checks that the secret has at least 80 bits; the error holds the number
/// of bits it has.
pub fn assert_secret_length(secret: &[u8]) -> (r: Result<(), Rfc6238Error>)
    ensures
        r == (if secret@.len() >= MIN_SECRET_BYTES {
            Ok::<(), Rfc6238Error>(())
        } else {
            Err::<(), Rfc6238Error>(Rfc6238Error::SecretTooSmall((secret@.len() * 8) as usize))
        }),
{
    if secret.len() < MIN_SECRET_BYTES {
        Err(Rfc6238Error::SecretTooSmall(secret.len() * 8))
    } else {
        Ok(())
    }
}

/// The hash that a code is computed with.
#[derive(Clone, Copy, Debug, PartialEq, Eq, Structural)]
pub enum Algorithm {
    SHA1,
    SHA256,
    SHA512,
}

/// The parameters of a time-based one-time code.
#[derive(Debug, PartialEq, Eq)]
pub struct Totp {
    pub algorithm: Algorithm,
    /// The number of digits of a code.
    pub digits: usize,
    /// The number of periods before and after the current one whose codes
    /// are still taken.
    pub skew: u8,
    /// The period of a code, in seconds.
    pub step: u64,
    pub secret: Vec<u8>,
    pub issuer: Option<String>,
    pub account_name: String,
}

/// The parameters of a code as contracts see them.
pub struct TotpView {
    pub algorithm: Algorithm,
    pub digits: usize,
    pub skew: u8,
    pub step: u64,
    pub secret: Seq<u8>,
    pub issuer: Option<Seq<char>>,
    pub account_name: Seq<char>,
}

impl View for Totp {
    type V = TotpView;

    open spec fn view(&self) -> TotpView {
        TotpView {
            algorithm: self.algorithm,
            digits: self.digits,
            skew: self.skew,
            step: self.step,
            secret: self.secret@,
            issuer: match self.issuer {
                Some(i) => Some(i@),
                None => None,
            },
            account_name: self.account_name@,
        }
    }
}

impl TotpView {
    /// Why the parameters are refused, if they are: the first of a wrong
    /// number of digits, a short secret, a colon in the issuer, a colon in
    /// the account name, a period of no length.
    pub open spec fn fault(self) -> Option<TotpFault> {
        if !(MIN_DIGITS <= self.digits <= MAX_DIGITS) {
            Some(TotpFault::Digits)
        } else if self.secret.len() < MIN_SECRET_BYTES {
            Some(TotpFault::Secret)
        } else if self.issuer is Some && self.issuer.unwrap().contains(':') {
            Some(TotpFault::Issuer)
        } else if self.account_name.contains(':') {
            Some(TotpFault::AccountName)
        } else if self.step == 0 {
            Some(TotpFault::Step)
        } else {
            None
        }
    }

    /// Whether the parameters have no fault.
    pub open spec fn valid(self) -> bool {
        self.fault() is None
    }

    /// Whether codes can be made from the parameters: the period has a
    /// length and the number of digits is between 6 and 8.
    pub open spec fn can_generate(self) -> bool {
        self.step > 0 && MIN_DIGITS <= self.digits <= MAX_DIGITS
    }
}

/// What is wrong with the parameters of a code.
#[derive(Clone, Copy, Debug, PartialEq, Eq, Structural)]
pub enum TotpFault {
    Digits,
    Secret,
    Issuer,
    AccountName,
    Step,
}

impl UrlError {
    /// Whether the error reports `fault` of the parameters `totp`.
    pub open spec fn reports(self, fault: TotpFault, totp: TotpView) -> bool {
        match fault {
            TotpFault::Digits => self == UrlError::DigitsNumber(totp.digits),
            TotpFault::Secret => self == UrlError::SecretSize((totp.secret.len() * 8) as usize),
            TotpFault::Issuer => self matches UrlError::Issuer(i) && totp.issuer == Some(i@),
            TotpFault::AccountName => self matches UrlError::AccountName(n) && totp.account_name
                == n@,
            TotpFault::Step => self == UrlError::Step(totp.step),
        }
    }
}

/// The first ten characters of a URL that describes a code.
pub open spec fn otpauth_prefix() -> Seq<char> {
    seq!['o', 't', 'p', 'a', 'u', 't', 'h', ':', '/', '/']
}

/// The largest of the characters that are cut off the end of a URL before
/// it is read: the space. The control characters come before it.
pub const LAST_TRIMMED: u32 = 0x20;

/// Whether a host name begins with the character: it is none of those that
/// are cut off the end of a URL, and none that ends the host or sets a user
/// name apart from it.
pub open spec fn begins_host(c: char) -> bool {
    c as u32 > LAST_TRIMMED && c != '/' && c != '?' && c != '#' && c != ':' && c != '@' && c != '\\'
}

/// Whether the text begins as an `otpauth://` URL with a host: the scheme
/// in lower case, then two slashes, then the first character of the host.
pub open spec fn names_host(url: Seq<char>) -> bool {
    url.len() > 10 && url.subrange(0, 10) == otpauth_prefix() && begins_host(url[10])
}

/// Whether the text begins as an `otpauth://` URL with a host.
pub fn check_names_host(url: &str) -> (b: bool)
    ensures
        b == names_host(url@),
{
    let count = url.unicode_len();
    if count <= 10 {
        return false;
    }
    let begins = url.get_char(0) == 'o' && url.get_char(1) == 't' && url.get_char(2) == 'p'
        && url.get_char(3) == 'a' && url.get_char(4) == 'u' && url.get_char(5) == 't'
        && url.get_char(6) == 'h' && url.get_char(7) == ':' && url.get_char(8) == '/'
        && url.get_char(9) == '/';
    let c = url.get_char(10);
    let host = c as u32 > LAST_TRIMMED && c != '/' && c != '?' && c != '#' && c != ':' && c != '@'
        && c != '\\';
    proof {
        if begins {
            assert(url@.subrange(0, 10) =~= otpauth_prefix());
        } else {
            let p = url@.subrange(0, 10);
            assert(p[0] == url@[0] && p[1] == url@[1] && p[2] == url@[2] && p[3] == url@[3] && p[4]
                == url@[4] && p[5] == url@[5] && p[6] == url@[6] && p[7] == url@[7] && p[8]
                == url@[8] && p[9] == url@[9]);
        }
    }
    begins && host
}

/// Whether the text holds a colon.
pub fn contains_colon(text: &str) -> (b: bool)
    ensures
        b == text@.contains(':'),
{
    let count = text.unicode_len();
    let mut i: usize = 0;
    while i < count
        invariant
            count == text@.len(),
            i <= count,
            forall|j: int| 0 <= j < i ==> text@[j] != ':',
        decreases count - i,
    {
        if text.get_char(i) == ':' {
            return true;
        }
        i = i + 1;
    }
    false
}

/// The scheme of a URL that describes a code.
pub open spec fn otpauth_scheme() -> Seq<char> {
    seq!['o', 't', 'p', 'a', 'u', 't', 'h']
}

/// Whether the character is cut off the ends of a URL before it is read: a
/// control character or the space.
pub open spec fn is_trimmed(c: char) -> bool {
    c as u32 <= LAST_TRIMMED
}

/// Whether the character is passed over wherever it stands in a URL: a tab
/// or the end of a line.
pub open spec fn is_break(c: char) -> bool {
    c == '\t' || c == '\n' || c == '\r'
}

/// The text without the characters that are cut off its end.
pub open spec fn trim_end(text: Seq<char>) -> Seq<char>
    decreases text.len(),
{
    if text.len() > 0 && is_trimmed(text.last()) {
        trim_end(text.drop_last())
    } else {
        text
    }
}

/// The text without the characters that are cut off its start.
pub open spec fn trim_start(text: Seq<char>) -> Seq<char>
    decreases text.len(),
{
    if text.len() > 0 && is_trimmed(text[0]) {
        trim_start(text.skip(1))
    } else {
        text
    }
}

/// The text without the tabs and ends of lines in it.
pub open spec fn without_breaks(text: Seq<char>) -> Seq<char>
    decreases text.len(),
{
    if text.len() == 0 {
        text
    } else if is_break(text.last()) {
        without_breaks(text.drop_last())
    } else {
        without_breaks(text.drop_last()).push(text.last())
    }
}

/// Whether the character is the letter `lower` in either case.
pub open spec fn is_letter(c: char, lower: char) -> bool {
    c == lower || c as u32 + 32 == lower as u32
}

/// Whether the text begins with the scheme `otpauth`, in whichever case.
pub open spec fn names_scheme(text: Seq<char>) -> bool {
    &&& text.len() >= 7
    &&& is_letter(text[0], 'o')
    &&& is_letter(text[1], 't')
    &&& is_letter(text[2], 'p')
    &&& is_letter(text[3], 'a')
    &&& is_letter(text[4], 'u')
    &&& is_letter(text[5], 't')
    &&& is_letter(text[6], 'h')
}

/// The text with the scheme `otpauth` in lower case, where it begins with
/// that scheme.
pub open spec fn with_scheme_folded(text: Seq<char>) -> Seq<char> {
    if names_scheme(text) {
        otpauth_scheme() + text.skip(7)
    } else {
        text
    }
}

/// The text as a URL is read: without control characters and blanks at its
/// ends, without tabs and ends of lines, and with the scheme `otpauth` in
/// lower case.
pub open spec fn normalised(url: Seq<char>) -> Seq<char> {
    with_scheme_folded(without_breaks(trim_start(trim_end(url))))
}

/// Whether the character is the letter `lower` in either case.
fn check_letter(c: char, lower: char) -> (b: bool)
    requires
        'a' <= lower <= 'z',
    ensures
        b == is_letter(c, lower),
{
    c == lower || (c as u32) + 32 == lower as u32
}

/// The text as a URL is read.
pub fn normalise_url(url: &str) -> (text: String)
    ensures
        text@ == normalised(url@),
{
    let count = url.unicode_len();
    let mut end: usize = count;
    assert(url@.take(count as int) =~= url@);
    while end > 0 && url.get_char(end - 1) as u32 <= LAST_TRIMMED
        invariant
            count == url@.len(),
            end <= count,
            trim_end(url@) == trim_end(url@.take(end as int)),
        decreases end,
    {
        assert(url@.take(end as int).drop_last() =~= url@.take(end - 1));
        end = end - 1;
    }
    let ghost kept = url@.take(end as int);
    assert(trim_end(url@) == kept);
    let mut start: usize = 0;
    assert(kept.skip(0) =~= kept);
    while start < end && url.get_char(start) as u32 <= LAST_TRIMMED
        invariant
            count == url@.len(),
            start <= end <= count,
            kept == url@.take(end as int),
            trim_start(kept) == trim_start(kept.skip(start as int)),
        decreases end - start,
    {
        assert(kept.skip(start as int)[0] == url@[start as int]);
        assert(kept.skip(start as int).skip(1) =~= kept.skip(start + 1));
        start = start + 1;
    }
    let ghost core = url@.subrange(start as int, end as int);
    assert(kept.skip(start as int) =~= core);
    assert(trim_start(kept) == core) by {
        if start < end {
            assert(core[0] == url@[start as int]);
        }
    }
    let mut out = String::new();
    let mut from: usize = start;
    let mut i: usize = start;
    assert(url@.subrange(start as int, start as int) =~= Seq::<char>::empty());
    while i < end
        invariant
            count == url@.len(),
            start <= from <= i <= end <= count,
            out@ + url@.subrange(from as int, i as int) == without_breaks(
                url@.subrange(start as int, i as int),
            ),
        decreases end - i,
    {
        let c = url.get_char(i);
        let ghost read = url@.subrange(start as int, i + 1);
        assert(read.drop_last() =~= url@.subrange(start as int, i as int));
        assert(read.last() == c);
        if c == '\t' || c == '\n' || c == '\r' {
            out.append(url.substring_char(from, i));
            from = i + 1;
            assert(url@.subrange(from as int, from as int) =~= Seq::<char>::empty());
            assert(out@ + url@.subrange(from as int, from as int) =~= out@);
        } else {
            assert(out@ + url@.subrange(from as int, i + 1) =~= (out@ + url@.subrange(
                from as int,
                i as int,
            )).push(c));
        }
        i = i + 1;
    }
    out.append(url.substring_char(from, end));
    assert(out@ == without_breaks(core));
    let length = out.as_str().unicode_len();
    if length < 7 {
        return out;
    }
    let text = out.as_str();
    let scheme = check_letter(text.get_char(0), 'o') && check_letter(text.get_char(1), 't')
        && check_letter(text.get_char(2), 'p') && check_letter(text.get_char(3), 'a')
        && check_letter(text.get_char(4), 'u') && check_letter(text.get_char(5), 't')
        && check_letter(text.get_char(6), 'h');
    if !scheme {
        return out;
    }
    let mut folded = String::from_str("otpauth");
    folded.append(text.substring_char(7, length));
    proof {
        reveal_strlit("otpauth");
        assert("otpauth"@ =~= otpauth_scheme());
        assert(out@.subrange(7, length as int) =~= out@.skip(7));
    }
    folded
}

/// `totp_rs::TotpUrlError`: why a URL could not be read. It is handed on
/// without being looked into.
#[verifier::external_type_specification]
#[verifier::external_body]
pub struct ExTotpUrlError(totp_rs::TotpUrlError);

/// What the parts of an `otpauth://` URL are, where it can be read:
/// algorithm, digits, period, secret, issuer and account name, with the
/// defaults for what the URL leaves out.
pub uninterp spec fn otpauth_url_parts(url: Seq<char>) -> Option<TotpView>;

/// `totp_rs::TOTP::from_url_unchecked`: reads the parts of an `otpauth://`
/// URL without checking them. It is called only on a text that begins as
/// such a URL with a host.
#[verifier::external_body]
fn from_url_unchecked(url: &str) -> (r: Result<Totp, totp_rs::TotpUrlError>)
    requires
        names_host(url@),
    ensures
        otpauth_url_parts(url@) == (match r {
            Ok(totp) => Some(totp@),
            Err(_) => None,
        }),
{
    let read = totp_rs::TOTP::from_url_unchecked(url)?;
    let algorithm = match read.algorithm {
        totp_rs::Algorithm::SHA1 => Algorithm::SHA1,
        totp_rs::Algorithm::SHA256 => Algorithm::SHA256,
        totp_rs::Algorithm::SHA512 => Algorithm::SHA512,
    };
    let (digits, skew, step) = (read.digits, read.skew, read.step);
    let (secret, issuer) = (read.secret.clone(), read.issuer.clone());
    Ok(Totp { algorithm, digits, skew, step, secret, issuer, account_name: read.account_name.clone() })
}

/// The parts that a text describes as a URL, where it begins, as it is
/// read, as an `otpauth://` URL with a host, and can be read.
pub open spec fn described_by(url: Seq<char>) -> Option<TotpView> {
    if names_host(normalised(url)) {
        otpauth_url_parts(normalised(url))
    } else {
        None
    }
}

/// The parameters of the code that a URL describes. The secret may be
/// short, down to 80 bits. The text is taken as a URL is read: blanks at its
/// ends, tabs and ends of lines are passed over, and the scheme may be in
/// either case. Fails with `Url` when the text does not then begin as an
/// `otpauth://` URL with a host, or cannot be read; else with the first
/// fault of the parameters, if they have one.
pub fn url_to_totp(url: &str) -> (r: Result<Totp, UrlError>)
    ensures
        match described_by(url@) {
            None => r == Err::<Totp, UrlError>(UrlError::Url),
            Some(parts) => match parts.fault() {
                None => r is Ok && r->Ok_0@ == parts,
                Some(fault) => r is Err && r->Err_0.reports(fault, parts),
            },
        },
{
    let text = normalise_url(url);
    if !check_names_host(text.as_str()) {
        return Err(UrlError::Url);
    }
    let totp = match from_url_unchecked(text.as_str()) {
        Ok(totp) => totp,
        Err(_) => {
            return Err(UrlError::Url);
        },
    };
    match assert_digits(&totp.digits) {
        Err(_) => {
            return Err(UrlError::DigitsNumber(totp.digits));
        },
        Ok(()) => {},
    }
    match assert_secret_length(totp.secret.as_slice()) {
        Err(_) => {
            return Err(UrlError::SecretSize(totp.secret.len() * 8));
        },
        Ok(()) => {},
    }
    let issuer_has_colon = match &totp.issuer {
        Some(issuer) => contains_colon(issuer.as_str()),
        None => false,
    };
    if issuer_has_colon {
        let Totp { issuer, .. } = totp;
        return Err(UrlError::Issuer(issuer.unwrap()));
    }
    if contains_colon(totp.account_name.as_str()) {
        return Err(UrlError::AccountName(totp.account_name));
    }
    if totp.step == 0 {
        return Err(UrlError::Step(totp.step));
    }
    Ok(totp)
}

/// The URL that describes the parameters of a code, in the one form in
/// which equal parameters give equal URLs.
pub uninterp spec fn otpauth_url(totp: TotpView) -> Seq<char>;

/// `totp_rs::TOTP::get_url`, on the parameters put together by
/// `TOTP::new_unchecked`: the URL that describes them.
#[verifier::external_body]
pub(crate) fn get_url(totp: &Totp) -> (url: String)
    ensures
        url@ == otpauth_url(totp@),
{
    let algorithm = match totp.algorithm {
        Algorithm::SHA1 => totp_rs::Algorithm::SHA1,
        Algorithm::SHA256 => totp_rs::Algorithm::SHA256,
        Algorithm::SHA512 => totp_rs::Algorithm::SHA512,
    };
    let (secret, issuer, name) = (totp.secret.clone(), totp.issuer.clone(), totp.account_name.clone());
    totp_rs::TOTP::new_unchecked(algorithm, totp.digits, totp.skew, totp.step, secret, issuer, name)
        .get_url()
}

/// Whether a URL describes parameters without fault.
pub open spec fn is_entry(url: Seq<char>) -> bool {
    described_by(url) is Some && described_by(url).unwrap().valid()
}

/// Whether `error` is why the URL is not taken as an entry.
pub open spec fn refuses(url: Seq<char>, error: UrlError) -> bool {
    match described_by(url) {
        None => error == UrlError::Url,
        Some(parts) => parts.fault() is Some && error.reports(parts.fault().unwrap(), parts),
    }
}

/// Whether `totp` holds the parameters that the URL describes, and they
/// have no fault.
pub open spec fn is_read_from(totp: Totp, url: String) -> bool {
    is_entry(url@) && described_by(url@) == Some(totp@)
}

/// The parameters that the stored URLs describe, in their order. Fails with
/// the error of the first URL that is not taken as an entry.
pub fn load_totps(urls: &Vec<String>) -> (r: Result<Vec<Totp>, UrlError>)
    ensures
        match r {
            Ok(totps) => {
                &&& totps@.len() == urls@.len()
                &&& forall|i: int|
                    0 <= i < urls@.len() ==> #[trigger] is_read_from(totps@[i], urls@[i])
            },
            Err(error) => exists|i: int|
                {
                    &&& 0 <= i < urls@.len()
                    &&& #[trigger] refuses(urls@[i]@, error)
                    &&& forall|j: int| 0 <= j < i ==> is_entry(#[trigger] urls@[j]@)
                },
        },
{
    let mut totps: Vec<Totp> = Vec::new();
    let mut i: usize = 0;
    while i < urls.len()
        invariant
            i <= urls@.len(),
            totps@.len() == i,
            forall|j: int| 0 <= j < i ==> #[trigger] is_read_from(totps@[j], urls@[j]),
        decreases urls@.len() - i,
    {
        match url_to_totp(urls[i].as_str()) {
            Ok(totp) => {
                let ghost before = totps@;
                totps.push(totp);
                assert(is_read_from(totps@[i as int], urls@[i as int]));
                assert forall|j: int| 0 <= j < i + 1 implies #[trigger] is_read_from(
                    totps@[j],
                    urls@[j],
                ) by {
                    if j < i {
                        assert(is_read_from(before[j], urls@[j]));
                        assert(totps@[j] == before[j]);
                    }
                }
            },
            Err(error) => {
                assert(refuses(urls@[i as int]@, error));
                assert forall|j: int| 0 <= j < i implies is_entry(#[trigger] urls@[j]@) by {
                    assert(is_read_from(totps@[j], urls@[j]));
                }
                return Err(error);
            },
        }
        i = i + 1;
    }
    Ok(totps)
}

impl Totp {
    /// Whether codes can be made from the parameters.
    pub fn can_generate(&self) -> (b: bool)
        ensures
            b == self@.can_generate(),
    {
        self.step > 0 && MIN_DIGITS <= self.digits && self.digits <= MAX_DIGITS
    }
}

} // verus!
