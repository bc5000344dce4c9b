//! The one-time codes of the authenticator: how a scanned URL becomes an
//! entry, what an entry shows at a given time, and how the list of entries
//! is added to, edited, reordered and kept fresh.

pub mod book;
pub mod code;
pub mod params;

pub use book::{
    has_no_row, is_expired, is_listed, is_row_of, make_a_book, shows, CodeBook, CodeBookView,
    CodeMessage, Effect, MoveDirection, Rejection, DEBOUNCE_MS,
};
pub use code::{
    code_at, display_time, next_period, next_period_time, space_halves, spaced,
    to_display_time, totp_to_code,
    totp_token, Code, CodeView,
};
pub use params::{
    assert_digits, assert_secret_length, begins_host, check_names_host, contains_colon,
    described_by, is_break, is_entry, is_letter, is_read_from, is_trimmed, load_totps,
    names_host, names_scheme, normalise_url, normalised, otpauth_prefix, otpauth_scheme,
    otpauth_url, otpauth_url_parts, refuses, trim_end, trim_start, url_to_totp,
    with_scheme_folded, without_breaks, Algorithm, Rfc6238Error, Totp, TotpFault, TotpView,
    UrlError, LAST_TRIMMED, MAX_DIGITS, MIN_DIGITS, MIN_SECRET_BYTES,
};
