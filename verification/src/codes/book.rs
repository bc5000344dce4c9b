//! The list of entries, and the requests that change it.

use vstd::prelude::*;
use crate::codes::code::{
    Code, CodeView, code_at, display_time, to_display_time, totp_to_code,
};
use crate::codes::params::{
    Totp, TotpView, UrlError, described_by, get_url, otpauth_url, url_to_totp,
};

verus! {

/// Which way an entry moves in the list.
#[derive(Clone, Copy, Debug, PartialEq, Eq, Structural)]
pub enum MoveDirection {
    Up,
    Down,
}

/// A request to change the list of codes.
#[derive(Debug, PartialEq, Eq)]
pub enum CodeMessage {
    /// The `String` is the URL of the added code.
    Add(String),
    /// The `i32` is the `unique_idx` of the code to remove.
    Remove(i32),
    /// The `i32` is the `unique_idx` of the code. The first `String` is the
    /// new name and the last `String` is the new issuer.
    Edit(i32, String, String),
    /// The `i32` is the `unique_idx` of the code. The `MoveDirection` is
    /// which direction the code should be moved in the list of codes.
    Move(i32, MoveDirection),
}

/// For how long after an entry was added no other is added, in
/// milliseconds: a QR code in front of the camera is read many times.
pub const DEBOUNCE_MS: u64 = 1000;

/// Why a request was turned down. The user is told.
#[derive(Debug, PartialEq, Eq)]
pub enum Rejection {
    /// The URL is not taken as an entry.
    Invalid(UrlError),
    /// The list holds an entry with the same parameters.
    AlreadyExists,
    /// The entry is the first of the list and cannot move up.
    AtTop,
    /// The entry is the last of the list and cannot move down.
    AtBottom,
}

/// What a request did to the list, and what is to be done to the store of
/// URLs to match.
#[derive(Debug, PartialEq, Eq)]
pub enum Effect {
    /// Nothing was changed and nothing is to be said.
    Ignored,
    /// Nothing was changed, and the user is told why.
    Rejected(Rejection),
    /// An entry was added at the end; its URL is to be stored.
    Added { url: String },
    /// The entry of a row was removed; its URL is to be taken out of the
    /// store.
    Removed { row: usize, url: String },
    /// The entry of a row was renamed; in the store the new URL replaces the
    /// old one.
    Edited { row: usize, old_url: String, new_url: String },
    /// The entries of two rows changed places; so do their URLs in the store.
    Moved { row: usize, other_row: usize, first_url: String, second_url: String },
}

/// The entries of the authenticator: for each row the parameters of the
/// code and what the list shows.
#[derive(Debug)]
pub struct CodeBook {
    totps: Vec<Totp>,
    codes: Vec<Code>,
    unique_idx: i32,
    last_add_time: u64,
}

/// The entries as contracts see them.
pub struct CodeBookView {
    /// The parameters of the code of each row.
    pub totps: Seq<Totp>,
    /// What the list shows in each row.
    pub codes: Seq<Code>,
    /// The number that the next entry will be named by.
    pub unique_idx: i32,
    /// When the last entry was added, or the book was made.
    pub last_add_time: u64,
}

impl View for CodeBook {
    type V = CodeBookView;

    closed spec fn view(&self) -> CodeBookView {
        CodeBookView {
            totps: self.totps@,
            codes: self.codes@,
            unique_idx: self.unique_idx,
            last_add_time: self.last_add_time,
        }
    }
}

/// Whether the row is the first whose entry is named by `unique_idx`.
pub open spec fn is_row_of(codes: Seq<Code>, unique_idx: i32, row: int) -> bool {
    &&& 0 <= row < codes.len()
    &&& codes[row].unique_idx == unique_idx
    &&& forall|j: int| 0 <= j < row ==> codes[j].unique_idx != unique_idx
}

/// Whether no entry is named by `unique_idx`.
pub open spec fn has_no_row(codes: Seq<Code>, unique_idx: i32) -> bool {
    forall|j: int| 0 <= j < codes.len() ==> codes[j].unique_idx != unique_idx
}

/// Whether the list holds an entry with these parameters: one that is
/// described by the same URL.
pub open spec fn is_listed(totps: Seq<Totp>, parts: TotpView) -> bool {
    exists|i: int| 0 <= i < totps.len() && otpauth_url(#[trigger] totps[i]@) == otpauth_url(parts)
}

/// Whether what a row shows belongs to the parameters of the row: the name,
/// the issuer and the period are theirs.
pub open spec fn shows(code: CodeView, totp: TotpView) -> bool {
    &&& code.name == totp.account_name
    &&& code.issuer == (match totp.issuer {
        Some(i) => i,
        None => Seq::<char>::empty(),
    })
    &&& code.step == display_time(totp.step * 1000)
}

/// Whether the code that an entry shows has run out.
pub open spec fn is_expired(code: Code, unix_time_ms: u64) -> bool {
    display_time(unix_time_ms as int) > code.valid_until_unix_time
}

impl CodeBookView {
    /// Each row has its parameters and what it shows of them, codes can be
    /// made for every row, and the rows are named by different numbers, all
    /// below the number that the next entry will take.
    pub open spec fn wf(self) -> bool {
        &&& self.totps.len() == self.codes.len()
        &&& forall|i: int| 0 <= i < self.totps.len() ==> (#[trigger] self.totps[i])@.can_generate()
        &&& forall|i: int|
            0 <= i < self.codes.len() ==> shows((#[trigger] self.codes[i])@, self.totps[i]@)
        &&& forall|i: int|
            0 <= i < self.codes.len() ==> (#[trigger] self.codes[i]).unique_idx < self.unique_idx
        &&& forall|i: int, j: int|
            0 <= i < j < self.codes.len() ==> (#[trigger] self.codes[i]).unique_idx != (
            #[trigger] self.codes[j]).unique_idx
    }

    /// Whether `after` and `effect` are what adding the URL `url` at
    /// `unix_time_ms` makes of `self`: a URL that is not taken, or whose
    /// parameters are listed already, is rejected; else the entry is added at
    /// the end, named by the next number. A book that has given out every
    /// number takes no entry.
    pub open spec fn adds(self, url: Seq<char>, unix_time_ms: u64, after: CodeBookView, effect: Effect)
        -> bool {
        &&& after.last_add_time == self.last_add_time
        &&& match described_by(url) {
            None => {
                &&& after == self
                &&& effect matches Effect::Rejected(Rejection::Invalid(e))
                &&& e == UrlError::Url
            },
            Some(parts) => match parts.fault() {
                Some(fault) => {
                    &&& after == self
                    &&& effect matches Effect::Rejected(Rejection::Invalid(e))
                    &&& e.reports(fault, parts)
                },
                None => if is_listed(self.totps, parts) {
                    &&& after == self
                    &&& effect matches Effect::Rejected(Rejection::AlreadyExists)
                } else if self.unique_idx == i32::MAX {
                    &&& after == self
                    &&& effect matches Effect::Ignored
                } else {
                    &&& after.unique_idx == self.unique_idx + 1
                    &&& after.totps.len() == self.totps.len() + 1
                    &&& after.totps.drop_last() == self.totps
                    &&& after.totps.last()@ == parts
                    &&& after.codes.len() == self.codes.len() + 1
                    &&& after.codes.drop_last() == self.codes
                    &&& after.codes.last()@ == code_at(self.unique_idx, parts, unix_time_ms)
                    &&& effect matches Effect::Added { url: stored }
                    &&& stored@ == otpauth_url(parts)
                },
            },
        }
    }

    /// Whether `after` and `effect` are what removing the entry named by
    /// `unique_idx` makes of `self`.
    pub open spec fn removes(self, unique_idx: i32, after: CodeBookView, effect: Effect) -> bool {
        &&& after.unique_idx == self.unique_idx
        &&& after.last_add_time == self.last_add_time
        &&& if has_no_row(self.codes, unique_idx) {
            &&& after == self
            &&& effect matches Effect::Ignored
        } else {
            &&& effect matches Effect::Removed { row, url }
            &&& is_row_of(self.codes, unique_idx, row as int)
            &&& url@ == otpauth_url(self.totps[row as int]@)
            &&& after.totps == self.totps.remove(row as int)
            &&& after.codes == self.codes.remove(row as int)
        }
    }

    /// The parameters `totp` under a new name and issuer; an empty issuer
    /// is none.
    pub open spec fn renamed(totp: TotpView, new_name: Seq<char>, new_issuer: Seq<char>)
        -> TotpView {
        TotpView {
            account_name: new_name,
            issuer: if new_issuer.len() == 0 {
                None
            } else {
                Some(new_issuer)
            },
            ..totp
        }
    }

    /// Whether `after` and `effect` are what renaming the entry named by
    /// `unique_idx` at `unix_time_ms` makes of `self`.
    pub open spec fn edits(
        self,
        unique_idx: i32,
        new_name: Seq<char>,
        new_issuer: Seq<char>,
        unix_time_ms: u64,
        after: CodeBookView,
        effect: Effect,
    ) -> bool {
        &&& after.unique_idx == self.unique_idx
        &&& after.last_add_time == self.last_add_time
        &&& if has_no_row(self.codes, unique_idx) {
            &&& after == self
            &&& effect matches Effect::Ignored
        } else {
            &&& effect matches Effect::Edited { row, old_url, new_url }
            &&& is_row_of(self.codes, unique_idx, row as int)
            &&& old_url@ == otpauth_url(self.totps[row as int]@)
            &&& new_url@ == otpauth_url(after.totps[row as int]@)
            &&& after.totps.len() == self.totps.len()
            &&& after.codes.len() == self.codes.len()
            &&& after.totps[row as int]@ == CodeBookView::renamed(
                self.totps[row as int]@,
                new_name,
                new_issuer,
            )
            &&& after.codes[row as int]@ == code_at(
                unique_idx,
                after.totps[row as int]@,
                unix_time_ms,
            )
            &&& forall|i: int|
                0 <= i < self.totps.len() && i != row ==> after.totps[i] == self.totps[i]
                    && after.codes[i] == self.codes[i]
        }
    }

    /// Whether `after` and `effect` are what moving the entry named by
    /// `unique_idx` one row makes of `self`.
    pub open spec fn moves(
        self,
        unique_idx: i32,
        direction: MoveDirection,
        after: CodeBookView,
        effect: Effect,
    ) -> bool {
        &&& after.unique_idx == self.unique_idx
        &&& after.last_add_time == self.last_add_time
        &&& if has_no_row(self.codes, unique_idx) {
            &&& after == self
            &&& effect matches Effect::Ignored
        } else {
            let at = choose|r: int| is_row_of(self.codes, unique_idx, r);
            if direction == MoveDirection::Up && at == 0 {
                &&& after == self
                &&& effect matches Effect::Rejected(Rejection::AtTop)
            } else if direction == MoveDirection::Down && at + 1 == self.codes.len() {
                &&& after == self
                &&& effect matches Effect::Rejected(Rejection::AtBottom)
            } else {
                let other = if direction == MoveDirection::Up {
                    at - 1
                } else {
                    at + 1
                };
                &&& effect matches Effect::Moved { row, other_row, first_url, second_url }
                &&& row == at
                &&& other_row == other
                &&& first_url@ == otpauth_url(self.totps[at]@)
                &&& second_url@ == otpauth_url(self.totps[other]@)
                &&& after.totps == self.totps.update(at, self.totps[other]).update(
                    other,
                    self.totps[at],
                )
                &&& after.codes == self.codes.update(at, self.codes[other]).update(
                    other,
                    self.codes[at],
                )
            }
        }
    }

    /// Whether a URL that arrives at `now_ms` is looked at: only when more
    /// than the debounce time has passed since the last entry was added.
    pub open spec fn accepts_add(self, now_ms: u64) -> bool {
        self.last_add_time + DEBOUNCE_MS < now_ms
    }
}

impl CodeBook {
    /// A book without entries, made at `now_ms`.
    pub fn new(now_ms: u64) -> (book: CodeBook)
        ensures
            book@.wf(),
            book@.totps.len() == 0,
            book@.unique_idx == 0,
            book@.last_add_time == now_ms,
    {
        CodeBook { totps: Vec::new(), codes: Vec::new(), unique_idx: 0, last_add_time: now_ms }
    }

    /// The parameters of the code of each row.
    pub fn totps(&self) -> (totps: &Vec<Totp>)
        ensures
            totps@ == self@.totps,
    {
        &self.totps
    }

    /// What the list shows in each row.
    pub fn codes(&self) -> (codes: &Vec<Code>)
        ensures
            codes@ == self@.codes,
    {
        &self.codes
    }

    /// The number that the next entry will be named by.
    pub fn unique_idx(&self) -> (unique_idx: i32)
        ensures
            unique_idx == self@.unique_idx,
    {
        self.unique_idx
    }

    /// When the last entry was added, or the book was made.
    pub fn last_add_time(&self) -> (time: u64)
        ensures
            time == self@.last_add_time,
    {
        self.last_add_time
    }

    /// The row of the entry that is named by `unique_idx`.
    pub fn find_row(&self, unique_idx: i32) -> (row: Option<usize>)
        ensures
            match row {
                Some(r) => is_row_of(self@.codes, unique_idx, r as int),
                None => has_no_row(self@.codes, unique_idx),
            },
    {
        let mut i: usize = 0;
        while i < self.codes.len()
            invariant
                i <= self.codes@.len(),
                forall|j: int| 0 <= j < i ==> self.codes@[j].unique_idx != unique_idx,
            decreases self.codes@.len() - i,
        {
            if self.codes[i].unique_idx == unique_idx {
                return Some(i);
            }
            i = i + 1;
        }
        None
    }

    /// Whether the list holds an entry that the URL `url` describes.
    fn holds_url(&self, url: &String, parts: Ghost<TotpView>) -> (b: bool)
        requires
            url@ == otpauth_url(parts@),
        ensures
            b == is_listed(self@.totps, parts@),
    {
        let mut i: usize = 0;
        while i < self.totps.len()
            invariant
                i <= self.totps@.len(),
                url@ == otpauth_url(parts@),
                forall|j: int|
                    0 <= j < i ==> otpauth_url(#[trigger] self.totps@[j]@) != otpauth_url(parts@),
            decreases self.totps@.len() - i,
        {
            let listed = get_url(&self.totps[i]);
            if listed == *url {
                return true;
            }
            i = i + 1;
        }
        false
    }

    /// Adds the entry that a URL describes, as the list shows it at
    /// `unix_time_ms`.
    pub fn handle_add(&mut self, url: &str, unix_time_ms: u64) -> (effect: Effect)
        requires
            old(self)@.wf(),
        ensures
            final(self)@.wf(),
            old(self)@.adds(url@, unix_time_ms, final(self)@, effect),
    {
        match url_to_totp(url) {
            Ok(totp) => {
                let normalized_url = get_url(&totp);
                if self.holds_url(&normalized_url, Ghost(totp@)) {
                    Effect::Rejected(Rejection::AlreadyExists)
                } else if self.unique_idx == i32::MAX {
                    Effect::Ignored
                } else {
                    let code = totp_to_code(self.unique_idx, &totp, unix_time_ms);
                    self.totps.push(totp);
                    self.codes.push(code);
                    self.unique_idx = self.unique_idx + 1;
                    assert(self.totps@.drop_last() =~= old(self).totps@);
                    assert(self.codes@.drop_last() =~= old(self).codes@);
                    Effect::Added { url: normalized_url }
                }
            },
            Err(e) => Effect::Rejected(Rejection::Invalid(e)),
        }
    }

    /// Removes the entry that is named by `unique_idx`. A number that names
    /// no entry changes nothing.
    pub fn handle_remove(&mut self, unique_idx: i32) -> (effect: Effect)
        requires
            old(self)@.wf(),
        ensures
            final(self)@.wf(),
            old(self)@.removes(unique_idx, final(self)@, effect),
    {
        match self.find_row(unique_idx) {
            Some(row) => {
                let totp = self.totps.remove(row);
                let url = get_url(&totp);
                let _ = self.codes.remove(row);
                Effect::Removed { row, url }
            },
            None => Effect::Ignored,
        }
    }

    /// Gives the entry that is named by `unique_idx` a new name and issuer,
    /// and shows it as at `unix_time_ms`. A number that names no entry
    /// changes nothing.
    pub fn handle_edit(
        &mut self,
        unique_idx: i32,
        new_name: String,
        new_issuer: String,
        unix_time_ms: u64,
    ) -> (effect: Effect)
        requires
            old(self)@.wf(),
        ensures
            final(self)@.wf(),
            old(self)@.edits(unique_idx, new_name@, new_issuer@, unix_time_ms, final(self)@, effect),
    {
        match self.find_row(unique_idx) {
            Some(row) => {
                let totp = self.totps.remove(row);
                let old_url = get_url(&totp);
                let Totp { algorithm, digits, skew, step, secret, .. } = totp;
                let issuer = if new_issuer.as_str().unicode_len() == 0 {
                    None
                } else {
                    Some(new_issuer)
                };
                let renamed = Totp {
                    algorithm,
                    digits,
                    skew,
                    step,
                    secret,
                    issuer,
                    account_name: new_name,
                };
                let new_url = get_url(&renamed);
                let code = totp_to_code(unique_idx, &renamed, unix_time_ms);
                self.totps.insert(row, renamed);
                let _ = self.codes.remove(row);
                self.codes.insert(row, code);
                Effect::Edited { row, old_url, new_url }
            },
            None => Effect::Ignored,
        }
    }

    /// Moves the entry that is named by `unique_idx` up or down by one row.
    /// The first entry does not move up, nor the last down. A number that
    /// names no entry changes nothing.
    pub fn handle_move(&mut self, unique_idx: i32, direction: MoveDirection) -> (effect: Effect)
        requires
            old(self)@.wf(),
        ensures
            final(self)@.wf(),
            old(self)@.moves(unique_idx, direction, final(self)@, effect),
    {
        let row = match self.find_row(unique_idx) {
            Some(row) => row,
            None => {
                return Effect::Ignored;
            },
        };
        proof {
            let at = choose|r: int| is_row_of(self.codes@, unique_idx, r);
            if at < row {
                assert(self.codes@[at].unique_idx == unique_idx);
            }
            assert(at == row);
        }
        let row_count = self.codes.len();
        let other_row = match direction {
            MoveDirection::Up => {
                if row == 0 {
                    return Effect::Rejected(Rejection::AtTop);
                }
                row - 1
            },
            MoveDirection::Down => {
                if row + 1 == row_count {
                    return Effect::Rejected(Rejection::AtBottom);
                }
                row + 1
            },
        };
        let first_url = get_url(&self.totps[row]);
        let second_url = get_url(&self.totps[other_row]);
        let totp = self.totps.remove(row);
        self.totps.insert(other_row, totp);
        let code = self.codes.remove(row);
        self.codes.insert(other_row, code);
        assert(self.totps@ =~= old(self).totps@.update(
            row as int,
            old(self).totps@[other_row as int],
        ).update(other_row as int, old(self).totps@[row as int]));
        assert(self.codes@ =~= old(self).codes@.update(
            row as int,
            old(self).codes@[other_row as int],
        ).update(other_row as int, old(self).codes@[row as int]));
        Effect::Moved { row, other_row, first_url, second_url }
    }

    /// Shows afresh, as at `unix_time_ms`, every entry whose code has run
    /// out, and says which rows these are.
    pub fn refresh(&mut self, unix_time_ms: u64) -> (rows: Vec<usize>)
        requires
            old(self)@.wf(),
        ensures
            final(self)@.wf(),
            final(self)@.totps == old(self)@.totps,
            final(self)@.unique_idx == old(self)@.unique_idx,
            final(self)@.last_add_time == old(self)@.last_add_time,
            final(self)@.codes.len() == old(self)@.codes.len(),
            forall|i: int|
                0 <= i < old(self)@.codes.len() ==> (if is_expired(old(self)@.codes[i], unix_time_ms) {
                    final(self)@.codes[i]@ == code_at(
                        old(self)@.codes[i].unique_idx,
                        old(self)@.totps[i]@,
                        unix_time_ms,
                    ) && rows@.contains(i as usize)
                } else {
                    final(self)@.codes[i] == old(self)@.codes[i] && !rows@.contains(i as usize)
                }),
    {
        let mut rows: Vec<usize> = Vec::new();
        let shown: i64 = to_display_time(unix_time_ms as u128);
        let count = self.codes.len();
        let mut row: usize = 0;
        while row < count
            invariant
                self@.wf(),
                count == self.codes@.len(),
                row <= count,
                shown == display_time(unix_time_ms as int),
                self.totps@ == old(self).totps@,
                self.unique_idx == old(self).unique_idx,
                self.last_add_time == old(self).last_add_time,
                self.codes@.len() == old(self).codes@.len(),
                forall|i: int| row <= i < count ==> self.codes@[i] == old(self).codes@[i],
                forall|k: int| 0 <= k < rows@.len() ==> rows@[k] < row,
                forall|i: int|
                    0 <= i < row ==> (if is_expired(old(self).codes@[i], unix_time_ms) {
                        self.codes@[i]@ == code_at(
                            old(self).codes@[i].unique_idx,
                            old(self).totps@[i]@,
                            unix_time_ms,
                        ) && rows@.contains(i as usize)
                    } else {
                        self.codes@[i] == old(self).codes@[i] && !rows@.contains(i as usize)
                    }),
            decreases count - row,
        {
            let ghost before = rows@;
            if shown > self.codes[row].valid_until_unix_time {
                let code = totp_to_code(self.codes[row].unique_idx, &self.totps[row], unix_time_ms);
                let _ = self.codes.remove(row);
                self.codes.insert(row, code);
                rows.push(row);
                assert(rows@[before.len() as int] == row);
                assert forall|r: usize| before.contains(r) implies #[trigger] rows@.contains(r) by {
                    let k = choose|k: int| 0 <= k < before.len() && before[k] == r;
                    assert(rows@[k] == r);
                }
                assert forall|r: usize| #[trigger] rows@.contains(r) && r != row implies before.contains(
                    r,
                ) by {
                    let k = choose|k: int| 0 <= k < rows@.len() && rows@[k] == r;
                    assert(before[k] == r);
                }
            }
            row = row + 1;
        }
        rows
    }

    /// Carries out a request. `now_ms` is a time in milliseconds that never
    /// runs backwards, `unix_time_ms` the time in milliseconds since the
    /// epoch. A URL that arrives within the debounce time of the last
    /// addition is dropped; when an entry is added, the debounce time starts
    /// again.
    pub fn handle(&mut self, message: CodeMessage, now_ms: u64, unix_time_ms: u64) -> (effect: Effect)
        requires
            old(self)@.wf(),
        ensures
            final(self)@.wf(),
            match message {
                CodeMessage::Add(url) => if old(self)@.accepts_add(now_ms) {
                    let between = CodeBookView {
                        last_add_time: old(self)@.last_add_time,
                        ..final(self)@
                    };
                    &&& old(self)@.adds(url@, unix_time_ms, between, effect)
                    &&& final(self)@.last_add_time == (if effect is Added {
                        now_ms
                    } else {
                        old(self)@.last_add_time
                    })
                } else {
                    final(self)@ == old(self)@ && effect is Ignored
                },
                CodeMessage::Remove(unique_idx) => old(self)@.removes(unique_idx, final(self)@, effect),
                CodeMessage::Edit(unique_idx, new_name, new_issuer) => old(self)@.edits(
                    unique_idx,
                    new_name@,
                    new_issuer@,
                    unix_time_ms,
                    final(self)@,
                    effect,
                ),
                CodeMessage::Move(unique_idx, direction) => old(self)@.moves(
                    unique_idx,
                    direction,
                    final(self)@,
                    effect,
                ),
            },
    {
        match message {
            CodeMessage::Add(url) => {
                if (self.last_add_time as u128) + (DEBOUNCE_MS as u128) < now_ms as u128 {
                    let effect = self.handle_add(url.as_str(), unix_time_ms);
                    let added = match &effect {
                        Effect::Added { .. } => true,
                        _ => false,
                    };
                    if added {
                        self.last_add_time = now_ms;
                    }
                    effect
                } else {
                    Effect::Ignored
                }
            },
            CodeMessage::Remove(unique_idx) => self.handle_remove(unique_idx),
            CodeMessage::Edit(unique_idx, new_name, new_issuer) => self.handle_edit(
                unique_idx,
                new_name,
                new_issuer,
                unix_time_ms,
            ),
            CodeMessage::Move(unique_idx, direction) => self.handle_move(unique_idx, direction),
        }
    }
}

/// Whether a book can be made of the parameters: codes can be made from
/// each, and there is a number to name each entry by.
pub open spec fn make_a_book(totps: Seq<Totp>) -> bool {
    totps.len() <= i32::MAX && forall|i: int|
        0 <= i < totps.len() ==> (#[trigger] totps[i])@.can_generate()
}

impl CodeBook {
    /// The book of the given parameters, shown as at `unix_time_ms`: the
    /// entries are named by their rows. There is no book where codes cannot be
    /// made from one of the parameters, or the entries are too many to name.
    pub fn from_totps(totps: Vec<Totp>, now_ms: u64, unix_time_ms: u64) -> (r: Option<CodeBook>)
        ensures
            r is Some <==> make_a_book(totps@),
            r matches Some(book) ==> {
                &&& book@.wf()
                &&& book@.totps == totps@
                &&& book@.unique_idx == totps@.len()
                &&& book@.last_add_time == now_ms
                &&& forall|i: int|
                    0 <= i < totps@.len() ==> (#[trigger] book@.codes[i])@ == code_at(
                        i as i32,
                        totps@[i]@,
                        unix_time_ms,
                    )
            },
    {
        if totps.len() > i32::MAX as usize {
            return None;
        }
        let mut codes: Vec<Code> = Vec::new();
        let mut unique_idx: i32 = 0;
        let mut i: usize = 0;
        while i < totps.len()
            invariant
                i <= totps@.len() <= i32::MAX,
                unique_idx == i,
                codes@.len() == i,
                forall|j: int| 0 <= j < i ==> (#[trigger] totps@[j])@.can_generate(),
                forall|j: int|
                    0 <= j < i ==> (#[trigger] codes@[j])@ == code_at(
                        j as i32,
                        totps@[j]@,
                        unix_time_ms,
                    ),
            decreases totps@.len() - i,
        {
            if !totps[i].can_generate() {
                return None;
            }
            codes.push(totp_to_code(unique_idx, &totps[i], unix_time_ms));
            unique_idx = unique_idx + 1;
            i = i + 1;
        }
        Some(CodeBook { totps, codes, unique_idx, last_add_time: now_ms })
    }
}

} // verus!
