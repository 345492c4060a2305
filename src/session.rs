use vstd::prelude::*;

use crate::diff::{diff_lines, diff_report};

verus! {

/// How an observed value was rendered to text.
#[derive(Clone, Copy, Debug, PartialEq, Eq, Structural)]
pub enum RegType {
    /// Rendered as a user-facing value.
    Display,
    /// Rendered in structural debug form.
    Debug,
}

/// One recorded observation: its rendering kind and its text.
#[derive(Clone, Debug)]
pub struct RegEntry {
    pub reg_type: RegType,
    pub message: String,
}

impl View for RegEntry {
    type V = (RegType, Seq<char>);

    open spec fn view(&self) -> (RegType, Seq<char>) {
        (self.reg_type, self.message@)
    }
}

/// The persisted form of an entry: a kind tag and the rendered text.
#[derive(Clone, Debug)]
pub struct StoredEntry {
    pub tag: String,
    pub message: String,
}

impl View for StoredEntry {
    type V = (Seq<char>, Seq<char>);

    open spec fn view(&self) -> (Seq<char>, Seq<char>) {
        (self.tag@, self.message@)
    }
}

/// Whether a session records a new snapshot or checks against a stored one.
#[derive(Clone, Copy, Debug, PartialEq, Eq, Structural)]
pub enum Mode {
    /// No snapshot existed: observations are captured.
    Write,
    /// A snapshot existed: observations are compared with it.
    Read,
}

/// The failures of a session.
#[derive(Clone, Debug)]
pub enum RegError {
    /// A stored snapshot could not be read as a sequence of entries.
    CorruptSnapshot,
    /// More observations were submitted than the snapshot holds.
    UnexpectedExtraEntry,
    /// The next stored entry was rendered in another way.
    KindMismatch { expected: RegType, actual: RegType },
    /// The next stored entry holds other text; `diff` is the line report.
    ContentMismatch { expected: String, actual: String, diff: String },
    /// The session ended before every stored entry was observed.
    MissingEntries { expected: usize, consumed: usize },
    /// The session was already finalized.
    SessionClosed,
    /// Writing a recorded snapshot failed.
    WriteError { reason: String },
}

/// What a submission came to, without the texts that an error carries.
pub enum Verdict {
    /// The submission was recorded, or matched the next stored entry.
    Pass,
    /// No stored entry was left to compare with.
    Extra,
    /// The next stored entry was rendered in another way.
    Kind,
    /// The next stored entry holds other text.
    Content,
    /// The session was already finalized.
    Closed,
}

/// The abstract state of a session.
pub ghost struct SessionState {
    pub mode: Mode,
    pub buffer: Seq<(RegType, Seq<char>)>,
    pub cursor: nat,
    pub closed: bool,
}

/// A fresh recording session.
pub open spec fn record_start() -> SessionState {
    SessionState { mode: Mode::Write, buffer: Seq::empty(), cursor: 0, closed: false }
}

/// A fresh comparing session against `baseline`.
pub open spec fn compare_start(baseline: Seq<(RegType, Seq<char>)>) -> SessionState {
    SessionState { mode: Mode::Read, buffer: baseline, cursor: 0, closed: false }
}

/// One submission of `entry` to a session in state `s`: the next state and
/// the verdict.
pub open spec fn step(s: SessionState, entry: (RegType, Seq<char>)) -> (SessionState, Verdict) {
    if s.closed {
        (s, Verdict::Closed)
    } else if s.mode == Mode::Write {
        (SessionState { buffer: s.buffer.push(entry), ..s }, Verdict::Pass)
    } else if s.cursor >= s.buffer.len() {
        (s, Verdict::Extra)
    } else {
        let next = SessionState { cursor: s.cursor + 1, ..s };
        let expected = s.buffer[s.cursor as int];
        if expected.0 != entry.0 {
            (next, Verdict::Kind)
        } else if expected.1 != entry.1 {
            (next, Verdict::Content)
        } else {
            (next, Verdict::Pass)
        }
    }
}

/// A sequence of submissions from state `s`: the final state and the verdict
/// of each submission in turn.
pub open spec fn run(s: SessionState, entries: Seq<(RegType, Seq<char>)>) -> (SessionState, Seq<Verdict>)
    decreases entries.len(),
{
    if entries.len() == 0 {
        (s, Seq::empty())
    } else {
        let (mid, verdicts) = run(s, entries.drop_last());
        let (next, v) = step(mid, entries.last());
        (next, verdicts.push(v))
    }
}

/// The verdict that a submission result stands for.
pub open spec fn verdict_of(r: Result<(), RegError>) -> Verdict {
    match r {
        Ok(()) => Verdict::Pass,
        Err(RegError::UnexpectedExtraEntry) => Verdict::Extra,
        Err(RegError::KindMismatch { .. }) => Verdict::Kind,
        Err(RegError::ContentMismatch { .. }) => Verdict::Content,
        _ => Verdict::Closed,
    }
}

/// What an error carries, on top of its verdict, for a submission of `entry`
/// in state `s`.
pub open spec fn error_details(s: SessionState, entry: (RegType, Seq<char>), r: Result<(), RegError>) -> bool {
    match r {
        Err(RegError::KindMismatch { expected, actual }) => {
            &&& expected == s.buffer[s.cursor as int].0
            &&& actual == entry.0
        },
        Err(RegError::ContentMismatch { expected, actual, diff }) => {
            &&& expected@ == s.buffer[s.cursor as int].1
            &&& actual@ == entry.1
            &&& diff@ == diff_report(expected@, actual@)
        },
        Err(RegError::UnexpectedExtraEntry) => true,
        Err(RegError::SessionClosed) => true,
        Err(_) => false,
        Ok(()) => true,
    }
}

/// The outcome of one submission: `s2` and `r` are what a submission of
/// `entry` in state `s` leads to.
pub open spec fn submitted(s: SessionState, s2: SessionState, entry: (RegType, Seq<char>), r: Result<(), RegError>) -> bool {
    &&& (s2, verdict_of(r)) == step(s, entry)
    &&& error_details(s, entry, r)
}

/// The state after finalizing: closed, and otherwise unchanged.
pub open spec fn finalized(s: SessionState) -> SessionState {
    SessionState { closed: true, ..s }
}

/// What finalizing in state `s` hands over to be written: the recorded
/// entries, once, in a recording session.
pub open spec fn written(s: SessionState) -> Option<Seq<(Seq<char>, Seq<char>)>> {
    if !s.closed && s.mode == Mode::Write {
        Some(encoded(s.buffer))
    } else {
        None
    }
}

/// Whether finalizing in state `s` finds stored entries that were never
/// observed.
pub open spec fn missing(s: SessionState) -> bool {
    !s.closed && s.mode == Mode::Read && s.cursor < s.buffer.len()
}

/// The tag that the persisted form gives a rendering kind.
pub open spec fn tag_of(k: RegType) -> Seq<char> {
    match k {
        RegType::Display => seq!['d', 'i', 's', 'p', 'l', 'a', 'y'],
        RegType::Debug => seq!['d', 'e', 'b', 'u', 'g'],
    }
}

/// The rendering kind that a tag names, if any.
pub open spec fn kind_of_tag(t: Seq<char>) -> Option<RegType> {
    if t == tag_of(RegType::Display) {
        Some(RegType::Display)
    } else if t == tag_of(RegType::Debug) {
        Some(RegType::Debug)
    } else {
        None
    }
}

/// The persisted form of a sequence of entries.
pub open spec fn encoded(entries: Seq<(RegType, Seq<char>)>) -> Seq<(Seq<char>, Seq<char>)> {
    entries.map_values(|e: (RegType, Seq<char>)| (tag_of(e.0), e.1))
}

/// Whether every stored entry carries a known tag.
pub open spec fn all_tags_known(stored: Seq<(Seq<char>, Seq<char>)>) -> bool {
    forall|i: int| 0 <= i < stored.len() ==> (#[trigger] kind_of_tag(stored[i].0)) is Some
}

/// The entries that a well-tagged persisted form stands for.
pub open spec fn decoded(stored: Seq<(Seq<char>, Seq<char>)>) -> Seq<(RegType, Seq<char>)> {
    stored.map_values(|s: (Seq<char>, Seq<char>)| (kind_of_tag(s.0)->0, s.1))
}

/// The entries held in a vector, as (kind, text) pairs.
pub open spec fn entry_views(v: Seq<RegEntry>) -> Seq<(RegType, Seq<char>)> {
    v.map_values(|e: RegEntry| e@)
}

/// The persisted entries held in a vector, as (tag, text) pairs.
pub open spec fn stored_views(v: Seq<StoredEntry>) -> Seq<(Seq<char>, Seq<char>)> {
    v.map_values(|e: StoredEntry| e@)
}

/// A live session bound to one snapshot location.
pub struct RegTest {
    file_path: String,
    mode: Mode,
    buffer: Vec<RegEntry>,
    read_index: usize,
    closed: bool,
}

impl View for RegTest {
    type V = SessionState;

    closed spec fn view(&self) -> SessionState {
        SessionState {
            mode: self.mode,
            buffer: entry_views(self.buffer@),
            cursor: self.read_index as nat,
            closed: self.closed,
        }
    }
}

/// Relies on `format!` with `{:?}`: the debug rendering of a value.
#[verifier::external_body]
fn debug_text<T: std::fmt::Debug>(value: &T) -> String {
    format!("{:?}", value)
}

impl RegTest {
    /// The snapshot location the session is bound to.
    pub closed spec fn path(&self) -> Seq<char> {
        self.file_path@
    }

    /// Opens a session at `file_path`. With no stored snapshot it records;
    /// with one it compares against the entries that the snapshot stands for,
    /// and fails with `CorruptSnapshot` when a tag names no rendering kind.
    pub fn new(file_path: String, stored: Option<Vec<StoredEntry>>) -> (r: Result<RegTest, RegError>)
        ensures
            stored is None ==> r is Ok && r->Ok_0@ == record_start(),
            stored is Some ==> (r is Ok <==> all_tags_known(stored_views(stored->Some_0@))),
            stored is Some && r is Ok ==> r->Ok_0@ == compare_start(decoded(stored_views(stored->Some_0@))),
            r is Err ==> r->Err_0 is CorruptSnapshot,
            r is Ok ==> r->Ok_0.path() == file_path@,
    {
        match stored {
            None => {
                let r = RegTest { file_path, mode: Mode::Write, buffer: Vec::new(), read_index: 0, closed: false };
                assert(r@.buffer =~= Seq::<(RegType, Seq<char>)>::empty());
                Ok(r)
            },
            Some(v) => {
                match decode_entries(&v) {
                    Ok(buffer) => Ok(RegTest { file_path, mode: Mode::Read, buffer, read_index: 0, closed: false }),
                    Err(e) => Err(e),
                }
            },
        }
    }

    /// The snapshot location the session is bound to.
    pub fn file_path(&self) -> (r: &String)
        ensures
            r@ == self.path(),
    {
        &self.file_path
    }

    /// Whether the session records or compares.
    pub fn mode(&self) -> (r: Mode)
        ensures
            r == self@.mode,
    {
        self.mode
    }

    /// Submits one observation. A recording session appends it. A comparing
    /// session checks it against the next stored entry and fails with
    /// `UnexpectedExtraEntry`, `KindMismatch` or `ContentMismatch`; a closed
    /// session fails with `SessionClosed`.
    pub fn regtest_internal(&mut self, message: String, reg_type: RegType) -> (r: Result<(), RegError>)
        ensures
            submitted(old(self)@, final(self)@, (reg_type, message@), r),
            final(self).path() == old(self).path(),
    {
        if self.closed {
            return Err(RegError::SessionClosed);
        }
        match self.mode {
            Mode::Write => {
                let ghost before = entry_views(self.buffer@);
                self.buffer.push(RegEntry { reg_type, message });
                assert(entry_views(self.buffer@) =~= before.push((reg_type, message@)));
                Ok(())
            },
            Mode::Read => {
                if self.read_index >= self.buffer.len() {
                    return Err(RegError::UnexpectedExtraEntry);
                }
                let idx = self.read_index;
                self.read_index = self.read_index + 1;
                let expected = &self.buffer[idx];
                if expected.reg_type != reg_type {
                    return Err(RegError::KindMismatch { expected: expected.reg_type, actual: reg_type });
                }
                if expected.message != message {
                    let diff = diff_lines(expected.message.as_str(), message.as_str());
                    return Err(RegError::ContentMismatch { expected: expected.message.clone(), actual: message, diff });
                }
                Ok(())
            },
        }
    }

    /// Submits the display rendering of `value`.
    pub fn regtest<T: std::fmt::Display>(&mut self, value: T) -> (r: Result<(), RegError>)
        ensures
            exists|t: Seq<char>| submitted(old(self)@, final(self)@, (RegType::Display, t), r),
            final(self).path() == old(self).path(),
    {
        let message = value.to_string();
        let r = self.regtest_internal(message, RegType::Display);
        assert(submitted(old(self)@, self@, (RegType::Display, message@), r));
        r
    }

    /// Submits the debug rendering of `value`.
    pub fn regtest_dbg<T: std::fmt::Debug>(&mut self, value: T) -> (r: Result<(), RegError>)
        ensures
            exists|t: Seq<char>| submitted(old(self)@, final(self)@, (RegType::Debug, t), r),
            final(self).path() == old(self).path(),
    {
        let message = debug_text(&value);
        let r = self.regtest_internal(message, RegType::Debug);
        assert(submitted(old(self)@, self@, (RegType::Debug, message@), r));
        r
    }

    /// Ends the session. A recording session hands over its entries in
    /// persisted form, the first time only. A comparing session fails with
    /// `MissingEntries` when stored entries were never observed. A second
    /// call hands over nothing.
    pub fn finalize(&mut self) -> (r: Result<Option<Vec<StoredEntry>>, RegError>)
        ensures
            final(self)@ == finalized(old(self)@),
            final(self).path() == old(self).path(),
            r is Err <==> missing(old(self)@),
            r is Err ==> r->Err_0 == (RegError::MissingEntries {
                expected: old(self)@.buffer.len() as usize,
                consumed: old(self)@.cursor as usize,
            }),
            r is Ok ==> match r->Ok_0 {
                Some(v) => written(old(self)@) == Some(stored_views(v@)),
                None => written(old(self)@) is None,
            },
    {
        if self.closed {
            return Ok(None);
        }
        self.closed = true;
        match self.mode {
            Mode::Write => Ok(Some(encode_entries(&self.buffer))),
            Mode::Read => {
                if self.read_index < self.buffer.len() {
                    Err(RegError::MissingEntries { expected: self.buffer.len(), consumed: self.read_index })
                } else {
                    Ok(None)
                }
            },
        }
    }
}

/// The tag of a rendering kind.
pub fn kind_tag(k: RegType) -> (r: String)
    ensures
        r@ == tag_of(k),
{
    match k {
        RegType::Display => {
            proof {
                reveal_strlit("display");
            }
            "display".to_owned()
        },
        RegType::Debug => {
            proof {
                reveal_strlit("debug");
            }
            "debug".to_owned()
        },
    }
}

/// The rendering kind that a tag names, if any.
pub fn parse_kind_tag(t: &String) -> (r: Option<RegType>)
    ensures
        r == kind_of_tag(t@),
{
    let display = kind_tag(RegType::Display);
    let debug = kind_tag(RegType::Debug);
    if *t == display {
        Some(RegType::Display)
    } else if *t == debug {
        Some(RegType::Debug)
    } else {
        None
    }
}

/// The persisted form of a sequence of entries, in the same order.
pub fn encode_entries(entries: &Vec<RegEntry>) -> (r: Vec<StoredEntry>)
    ensures
        stored_views(r@) == encoded(entry_views(entries@)),
{
    let mut r: Vec<StoredEntry> = Vec::new();
    let mut i: usize = 0;
    while i < entries.len()
        invariant
            i <= entries.len(),
            stored_views(r@) == encoded(entry_views(entries@.take(i as int))),
        decreases entries.len() - i,
    {
        let ghost before = stored_views(r@);
        let e = &entries[i];
        r.push(StoredEntry { tag: kind_tag(e.reg_type), message: e.message.clone() });
        assert(entries@.take(i + 1) =~= entries@.take(i as int).push(entries@[i as int]));
        assert(stored_views(r@) =~= before.push((tag_of(e.reg_type), e.message@)));
        assert(encoded(entry_views(entries@.take(i + 1))) =~= encoded(entry_views(entries@.take(i as int))).push((tag_of(e.reg_type), e.message@)));
        i = i + 1;
    }
    assert(entries@.take(i as int) =~= entries@);
    r
}

/// The entries that a persisted form stands for; `CorruptSnapshot` exactly
/// when some tag names no rendering kind.
pub fn decode_entries(stored: &Vec<StoredEntry>) -> (r: Result<Vec<RegEntry>, RegError>)
    ensures
        r is Ok <==> all_tags_known(stored_views(stored@)),
        r is Err ==> r->Err_0 is CorruptSnapshot,
        r is Ok ==> entry_views(r->Ok_0@) == decoded(stored_views(stored@)),
{
    let mut r: Vec<RegEntry> = Vec::new();
    let mut i: usize = 0;
    while i < stored.len()
        invariant
            i <= stored.len(),
            all_tags_known(stored_views(stored@.take(i as int))),
            entry_views(r@) == decoded(stored_views(stored@.take(i as int))),
        decreases stored.len() - i,
    {
        let ghost before = entry_views(r@);
        let s = &stored[i];
        assert(stored@.take(i + 1) =~= stored@.take(i as int).push(stored@[i as int]));
        assert(stored_views(stored@.take(i + 1)) =~= stored_views(stored@.take(i as int)).push(s@));
        match parse_kind_tag(&s.tag) {
            Some(k) => {
                r.push(RegEntry { reg_type: k, message: s.message.clone() });
                assert(entry_views(r@) =~= before.push((k, s.message@)));
                assert(decoded(stored_views(stored@.take(i + 1))) =~= decoded(stored_views(stored@.take(i as int))).push((k, s.message@)));
            },
            None => {
                assert(stored_views(stored@)[i as int] == s@);
                assert(kind_of_tag(stored_views(stored@)[i as int].0) is None);
                return Err(RegError::CorruptSnapshot);
            },
        }
        i = i + 1;
    }
    assert(stored@.take(i as int) =~= stored@);
    Ok(r)
}

} // verus!
