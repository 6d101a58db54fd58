//! The progress poller: what each reply of the status endpoint means for the
//! display and whether polling goes on.

use vstd::prelude::*;
use crate::json::{Json, get_json_num};

verus! {

/// Delay before the first poll, in milliseconds.
pub const INITIAL_DELAY_MS: u64 = 3000;

/// Delay between two polls, in milliseconds.
pub const UPDATE_PERIOD_MS: u64 = 500;

/// A number that a `Transferring` reply must carry.
#[derive(Clone, Copy, PartialEq, Eq, Structural, Debug)]
pub enum Field {
    Id,
    Size,
    BytesWritten,
}

/// How a watch ended.
#[derive(Debug, PartialEq, Eq)]
pub enum Outcome {
    /// The server reported the transfer as done.
    Done,
    /// The server reported a failure; its `Error` value as JSON text.
    Error(String),
    /// A `Transferring` reply spoke of another transfer.
    HandleMismatch { expected: u64, found: u64 },
    /// A `Transferring` reply lacked a number.
    MissingField(Field),
    /// The poll itself was refused; `detail` is the body's `response`
    /// member as JSON text, where it has one.
    Status { code: u16, detail: Option<String> },
    /// A reply with none of the three known keys; the body as JSON text.
    Unexpected(String),
    /// The body was no JSON document.
    Malformed,
}

/// What the display does after a reply that keeps the watch going.
#[derive(Clone, Copy, PartialEq, Eq, Structural, Debug)]
pub enum Display {
    /// Show a progress bar for `size` bytes.
    Begin { size: u64 },
    /// Move the bar to this many bytes.
    Position(u64),
    /// Replace the bar by the "verifying checksum" spinner.
    Verifying,
    /// Leave the display as it is.
    Unchanged,
}

/// The verdict on one reply.
#[derive(Debug, PartialEq, Eq)]
pub enum Poll {
    /// Update the display, wait `UPDATE_PERIOD_MS`, poll again.
    Continue(Display),
    /// Stop polling.
    Stop(Outcome),
}

/// The state of one watch.
#[derive(Debug, PartialEq, Eq)]
pub struct ProgressMonitor {
    /// The transfer being watched.
    pub handle: u64,
    /// A progress bar has been shown.
    pub bar: bool,
    /// The display has switched to "verifying checksum".
    pub verifying: bool,
    /// Set once the watch has ended.
    pub outcome: Option<Outcome>,
}

pub open spec fn is_success(status: u16) -> bool {
    200 <= status < 300
}

/// The JSON text of the member `key`, where the document has it.
pub open spec fn member_text(doc: Json, key: Seq<char>) -> Option<String> {
    match doc.spec_get(key) {
        Some(j) => Some(j.text),
        None => None,
    }
}

/// What a `Transferring` reply means to a watch of `handle`.
pub open spec fn transferring(handle: u64, bar: bool, verifying: bool, map: Json) -> Poll {
    match map.spec_num("id"@) {
        None => Poll::Stop(Outcome::MissingField(Field::Id)),
        Some(id) => if id != handle {
            Poll::Stop(Outcome::HandleMismatch { expected: handle, found: id })
        } else {
            match map.spec_num("size"@) {
                None => Poll::Stop(Outcome::MissingField(Field::Size)),
                Some(size) => if !bar {
                    Poll::Continue(Display::Begin { size })
                } else {
                    match map.spec_num("bytes_written"@) {
                        None => Poll::Stop(Outcome::MissingField(Field::BytesWritten)),
                        Some(written) => if written < size {
                            Poll::Continue(Display::Position(written))
                        } else if verifying {
                            Poll::Continue(Display::Unchanged)
                        } else {
                            Poll::Continue(Display::Verifying)
                        },
                    }
                },
            }
        },
    }
}

/// What a reply with HTTP status `status` and parsed body `doc` means to a
/// watch that has not ended.
pub open spec fn classify(
    handle: u64,
    bar: bool,
    verifying: bool,
    status: u16,
    doc: Option<Json>,
) -> Poll {
    match doc {
        None => Poll::Stop(Outcome::Malformed),
        Some(json) => if !is_success(status) {
            Poll::Stop(Outcome::Status { code: status, detail: member_text(json, "response"@) })
        } else if json.spec_get("Transferring"@).is_some() {
            transferring(handle, bar, verifying, json.spec_get("Transferring"@).unwrap())
        } else if json.spec_get("Done"@).is_some() {
            Poll::Stop(Outcome::Done)
        } else if json.spec_get("Error"@).is_some() {
            Poll::Stop(Outcome::Error(json.spec_get("Error"@).unwrap().text))
        } else {
            Poll::Stop(Outcome::Unexpected(json.text))
        },
    }
}

impl Outcome {
    /// A copy of the outcome.
    pub fn duplicate(&self) -> (r: Outcome)
        ensures
            r == *self,
    {
        match self {
            Outcome::Done => Outcome::Done,
            Outcome::Error(m) => Outcome::Error(m.clone()),
            Outcome::HandleMismatch { expected, found } => Outcome::HandleMismatch {
                expected: *expected,
                found: *found,
            },
            Outcome::MissingField(f) => Outcome::MissingField(*f),
            Outcome::Status { code, detail } => Outcome::Status {
                code: *code,
                detail: match detail {
                    Some(d) => Some(d.clone()),
                    None => None,
                },
            },
            Outcome::Unexpected(b) => Outcome::Unexpected(b.clone()),
            Outcome::Malformed => Outcome::Malformed,
        }
    }

    /// Whether the watch ended in success.
    pub fn is_done(&self) -> (r: bool)
        ensures
            r == (*self == Outcome::Done),
    {
        match self {
            Outcome::Done => true,
            _ => false,
        }
    }
}

impl ProgressMonitor {
    /// The state after a reply, and the verdict on it. A watch that has
    /// ended stays as it is and repeats its outcome.
    pub open spec fn step(self, status: u16, doc: Option<Json>) -> (ProgressMonitor, Poll) {
        match self.outcome {
            Some(o) => (self, Poll::Stop(o)),
            None => match classify(self.handle, self.bar, self.verifying, status, doc) {
                Poll::Continue(Display::Begin { size }) => (
                    ProgressMonitor { bar: true, ..self },
                    Poll::Continue(Display::Begin { size }),
                ),
                Poll::Continue(Display::Verifying) => (
                    ProgressMonitor { verifying: true, ..self },
                    Poll::Continue(Display::Verifying),
                ),
                Poll::Continue(d) => (self, Poll::Continue(d)),
                Poll::Stop(o) => (ProgressMonitor { outcome: Some(o), ..self }, Poll::Stop(o)),
            },
        }
    }

    /// A watch of the transfer `handle`, before its first poll.
    pub fn new(handle: u64) -> (r: ProgressMonitor)
        ensures
            r == (ProgressMonitor { handle, bar: false, verifying: false, outcome: None }),
    {
        ProgressMonitor { handle, bar: false, verifying: false, outcome: None }
    }

    /// Whether the watch has ended.
    pub fn finished(&self) -> (r: bool)
        ensures
            r == self.outcome.is_some(),
    {
        self.outcome.is_some()
    }

    /// Takes in one reply of the status endpoint, given as its HTTP status
    /// and its body.
    pub fn on_poll(&mut self, status: u16, body: &[u8]) -> (r: Poll)
        ensures
            (*final(self), r) == old(self).step(status, crate::json::json_document(body@)),
    {
        if self.outcome.is_some() {
            return self.on_reply(status, None);
        }
        let doc = Json::parse(body);
        self.on_reply(status, doc)
    }

    /// Takes in one reply whose body has been parsed; `None` stands for a
    /// body that is no JSON document.
    pub fn on_reply(&mut self, status: u16, doc: Option<Json>) -> (r: Poll)
        ensures
            (*final(self), r) == old(self).step(status, doc),
            old(self).verifying ==> final(self).verifying,
            old(self).bar ==> final(self).bar,
            r == Poll::Continue(Display::Verifying) ==> !old(self).verifying
                && final(self).verifying,
    {
        if let Some(o) = &self.outcome {
            return Poll::Stop(o.duplicate());
        }
        let verdict = judge(self.handle, self.bar, self.verifying, status, &doc);
        match &verdict {
            Poll::Continue(Display::Begin { size: _ }) => {
                self.bar = true;
            },
            Poll::Continue(Display::Verifying) => {
                self.verifying = true;
            },
            Poll::Continue(_) => {},
            Poll::Stop(o) => {
                self.outcome = Some(o.duplicate());
            },
        }
        verdict
    }
}

/// Reads a `Transferring` reply for a watch of `handle`.
pub fn judge_transferring(handle: u64, bar: bool, verifying: bool, map: &Json) -> (r: Poll)
    ensures
        r == transferring(handle, bar, verifying, *map),
{
    let id = match get_json_num(map, "id") {
        Some(id) => id,
        None => {
            return Poll::Stop(Outcome::MissingField(Field::Id));
        },
    };
    if id != handle {
        return Poll::Stop(Outcome::HandleMismatch { expected: handle, found: id });
    }
    let size = match get_json_num(map, "size") {
        Some(size) => size,
        None => {
            return Poll::Stop(Outcome::MissingField(Field::Size));
        },
    };
    if !bar {
        return Poll::Continue(Display::Begin { size });
    }
    let written = match get_json_num(map, "bytes_written") {
        Some(w) => w,
        None => {
            return Poll::Stop(Outcome::MissingField(Field::BytesWritten));
        },
    };
    if written < size {
        Poll::Continue(Display::Position(written))
    } else if verifying {
        Poll::Continue(Display::Unchanged)
    } else {
        Poll::Continue(Display::Verifying)
    }
}

/// Reads one reply for a watch that has not ended.
pub fn judge(handle: u64, bar: bool, verifying: bool, status: u16, doc: &Option<Json>) -> (r:
    Poll)
    ensures
        r == classify(handle, bar, verifying, status, *doc),
{
    let json = match doc {
        Some(json) => json,
        None => {
            return Poll::Stop(Outcome::Malformed);
        },
    };
    if !(200 <= status && status < 300) {
        let detail = match json.get("response") {
            Some(r) => Some(r.text.clone()),
            None => None,
        };
        return Poll::Stop(Outcome::Status { code: status, detail });
    }
    if let Some(map) = json.get("Transferring") {
        return judge_transferring(handle, bar, verifying, map);
    }
    if json.get("Done").is_some() {
        return Poll::Stop(Outcome::Done);
    }
    if let Some(e) = json.get("Error") {
        return Poll::Stop(Outcome::Error(e.text.clone()));
    }
    Poll::Stop(Outcome::Unexpected(json.text.clone()))
}

/// A watch that has ended never changes: whatever is polled afterwards, it
/// reports the outcome it ended with and its state stays the same.
pub proof fn lemma_ended_watch_is_fixed(m: ProgressMonitor, status: u16, doc: Option<Json>)
    requires
        m.outcome.is_some(),
    ensures
        m.step(status, doc) == (m, Poll::Stop(m.outcome.unwrap())),
{
}

/// Once a reply has ended a watch, a second reply of any kind leaves the
/// outcome of the first in place: after `Done` the watch stays done, after
/// `Error` it never goes back to transferring.
pub proof fn lemma_first_end_stands(
    m: ProgressMonitor,
    status1: u16,
    doc1: Option<Json>,
    status2: u16,
    doc2: Option<Json>,
)
    requires
        m.step(status1, doc1).1 is Stop,
    ensures
        m.step(status1, doc1).0.step(status2, doc2) == m.step(status1, doc1),
{
}

/// The display switches to "verifying checksum" at most once: a reply asks
/// for the switch only while the watch is not verifying, and leaves it
/// verifying; no reply ever takes that back.
pub proof fn lemma_verifying_once(m: ProgressMonitor, status: u16, doc: Option<Json>)
    ensures
        m.verifying ==> m.step(status, doc).0.verifying,
        m.verifying ==> m.step(status, doc).1 != Poll::Continue(Display::Verifying),
        m.step(status, doc).1 == Poll::Continue(Display::Verifying) ==> m.step(
            status,
            doc,
        ).0.verifying,
{
}

} // verus!
