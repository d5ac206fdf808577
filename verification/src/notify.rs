//! Unsolicited notifications: the lines that the modem sends on its own
//! while an upgrade runs.
//!
//! A notification is a line of the form `+QIND: "FOTA","<subtype>"` or
//! `+QIND: "FOTA","<subtype>",<number>`.

use vstd::prelude::*;
use vstd::string::*;
use vstd::utf8::{decode_utf8, valid_utf8};
use crate::decimal::{decimal_field, parse_digits};
use crate::decode::{decode_lossy, lossy_text};
use crate::text::{
    after_first_line, chars_of, first_line, has_line_feed, lemma_line_len, lemma_line_len_bounds,
    line_end, line_len, range_equals, range_starts_with, starts_with, trim_bounds, trimmed,
};

verus! {

/// What a notification line begins with.
pub const NOTIFICATION_MARKER: &'static str = "+QIND:";

/// The body of the notification that a download began.
pub const HTTP_START_BODY: &'static str = "\"FOTA\",\"HTTPSTART\"";

/// What the body of the notification that a download ended begins with.
pub const HTTP_END_PREFIX: &'static str = "\"FOTA\",\"HTTPEND\",";

/// What the body of a progress notification begins with.
pub const UPDATING_PREFIX: &'static str = "\"FOTA\",\"UPDATING\",";

/// What the body of the notification that the upgrade ended begins with.
pub const END_PREFIX: &'static str = "\"FOTA\",\"END\",";

/// What a notification is about.
#[derive(Clone, Copy, Debug, PartialEq, Eq, Structural)]
pub enum Category {
    /// The firmware upgrade (`FOTA`).
    Update,
}

/// What a notification reports.
#[derive(Clone, Copy, Debug, PartialEq, Eq, Structural)]
pub enum SubType {
    /// The download began.
    HttpStart,
    /// The download ended; the payload is its result code.
    HttpEnd,
    /// The upgrade is under way; the payload is the progress in percent.
    Updating,
    /// The upgrade ended; the payload is its result code, 0 for success.
    End,
}

/// A notification that the modem sent on its own.
#[derive(Clone, Copy, Debug, PartialEq, Eq, Structural)]
pub struct UnsolicitedEvent {
    pub category: Category,
    pub subtype: SubType,
    pub payload: Option<i32>,
}

impl UnsolicitedEvent {
    /// The payload fits the subtype: none for the start of the download, a
    /// number from 0 for the others, and at most 100 for progress.
    pub open spec fn wf(self) -> bool {
        match self.subtype {
            SubType::HttpStart => self.payload is None,
            SubType::HttpEnd => self.payload matches Some(n) && n >= 0,
            SubType::Updating => self.payload matches Some(n) && 0 <= n <= 100,
            SubType::End => self.payload matches Some(n) && n >= 0,
        }
    }
}

/// An upgrade notification of the given subtype and payload.
pub open spec fn update_event(subtype: SubType, payload: Option<i32>) -> UnsolicitedEvent {
    UnsolicitedEvent { category: Category::Update, subtype, payload }
}

/// The notification whose subtype takes a number, read from the field that
/// holds it. A field that holds no number, or one above `limit`, makes no
/// notification.
pub open spec fn numbered_event(subtype: SubType, field: Seq<char>, limit: int) -> Option<
    UnsolicitedEvent,
> {
    match decimal_field(field) {
        Some(n) => if n <= limit {
            Some(update_event(subtype, Some(n as i32)))
        } else {
            None
        },
        None => None,
    }
}

/// The notification that a body (what follows the marker, trimmed) holds.
pub open spec fn event_of_body(body: Seq<char>) -> Option<UnsolicitedEvent> {
    if body == HTTP_START_BODY@ {
        Some(update_event(SubType::HttpStart, None))
    } else if starts_with(body, HTTP_END_PREFIX@) {
        numbered_event(SubType::HttpEnd, body.skip(HTTP_END_PREFIX@.len() as int), i32::MAX as int)
    } else if starts_with(body, UPDATING_PREFIX@) {
        numbered_event(SubType::Updating, body.skip(UPDATING_PREFIX@.len() as int), 100)
    } else if starts_with(body, END_PREFIX@) {
        numbered_event(SubType::End, body.skip(END_PREFIX@.len() as int), i32::MAX as int)
    } else {
        None
    }
}

/// The notification that a line holds: the line, trimmed, begins with the
/// marker, and what follows the marker, trimmed, is the body of one.
pub open spec fn notification_of(line: Seq<char>) -> Option<UnsolicitedEvent> {
    let t = trimmed(line);
    if starts_with(t, NOTIFICATION_MARKER@) {
        event_of_body(trimmed(t.skip(NOTIFICATION_MARKER@.len() as int)))
    } else {
        None
    }
}

/// The notifications in the complete lines of `text`, in order. A line is
/// complete when a line feed ends it.
pub open spec fn notifications_in(text: Seq<char>) -> Seq<UnsolicitedEvent>
    decreases text.len(),
{
    if has_line_feed(text) {
        let rest = notifications_in(after_first_line(text));
        match notification_of(first_line(text)) {
            Some(event) => seq![event] + rest,
            None => rest,
        }
    } else {
        Seq::empty()
    }
}

/// What follows the last line feed of `text`: the line that is not yet
/// complete.
pub open spec fn unfinished_line(text: Seq<char>) -> Seq<char>
    decreases text.len(),
{
    if has_line_feed(text) {
        unfinished_line(after_first_line(text))
    } else {
        text
    }
}

/// Every notification that a line can hold is well formed.
pub proof fn lemma_notification_wf(line: Seq<char>)
    ensures
        notification_of(line) matches Some(event) ==> event.wf(),
{
}

/// The pieces in which a text arrives do not matter: the notifications of a
/// text and of what follows it are those of the first part, then those of
/// its unfinished line with the second part added; and the line that is left
/// unfinished is the same either way.
pub proof fn lemma_feed_in_pieces(first: Seq<char>, second: Seq<char>)
    ensures
        notifications_in(first + second) == notifications_in(first) + notifications_in(
            unfinished_line(first) + second,
        ),
        unfinished_line(first + second) == unfinished_line(unfinished_line(first) + second),
    decreases first.len(),
{
    let whole = first + second;
    if has_line_feed(first) {
        lemma_line_len_bounds(first);
        let k = line_len(first) as int;
        assert forall|i: int| 0 <= i < k implies #[trigger] whole[i] != '\n' by {
            assert(whole[i] == first[i]);
        }
        assert(whole[k] == first[k]);
        lemma_line_len(whole, k);
        assert(first_line(whole) =~= first_line(first));
        assert(after_first_line(whole) =~= after_first_line(first) + second);
        lemma_feed_in_pieces(after_first_line(first), second);
        let rest = notifications_in(after_first_line(first));
        let tail = notifications_in(unfinished_line(first) + second);
        match notification_of(first_line(first)) {
            Some(event) => {
                assert(seq![event] + (rest + tail) =~= (seq![event] + rest) + tail);
            },
            None => {},
        }
    } else {
        assert(Seq::<UnsolicitedEvent>::empty() + notifications_in(whole) =~= notifications_in(
            whole,
        ));
    }
}

/// The notification whose subtype takes a number, read from `v[from..to]`.
fn numbered(v: &Vec<char>, from: usize, to: usize, subtype: SubType, limit: i32) -> (r: Option<
    UnsolicitedEvent,
>)
    requires
        from <= to <= v.len(),
    ensures
        r == numbered_event(subtype, v@.subrange(from as int, to as int), limit as int),
{
    match parse_digits(v, from, to) {
        Some(n) => if n <= limit {
            Some(UnsolicitedEvent { category: Category::Update, subtype, payload: Some(n) })
        } else {
            None
        },
        None => None,
    }
}

/// The notification that the line `v[from..to]` holds.
pub fn notification_in_range(v: &Vec<char>, from: usize, to: usize) -> (r: Option<
    UnsolicitedEvent,
>)
    requires
        from <= to <= v.len(),
    ensures
        r == notification_of(v@.subrange(from as int, to as int)),
{
    let marker = chars_of(NOTIFICATION_MARKER);
    let (a, b) = trim_bounds(v, from, to);
    if !range_starts_with(v, a, b, &marker) {
        return None;
    }
    let (c, d) = trim_bounds(v, a + marker.len(), b);
    let ghost body = v@.subrange(c as int, d as int);
    proof {
        assert(v@.subrange(a as int, b as int).skip(marker.len() as int) =~= v@.subrange(
            a + marker.len(),
            b as int,
        ));
    }
    let start = chars_of(HTTP_START_BODY);
    let http_end = chars_of(HTTP_END_PREFIX);
    let updating = chars_of(UPDATING_PREFIX);
    let end = chars_of(END_PREFIX);
    if range_equals(v, c, d, &start) {
        Some(UnsolicitedEvent { category: Category::Update, subtype: SubType::HttpStart, payload: None })
    } else if range_starts_with(v, c, d, &http_end) {
        assert(body.skip(http_end.len() as int) =~= v@.subrange(c + http_end.len(), d as int));
        numbered(v, c + http_end.len(), d, SubType::HttpEnd, i32::MAX)
    } else if range_starts_with(v, c, d, &updating) {
        assert(body.skip(updating.len() as int) =~= v@.subrange(c + updating.len(), d as int));
        numbered(v, c + updating.len(), d, SubType::Updating, 100)
    } else if range_starts_with(v, c, d, &end) {
        assert(body.skip(end.len() as int) =~= v@.subrange(c + end.len(), d as int));
        numbered(v, c + end.len(), d, SubType::End, i32::MAX)
    } else {
        None
    }
}

/// The notification that `line` holds.
pub fn parse_notification(line: &str) -> (r: Option<UnsolicitedEvent>)
    ensures
        r == notification_of(line@),
        r matches Some(event) ==> event.wf(),
{
    let v = chars_of(line);
    assert(v@.subrange(0, v.len() as int) =~= v@);
    proof {
        lemma_notification_wf(line@);
    }
    notification_in_range(&v, 0, v.len())
}

/// The reader of notifications: it takes the bytes that arrive, in the
/// pieces in which they arrive, and gives the notifications of the lines
/// that are complete.
pub struct Listener {
    pending: String,
}

impl View for Listener {
    type V = Seq<char>;

    /// The line that is not yet complete.
    closed spec fn view(&self) -> Seq<char> {
        self.pending@
    }
}

impl Listener {
    /// A listener that has seen nothing.
    pub fn new() -> (l: Listener)
        ensures
            l@ == Seq::<char>::empty(),
    {
        Listener { pending: String::new() }
    }

    /// Takes in `bytes`. The bytes are decoded and added to the unfinished
    /// line; the result holds the notifications of the lines that are now
    /// complete, and the listener keeps what follows the last line feed.
    /// Bytes that are valid UTF-8 decode to the text that they encode.
    pub fn feed(&mut self, bytes: &[u8]) -> (events: Vec<UnsolicitedEvent>)
        ensures
            events@ == notifications_in(old(self)@ + lossy_text(bytes@)),
            final(self)@ == unfinished_line(old(self)@ + lossy_text(bytes@)),
            forall|i: int| 0 <= i < events.len() ==> (#[trigger] events[i]).wf(),
            valid_utf8(bytes@) ==> lossy_text(bytes@) == decode_utf8(bytes@),
    {
        let chunk = decode_lossy(bytes);
        let mut text = self.pending.clone();
        text.append(chunk.as_str());
        let v = chars_of(text.as_str());
        let mut events: Vec<UnsolicitedEvent> = Vec::new();
        let mut from: usize = 0;
        assert(v@.skip(0) =~= v@);
        loop
            invariant
                from <= v.len(),
                v@ == text@,
                text@ == old(self)@ + lossy_text(bytes@),
                valid_utf8(bytes@) ==> lossy_text(bytes@) == decode_utf8(bytes@),
                notifications_in(v@) == events@ + notifications_in(v@.skip(from as int)),
                unfinished_line(v@) == unfinished_line(v@.skip(from as int)),
                forall|i: int| 0 <= i < events.len() ==> (#[trigger] events[i]).wf(),
            decreases v.len() - from,
        {
            let ghost rest = v@.skip(from as int);
            let end = line_end(&v, from);
            if end == v.len() {
                assert(events@ + Seq::<UnsolicitedEvent>::empty() =~= events@);
                assert(v@.subrange(from as int, v.len() as int) =~= rest);
                self.pending = text.substring_char(from, v.len()).to_owned();
                return events;
            }
            proof {
                assert(first_line(rest) =~= v@.subrange(from as int, end as int));
                assert(after_first_line(rest) =~= v@.skip(end + 1));
                lemma_notification_wf(first_line(rest));
            }
            let ghost before = events@;
            match notification_in_range(&v, from, end) {
                Some(event) => {
                    events.push(event);
                    assert(events@ + notifications_in(v@.skip(end + 1)) =~= before + (seq![event]
                        + notifications_in(v@.skip(end + 1))));
                },
                None => {},
            }
            from = end + 1;
        }
    }
}

} // verus!
