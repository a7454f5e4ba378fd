use vstd::prelude::*;
use vstd::utf8::{decode_utf8, valid_utf8};
use crate::state::{EntityState, state_named};

verus! {

/// A buffer that grows past this many bytes without completing its records
/// is discarded whole.
pub const MAX_BUFFER_BYTES: usize = 1048576;

/// The byte that ends each record on the control channel.
pub const NEWLINE: u8 = 10;

/// A decoded control message.
#[derive(Debug)]
pub enum IpcMessage {
    /// Show `state` at the given intensity, a JSON number as it arrived.
    State { state: EntityState, intensity: serde_json::Number },
}

#[verifier::external_type_specification]
#[verifier::external_body]
pub struct ExJsonValue(serde_json::Value);

#[verifier::external_type_specification]
#[verifier::external_body]
pub struct ExJsonNumber(serde_json::Number);

/// A character of the Unicode White_Space property.
pub open spec fn is_white_space(c: char) -> bool {
    let u = c as u32;
    (0x9 <= u <= 0xd) || u == 0x20 || u == 0x85 || u == 0xa0 || u == 0x1680 || (0x2000 <= u
        <= 0x200a) || u == 0x2028 || u == 0x2029 || u == 0x202f || u == 0x205f || u == 0x3000
}

/// The text without its leading white space.
pub open spec fn trim_start(text: Seq<char>) -> Seq<char>
    decreases text.len(),
{
    if text.len() > 0 && is_white_space(text[0]) {
        trim_start(text.drop_first())
    } else {
        text
    }
}

/// The text without its trailing white space.
pub open spec fn trim_end(text: Seq<char>) -> Seq<char>
    decreases text.len(),
{
    if text.len() > 0 && is_white_space(text.last()) {
        trim_end(text.drop_last())
    } else {
        text
    }
}

/// The text with its leading and trailing white space removed.
pub open spec fn trimmed(text: Seq<char>) -> Seq<char> {
    trim_end(trim_start(text))
}

/// The text of member `key` of the JSON value that serde_json reads from
/// `text`, when the whole text is one JSON value, that value is an object,
/// and the member is a JSON string.
pub uninterp spec fn json_string_member(text: Seq<char>, key: Seq<char>) -> Option<Seq<char>>;

/// Whether serde_json reads `text` as one JSON object whose member `key` is
/// a JSON number.
pub uninterp spec fn json_number_member(text: Seq<char>, key: Seq<char>) -> bool;

/// Relies on std::str::from_utf8: succeeds exactly on valid UTF-8, and then
/// holds the characters the bytes encode.
#[verifier::external_body]
fn utf8_text(bytes: &[u8]) -> (r: Option<&str>)
    ensures
        r is Some <==> valid_utf8(bytes@),
        r matches Some(s) ==> s@ == decode_utf8(bytes@),
{
    std::str::from_utf8(bytes).ok()
}

/// Relies on str::trim: strips leading and trailing characters of the
/// Unicode White_Space property.
#[verifier::external_body]
fn trim_text(text: &str) -> (r: &str)
    ensures
        r@ == trimmed(text@),
{
    text.trim()
}

/// Relies on serde_json::from_str read into a `serde_json::Value`, then
/// `Value::get` and `Value::as_str`: the text of the string member `key`.
#[verifier::external_body]
fn string_member(text: &str, key: &str) -> (r: Option<String>)
    ensures
        opt_string_view(r) == json_string_member(text@, key@),
{
    let value = serde_json::from_str::<serde_json::Value>(text).ok();
    value.and_then(|v| v.get(key).and_then(|m| m.as_str()).map(|t| t.to_string()))
}

/// Relies on serde_json::from_str read into a `serde_json::Value`, then
/// `Value::get` and `Value::as_number`: the number member `key`.
#[verifier::external_body]
fn number_member(text: &str, key: &str) -> (r: Option<serde_json::Number>)
    ensures
        r is Some <==> json_number_member(text@, key@),
{
    let value = serde_json::from_str::<serde_json::Value>(text).ok();
    value.and_then(|v| v.get(key).and_then(|m| m.as_number()).cloned())
}

pub open spec fn opt_string_view(s: Option<String>) -> Option<Seq<char>> {
    match s {
        Some(t) => Some(t@),
        None => None,
    }
}

/// The record a line carries: the line as text, without surrounding
/// whitespace, if it is valid UTF-8 and not blank.
pub open spec fn record_of(line: Seq<u8>) -> Option<Seq<char>> {
    if line.len() == 0 || !valid_utf8(line) {
        None
    } else if trimmed(decode_utf8(line)).len() == 0 {
        None
    } else {
        Some(trimmed(decode_utf8(line)))
    }
}

/// The complete lines of a byte stream (newlines removed) and the
/// unterminated tail after the last newline.
pub open spec fn split_lines(bytes: Seq<u8>) -> (Seq<Seq<u8>>, Seq<u8>)
    decreases bytes.len(),
{
    if bytes.len() == 0 {
        (Seq::empty(), Seq::empty())
    } else {
        let (lines, tail) = split_lines(bytes.drop_last());
        if bytes.last() == NEWLINE {
            (lines.push(tail), Seq::empty())
        } else {
            (lines, tail.push(bytes.last()))
        }
    }
}

/// The records of a sequence of lines, in order, lines without one dropped.
pub open spec fn records_of(lines: Seq<Seq<u8>>) -> Seq<Seq<char>>
    decreases lines.len(),
{
    if lines.len() == 0 {
        Seq::empty()
    } else {
        let earlier = records_of(lines.drop_last());
        match record_of(lines.last()) {
            Some(r) => earlier.push(r),
            None => earlier,
        }
    }
}

/// Lines are read one by one: the records of two runs of lines are the
/// records of the first followed by those of the second, so a line that
/// carries no record never hides the lines after it.
pub proof fn lemma_records_are_per_line(first: Seq<Seq<u8>>, second: Seq<Seq<u8>>)
    ensures
        records_of(first + second) == records_of(first) + records_of(second),
    decreases second.len(),
{
    if second.len() == 0 {
        assert(first + second =~= first);
        assert(records_of(first) + records_of(second) =~= records_of(first));
    } else {
        lemma_records_are_per_line(first, second.drop_last());
        assert((first + second).drop_last() =~= first + second.drop_last());
        assert((first + second).last() == second.last());
        match record_of(second.last()) {
            Some(r) => {
                assert(records_of(first) + records_of(second) =~= (records_of(first)
                    + records_of(second.drop_last())).push(r));
            },
            None => {},
        }
    }
}

/// What the decoder reads of a buffer: nothing if it has outgrown its cap.
pub open spec fn capped(bytes: Seq<u8>) -> Seq<u8> {
    if bytes.len() > MAX_BUFFER_BYTES {
        Seq::empty()
    } else {
        bytes
    }
}

/// The message that the fields of a record make: its `type` must be the text
/// `state`, its `state` the name of a state, and its `intensity` a number.
pub open spec fn message_spec(
    kind: Option<Seq<char>>,
    state: Option<Seq<char>>,
    has_intensity: bool,
) -> Option<EntityState> {
    if kind == Some("state"@) && has_intensity {
        match state {
            Some(name) => state_named(name),
            None => None,
        }
    } else {
        None
    }
}

pub open spec fn opt_view(s: Option<&str>) -> Option<Seq<char>> {
    match s {
        Some(t) => Some(t@),
        None => None,
    }
}

/// Builds a message from the fields read out of a record.
pub fn message_from_fields(
    kind: Option<&str>,
    state: Option<&str>,
    intensity: Option<serde_json::Number>,
) -> (r: Option<IpcMessage>)
    ensures
        r is Some <==> message_spec(opt_view(kind), opt_view(state), intensity is Some) is Some,
        r matches Some(IpcMessage::State { state: s, intensity: n }) ==> Some(s) == message_spec(
            opt_view(kind),
            opt_view(state),
            intensity is Some,
        ) && intensity == Some(n),
{
    let kind = match kind {
        Some(k) => k,
        None => return None,
    };
    if !crate::state::text_eq(kind, "state") {
        return None;
    }
    let intensity = match intensity {
        Some(n) => n,
        None => return None,
    };
    let name = match state {
        Some(name) => name,
        None => return None,
    };
    match EntityState::from_name(name) {
        Some(s) => Some(IpcMessage::State { state: s, intensity }),
        None => None,
    }
}

/// The state of the message a record decodes to: its `type` member is the
/// text `state`, its `state` member the name of a state, and its `intensity`
/// member a number.
pub open spec fn decoded_state(record: Seq<char>) -> Option<EntityState> {
    message_spec(
        json_string_member(record, "type"@),
        json_string_member(record, "state"@),
        json_number_member(record, "intensity"@),
    )
}

/// The states of the messages that a run of records decodes to, in order;
/// records that decode to none are dropped.
pub open spec fn decoded_states(records: Seq<Seq<char>>) -> Seq<EntityState>
    decreases records.len(),
{
    if records.len() == 0 {
        Seq::empty()
    } else {
        let earlier = decoded_states(records.drop_last());
        match decoded_state(records.last()) {
            Some(s) => earlier.push(s),
            None => earlier,
        }
    }
}

/// The state a message asks for.
pub open spec fn message_state(m: IpcMessage) -> EntityState {
    match m {
        IpcMessage::State { state, .. } => state,
    }
}

/// Decodes one record into a message, if it is one.
pub fn decode_record(record: &str) -> (r: Option<IpcMessage>)
    ensures
        r is Some <==> decoded_state(record@) is Some,
        r matches Some(m) ==> decoded_state(record@) == Some(message_state(m)),
{
    let kind = string_member(record, "type");
    let state = string_member(record, "state");
    let intensity = number_member(record, "intensity");
    let kind_text = match &kind {
        Some(k) => Some(k.as_str()),
        None => None,
    };
    let state_text = match &state {
        Some(t) => Some(t.as_str()),
        None => None,
    };
    message_from_fields(kind_text, state_text, intensity)
}

/// Takes every complete line out of `buffer` and returns the records they
/// carry, in order; blank lines and lines that are not UTF-8 are dropped. The
/// unterminated tail stays in the buffer. A buffer past its cap is first
/// discarded whole.
pub fn drain_records(buffer: &mut Vec<u8>) -> (r: Vec<String>)
    ensures
        r@.map_values(|s: String| s@) == records_of(split_lines(capped(old(buffer)@)).0),
        final(buffer)@ == split_lines(capped(old(buffer)@)).1,
{
    if buffer.len() > MAX_BUFFER_BYTES {
        buffer.clear();
    }
    let ghost bytes = buffer@;
    assert(bytes == capped(old(buffer)@));
    let mut records: Vec<String> = Vec::new();
    let mut line: Vec<u8> = Vec::new();
    let ghost mut lines: Seq<Seq<u8>> = Seq::empty();
    let n = buffer.len();
    let mut i: usize = 0;
    while i < n
        invariant
            n == bytes.len(),
            bytes == buffer@,
            i <= n,
            split_lines(bytes.take(i as int)) == (lines, line@),
            records@.map_values(|s: String| s@) == records_of(lines),
        decreases n - i,
    {
        let b = buffer[i];
        assert(bytes.take(i + 1).drop_last() == bytes.take(i as int));
        assert(bytes.take(i + 1).last() == b);
        if b == NEWLINE {
            let ghost prev = lines;
            let ghost seen = records@.map_values(|s: String| s@);
            proof {
                lines = lines.push(line@);
                assert(lines.drop_last() =~= prev);
            }
            let rec = record_text(&line);
            line = Vec::new();
            match rec {
                Some(text) => {
                    records.push(text);
                    assert(records@.map_values(|s: String| s@) =~= seen.push(text@));
                },
                None => {},
            }
        } else {
            line.push(b);
        }
        i = i + 1;
    }
    assert(bytes.take(n as int) =~= bytes);
    *buffer = line;
    records
}

/// The record one line carries, as `record_of` gives it.
fn record_text(line: &Vec<u8>) -> (r: Option<String>)
    ensures
        match r {
            Some(s) => record_of(line@) == Some(s@),
            None => record_of(line@) is None,
        },
{
    if line.len() == 0 {
        return None;
    }
    let text = match utf8_text(line.as_slice()) {
        Some(t) => t,
        None => return None,
    };
    let t = trim_text(text);
    if t.is_empty() {
        None
    } else {
        Some(String::from_str(t))
    }
}

/// Takes every complete record out of `buffer` and returns the control
/// messages among them, in order. Records that do not decode are dropped one
/// by one. The unterminated tail stays in the buffer; a buffer past its cap
/// is discarded whole, and yields nothing.
pub fn drain_messages(buffer: &mut Vec<u8>) -> (r: Vec<IpcMessage>)
    ensures
        final(buffer)@ == split_lines(capped(old(buffer)@)).1,
        r@.map_values(|m: IpcMessage| message_state(m)) == decoded_states(
            records_of(split_lines(capped(old(buffer)@)).0),
        ),
        old(buffer)@.len() > MAX_BUFFER_BYTES ==> r@.len() == 0 && final(buffer)@.len() == 0,
{
    let records = drain_records(buffer);
    proof {
        assert(records@.map_values(|s: String| s@) == records_of(
            split_lines(capped(old(buffer)@)).0,
        ));
        if old(buffer)@.len() > MAX_BUFFER_BYTES {
            assert(capped(old(buffer)@) =~= Seq::<u8>::empty());
            reveal_with_fuel(split_lines, 2);
            reveal_with_fuel(records_of, 2);
            reveal_with_fuel(decoded_states, 2);
        }
    }
    let mut out: Vec<IpcMessage> = Vec::new();
    let mut i: usize = 0;
    while i < records.len()
        invariant
            i <= records@.len(),
            out@.map_values(|m: IpcMessage| message_state(m)) == decoded_states(
                records@.map_values(|s: String| s@).take(i as int),
            ),
        decreases records@.len() - i,
    {
        let ghost texts = records@.map_values(|s: String| s@);
        let ghost before = out@.map_values(|m: IpcMessage| message_state(m));
        assert(texts.take(i + 1).drop_last() =~= texts.take(i as int));
        assert(texts.take(i + 1).last() == records@[i as int]@);
        match decode_record(records[i].as_str()) {
            Some(m) => {
                out.push(m);
                assert(out@.map_values(|m: IpcMessage| message_state(m)) =~= before.push(
                    message_state(m),
                ));
            },
            None => {},
        }
        i = i + 1;
    }
    assert(records@.map_values(|s: String| s@).take(records@.len() as int) =~= records@.map_values(
        |s: String| s@,
    ));
    out
}

/// Where the control socket may be found, in the order to try.
#[derive(Debug)]
pub enum SocketLocation {
    /// A path named explicitly by the user.
    Explicit(String),
    /// The default socket inside the given runtime directory.
    RuntimeDir(String),
    /// The fixed fallback path.
    Fallback,
}

/// A configured value counts only if it is not blank.
pub open spec fn usable(value: Option<String>) -> bool {
    value matches Some(v) && trimmed(v@).len() > 0
}

fn is_usable(value: &Option<String>) -> (r: bool)
    ensures
        r == usable(*value),
{
    match value {
        Some(v) => !trim_text(v.as_str()).is_empty(),
        None => false,
    }
}

/// The locations to try for the control socket: an explicit path alone if
/// one is given; else the runtime directory's default socket, if a runtime
/// directory is given, followed by the fallback path.
pub fn socket_candidates(explicit: Option<String>, runtime_dir: Option<String>) -> (r: Vec<
    SocketLocation,
>)
    ensures
        usable(explicit) ==> r@.len() == 1 && (r@[0] matches SocketLocation::Explicit(p)
            && explicit == Some(p)),
        !usable(explicit) && usable(runtime_dir) ==> r@.len() == 2 && (
        r@[0] matches SocketLocation::RuntimeDir(d) && runtime_dir == Some(d)) && r@[1]
            is Fallback,
        !usable(explicit) && !usable(runtime_dir) ==> r@.len() == 1 && r@[0] is Fallback,
{
    let mut out: Vec<SocketLocation> = Vec::new();
    if is_usable(&explicit) {
        match explicit {
            Some(p) => out.push(SocketLocation::Explicit(p)),
            None => {},
        }
        return out;
    }
    if is_usable(&runtime_dir) {
        match runtime_dir {
            Some(d) => out.push(SocketLocation::RuntimeDir(d)),
            None => {},
        }
    }
    out.push(SocketLocation::Fallback);
    out
}

/// What one non-blocking read from the control socket gave.
#[derive(Debug, Clone, Copy, PartialEq, Eq, Structural)]
pub enum ReadEvent {
    /// This many bytes arrived (more than zero).
    Data(usize),
    /// The peer closed the stream.
    Closed,
    /// The read was interrupted before anything arrived.
    Interrupted,
    /// Nothing more is available for now.
    WouldBlock,
    /// The read failed.
    Failed,
}

/// What the reader does next.
#[derive(Debug, Clone, Copy, PartialEq, Eq, Structural)]
pub enum ReadStep {
    /// Append the bytes that arrived and read again.
    Append,
    /// Read again.
    Retry,
    /// Stop reading until the socket is readable again; stay connected.
    Wait,
    /// Stop reading and drop the connection.
    Disconnect,
}

/// Reads go on until the socket has nothing more; a closed stream or a
/// failed read ends the connection.
pub fn on_read(event: ReadEvent) -> (r: ReadStep)
    ensures
        r == (match event {
            ReadEvent::Data(_) => ReadStep::Append,
            ReadEvent::Interrupted => ReadStep::Retry,
            ReadEvent::WouldBlock => ReadStep::Wait,
            ReadEvent::Closed | ReadEvent::Failed => ReadStep::Disconnect,
        }),
{
    match event {
        ReadEvent::Data(_) => ReadStep::Append,
        ReadEvent::Interrupted => ReadStep::Retry,
        ReadEvent::WouldBlock => ReadStep::Wait,
        ReadEvent::Closed | ReadEvent::Failed => ReadStep::Disconnect,
    }
}

} // verus!
