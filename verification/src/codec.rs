//! The wire format of guest commands: a one-byte tag followed by a
//! variant-specific payload, integers little-endian, buffers and text
//! length-prefixed, text in UTF-8.
//!
//! Every decoder is specified against a spec-level decoder over `Seq<u8>`,
//! every encoder against a spec-level encoder, and decoding an encoding is
//! proved to give back the encoded command.

use vstd::bytes::*;
use vstd::prelude::*;
use vstd::slice::slice_subrange;
use vstd::slice::slice_to_vec;
use vstd::utf8::decode_utf8;
use vstd::utf8::encode_utf8;
use vstd::utf8::valid_utf8;

use crate::data::CommandToRun;
use crate::data::CommandToRunV;
use crate::data::Direction;
use crate::data::EventType;
use crate::data::FileToOpen;
use crate::data::FileToOpenV;
use crate::data::InputMode;
use crate::data::PluginCommand;
use crate::data::PluginCommandV;
use crate::data::PluginMessage;
use crate::data::PluginMessageV;
use crate::data::Resize;
use crate::data::ResizeStrategy;

verus! {

/// Why a byte buffer failed to decode as a command.
#[derive(Clone, Copy, Debug, PartialEq, Eq, Structural)]
pub enum DecodeError {
    /// The buffer ended before the payload it announces.
    Truncated,
    /// The leading byte names no command.
    UnknownTag,
    /// A payload field holds a value outside its domain.
    InvalidValue,
    /// A text field is not valid UTF-8.
    InvalidUtf8,
    /// Well-formed command, but bytes follow it.
    TrailingBytes,
}

// ---------------------------------------------------------------------------
// Spec-level decoding of the primitive shapes. Each takes the buffer and a
// cursor and yields the value with the cursor after it, or the error.
// ---------------------------------------------------------------------------

pub open spec fn sd_u8(s: Seq<u8>, i: int) -> Result<(u8, int), DecodeError> {
    if 0 <= i && i + 1 <= s.len() {
        Ok((s[i], i + 1))
    } else {
        Err(DecodeError::Truncated)
    }
}

pub open spec fn sd_u32(s: Seq<u8>, i: int) -> Result<(u32, int), DecodeError> {
    if 0 <= i && i + 4 <= s.len() {
        Ok((spec_u32_from_le_bytes(s.subrange(i, i + 4)), i + 4))
    } else {
        Err(DecodeError::Truncated)
    }
}

pub open spec fn sd_u64(s: Seq<u8>, i: int) -> Result<(u64, int), DecodeError> {
    if 0 <= i && i + 8 <= s.len() {
        Ok((spec_u64_from_le_bytes(s.subrange(i, i + 8)), i + 8))
    } else {
        Err(DecodeError::Truncated)
    }
}

pub open spec fn sd_bool(s: Seq<u8>, i: int) -> Result<(bool, int), DecodeError> {
    match sd_u8(s, i) {
        Ok((b, j)) => if b == 0 {
            Ok((false, j))
        } else if b == 1 {
            Ok((true, j))
        } else {
            Err(DecodeError::InvalidValue)
        },
        Err(e) => Err(e),
    }
}

// ---------------------------------------------------------------------------
// Tag maps for the small enums carried in payloads.
// ---------------------------------------------------------------------------

pub open spec fn event_tag(e: EventType) -> u8 {
    match e {
        EventType::ModeUpdate => 0,
        EventType::TabUpdate => 1,
        EventType::PaneUpdate => 2,
        EventType::Key => 3,
        EventType::Mouse => 4,
        EventType::Timer => 5,
        EventType::CopyToClipboard => 6,
        EventType::SystemClipboardFailure => 7,
        EventType::InputReceived => 8,
        EventType::Visible => 9,
        EventType::CustomMessage => 10,
        EventType::FileSystemCreate => 11,
        EventType::FileSystemRead => 12,
        EventType::FileSystemUpdate => 13,
        EventType::FileSystemDelete => 14,
    }
}

pub open spec fn event_from_tag(t: u8) -> Option<EventType> {
    if t == 0 {
        Some(EventType::ModeUpdate)
    } else if t == 1 {
        Some(EventType::TabUpdate)
    } else if t == 2 {
        Some(EventType::PaneUpdate)
    } else if t == 3 {
        Some(EventType::Key)
    } else if t == 4 {
        Some(EventType::Mouse)
    } else if t == 5 {
        Some(EventType::Timer)
    } else if t == 6 {
        Some(EventType::CopyToClipboard)
    } else if t == 7 {
        Some(EventType::SystemClipboardFailure)
    } else if t == 8 {
        Some(EventType::InputReceived)
    } else if t == 9 {
        Some(EventType::Visible)
    } else if t == 10 {
        Some(EventType::CustomMessage)
    } else if t == 11 {
        Some(EventType::FileSystemCreate)
    } else if t == 12 {
        Some(EventType::FileSystemRead)
    } else if t == 13 {
        Some(EventType::FileSystemUpdate)
    } else if t == 14 {
        Some(EventType::FileSystemDelete)
    } else {
        None
    }
}

pub open spec fn mode_tag(m: InputMode) -> u8 {
    match m {
        InputMode::Normal => 0,
        InputMode::Locked => 1,
        InputMode::Resize => 2,
        InputMode::Pane => 3,
        InputMode::Tab => 4,
        InputMode::Scroll => 5,
        InputMode::EnterSearch => 6,
        InputMode::Search => 7,
        InputMode::RenameTab => 8,
        InputMode::RenamePane => 9,
        InputMode::Session => 10,
        InputMode::Move => 11,
        InputMode::Prompt => 12,
        InputMode::Tmux => 13,
    }
}

pub open spec fn mode_from_tag(t: u8) -> Option<InputMode> {
    if t == 0 {
        Some(InputMode::Normal)
    } else if t == 1 {
        Some(InputMode::Locked)
    } else if t == 2 {
        Some(InputMode::Resize)
    } else if t == 3 {
        Some(InputMode::Pane)
    } else if t == 4 {
        Some(InputMode::Tab)
    } else if t == 5 {
        Some(InputMode::Scroll)
    } else if t == 6 {
        Some(InputMode::EnterSearch)
    } else if t == 7 {
        Some(InputMode::Search)
    } else if t == 8 {
        Some(InputMode::RenameTab)
    } else if t == 9 {
        Some(InputMode::RenamePane)
    } else if t == 10 {
        Some(InputMode::Session)
    } else if t == 11 {
        Some(InputMode::Move)
    } else if t == 12 {
        Some(InputMode::Prompt)
    } else if t == 13 {
        Some(InputMode::Tmux)
    } else {
        None
    }
}

pub open spec fn direction_tag(d: Direction) -> u8 {
    match d {
        Direction::Left => 0,
        Direction::Right => 1,
        Direction::Up => 2,
        Direction::Down => 3,
    }
}

pub open spec fn direction_from_tag(t: u8) -> Option<Direction> {
    if t == 0 {
        Some(Direction::Left)
    } else if t == 1 {
        Some(Direction::Right)
    } else if t == 2 {
        Some(Direction::Up)
    } else if t == 3 {
        Some(Direction::Down)
    } else {
        None
    }
}

pub open spec fn resize_tag(r: Resize) -> u8 {
    match r {
        Resize::Increase => 0,
        Resize::Decrease => 1,
    }
}

pub open spec fn resize_from_tag(t: u8) -> Option<Resize> {
    if t == 0 {
        Some(Resize::Increase)
    } else if t == 1 {
        Some(Resize::Decrease)
    } else {
        None
    }
}

pub open spec fn sd_event(s: Seq<u8>, i: int) -> Result<(EventType, int), DecodeError> {
    match sd_u8(s, i) {
        Ok((t, j)) => match event_from_tag(t) {
            Some(e) => Ok((e, j)),
            None => Err(DecodeError::InvalidValue),
        },
        Err(e) => Err(e),
    }
}

pub open spec fn sd_mode(s: Seq<u8>, i: int) -> Result<(InputMode, int), DecodeError> {
    match sd_u8(s, i) {
        Ok((t, j)) => match mode_from_tag(t) {
            Some(m) => Ok((m, j)),
            None => Err(DecodeError::InvalidValue),
        },
        Err(e) => Err(e),
    }
}

pub open spec fn sd_direction(s: Seq<u8>, i: int) -> Result<(Direction, int), DecodeError> {
    match sd_u8(s, i) {
        Ok((t, j)) => match direction_from_tag(t) {
            Some(d) => Ok((d, j)),
            None => Err(DecodeError::InvalidValue),
        },
        Err(e) => Err(e),
    }
}

pub open spec fn sd_resize(s: Seq<u8>, i: int) -> Result<(Resize, int), DecodeError> {
    match sd_u8(s, i) {
        Ok((t, j)) => match resize_from_tag(t) {
            Some(r) => Ok((r, j)),
            None => Err(DecodeError::InvalidValue),
        },
        Err(e) => Err(e),
    }
}

// ---------------------------------------------------------------------------
// Executable readers. Each one's result is exactly what the spec-level
// decoder says for the same buffer and cursor.
// ---------------------------------------------------------------------------

pub(crate) fn take_u8(buf: &Vec<u8>, pos: usize) -> (r: Result<(u8, usize), DecodeError>)
    requires
        pos <= buf@.len(),
    ensures
        match sd_u8(buf@, pos as int) {
            Ok((v, j)) => r matches Ok(p) && p.0 == v && p.1 as int == j,
            Err(e) => r matches Err(f) && f == e,
        },
{
    if buf.len() - pos >= 1 {
        Ok((buf[pos], pos + 1))
    } else {
        Err(DecodeError::Truncated)
    }
}

pub(crate) fn take_u32(buf: &Vec<u8>, pos: usize) -> (r: Result<(u32, usize), DecodeError>)
    requires
        pos <= buf@.len(),
    ensures
        match sd_u32(buf@, pos as int) {
            Ok((v, j)) => r matches Ok(p) && p.0 == v && p.1 as int == j,
            Err(e) => r matches Err(f) && f == e,
        },
{
    if buf.len() - pos >= 4 {
        let sl = slice_subrange(buf.as_slice(), pos, pos + 4);
        Ok((u32_from_le_bytes(sl), pos + 4))
    } else {
        Err(DecodeError::Truncated)
    }
}

pub(crate) fn take_u64(buf: &Vec<u8>, pos: usize) -> (r: Result<(u64, usize), DecodeError>)
    requires
        pos <= buf@.len(),
    ensures
        match sd_u64(buf@, pos as int) {
            Ok((v, j)) => r matches Ok(p) && p.0 == v && p.1 as int == j,
            Err(e) => r matches Err(f) && f == e,
        },
{
    if buf.len() - pos >= 8 {
        let sl = slice_subrange(buf.as_slice(), pos, pos + 8);
        Ok((u64_from_le_bytes(sl), pos + 8))
    } else {
        Err(DecodeError::Truncated)
    }
}

pub(crate) fn take_bool(buf: &Vec<u8>, pos: usize) -> (r: Result<(bool, usize), DecodeError>)
    requires
        pos <= buf@.len(),
    ensures
        match sd_bool(buf@, pos as int) {
            Ok((v, j)) => r matches Ok(p) && p.0 == v && p.1 as int == j,
            Err(e) => r matches Err(f) && f == e,
        },
{
    match take_u8(buf, pos) {
        Ok((b, j)) => {
            if b == 0 {
                Ok((false, j))
            } else if b == 1 {
                Ok((true, j))
            } else {
                Err(DecodeError::InvalidValue)
            }
        },
        Err(e) => Err(e),
    }
}

pub(crate) fn event_from_u8(t: u8) -> (r: Option<EventType>)
    ensures
        r == event_from_tag(t),
{
    if t == 0 {
        Some(EventType::ModeUpdate)
    } else if t == 1 {
        Some(EventType::TabUpdate)
    } else if t == 2 {
        Some(EventType::PaneUpdate)
    } else if t == 3 {
        Some(EventType::Key)
    } else if t == 4 {
        Some(EventType::Mouse)
    } else if t == 5 {
        Some(EventType::Timer)
    } else if t == 6 {
        Some(EventType::CopyToClipboard)
    } else if t == 7 {
        Some(EventType::SystemClipboardFailure)
    } else if t == 8 {
        Some(EventType::InputReceived)
    } else if t == 9 {
        Some(EventType::Visible)
    } else if t == 10 {
        Some(EventType::CustomMessage)
    } else if t == 11 {
        Some(EventType::FileSystemCreate)
    } else if t == 12 {
        Some(EventType::FileSystemRead)
    } else if t == 13 {
        Some(EventType::FileSystemUpdate)
    } else if t == 14 {
        Some(EventType::FileSystemDelete)
    } else {
        None
    }
}

pub(crate) fn event_to_u8(e: EventType) -> (r: u8)
    ensures
        r == event_tag(e),
{
    match e {
        EventType::ModeUpdate => 0,
        EventType::TabUpdate => 1,
        EventType::PaneUpdate => 2,
        EventType::Key => 3,
        EventType::Mouse => 4,
        EventType::Timer => 5,
        EventType::CopyToClipboard => 6,
        EventType::SystemClipboardFailure => 7,
        EventType::InputReceived => 8,
        EventType::Visible => 9,
        EventType::CustomMessage => 10,
        EventType::FileSystemCreate => 11,
        EventType::FileSystemRead => 12,
        EventType::FileSystemUpdate => 13,
        EventType::FileSystemDelete => 14,
    }
}

pub(crate) fn mode_from_u8(t: u8) -> (r: Option<InputMode>)
    ensures
        r == mode_from_tag(t),
{
    if t == 0 {
        Some(InputMode::Normal)
    } else if t == 1 {
        Some(InputMode::Locked)
    } else if t == 2 {
        Some(InputMode::Resize)
    } else if t == 3 {
        Some(InputMode::Pane)
    } else if t == 4 {
        Some(InputMode::Tab)
    } else if t == 5 {
        Some(InputMode::Scroll)
    } else if t == 6 {
        Some(InputMode::EnterSearch)
    } else if t == 7 {
        Some(InputMode::Search)
    } else if t == 8 {
        Some(InputMode::RenameTab)
    } else if t == 9 {
        Some(InputMode::RenamePane)
    } else if t == 10 {
        Some(InputMode::Session)
    } else if t == 11 {
        Some(InputMode::Move)
    } else if t == 12 {
        Some(InputMode::Prompt)
    } else if t == 13 {
        Some(InputMode::Tmux)
    } else {
        None
    }
}

pub(crate) fn mode_to_u8(m: InputMode) -> (r: u8)
    ensures
        r == mode_tag(m),
{
    match m {
        InputMode::Normal => 0,
        InputMode::Locked => 1,
        InputMode::Resize => 2,
        InputMode::Pane => 3,
        InputMode::Tab => 4,
        InputMode::Scroll => 5,
        InputMode::EnterSearch => 6,
        InputMode::Search => 7,
        InputMode::RenameTab => 8,
        InputMode::RenamePane => 9,
        InputMode::Session => 10,
        InputMode::Move => 11,
        InputMode::Prompt => 12,
        InputMode::Tmux => 13,
    }
}

pub(crate) fn direction_from_u8(t: u8) -> (r: Option<Direction>)
    ensures
        r == direction_from_tag(t),
{
    if t == 0 {
        Some(Direction::Left)
    } else if t == 1 {
        Some(Direction::Right)
    } else if t == 2 {
        Some(Direction::Up)
    } else if t == 3 {
        Some(Direction::Down)
    } else {
        None
    }
}

pub(crate) fn direction_to_u8(d: Direction) -> (r: u8)
    ensures
        r == direction_tag(d),
{
    match d {
        Direction::Left => 0,
        Direction::Right => 1,
        Direction::Up => 2,
        Direction::Down => 3,
    }
}

pub(crate) fn resize_from_u8(t: u8) -> (r: Option<Resize>)
    ensures
        r == resize_from_tag(t),
{
    if t == 0 {
        Some(Resize::Increase)
    } else if t == 1 {
        Some(Resize::Decrease)
    } else {
        None
    }
}

pub(crate) fn resize_to_u8(r0: Resize) -> (r: u8)
    ensures
        r == resize_tag(r0),
{
    match r0 {
        Resize::Increase => 0,
        Resize::Decrease => 1,
    }
}

pub(crate) fn take_event(buf: &Vec<u8>, pos: usize) -> (r: Result<
    (EventType, usize),
    DecodeError,
>)
    requires
        pos <= buf@.len(),
    ensures
        match sd_event(buf@, pos as int) {
            Ok((v, j)) => r matches Ok(p) && p.0 == v && p.1 as int == j,
            Err(e) => r matches Err(f) && f == e,
        },
{
    match take_u8(buf, pos) {
        Ok((t, j)) => match event_from_u8(t) {
            Some(e) => Ok((e, j)),
            None => Err(DecodeError::InvalidValue),
        },
        Err(e) => Err(e),
    }
}

// ---------------------------------------------------------------------------
// Executable writers. Each appends exactly the spec-level encoding.
// ---------------------------------------------------------------------------

pub(crate) fn put_u8(out: &mut Vec<u8>, x: u8)
    ensures
        final(out)@ == old(out)@ + seq![x],
{
    out.push(x);
    proof {
        assert(final(out)@ =~= old(out)@ + seq![x]);
    }
}

pub(crate) fn put_u32(out: &mut Vec<u8>, x: u32)
    ensures
        final(out)@ == old(out)@ + spec_u32_to_le_bytes(x),
{
    let mut b = u32_to_le_bytes(x);
    out.append(&mut b);
}

pub(crate) fn put_u64(out: &mut Vec<u8>, x: u64)
    ensures
        final(out)@ == old(out)@ + spec_u64_to_le_bytes(x),
{
    let mut b = u64_to_le_bytes(x);
    out.append(&mut b);
}

/// Spec-level encoding of a `bool`: one byte, zero or one.
pub open spec fn se_bool(b: bool) -> Seq<u8> {
    if b {
        seq![1u8]
    } else {
        seq![0u8]
    }
}

pub(crate) fn put_bool(out: &mut Vec<u8>, b: bool)
    ensures
        final(out)@ == old(out)@ + se_bool(b),
{
    if b {
        put_u8(out, 1);
    } else {
        put_u8(out, 0);
    }
}

// ---------------------------------------------------------------------------
// Frame lemmas: decoding at a cursor that sits right before a primitive's
// encoding yields that primitive, whatever surrounds it.
// ---------------------------------------------------------------------------

pub proof fn lemma_sd_u8_frame(s: Seq<u8>, pre: Seq<u8>, b: u8, suf: Seq<u8>)
    requires
        s == pre + seq![b] + suf,
    ensures
        sd_u8(s, pre.len() as int) == Ok::<(u8, int), DecodeError>((b, pre.len() as int + 1)),
{
    assert(s[pre.len() as int] == b);
}

pub proof fn lemma_sd_u32_frame(s: Seq<u8>, pre: Seq<u8>, x: u32, suf: Seq<u8>)
    requires
        s == pre + spec_u32_to_le_bytes(x) + suf,
    ensures
        sd_u32(s, pre.len() as int) == Ok::<(u32, int), DecodeError>((x, pre.len() as int + 4)),
{
    lemma_auto_spec_u32_to_from_le_bytes();
    assert(s.subrange(pre.len() as int, pre.len() as int + 4) =~= spec_u32_to_le_bytes(x));
}

pub proof fn lemma_sd_u64_frame(s: Seq<u8>, pre: Seq<u8>, x: u64, suf: Seq<u8>)
    requires
        s == pre + spec_u64_to_le_bytes(x) + suf,
    ensures
        sd_u64(s, pre.len() as int) == Ok::<(u64, int), DecodeError>((x, pre.len() as int + 8)),
{
    lemma_auto_spec_u64_to_from_le_bytes();
    assert(s.subrange(pre.len() as int, pre.len() as int + 8) =~= spec_u64_to_le_bytes(x));
}

pub proof fn lemma_sd_bool_frame(s: Seq<u8>, pre: Seq<u8>, b: bool, suf: Seq<u8>)
    requires
        s == pre + se_bool(b) + suf,
    ensures
        sd_bool(s, pre.len() as int) == Ok::<(bool, int), DecodeError>((b, pre.len() as int + 1)),
{
    if b {
        lemma_sd_u8_frame(s, pre, 1, suf);
    } else {
        lemma_sd_u8_frame(s, pre, 0, suf);
    }
}

pub proof fn lemma_sd_event_frame(s: Seq<u8>, pre: Seq<u8>, e: EventType, suf: Seq<u8>)
    requires
        s == pre + seq![event_tag(e)] + suf,
    ensures
        sd_event(s, pre.len() as int) == Ok::<(EventType, int), DecodeError>((e, pre.len() as int + 1)),
{
    lemma_sd_u8_frame(s, pre, event_tag(e), suf);
}

pub proof fn lemma_sd_mode_frame(s: Seq<u8>, pre: Seq<u8>, m: InputMode, suf: Seq<u8>)
    requires
        s == pre + seq![mode_tag(m)] + suf,
    ensures
        sd_mode(s, pre.len() as int) == Ok::<(InputMode, int), DecodeError>((m, pre.len() as int + 1)),
{
    lemma_sd_u8_frame(s, pre, mode_tag(m), suf);
}

pub proof fn lemma_sd_direction_frame(s: Seq<u8>, pre: Seq<u8>, d: Direction, suf: Seq<u8>)
    requires
        s == pre + seq![direction_tag(d)] + suf,
    ensures
        sd_direction(s, pre.len() as int) == Ok::<(Direction, int), DecodeError>(
            (d, pre.len() as int + 1),
        ),
{
    lemma_sd_u8_frame(s, pre, direction_tag(d), suf);
}

pub proof fn lemma_sd_resize_frame(s: Seq<u8>, pre: Seq<u8>, r: Resize, suf: Seq<u8>)
    requires
        s == pre + seq![resize_tag(r)] + suf,
    ensures
        sd_resize(s, pre.len() as int) == Ok::<(Resize, int), DecodeError>((r, pre.len() as int + 1)),
{
    lemma_sd_u8_frame(s, pre, resize_tag(r), suf);
}

// ---------------------------------------------------------------------------
// Length-prefixed buffers and UTF-8 text.
// ---------------------------------------------------------------------------

/// Spec-level encoding of a raw buffer: its length as a little-endian
/// 32-bit count, then the bytes themselves.
pub open spec fn se_bytes(b: Seq<u8>) -> Seq<u8>
    recommends
        b.len() <= u32::MAX,
{
    spec_u32_to_le_bytes(b.len() as u32) + b
}

pub open spec fn sd_bytes(s: Seq<u8>, i: int) -> Result<(Seq<u8>, int), DecodeError> {
    match sd_u32(s, i) {
        Ok((n, j)) => if j + n <= s.len() {
            Ok((s.subrange(j, j + n), j + n))
        } else {
            Err(DecodeError::Truncated)
        },
        Err(e) => Err(e),
    }
}

/// Spec-level encoding of text: its UTF-8 bytes, length-prefixed.
pub open spec fn se_string(t: Seq<char>) -> Seq<u8>
    recommends
        encode_utf8(t).len() <= u32::MAX,
{
    se_bytes(encode_utf8(t))
}

pub open spec fn sd_string(s: Seq<u8>, i: int) -> Result<(Seq<char>, int), DecodeError> {
    match sd_bytes(s, i) {
        Ok((b, j)) => if valid_utf8(b) {
            Ok((decode_utf8(b), j))
        } else {
            Err(DecodeError::InvalidUtf8)
        },
        Err(e) => Err(e),
    }
}

/// Relies on `String::from_utf8`: it returns `Ok` exactly on valid UTF-8
/// input, and then the returned string's characters are the decoding of
/// those bytes.
#[verifier::external_body]
fn bytes_to_string(v: Vec<u8>) -> (r: Option<String>)
    ensures
        r is Some <==> valid_utf8(v@),
        r matches Some(s) ==> s@ == decode_utf8(v@),
{
    String::from_utf8(v).ok()
}

pub(crate) fn take_bytes(buf: &Vec<u8>, pos: usize) -> (r: Result<(Vec<u8>, usize), DecodeError>)
    requires
        pos <= buf@.len(),
    ensures
        match sd_bytes(buf@, pos as int) {
            Ok((v, j)) => r matches Ok(p) && p.0@ == v && p.1 as int == j,
            Err(e) => r matches Err(f) && f == e,
        },
{
    match take_u32(buf, pos) {
        Ok((n, j)) => {
            if n as usize <= buf.len() - j {
                let end = j + n as usize;
                let sl = slice_subrange(buf.as_slice(), j, end);
                Ok((slice_to_vec(sl), end))
            } else {
                Err(DecodeError::Truncated)
            }
        },
        Err(e) => Err(e),
    }
}

pub(crate) fn take_string(buf: &Vec<u8>, pos: usize) -> (r: Result<(String, usize), DecodeError>)
    requires
        pos <= buf@.len(),
    ensures
        match sd_string(buf@, pos as int) {
            Ok((v, j)) => r matches Ok(p) && p.0@ == v && p.1 as int == j,
            Err(e) => r matches Err(f) && f == e,
        },
{
    match take_bytes(buf, pos) {
        Ok((b, j)) => match bytes_to_string(b) {
            Some(t) => Ok((t, j)),
            None => Err(DecodeError::InvalidUtf8),
        },
        Err(e) => Err(e),
    }
}

pub(crate) fn put_bytes(out: &mut Vec<u8>, b: &Vec<u8>)
    requires
        b@.len() <= u32::MAX,
    ensures
        final(out)@ == old(out)@ + se_bytes(b@),
{
    put_u32(out, b.len() as u32);
    let mut c = slice_to_vec(b.as_slice());
    out.append(&mut c);
    proof {
        assert(final(out)@ =~= old(out)@ + se_bytes(b@));
    }
}

pub(crate) fn put_string(out: &mut Vec<u8>, t: &String)
    requires
        encode_utf8(t@).len() <= u32::MAX,
    ensures
        final(out)@ == old(out)@ + se_string(t@),
{
    let b = slice_to_vec(t.as_str().as_bytes());
    put_bytes(out, &b);
}

pub proof fn lemma_sd_bytes_frame(s: Seq<u8>, pre: Seq<u8>, b: Seq<u8>, suf: Seq<u8>)
    requires
        s == pre + se_bytes(b) + suf,
        b.len() <= u32::MAX,
    ensures
        sd_bytes(s, pre.len() as int) == Ok::<(Seq<u8>, int), DecodeError>(
            (b, pre.len() as int + se_bytes(b).len() as int),
        ),
{
    assert(s =~= pre + spec_u32_to_le_bytes(b.len() as u32) + (b + suf));
    lemma_sd_u32_frame(s, pre, b.len() as u32, b + suf);
    lemma_auto_spec_u32_to_from_le_bytes();
    let j = pre.len() as int + 4;
    assert(s.subrange(j, j + b.len() as int) =~= b);
}

pub proof fn lemma_sd_string_frame(s: Seq<u8>, pre: Seq<u8>, t: Seq<char>, suf: Seq<u8>)
    requires
        s == pre + se_string(t) + suf,
        encode_utf8(t).len() <= u32::MAX,
    ensures
        sd_string(s, pre.len() as int) == Ok::<(Seq<char>, int), DecodeError>(
            (t, pre.len() as int + se_string(t).len() as int),
        ),
{
    lemma_sd_bytes_frame(s, pre, encode_utf8(t), suf);
    vstd::utf8::encode_utf8_valid_utf8(t);
    vstd::utf8::encode_utf8_decode_utf8(t);
}

// ---------------------------------------------------------------------------
// Optional fields: a presence byte, then the payload when present.
// ---------------------------------------------------------------------------

pub open spec fn se_opt_u64(o: Option<u64>) -> Seq<u8> {
    match o {
        Option::None => seq![0u8],
        Option::Some(v) => seq![1u8] + spec_u64_to_le_bytes(v),
    }
}

pub open spec fn sd_opt_u64(s: Seq<u8>, i: int) -> Result<(Option<u64>, int), DecodeError> {
    match sd_u8(s, i) {
        Ok((t, j)) => if t == 0 {
            Ok((Option::None, j))
        } else if t == 1 {
            match sd_u64(s, j) {
                Ok((v, k)) => Ok((Option::Some(v), k)),
                Err(e) => Err(e),
            }
        } else {
            Err(DecodeError::InvalidValue)
        },
        Err(e) => Err(e),
    }
}

pub open spec fn se_opt_string(o: Option<Seq<char>>) -> Seq<u8> {
    match o {
        Option::None => seq![0u8],
        Option::Some(t) => seq![1u8] + se_string(t),
    }
}

pub open spec fn sd_opt_string(s: Seq<u8>, i: int) -> Result<
    (Option<Seq<char>>, int),
    DecodeError,
> {
    match sd_u8(s, i) {
        Ok((t, j)) => if t == 0 {
            Ok((Option::None, j))
        } else if t == 1 {
            match sd_string(s, j) {
                Ok((v, k)) => Ok((Option::Some(v), k)),
                Err(e) => Err(e),
            }
        } else {
            Err(DecodeError::InvalidValue)
        },
        Err(e) => Err(e),
    }
}

pub open spec fn se_opt_direction(o: Option<Direction>) -> Seq<u8> {
    match o {
        Option::None => seq![0u8],
        Option::Some(d) => seq![1u8, direction_tag(d)],
    }
}

pub open spec fn sd_opt_direction(s: Seq<u8>, i: int) -> Result<
    (Option<Direction>, int),
    DecodeError,
> {
    match sd_u8(s, i) {
        Ok((t, j)) => if t == 0 {
            Ok((Option::None, j))
        } else if t == 1 {
            match sd_direction(s, j) {
                Ok((v, k)) => Ok((Option::Some(v), k)),
                Err(e) => Err(e),
            }
        } else {
            Err(DecodeError::InvalidValue)
        },
        Err(e) => Err(e),
    }
}

pub(crate) fn take_opt_u64(buf: &Vec<u8>, pos: usize) -> (r: Result<
    (Option<u64>, usize),
    DecodeError,
>)
    requires
        pos <= buf@.len(),
    ensures
        match sd_opt_u64(buf@, pos as int) {
            Ok((v, j)) => r matches Ok(p) && p.0 == v && p.1 as int == j,
            Err(e) => r matches Err(f) && f == e,
        },
{
    match take_u8(buf, pos) {
        Ok((t, j)) => {
            if t == 0 {
                Ok((None, j))
            } else if t == 1 {
                match take_u64(buf, j) {
                    Ok((v, k)) => Ok((Some(v), k)),
                    Err(e) => Err(e),
                }
            } else {
                Err(DecodeError::InvalidValue)
            }
        },
        Err(e) => Err(e),
    }
}

pub(crate) fn take_opt_string(buf: &Vec<u8>, pos: usize) -> (r: Result<
    (Option<String>, usize),
    DecodeError,
>)
    requires
        pos <= buf@.len(),
    ensures
        match sd_opt_string(buf@, pos as int) {
            Ok((v, j)) => r matches Ok(p) && p.1 as int == j && (match v {
                Option::Some(t) => p.0 matches Some(q) && q@ == t,
                Option::None => p.0 is None,
            }),
            Err(e) => r matches Err(f) && f == e,
        },
{
    match take_u8(buf, pos) {
        Ok((t, j)) => {
            if t == 0 {
                Ok((None, j))
            } else if t == 1 {
                match take_string(buf, j) {
                    Ok((v, k)) => Ok((Some(v), k)),
                    Err(e) => Err(e),
                }
            } else {
                Err(DecodeError::InvalidValue)
            }
        },
        Err(e) => Err(e),
    }
}

pub(crate) fn take_opt_direction(buf: &Vec<u8>, pos: usize) -> (r: Result<
    (Option<Direction>, usize),
    DecodeError,
>)
    requires
        pos <= buf@.len(),
    ensures
        match sd_opt_direction(buf@, pos as int) {
            Ok((v, j)) => r matches Ok(p) && p.0 == v && p.1 as int == j,
            Err(e) => r matches Err(f) && f == e,
        },
{
    match take_u8(buf, pos) {
        Ok((t, j)) => {
            if t == 0 {
                Ok((None, j))
            } else if t == 1 {
                match take_u8(buf, j) {
                    Ok((d, k)) => match direction_from_u8(d) {
                        Some(dir) => Ok((Some(dir), k)),
                        None => Err(DecodeError::InvalidValue),
                    },
                    Err(e) => Err(e),
                }
            } else {
                Err(DecodeError::InvalidValue)
            }
        },
        Err(e) => Err(e),
    }
}

pub(crate) fn put_opt_u64(out: &mut Vec<u8>, o: &Option<u64>)
    ensures
        final(out)@ == old(out)@ + se_opt_u64(*o),
{
    match o {
        None => put_u8(out, 0),
        Some(v) => {
            put_u8(out, 1);
            put_u64(out, *v);
            proof {
                assert(final(out)@ =~= old(out)@ + se_opt_u64(*o));
            }
        },
    }
}

pub(crate) fn put_opt_string(out: &mut Vec<u8>, o: &Option<String>)
    requires
        o matches Some(t) ==> encode_utf8(t@).len() <= u32::MAX,
    ensures
        final(out)@ == old(out)@ + se_opt_string(match o {
            Option::Some(t) => Option::Some(t@),
            Option::None => Option::None,
        }),
{
    match o {
        None => put_u8(out, 0),
        Some(t) => {
            put_u8(out, 1);
            put_string(out, t);
            proof {
                assert(final(out)@ =~= old(out)@ + se_opt_string(Option::Some(t@)));
            }
        },
    }
}

pub(crate) fn put_opt_direction(out: &mut Vec<u8>, o: &Option<Direction>)
    ensures
        final(out)@ == old(out)@ + se_opt_direction(*o),
{
    match o {
        None => put_u8(out, 0),
        Some(d) => {
            put_u8(out, 1);
            put_u8(out, direction_to_u8(*d));
            proof {
                assert(final(out)@ =~= old(out)@ + se_opt_direction(*o));
            }
        },
    }
}

pub proof fn lemma_sd_opt_u64_frame(s: Seq<u8>, pre: Seq<u8>, o: Option<u64>, suf: Seq<u8>)
    requires
        s == pre + se_opt_u64(o) + suf,
    ensures
        sd_opt_u64(s, pre.len() as int) == Ok::<(Option<u64>, int), DecodeError>(
            (o, pre.len() as int + se_opt_u64(o).len() as int),
        ),
{
    match o {
        Option::None => {
            lemma_sd_u8_frame(s, pre, 0, suf);
        },
        Option::Some(v) => {
            lemma_auto_spec_u64_to_from_le_bytes();
            assert(s =~= pre + seq![1u8] + (spec_u64_to_le_bytes(v) + suf));
            lemma_sd_u8_frame(s, pre, 1, spec_u64_to_le_bytes(v) + suf);
            assert(s =~= (pre + seq![1u8]) + spec_u64_to_le_bytes(v) + suf);
            lemma_sd_u64_frame(s, pre + seq![1u8], v, suf);
        },
    }
}

pub proof fn lemma_sd_opt_string_frame(s: Seq<u8>, pre: Seq<u8>, o: Option<Seq<char>>, suf: Seq<u8>)
    requires
        s == pre + se_opt_string(o) + suf,
        o matches Some(t) ==> encode_utf8(t).len() <= u32::MAX,
    ensures
        sd_opt_string(s, pre.len() as int) == Ok::<(Option<Seq<char>>, int), DecodeError>(
            (o, pre.len() as int + se_opt_string(o).len() as int),
        ),
{
    match o {
        Option::None => {
            lemma_sd_u8_frame(s, pre, 0, suf);
        },
        Option::Some(t) => {
            lemma_auto_spec_u32_to_from_le_bytes();
            assert(s =~= pre + seq![1u8] + (se_string(t) + suf));
            lemma_sd_u8_frame(s, pre, 1, se_string(t) + suf);
            assert(s =~= (pre + seq![1u8]) + se_string(t) + suf);
            lemma_sd_string_frame(s, pre + seq![1u8], t, suf);
        },
    }
}

pub proof fn lemma_sd_opt_direction_frame(
    s: Seq<u8>,
    pre: Seq<u8>,
    o: Option<Direction>,
    suf: Seq<u8>,
)
    requires
        s == pre + se_opt_direction(o) + suf,
    ensures
        sd_opt_direction(s, pre.len() as int) == Ok::<(Option<Direction>, int), DecodeError>(
            (o, pre.len() as int + se_opt_direction(o).len() as int),
        ),
{
    match o {
        Option::None => {
            lemma_sd_u8_frame(s, pre, 0, suf);
        },
        Option::Some(d) => {
            assert(se_opt_direction(o) =~= seq![1u8] + seq![direction_tag(d)]);
            assert(s =~= pre + seq![1u8] + (seq![direction_tag(d)] + suf));
            lemma_sd_u8_frame(s, pre, 1, seq![direction_tag(d)] + suf);
            assert(s =~= (pre + seq![1u8]) + seq![direction_tag(d)] + suf);
            lemma_sd_direction_frame(s, pre + seq![1u8], d, suf);
        },
    }
}


// ---------------------------------------------------------------------------
// Lists: a 32-bit count, then the elements one after another.
// ---------------------------------------------------------------------------

/// Spec-level encoding of the elements of an event list, without the count.
pub open spec fn se_events(l: Seq<EventType>) -> Seq<u8>
    decreases l.len(),
{
    if l.len() == 0 {
        Seq::empty()
    } else {
        seq![event_tag(l[0])] + se_events(l.drop_first())
    }
}

/// Spec-level encoding of an event list.
pub open spec fn se_event_list(l: Seq<EventType>) -> Seq<u8>
    recommends
        l.len() <= u32::MAX,
{
    spec_u32_to_le_bytes(l.len() as u32) + se_events(l)
}

pub open spec fn sd_events(s: Seq<u8>, i: int, n: int) -> Result<
    (Seq<EventType>, int),
    DecodeError,
>
    decreases n,
{
    if n <= 0 {
        Ok((Seq::empty(), i))
    } else {
        match sd_event(s, i) {
            Ok((e, j)) => match sd_events(s, j, n - 1) {
                Ok((rest, k)) => Ok((seq![e] + rest, k)),
                Err(err) => Err(err),
            },
            Err(err) => Err(err),
        }
    }
}

pub open spec fn sd_event_list(s: Seq<u8>, i: int) -> Result<(Seq<EventType>, int), DecodeError> {
    match sd_u32(s, i) {
        Ok((n, j)) => sd_events(s, j, n as int),
        Err(e) => Err(e),
    }
}

/// Spec-level encoding of the elements of a text list, without the count.
pub open spec fn se_strings(l: Seq<Seq<char>>) -> Seq<u8>
    decreases l.len(),
{
    if l.len() == 0 {
        Seq::empty()
    } else {
        se_string(l[0]) + se_strings(l.drop_first())
    }
}

/// Spec-level encoding of a text list.
pub open spec fn se_string_list(l: Seq<Seq<char>>) -> Seq<u8>
    recommends
        l.len() <= u32::MAX,
{
    spec_u32_to_le_bytes(l.len() as u32) + se_strings(l)
}

pub open spec fn sd_strings(s: Seq<u8>, i: int, n: int) -> Result<
    (Seq<Seq<char>>, int),
    DecodeError,
>
    decreases n,
{
    if n <= 0 {
        Ok((Seq::empty(), i))
    } else {
        match sd_string(s, i) {
            Ok((t, j)) => match sd_strings(s, j, n - 1) {
                Ok((rest, k)) => Ok((seq![t] + rest, k)),
                Err(err) => Err(err),
            },
            Err(err) => Err(err),
        }
    }
}

pub open spec fn sd_string_list(s: Seq<u8>, i: int) -> Result<
    (Seq<Seq<char>>, int),
    DecodeError,
> {
    match sd_u32(s, i) {
        Ok((n, j)) => sd_strings(s, j, n as int),
        Err(e) => Err(e),
    }
}

/// The spec-level decoders only ever move the cursor forward, and never
/// beyond the end of the buffer.
pub proof fn lemma_sd_events_advances(s: Seq<u8>, i: int, n: int)
    requires
        0 <= i <= s.len(),
    ensures
        sd_events(s, i, n) matches Ok((v, j)) ==> i <= j <= s.len() && v.len() == (if n
            <= 0 {
            0int
        } else {
            n
        }),
    decreases n,
{
    if n > 0 {
        match sd_event(s, i) {
            Ok((e, j)) => {
                lemma_sd_events_advances(s, j, n - 1);
            },
            Err(_) => {},
        }
    }
}

pub proof fn lemma_sd_strings_advances(s: Seq<u8>, i: int, n: int)
    requires
        0 <= i <= s.len(),
    ensures
        sd_strings(s, i, n) matches Ok((v, j)) ==> i <= j <= s.len() && v.len() == (if n
            <= 0 {
            0int
        } else {
            n
        }),
    decreases n,
{
    if n > 0 {
        match sd_string(s, i) {
            Ok((t, j)) => {
                lemma_sd_strings_advances(s, j, n - 1);
            },
            Err(_) => {},
        }
    }
}

pub(crate) fn take_event_list(buf: &Vec<u8>, pos: usize) -> (r: Result<
    (Vec<EventType>, usize),
    DecodeError,
>)
    requires
        pos <= buf@.len(),
    ensures
        match sd_event_list(buf@, pos as int) {
            Ok((v, j)) => r matches Ok(p) && p.0@ == v && p.1 as int == j,
            Err(e) => r matches Err(f) && f == e,
        },
{
    match take_u32(buf, pos) {
        Ok((n, start)) => {
            let mut acc: Vec<EventType> = Vec::new();
            let mut cur: usize = start;
            let mut k: u32 = 0;
            proof {
                lemma_sd_events_advances(buf@, cur as int, n as int);
            }
            while k < n
                invariant
                    k <= n,
                    pos <= buf@.len(),
                    cur <= buf@.len(),
                    acc@.len() == k,
                    sd_u32(buf@, pos as int) == Ok::<(u32, int), DecodeError>(
                        (n, start as int),
                    ),
                    match sd_events(buf@, cur as int, n - k) {
                        Ok((rest, j)) => sd_events(buf@, start as int, n as int) == Ok::<
                            (Seq<EventType>, int),
                            DecodeError,
                        >((acc@ + rest, j)),
                        Err(e) => sd_events(buf@, start as int, n as int) == Err::<
                            (Seq<EventType>, int),
                            DecodeError,
                        >(e),
                    },
                decreases n - k,
            {
                match take_event(buf, cur) {
                    Ok((e, j)) => {
                        proof {
                            lemma_sd_events_advances(buf@, j as int, n - k - 1);
                            assert(acc@.push(e) =~= acc@ + seq![e]);
                            match sd_events(buf@, j as int, n - k - 1) {
                                Ok((rest, end)) => {
                                    assert((acc@ + seq![e]) + rest =~= acc@ + (seq![e] + rest));
                                },
                                Err(_) => {},
                            }
                        }
                        acc.push(e);
                        cur = j;
                    },
                    Err(e) => {
                        return Err(e);
                    },
                }
                k += 1;
            }
            Ok((acc, cur))
        },
        Err(e) => Err(e),
    }
}

pub(crate) fn take_string_list(buf: &Vec<u8>, pos: usize) -> (r: Result<
    (Vec<String>, usize),
    DecodeError,
>)
    requires
        pos <= buf@.len(),
    ensures
        match sd_string_list(buf@, pos as int) {
            Ok((v, j)) => r matches Ok(p) && crate::data::strings_view(p.0@) == v && p.1 as int
                == j,
            Err(e) => r matches Err(f) && f == e,
        },
{
    match take_u32(buf, pos) {
        Ok((n, start)) => {
            let mut acc: Vec<String> = Vec::new();
            let mut cur: usize = start;
            let mut k: u32 = 0;
            proof {
                lemma_sd_strings_advances(buf@, cur as int, n as int);
            }
            while k < n
                invariant
                    k <= n,
                    pos <= buf@.len(),
                    cur <= buf@.len(),
                    acc@.len() == k,
                    sd_u32(buf@, pos as int) == Ok::<(u32, int), DecodeError>(
                        (n, start as int),
                    ),
                    match sd_strings(buf@, cur as int, n - k) {
                        Ok((rest, j)) => sd_strings(buf@, start as int, n as int) == Ok::<
                            (Seq<Seq<char>>, int),
                            DecodeError,
                        >((crate::data::strings_view(acc@) + rest, j)),
                        Err(e) => sd_strings(buf@, start as int, n as int) == Err::<
                            (Seq<Seq<char>>, int),
                            DecodeError,
                        >(e),
                    },
                decreases n - k,
            {
                match take_string(buf, cur) {
                    Ok((t, j)) => {
                        proof {
                            lemma_sd_strings_advances(buf@, j as int, n - k - 1);
                            match sd_strings(buf@, j as int, n - k - 1) {
                                Ok((rest, end)) => {
                                    assert(crate::data::strings_view(acc@.push(t))
                                        =~= crate::data::strings_view(acc@) + seq![t@]);
                                    assert((crate::data::strings_view(acc@) + seq![t@]) + rest
                                        =~= crate::data::strings_view(acc@) + (seq![t@] + rest));
                                },
                                Err(_) => {},
                            }
                        }
                        acc.push(t);
                        cur = j;
                    },
                    Err(e) => {
                        return Err(e);
                    },
                }
                k += 1;
            }
            proof {
                match sd_strings(buf@, cur as int, 0) {
                    Ok((rest, j)) => {
                        assert(crate::data::strings_view(acc@) + rest
                            =~= crate::data::strings_view(acc@));
                    },
                    Err(_) => {},
                }
            }
            Ok((acc, cur))
        },
        Err(e) => Err(e),
    }
}

pub(crate) fn put_event_list(out: &mut Vec<u8>, l: &Vec<EventType>)
    requires
        l@.len() <= u32::MAX,
    ensures
        final(out)@ == old(out)@ + se_event_list(l@),
{
    put_u32(out, l.len() as u32);
    let mut i: usize = 0;
    while i < l.len()
        invariant
            i <= l@.len(),
            l@.len() <= u32::MAX,
            out@ == old(out)@ + spec_u32_to_le_bytes(l@.len() as u32) + se_events(l@.take(i as int)),
        decreases l@.len() - i,
    {
        put_u8(out, event_to_u8(l[i]));
        proof {
            lemma_se_events_push(l@.take(i as int), l@[i as int]);
            assert(l@.take(i + 1 as int) =~= l@.take(i as int).push(l@[i as int]));
            assert(out@ =~= old(out)@ + spec_u32_to_le_bytes(l@.len() as u32) + se_events(
                l@.take(i + 1 as int),
            ));
        }
        i += 1;
    }
    proof {
        assert(l@.take(l@.len() as int) =~= l@);
        assert(final(out)@ =~= old(out)@ + se_event_list(l@));
    }
}

pub(crate) fn put_string_list(out: &mut Vec<u8>, l: &Vec<String>)
    requires
        l@.len() <= u32::MAX,
        forall|i: int| 0 <= i < l@.len() ==> encode_utf8(l@[i]@).len() <= u32::MAX,
    ensures
        final(out)@ == old(out)@ + se_string_list(crate::data::strings_view(l@)),
{
    let ghost lv = crate::data::strings_view(l@);
    put_u32(out, l.len() as u32);
    let mut i: usize = 0;
    while i < l.len()
        invariant
            i <= l@.len(),
            l@.len() <= u32::MAX,
            lv == crate::data::strings_view(l@),
            lv.len() == l@.len(),
            forall|k: int| 0 <= k < l@.len() ==> encode_utf8(l@[k]@).len() <= u32::MAX,
            forall|k: int| 0 <= k < l@.len() ==> lv[k] == l@[k]@,
            out@ == old(out)@ + spec_u32_to_le_bytes(l@.len() as u32) + se_strings(
                lv.take(i as int),
            ),
        decreases l@.len() - i,
    {
        put_string(out, &l[i]);
        proof {
            lemma_se_strings_push(lv.take(i as int), lv[i as int]);
            assert(lv.take(i + 1 as int) =~= lv.take(i as int).push(lv[i as int]));
            assert(out@ =~= old(out)@ + spec_u32_to_le_bytes(l@.len() as u32) + se_strings(
                lv.take(i + 1 as int),
            ));
        }
        i += 1;
    }
    proof {
        assert(lv.take(lv.len() as int) =~= lv);
        assert(final(out)@ =~= old(out)@ + se_string_list(lv));
    }
}

/// Appending one element on the right extends the element encoding on the
/// right.
pub proof fn lemma_se_events_push(l: Seq<EventType>, x: EventType)
    ensures
        se_events(l.push(x)) == se_events(l) + seq![event_tag(x)],
    decreases l.len(),
{
    if l.len() == 0 {
        assert(l.push(x)[0] == x);
        assert(l.push(x).drop_first() =~= l);
        assert(se_events(l.push(x)) == seq![event_tag(x)] + se_events(l));
        assert(seq![event_tag(x)] + se_events(l) =~= se_events(l) + seq![event_tag(x)]);
    } else {
        lemma_se_events_push(l.drop_first(), x);
        assert(l.push(x).drop_first() =~= l.drop_first().push(x));
        assert(l.push(x)[0] == l[0]);
        assert(se_events(l.push(x)) == seq![event_tag(l[0])] + se_events(l.drop_first().push(x)));
        assert(se_events(l.drop_first().push(x)) == se_events(l.drop_first()) + seq![
            event_tag(x),
        ]);
        assert(seq![event_tag(l[0])] + (se_events(l.drop_first()) + seq![event_tag(x)]) =~= (seq![
            event_tag(l[0]),
        ] + se_events(l.drop_first())) + seq![event_tag(x)]);
        assert(se_events(l) == seq![event_tag(l[0])] + se_events(l.drop_first()));
    }
}

pub proof fn lemma_se_strings_push(l: Seq<Seq<char>>, x: Seq<char>)
    ensures
        se_strings(l.push(x)) == se_strings(l) + se_string(x),
    decreases l.len(),
{
    if l.len() == 0 {
        assert(l.push(x)[0] == x);
        assert(l.push(x).drop_first() =~= l);
        assert(se_strings(l.push(x)) == se_string(x) + se_strings(l));
        assert(se_string(x) + se_strings(l) =~= se_strings(l) + se_string(x));
    } else {
        lemma_se_strings_push(l.drop_first(), x);
        assert(l.push(x).drop_first() =~= l.drop_first().push(x));
        assert(l.push(x)[0] == l[0]);
        assert(se_strings(l.push(x)) == se_string(l[0]) + se_strings(l.drop_first().push(x)));
        assert(se_strings(l.drop_first().push(x)) == se_strings(l.drop_first()) + se_string(x));
        assert(se_string(l[0]) + (se_strings(l.drop_first()) + se_string(x)) =~= (se_string(l[0])
            + se_strings(l.drop_first())) + se_string(x));
        assert(se_strings(l) == se_string(l[0]) + se_strings(l.drop_first()));
    }
}

pub proof fn lemma_sd_events_frame(s: Seq<u8>, pre: Seq<u8>, l: Seq<EventType>, suf: Seq<u8>)
    requires
        s == pre + se_events(l) + suf,
    ensures
        sd_events(s, pre.len() as int, l.len() as int) == Ok::<(Seq<EventType>, int), DecodeError>(
            (l, pre.len() as int + se_events(l).len() as int),
        ),
    decreases l.len(),
{
    if l.len() == 0 {
        assert(Seq::<EventType>::empty() =~= l);
    } else {
        let head = l[0];
        let rest = l.drop_first();
        assert(se_events(l) == seq![event_tag(head)] + se_events(rest));
        assert(s =~= pre + seq![event_tag(head)] + (se_events(rest) + suf));
        lemma_sd_event_frame(s, pre, head, se_events(rest) + suf);
        assert(s =~= (pre + seq![event_tag(head)]) + se_events(rest) + suf);
        lemma_sd_events_frame(s, pre + seq![event_tag(head)], rest, suf);
        assert(seq![head] + rest =~= l);
    }
}

pub proof fn lemma_sd_strings_frame(s: Seq<u8>, pre: Seq<u8>, l: Seq<Seq<char>>, suf: Seq<u8>)
    requires
        s == pre + se_strings(l) + suf,
        forall|k: int| 0 <= k < l.len() ==> encode_utf8(#[trigger] l[k]).len() <= u32::MAX,
    ensures
        sd_strings(s, pre.len() as int, l.len() as int) == Ok::<
            (Seq<Seq<char>>, int),
            DecodeError,
        >((l, pre.len() as int + se_strings(l).len() as int)),
    decreases l.len(),
{
    if l.len() == 0 {
        assert(Seq::<Seq<char>>::empty() =~= l);
    } else {
        let head = l[0];
        let rest = l.drop_first();
        assert(se_strings(l) == se_string(head) + se_strings(rest));
        assert(s =~= pre + se_string(head) + (se_strings(rest) + suf));
        lemma_sd_string_frame(s, pre, head, se_strings(rest) + suf);
        assert(s =~= (pre + se_string(head)) + se_strings(rest) + suf);
        assert(forall|k: int|
            0 <= k < rest.len() ==> encode_utf8(#[trigger] rest[k]).len() <= u32::MAX);
        lemma_sd_strings_frame(s, pre + se_string(head), rest, suf);
        assert(seq![head] + rest =~= l);
    }
}

pub proof fn lemma_sd_event_list_frame(s: Seq<u8>, pre: Seq<u8>, l: Seq<EventType>, suf: Seq<u8>)
    requires
        s == pre + se_event_list(l) + suf,
        l.len() <= u32::MAX,
    ensures
        sd_event_list(s, pre.len() as int) == Ok::<(Seq<EventType>, int), DecodeError>(
            (l, pre.len() as int + se_event_list(l).len() as int),
        ),
{
    lemma_auto_spec_u32_to_from_le_bytes();
    assert(s =~= pre + spec_u32_to_le_bytes(l.len() as u32) + (se_events(l) + suf));
    lemma_sd_u32_frame(s, pre, l.len() as u32, se_events(l) + suf);
    assert(s =~= (pre + spec_u32_to_le_bytes(l.len() as u32)) + se_events(l) + suf);
    lemma_sd_events_frame(s, pre + spec_u32_to_le_bytes(l.len() as u32), l, suf);
}

pub proof fn lemma_sd_string_list_frame(s: Seq<u8>, pre: Seq<u8>, l: Seq<Seq<char>>, suf: Seq<u8>)
    requires
        s == pre + se_string_list(l) + suf,
        l.len() <= u32::MAX,
        forall|k: int| 0 <= k < l.len() ==> encode_utf8(#[trigger] l[k]).len() <= u32::MAX,
    ensures
        sd_string_list(s, pre.len() as int) == Ok::<(Seq<Seq<char>>, int), DecodeError>(
            (l, pre.len() as int + se_string_list(l).len() as int),
        ),
{
    lemma_auto_spec_u32_to_from_le_bytes();
    assert(s =~= pre + spec_u32_to_le_bytes(l.len() as u32) + (se_strings(l) + suf));
    lemma_sd_u32_frame(s, pre, l.len() as u32, se_strings(l) + suf);
    assert(s =~= (pre + spec_u32_to_le_bytes(l.len() as u32)) + se_strings(l) + suf);
    lemma_sd_strings_frame(s, pre + spec_u32_to_le_bytes(l.len() as u32), l, suf);
}


// ---------------------------------------------------------------------------
// Composite payload records.
// ---------------------------------------------------------------------------

pub open spec fn wf_file(f: FileToOpenV) -> bool {
    &&& encode_utf8(f.path).len() <= u32::MAX
    &&& (f.cwd matches Option::Some(t) ==> encode_utf8(t).len() <= u32::MAX)
}

pub open spec fn se_file(f: FileToOpenV) -> Seq<u8>
    recommends
        wf_file(f),
{
    se_string(f.path) + se_opt_u64(f.line_number) + se_opt_string(f.cwd)
}

pub open spec fn sd_file(s: Seq<u8>, i: int) -> Result<(FileToOpenV, int), DecodeError> {
    match sd_string(s, i) {
        Ok((path, j)) => match sd_opt_u64(s, j) {
            Ok((line_number, k)) => match sd_opt_string(s, k) {
                Ok((cwd, m)) => Ok((FileToOpenV { path, line_number, cwd }, m)),
                Err(e) => Err(e),
            },
            Err(e) => Err(e),
        },
        Err(e) => Err(e),
    }
}

pub open spec fn wf_command_to_run(c: CommandToRunV) -> bool {
    &&& encode_utf8(c.path).len() <= u32::MAX
    &&& c.args.len() <= u32::MAX
    &&& (forall|k: int| 0 <= k < c.args.len() ==> encode_utf8(#[trigger] c.args[k]).len()
        <= u32::MAX)
    &&& (c.cwd matches Option::Some(t) ==> encode_utf8(t).len() <= u32::MAX)
}

pub open spec fn se_command_to_run(c: CommandToRunV) -> Seq<u8>
    recommends
        wf_command_to_run(c),
{
    se_string(c.path) + se_string_list(c.args) + se_opt_string(c.cwd)
}

pub open spec fn sd_command_to_run(s: Seq<u8>, i: int) -> Result<(CommandToRunV, int), DecodeError> {
    match sd_string(s, i) {
        Ok((path, j)) => match sd_string_list(s, j) {
            Ok((args, k)) => match sd_opt_string(s, k) {
                Ok((cwd, m)) => Ok((CommandToRunV { path, args, cwd }, m)),
                Err(e) => Err(e),
            },
            Err(e) => Err(e),
        },
        Err(e) => Err(e),
    }
}

pub open spec fn wf_message(m: PluginMessageV) -> bool {
    &&& encode_utf8(m.name).len() <= u32::MAX
    &&& encode_utf8(m.payload).len() <= u32::MAX
    &&& (m.worker_name matches Option::Some(t) ==> encode_utf8(t).len() <= u32::MAX)
}

pub open spec fn se_message(m: PluginMessageV) -> Seq<u8>
    recommends
        wf_message(m),
{
    se_string(m.name) + se_string(m.payload) + se_opt_string(m.worker_name)
}

pub open spec fn sd_message(s: Seq<u8>, i: int) -> Result<(PluginMessageV, int), DecodeError> {
    match sd_string(s, i) {
        Ok((name, j)) => match sd_string(s, j) {
            Ok((payload, k)) => match sd_opt_string(s, k) {
                Ok((worker_name, m)) => Ok((PluginMessageV { name, payload, worker_name }, m)),
                Err(e) => Err(e),
            },
            Err(e) => Err(e),
        },
        Err(e) => Err(e),
    }
}

pub open spec fn se_resize_strategy(r: ResizeStrategy) -> Seq<u8> {
    seq![resize_tag(r.resize)] + se_opt_direction(r.direction)
}

pub open spec fn sd_resize_strategy(s: Seq<u8>, i: int) -> Result<(ResizeStrategy, int), DecodeError> {
    match sd_resize(s, i) {
        Ok((resize, j)) => match sd_opt_direction(s, j) {
            Ok((direction, k)) => Ok((ResizeStrategy { resize, direction }, k)),
            Err(e) => Err(e),
        },
        Err(e) => Err(e),
    }
}

pub(crate) fn take_file(buf: &Vec<u8>, pos: usize) -> (r: Result<(FileToOpen, usize), DecodeError>)
    requires
        pos <= buf@.len(),
    ensures
        match sd_file(buf@, pos as int) {
            Ok((v, j)) => r matches Ok(p) && p.0@ == v && p.1 as int == j,
            Err(e) => r matches Err(f) && f == e,
        },
{
    match take_string(buf, pos) {
        Ok((path, j)) => match take_opt_u64(buf, j) {
            Ok((line_number, k)) => match take_opt_string(buf, k) {
                Ok((cwd, m)) => Ok((FileToOpen { path, line_number, cwd }, m)),
                Err(e) => Err(e),
            },
            Err(e) => Err(e),
        },
        Err(e) => Err(e),
    }
}

pub(crate) fn take_command_to_run(buf: &Vec<u8>, pos: usize) -> (r: Result<
    (CommandToRun, usize),
    DecodeError,
>)
    requires
        pos <= buf@.len(),
    ensures
        match sd_command_to_run(buf@, pos as int) {
            Ok((v, j)) => r matches Ok(p) && p.0@ == v && p.1 as int == j,
            Err(e) => r matches Err(f) && f == e,
        },
{
    match take_string(buf, pos) {
        Ok((path, j)) => match take_string_list(buf, j) {
            Ok((args, k)) => {
                proof {
                    match sd_u32(buf@, j as int) {
                        Ok((n, st)) => {
                            lemma_sd_strings_advances(buf@, st, n as int);
                        },
                        Err(_) => {},
                    }
                }
                match take_opt_string(buf, k) {
                    Ok((cwd, m)) => Ok((CommandToRun { path, args, cwd }, m)),
                    Err(e) => Err(e),
                }
            },
            Err(e) => Err(e),
        },
        Err(e) => Err(e),
    }
}

pub(crate) fn take_message(buf: &Vec<u8>, pos: usize) -> (r: Result<
    (PluginMessage, usize),
    DecodeError,
>)
    requires
        pos <= buf@.len(),
    ensures
        match sd_message(buf@, pos as int) {
            Ok((v, j)) => r matches Ok(p) && p.0@ == v && p.1 as int == j,
            Err(e) => r matches Err(f) && f == e,
        },
{
    match take_string(buf, pos) {
        Ok((name, j)) => match take_string(buf, j) {
            Ok((payload, k)) => match take_opt_string(buf, k) {
                Ok((worker_name, m)) => Ok((PluginMessage { name, payload, worker_name }, m)),
                Err(e) => Err(e),
            },
            Err(e) => Err(e),
        },
        Err(e) => Err(e),
    }
}

pub(crate) fn take_resize_strategy(buf: &Vec<u8>, pos: usize) -> (r: Result<
    (ResizeStrategy, usize),
    DecodeError,
>)
    requires
        pos <= buf@.len(),
    ensures
        match sd_resize_strategy(buf@, pos as int) {
            Ok((v, j)) => r matches Ok(p) && p.0 == v && p.1 as int == j,
            Err(e) => r matches Err(f) && f == e,
        },
{
    match take_u8(buf, pos) {
        Ok((t, j)) => match resize_from_u8(t) {
            Some(resize) => match take_opt_direction(buf, j) {
                Ok((direction, k)) => Ok((ResizeStrategy { resize, direction }, k)),
                Err(e) => Err(e),
            },
            None => Err(DecodeError::InvalidValue),
        },
        Err(e) => Err(e),
    }
}

pub(crate) fn put_file(out: &mut Vec<u8>, f: &FileToOpen)
    requires
        wf_file(f@),
    ensures
        final(out)@ == old(out)@ + se_file(f@),
{
    put_string(out, &f.path);
    put_opt_u64(out, &f.line_number);
    put_opt_string(out, &f.cwd);
    proof {
        assert(final(out)@ =~= old(out)@ + se_file(f@));
    }
}

pub(crate) fn put_command_to_run(out: &mut Vec<u8>, c: &CommandToRun)
    requires
        wf_command_to_run(c@),
    ensures
        final(out)@ == old(out)@ + se_command_to_run(c@),
{
    put_string(out, &c.path);
    proof {
        assert(forall|i: int|
            0 <= i < c.args@.len() ==> encode_utf8(#[trigger] c.args@[i]@).len() <= u32::MAX)
            by {
            assert(forall|i: int|
                0 <= i < c.args@.len() ==> c@.args[i] == #[trigger] c.args@[i]@);
        }
    }
    put_string_list(out, &c.args);
    put_opt_string(out, &c.cwd);
    proof {
        assert(crate::data::strings_view(c.args@) == c@.args);
        assert(final(out)@ =~= old(out)@ + se_command_to_run(c@));
    }
}

pub(crate) fn put_message(out: &mut Vec<u8>, m: &PluginMessage)
    requires
        wf_message(m@),
    ensures
        final(out)@ == old(out)@ + se_message(m@),
{
    put_string(out, &m.name);
    put_string(out, &m.payload);
    put_opt_string(out, &m.worker_name);
    proof {
        assert(final(out)@ =~= old(out)@ + se_message(m@));
    }
}

pub(crate) fn put_resize_strategy(out: &mut Vec<u8>, r: &ResizeStrategy)
    ensures
        final(out)@ == old(out)@ + se_resize_strategy(*r),
{
    put_u8(out, resize_to_u8(r.resize));
    put_opt_direction(out, &r.direction);
    proof {
        assert(final(out)@ =~= old(out)@ + se_resize_strategy(*r));
    }
}

pub proof fn lemma_sd_file_frame(s: Seq<u8>, pre: Seq<u8>, f: FileToOpenV, suf: Seq<u8>)
    requires
        s == pre + se_file(f) + suf,
        wf_file(f),
    ensures
        sd_file(s, pre.len() as int) == Ok::<(FileToOpenV, int), DecodeError>(
            (f, pre.len() as int + se_file(f).len() as int),
        ),
{
    assert(s =~= pre + se_string(f.path) + (se_opt_u64(f.line_number) + (se_opt_string(f.cwd)
        + suf)));
    lemma_sd_string_frame(s, pre, f.path, se_opt_u64(f.line_number) + (se_opt_string(f.cwd) + suf));
    let pre2 = pre + se_string(f.path);
    assert(s =~= pre2 + se_opt_u64(f.line_number) + (se_opt_string(f.cwd) + suf));
    lemma_sd_opt_u64_frame(s, pre2, f.line_number, se_opt_string(f.cwd) + suf);
    let pre3 = pre2 + se_opt_u64(f.line_number);
    assert(s =~= pre3 + se_opt_string(f.cwd) + suf);
    lemma_sd_opt_string_frame(s, pre3, f.cwd, suf);
    assert(FileToOpenV { path: f.path, line_number: f.line_number, cwd: f.cwd } == f);
}

pub proof fn lemma_sd_command_to_run_frame(s: Seq<u8>, pre: Seq<u8>, c: CommandToRunV, suf: Seq<u8>)
    requires
        s == pre + se_command_to_run(c) + suf,
        wf_command_to_run(c),
    ensures
        sd_command_to_run(s, pre.len() as int) == Ok::<(CommandToRunV, int), DecodeError>(
            (c, pre.len() as int + se_command_to_run(c).len() as int),
        ),
{
    assert(s =~= pre + se_string(c.path) + (se_string_list(c.args) + (se_opt_string(c.cwd)
        + suf)));
    lemma_sd_string_frame(s, pre, c.path, se_string_list(c.args) + (se_opt_string(c.cwd) + suf));
    let pre2 = pre + se_string(c.path);
    assert(s =~= pre2 + se_string_list(c.args) + (se_opt_string(c.cwd) + suf));
    lemma_sd_string_list_frame(s, pre2, c.args, se_opt_string(c.cwd) + suf);
    let pre3 = pre2 + se_string_list(c.args);
    assert(s =~= pre3 + se_opt_string(c.cwd) + suf);
    lemma_sd_opt_string_frame(s, pre3, c.cwd, suf);
    assert(CommandToRunV { path: c.path, args: c.args, cwd: c.cwd } == c);
}

pub proof fn lemma_sd_message_frame(s: Seq<u8>, pre: Seq<u8>, m: PluginMessageV, suf: Seq<u8>)
    requires
        s == pre + se_message(m) + suf,
        wf_message(m),
    ensures
        sd_message(s, pre.len() as int) == Ok::<(PluginMessageV, int), DecodeError>(
            (m, pre.len() as int + se_message(m).len() as int),
        ),
{
    assert(s =~= pre + se_string(m.name) + (se_string(m.payload) + (se_opt_string(m.worker_name)
        + suf)));
    lemma_sd_string_frame(s, pre, m.name, se_string(m.payload) + (se_opt_string(m.worker_name)
        + suf));
    let pre2 = pre + se_string(m.name);
    assert(s =~= pre2 + se_string(m.payload) + (se_opt_string(m.worker_name) + suf));
    lemma_sd_string_frame(s, pre2, m.payload, se_opt_string(m.worker_name) + suf);
    let pre3 = pre2 + se_string(m.payload);
    assert(s =~= pre3 + se_opt_string(m.worker_name) + suf);
    lemma_sd_opt_string_frame(s, pre3, m.worker_name, suf);
    assert(PluginMessageV { name: m.name, payload: m.payload, worker_name: m.worker_name } == m);
}

pub proof fn lemma_sd_resize_strategy_frame(s: Seq<u8>, pre: Seq<u8>, r: ResizeStrategy, suf: Seq<u8>)
    requires
        s == pre + se_resize_strategy(r) + suf,
    ensures
        sd_resize_strategy(s, pre.len() as int) == Ok::<(ResizeStrategy, int), DecodeError>(
            (r, pre.len() as int + se_resize_strategy(r).len() as int),
        ),
{
    assert(s =~= pre + seq![resize_tag(r.resize)] + (se_opt_direction(r.direction) + suf));
    lemma_sd_resize_frame(s, pre, r.resize, se_opt_direction(r.direction) + suf);
    let pre2 = pre + seq![resize_tag(r.resize)];
    assert(s =~= pre2 + se_opt_direction(r.direction) + suf);
    lemma_sd_opt_direction_frame(s, pre2, r.direction, suf);
    assert(ResizeStrategy { resize: r.resize, direction: r.direction } == r);
}

// ---------------------------------------------------------------------------
// The command codec itself.
// ---------------------------------------------------------------------------

pub open spec fn cmd_tag(c: PluginCommandV) -> u8 {
    match c {
        PluginCommandV::Subscribe(_) => 0,
        PluginCommandV::Unsubscribe(_) => 1,
        PluginCommandV::SetSelectable(_) => 2,
        PluginCommandV::GetPluginIds => 3,
        PluginCommandV::GetZellijVersion => 4,
        PluginCommandV::OpenFile(_) => 5,
        PluginCommandV::OpenFileFloating(_) => 6,
        PluginCommandV::OpenTerminal(_) => 7,
        PluginCommandV::OpenTerminalFloating(_) => 8,
        PluginCommandV::OpenCommandPane(_) => 9,
        PluginCommandV::OpenCommandPaneFloating(_) => 10,
        PluginCommandV::SwitchTabTo(_) => 11,
        PluginCommandV::SetTimeout(_) => 12,
        PluginCommandV::ExecCmd(_) => 13,
        PluginCommandV::PostMessageTo(_) => 14,
        PluginCommandV::PostMessageToPlugin(_) => 15,
        PluginCommandV::HideSelf => 16,
        PluginCommandV::ShowSelf(_) => 17,
        PluginCommandV::SwitchToMode(_) => 18,
        PluginCommandV::NewTabsWithLayout(_) => 19,
        PluginCommandV::NewTab => 20,
        PluginCommandV::GoToNextTab => 21,
        PluginCommandV::GoToPreviousTab => 22,
        PluginCommandV::Resize(_) => 23,
        PluginCommandV::ResizeWithDirection(_) => 24,
        PluginCommandV::FocusNextPane => 25,
        PluginCommandV::FocusPreviousPane => 26,
        PluginCommandV::MoveFocus(_) => 27,
        PluginCommandV::MoveFocusOrTab(_) => 28,
        PluginCommandV::Detach => 29,
        PluginCommandV::EditScrollback => 30,
        PluginCommandV::Write(_) => 31,
        PluginCommandV::WriteChars(_) => 32,
        PluginCommandV::ToggleTab => 33,
        PluginCommandV::MovePane => 34,
        PluginCommandV::MovePaneWithDirection(_) => 35,
        PluginCommandV::ClearScreen => 36,
        PluginCommandV::ScrollUp => 37,
        PluginCommandV::ScrollDown => 38,
        PluginCommandV::ScrollToTop => 39,
        PluginCommandV::ScrollToBottom => 40,
        PluginCommandV::PageScrollUp => 41,
        PluginCommandV::PageScrollDown => 42,
        PluginCommandV::ToggleFocusFullscreen => 43,
        PluginCommandV::TogglePaneFrames => 44,
        PluginCommandV::TogglePaneEmbedOrEject => 45,
        PluginCommandV::UndoRenamePane => 46,
        PluginCommandV::CloseFocus => 47,
        PluginCommandV::ToggleActiveTabSync => 48,
        PluginCommandV::CloseFocusedTab => 49,
        PluginCommandV::UndoRenameTab => 50,
        PluginCommandV::QuitZellij => 51,
        PluginCommandV::PreviousSwapLayout => 52,
        PluginCommandV::NextSwapLayout => 53,
        PluginCommandV::GoToTabName(_) => 54,
        PluginCommandV::FocusOrCreateTab(_) => 55,
        PluginCommandV::GoToTab(_) => 56,
        PluginCommandV::StartOrReloadPlugin(_) => 57,
        PluginCommandV::CloseTerminalPane(_) => 58,
        PluginCommandV::ClosePluginPane(_) => 59,
        PluginCommandV::FocusTerminalPane(_, _) => 60,
        PluginCommandV::FocusPluginPane(_, _) => 61,
        PluginCommandV::RenameTerminalPane(_, _) => 62,
        PluginCommandV::RenamePluginPane(_, _) => 63,
        PluginCommandV::RenameTab(_, _) => 64,
        PluginCommandV::ReportPanic(_) => 65,
    }
}

/// The side conditions under which a command can be put on the wire: every
/// length-prefixed field fits its 32-bit count.
pub open spec fn wf_command(c: PluginCommandV) -> bool {
    match c {
        PluginCommandV::Subscribe(v) => v.len() <= u32::MAX,
        PluginCommandV::Unsubscribe(v) => v.len() <= u32::MAX,
        PluginCommandV::SetSelectable(v) => true,
        PluginCommandV::GetPluginIds => true,
        PluginCommandV::GetZellijVersion => true,
        PluginCommandV::OpenFile(v) => wf_file(v),
        PluginCommandV::OpenFileFloating(v) => wf_file(v),
        PluginCommandV::OpenTerminal(v) => encode_utf8(v).len() <= u32::MAX,
        PluginCommandV::OpenTerminalFloating(v) => encode_utf8(v).len() <= u32::MAX,
        PluginCommandV::OpenCommandPane(v) => wf_command_to_run(v),
        PluginCommandV::OpenCommandPaneFloating(v) => wf_command_to_run(v),
        PluginCommandV::SwitchTabTo(v) => true,
        PluginCommandV::SetTimeout(v) => true,
        PluginCommandV::ExecCmd(v) => v.len() <= u32::MAX && (forall|k: int| 0 <= k < v.len() ==> encode_utf8(#[trigger] v[k]).len() <= u32::MAX),
        PluginCommandV::PostMessageTo(v) => wf_message(v),
        PluginCommandV::PostMessageToPlugin(v) => wf_message(v),
        PluginCommandV::HideSelf => true,
        PluginCommandV::ShowSelf(v) => true,
        PluginCommandV::SwitchToMode(v) => true,
        PluginCommandV::NewTabsWithLayout(v) => encode_utf8(v).len() <= u32::MAX,
        PluginCommandV::NewTab => true,
        PluginCommandV::GoToNextTab => true,
        PluginCommandV::GoToPreviousTab => true,
        PluginCommandV::Resize(v) => true,
        PluginCommandV::ResizeWithDirection(v) => true,
        PluginCommandV::FocusNextPane => true,
        PluginCommandV::FocusPreviousPane => true,
        PluginCommandV::MoveFocus(v) => true,
        PluginCommandV::MoveFocusOrTab(v) => true,
        PluginCommandV::Detach => true,
        PluginCommandV::EditScrollback => true,
        PluginCommandV::Write(v) => v.len() <= u32::MAX,
        PluginCommandV::WriteChars(v) => encode_utf8(v).len() <= u32::MAX,
        PluginCommandV::ToggleTab => true,
        PluginCommandV::MovePane => true,
        PluginCommandV::MovePaneWithDirection(v) => true,
        PluginCommandV::ClearScreen => true,
        PluginCommandV::ScrollUp => true,
        PluginCommandV::ScrollDown => true,
        PluginCommandV::ScrollToTop => true,
        PluginCommandV::ScrollToBottom => true,
        PluginCommandV::PageScrollUp => true,
        PluginCommandV::PageScrollDown => true,
        PluginCommandV::ToggleFocusFullscreen => true,
        PluginCommandV::TogglePaneFrames => true,
        PluginCommandV::TogglePaneEmbedOrEject => true,
        PluginCommandV::UndoRenamePane => true,
        PluginCommandV::CloseFocus => true,
        PluginCommandV::ToggleActiveTabSync => true,
        PluginCommandV::CloseFocusedTab => true,
        PluginCommandV::UndoRenameTab => true,
        PluginCommandV::QuitZellij => true,
        PluginCommandV::PreviousSwapLayout => true,
        PluginCommandV::NextSwapLayout => true,
        PluginCommandV::GoToTabName(v) => encode_utf8(v).len() <= u32::MAX,
        PluginCommandV::FocusOrCreateTab(v) => encode_utf8(v).len() <= u32::MAX,
        PluginCommandV::GoToTab(v) => true,
        PluginCommandV::StartOrReloadPlugin(v) => encode_utf8(v).len() <= u32::MAX,
        PluginCommandV::CloseTerminalPane(v) => true,
        PluginCommandV::ClosePluginPane(v) => true,
        PluginCommandV::FocusTerminalPane(a, b) => true,
        PluginCommandV::FocusPluginPane(a, b) => true,
        PluginCommandV::RenameTerminalPane(a, n) => encode_utf8(n).len() <= u32::MAX,
        PluginCommandV::RenamePluginPane(a, n) => encode_utf8(n).len() <= u32::MAX,
        PluginCommandV::RenameTab(a, n) => encode_utf8(n).len() <= u32::MAX,
        PluginCommandV::ReportPanic(v) => encode_utf8(v).len() <= u32::MAX,
    }
}

/// Spec-level encoding of a command's payload, without its leading tag.
pub open spec fn se_payload(c: PluginCommandV) -> Seq<u8>
    recommends
        wf_command(c),
{
    match c {
        PluginCommandV::Subscribe(v) => se_event_list(v),
        PluginCommandV::Unsubscribe(v) => se_event_list(v),
        PluginCommandV::SetSelectable(v) => se_bool(v),
        PluginCommandV::GetPluginIds => Seq::empty(),
        PluginCommandV::GetZellijVersion => Seq::empty(),
        PluginCommandV::OpenFile(v) => se_file(v),
        PluginCommandV::OpenFileFloating(v) => se_file(v),
        PluginCommandV::OpenTerminal(v) => se_string(v),
        PluginCommandV::OpenTerminalFloating(v) => se_string(v),
        PluginCommandV::OpenCommandPane(v) => se_command_to_run(v),
        PluginCommandV::OpenCommandPaneFloating(v) => se_command_to_run(v),
        PluginCommandV::SwitchTabTo(v) => spec_u32_to_le_bytes(v),
        PluginCommandV::SetTimeout(v) => spec_u64_to_le_bytes(v),
        PluginCommandV::ExecCmd(v) => se_string_list(v),
        PluginCommandV::PostMessageTo(v) => se_message(v),
        PluginCommandV::PostMessageToPlugin(v) => se_message(v),
        PluginCommandV::HideSelf => Seq::empty(),
        PluginCommandV::ShowSelf(v) => se_bool(v),
        PluginCommandV::SwitchToMode(v) => seq![mode_tag(v)],
        PluginCommandV::NewTabsWithLayout(v) => se_string(v),
        PluginCommandV::NewTab => Seq::empty(),
        PluginCommandV::GoToNextTab => Seq::empty(),
        PluginCommandV::GoToPreviousTab => Seq::empty(),
        PluginCommandV::Resize(v) => seq![resize_tag(v)],
        PluginCommandV::ResizeWithDirection(v) => se_resize_strategy(v),
        PluginCommandV::FocusNextPane => Seq::empty(),
        PluginCommandV::FocusPreviousPane => Seq::empty(),
        PluginCommandV::MoveFocus(v) => seq![direction_tag(v)],
        PluginCommandV::MoveFocusOrTab(v) => seq![direction_tag(v)],
        PluginCommandV::Detach => Seq::empty(),
        PluginCommandV::EditScrollback => Seq::empty(),
        PluginCommandV::Write(v) => se_bytes(v),
        PluginCommandV::WriteChars(v) => se_string(v),
        PluginCommandV::ToggleTab => Seq::empty(),
        PluginCommandV::MovePane => Seq::empty(),
        PluginCommandV::MovePaneWithDirection(v) => seq![direction_tag(v)],
        PluginCommandV::ClearScreen => Seq::empty(),
        PluginCommandV::ScrollUp => Seq::empty(),
        PluginCommandV::ScrollDown => Seq::empty(),
        PluginCommandV::ScrollToTop => Seq::empty(),
        PluginCommandV::ScrollToBottom => Seq::empty(),
        PluginCommandV::PageScrollUp => Seq::empty(),
        PluginCommandV::PageScrollDown => Seq::empty(),
        PluginCommandV::ToggleFocusFullscreen => Seq::empty(),
        PluginCommandV::TogglePaneFrames => Seq::empty(),
        PluginCommandV::TogglePaneEmbedOrEject => Seq::empty(),
        PluginCommandV::UndoRenamePane => Seq::empty(),
        PluginCommandV::CloseFocus => Seq::empty(),
        PluginCommandV::ToggleActiveTabSync => Seq::empty(),
        PluginCommandV::CloseFocusedTab => Seq::empty(),
        PluginCommandV::UndoRenameTab => Seq::empty(),
        PluginCommandV::QuitZellij => Seq::empty(),
        PluginCommandV::PreviousSwapLayout => Seq::empty(),
        PluginCommandV::NextSwapLayout => Seq::empty(),
        PluginCommandV::GoToTabName(v) => se_string(v),
        PluginCommandV::FocusOrCreateTab(v) => se_string(v),
        PluginCommandV::GoToTab(v) => spec_u32_to_le_bytes(v),
        PluginCommandV::StartOrReloadPlugin(v) => se_string(v),
        PluginCommandV::CloseTerminalPane(v) => spec_u32_to_le_bytes(v),
        PluginCommandV::ClosePluginPane(v) => spec_u32_to_le_bytes(v),
        PluginCommandV::FocusTerminalPane(a, b) => spec_u32_to_le_bytes(a) + se_bool(b),
        PluginCommandV::FocusPluginPane(a, b) => spec_u32_to_le_bytes(a) + se_bool(b),
        PluginCommandV::RenameTerminalPane(a, n) => spec_u32_to_le_bytes(a) + se_string(n),
        PluginCommandV::RenamePluginPane(a, n) => spec_u32_to_le_bytes(a) + se_string(n),
        PluginCommandV::RenameTab(a, n) => spec_u32_to_le_bytes(a) + se_string(n),
        PluginCommandV::ReportPanic(v) => se_string(v),
    }
}

/// Spec-level encoding of a whole command: its tag, then its payload.
pub open spec fn spec_encode_command(c: PluginCommandV) -> Seq<u8>
    recommends
        wf_command(c),
{
    seq![cmd_tag(c)] + se_payload(c)
}

/// Spec-level decoding of one command payload, given the tag already read
/// and the cursor standing after it (tags up to `WriteChars`).
pub open spec fn sd_payload_low(s: Seq<u8>, i: int, tag: u8) -> Result<PluginCommandV, DecodeError> {
    if tag == 0 {
        match sd_event_list(s, i) {
            Ok((v, j)) => if j == s.len() { Ok(PluginCommandV::Subscribe(v)) } else { Err(DecodeError::TrailingBytes) },
            Err(e) => Err(e),
        }
    } else if tag == 1 {
        match sd_event_list(s, i) {
            Ok((v, j)) => if j == s.len() { Ok(PluginCommandV::Unsubscribe(v)) } else { Err(DecodeError::TrailingBytes) },
            Err(e) => Err(e),
        }
    } else if tag == 2 {
        match sd_bool(s, i) {
            Ok((v, j)) => if j == s.len() { Ok(PluginCommandV::SetSelectable(v)) } else { Err(DecodeError::TrailingBytes) },
            Err(e) => Err(e),
        }
    } else if tag == 3 {
        if i == s.len() { Ok(PluginCommandV::GetPluginIds) } else { Err(DecodeError::TrailingBytes) }
    } else if tag == 4 {
        if i == s.len() { Ok(PluginCommandV::GetZellijVersion) } else { Err(DecodeError::TrailingBytes) }
    } else if tag == 5 {
        match sd_file(s, i) {
            Ok((v, j)) => if j == s.len() { Ok(PluginCommandV::OpenFile(v)) } else { Err(DecodeError::TrailingBytes) },
            Err(e) => Err(e),
        }
    } else if tag == 6 {
        match sd_file(s, i) {
            Ok((v, j)) => if j == s.len() { Ok(PluginCommandV::OpenFileFloating(v)) } else { Err(DecodeError::TrailingBytes) },
            Err(e) => Err(e),
        }
    } else if tag == 7 {
        match sd_string(s, i) {
            Ok((v, j)) => if j == s.len() { Ok(PluginCommandV::OpenTerminal(v)) } else { Err(DecodeError::TrailingBytes) },
            Err(e) => Err(e),
        }
    } else if tag == 8 {
        match sd_string(s, i) {
            Ok((v, j)) => if j == s.len() { Ok(PluginCommandV::OpenTerminalFloating(v)) } else { Err(DecodeError::TrailingBytes) },
            Err(e) => Err(e),
        }
    } else if tag == 9 {
        match sd_command_to_run(s, i) {
            Ok((v, j)) => if j == s.len() { Ok(PluginCommandV::OpenCommandPane(v)) } else { Err(DecodeError::TrailingBytes) },
            Err(e) => Err(e),
        }
    } else if tag == 10 {
        match sd_command_to_run(s, i) {
            Ok((v, j)) => if j == s.len() { Ok(PluginCommandV::OpenCommandPaneFloating(v)) } else { Err(DecodeError::TrailingBytes) },
            Err(e) => Err(e),
        }
    } else if tag == 11 {
        match sd_u32(s, i) {
            Ok((v, j)) => if j == s.len() { Ok(PluginCommandV::SwitchTabTo(v)) } else { Err(DecodeError::TrailingBytes) },
            Err(e) => Err(e),
        }
    } else if tag == 12 {
        match sd_u64(s, i) {
            Ok((v, j)) => if j == s.len() { Ok(PluginCommandV::SetTimeout(v)) } else { Err(DecodeError::TrailingBytes) },
            Err(e) => Err(e),
        }
    } else if tag == 13 {
        match sd_string_list(s, i) {
            Ok((v, j)) => if j == s.len() { Ok(PluginCommandV::ExecCmd(v)) } else { Err(DecodeError::TrailingBytes) },
            Err(e) => Err(e),
        }
    } else if tag == 14 {
        match sd_message(s, i) {
            Ok((v, j)) => if j == s.len() { Ok(PluginCommandV::PostMessageTo(v)) } else { Err(DecodeError::TrailingBytes) },
            Err(e) => Err(e),
        }
    } else if tag == 15 {
        match sd_message(s, i) {
            Ok((v, j)) => if j == s.len() { Ok(PluginCommandV::PostMessageToPlugin(v)) } else { Err(DecodeError::TrailingBytes) },
            Err(e) => Err(e),
        }
    } else if tag == 16 {
        if i == s.len() { Ok(PluginCommandV::HideSelf) } else { Err(DecodeError::TrailingBytes) }
    } else if tag == 17 {
        match sd_bool(s, i) {
            Ok((v, j)) => if j == s.len() { Ok(PluginCommandV::ShowSelf(v)) } else { Err(DecodeError::TrailingBytes) },
            Err(e) => Err(e),
        }
    } else if tag == 18 {
        match sd_mode(s, i) {
            Ok((v, j)) => if j == s.len() { Ok(PluginCommandV::SwitchToMode(v)) } else { Err(DecodeError::TrailingBytes) },
            Err(e) => Err(e),
        }
    } else if tag == 19 {
        match sd_string(s, i) {
            Ok((v, j)) => if j == s.len() { Ok(PluginCommandV::NewTabsWithLayout(v)) } else { Err(DecodeError::TrailingBytes) },
            Err(e) => Err(e),
        }
    } else if tag == 20 {
        if i == s.len() { Ok(PluginCommandV::NewTab) } else { Err(DecodeError::TrailingBytes) }
    } else if tag == 21 {
        if i == s.len() { Ok(PluginCommandV::GoToNextTab) } else { Err(DecodeError::TrailingBytes) }
    } else if tag == 22 {
        if i == s.len() { Ok(PluginCommandV::GoToPreviousTab) } else { Err(DecodeError::TrailingBytes) }
    } else if tag == 23 {
        match sd_resize(s, i) {
            Ok((v, j)) => if j == s.len() { Ok(PluginCommandV::Resize(v)) } else { Err(DecodeError::TrailingBytes) },
            Err(e) => Err(e),
        }
    } else if tag == 24 {
        match sd_resize_strategy(s, i) {
            Ok((v, j)) => if j == s.len() { Ok(PluginCommandV::ResizeWithDirection(v)) } else { Err(DecodeError::TrailingBytes) },
            Err(e) => Err(e),
        }
    } else if tag == 25 {
        if i == s.len() { Ok(PluginCommandV::FocusNextPane) } else { Err(DecodeError::TrailingBytes) }
    } else if tag == 26 {
        if i == s.len() { Ok(PluginCommandV::FocusPreviousPane) } else { Err(DecodeError::TrailingBytes) }
    } else if tag == 27 {
        match sd_direction(s, i) {
            Ok((v, j)) => if j == s.len() { Ok(PluginCommandV::MoveFocus(v)) } else { Err(DecodeError::TrailingBytes) },
            Err(e) => Err(e),
        }
    } else if tag == 28 {
        match sd_direction(s, i) {
            Ok((v, j)) => if j == s.len() { Ok(PluginCommandV::MoveFocusOrTab(v)) } else { Err(DecodeError::TrailingBytes) },
            Err(e) => Err(e),
        }
    } else if tag == 29 {
        if i == s.len() { Ok(PluginCommandV::Detach) } else { Err(DecodeError::TrailingBytes) }
    } else if tag == 30 {
        if i == s.len() { Ok(PluginCommandV::EditScrollback) } else { Err(DecodeError::TrailingBytes) }
    } else if tag == 31 {
        match sd_bytes(s, i) {
            Ok((v, j)) => if j == s.len() { Ok(PluginCommandV::Write(v)) } else { Err(DecodeError::TrailingBytes) },
            Err(e) => Err(e),
        }
    } else if tag == 32 {
        match sd_string(s, i) {
            Ok((v, j)) => if j == s.len() { Ok(PluginCommandV::WriteChars(v)) } else { Err(DecodeError::TrailingBytes) },
            Err(e) => Err(e),
        }
    } else {
        Err(DecodeError::UnknownTag)
    }
}

/// Spec-level decoding of one command payload, given the tag already read
/// and the cursor standing after it (tags from `ToggleTab` up).
pub open spec fn sd_payload_high(s: Seq<u8>, i: int, tag: u8) -> Result<PluginCommandV, DecodeError> {
    if tag == 33 {
        if i == s.len() { Ok(PluginCommandV::ToggleTab) } else { Err(DecodeError::TrailingBytes) }
    } else if tag == 34 {
        if i == s.len() { Ok(PluginCommandV::MovePane) } else { Err(DecodeError::TrailingBytes) }
    } else if tag == 35 {
        match sd_direction(s, i) {
            Ok((v, j)) => if j == s.len() { Ok(PluginCommandV::MovePaneWithDirection(v)) } else { Err(DecodeError::TrailingBytes) },
            Err(e) => Err(e),
        }
    } else if tag == 36 {
        if i == s.len() { Ok(PluginCommandV::ClearScreen) } else { Err(DecodeError::TrailingBytes) }
    } else if tag == 37 {
        if i == s.len() { Ok(PluginCommandV::ScrollUp) } else { Err(DecodeError::TrailingBytes) }
    } else if tag == 38 {
        if i == s.len() { Ok(PluginCommandV::ScrollDown) } else { Err(DecodeError::TrailingBytes) }
    } else if tag == 39 {
        if i == s.len() { Ok(PluginCommandV::ScrollToTop) } else { Err(DecodeError::TrailingBytes) }
    } else if tag == 40 {
        if i == s.len() { Ok(PluginCommandV::ScrollToBottom) } else { Err(DecodeError::TrailingBytes) }
    } else if tag == 41 {
        if i == s.len() { Ok(PluginCommandV::PageScrollUp) } else { Err(DecodeError::TrailingBytes) }
    } else if tag == 42 {
        if i == s.len() { Ok(PluginCommandV::PageScrollDown) } else { Err(DecodeError::TrailingBytes) }
    } else if tag == 43 {
        if i == s.len() { Ok(PluginCommandV::ToggleFocusFullscreen) } else { Err(DecodeError::TrailingBytes) }
    } else if tag == 44 {
        if i == s.len() { Ok(PluginCommandV::TogglePaneFrames) } else { Err(DecodeError::TrailingBytes) }
    } else if tag == 45 {
        if i == s.len() { Ok(PluginCommandV::TogglePaneEmbedOrEject) } else { Err(DecodeError::TrailingBytes) }
    } else if tag == 46 {
        if i == s.len() { Ok(PluginCommandV::UndoRenamePane) } else { Err(DecodeError::TrailingBytes) }
    } else if tag == 47 {
        if i == s.len() { Ok(PluginCommandV::CloseFocus) } else { Err(DecodeError::TrailingBytes) }
    } else if tag == 48 {
        if i == s.len() { Ok(PluginCommandV::ToggleActiveTabSync) } else { Err(DecodeError::TrailingBytes) }
    } else if tag == 49 {
        if i == s.len() { Ok(PluginCommandV::CloseFocusedTab) } else { Err(DecodeError::TrailingBytes) }
    } else if tag == 50 {
        if i == s.len() { Ok(PluginCommandV::UndoRenameTab) } else { Err(DecodeError::TrailingBytes) }
    } else if tag == 51 {
        if i == s.len() { Ok(PluginCommandV::QuitZellij) } else { Err(DecodeError::TrailingBytes) }
    } else if tag == 52 {
        if i == s.len() { Ok(PluginCommandV::PreviousSwapLayout) } else { Err(DecodeError::TrailingBytes) }
    } else if tag == 53 {
        if i == s.len() { Ok(PluginCommandV::NextSwapLayout) } else { Err(DecodeError::TrailingBytes) }
    } else if tag == 54 {
        match sd_string(s, i) {
            Ok((v, j)) => if j == s.len() { Ok(PluginCommandV::GoToTabName(v)) } else { Err(DecodeError::TrailingBytes) },
            Err(e) => Err(e),
        }
    } else if tag == 55 {
        match sd_string(s, i) {
            Ok((v, j)) => if j == s.len() { Ok(PluginCommandV::FocusOrCreateTab(v)) } else { Err(DecodeError::TrailingBytes) },
            Err(e) => Err(e),
        }
    } else if tag == 56 {
        match sd_u32(s, i) {
            Ok((v, j)) => if j == s.len() { Ok(PluginCommandV::GoToTab(v)) } else { Err(DecodeError::TrailingBytes) },
            Err(e) => Err(e),
        }
    } else if tag == 57 {
        match sd_string(s, i) {
            Ok((v, j)) => if j == s.len() { Ok(PluginCommandV::StartOrReloadPlugin(v)) } else { Err(DecodeError::TrailingBytes) },
            Err(e) => Err(e),
        }
    } else if tag == 58 {
        match sd_u32(s, i) {
            Ok((v, j)) => if j == s.len() { Ok(PluginCommandV::CloseTerminalPane(v)) } else { Err(DecodeError::TrailingBytes) },
            Err(e) => Err(e),
        }
    } else if tag == 59 {
        match sd_u32(s, i) {
            Ok((v, j)) => if j == s.len() { Ok(PluginCommandV::ClosePluginPane(v)) } else { Err(DecodeError::TrailingBytes) },
            Err(e) => Err(e),
        }
    } else if tag == 60 {
        match sd_u32(s, i) {
            Ok((a, j)) => match sd_bool(s, j) {
                Ok((b, e2)) => if e2 == s.len() { Ok(PluginCommandV::FocusTerminalPane(a, b)) } else { Err(DecodeError::TrailingBytes) },
                Err(e) => Err(e),
            },
            Err(e) => Err(e),
        }
    } else if tag == 61 {
        match sd_u32(s, i) {
            Ok((a, j)) => match sd_bool(s, j) {
                Ok((b, e2)) => if e2 == s.len() { Ok(PluginCommandV::FocusPluginPane(a, b)) } else { Err(DecodeError::TrailingBytes) },
                Err(e) => Err(e),
            },
            Err(e) => Err(e),
        }
    } else if tag == 62 {
        match sd_u32(s, i) {
            Ok((a, j)) => match sd_string(s, j) {
                Ok((n, e2)) => if e2 == s.len() { Ok(PluginCommandV::RenameTerminalPane(a, n)) } else { Err(DecodeError::TrailingBytes) },
                Err(e) => Err(e),
            },
            Err(e) => Err(e),
        }
    } else if tag == 63 {
        match sd_u32(s, i) {
            Ok((a, j)) => match sd_string(s, j) {
                Ok((n, e2)) => if e2 == s.len() { Ok(PluginCommandV::RenamePluginPane(a, n)) } else { Err(DecodeError::TrailingBytes) },
                Err(e) => Err(e),
            },
            Err(e) => Err(e),
        }
    } else if tag == 64 {
        match sd_u32(s, i) {
            Ok((a, j)) => match sd_string(s, j) {
                Ok((n, e2)) => if e2 == s.len() { Ok(PluginCommandV::RenameTab(a, n)) } else { Err(DecodeError::TrailingBytes) },
                Err(e) => Err(e),
            },
            Err(e) => Err(e),
        }
    } else if tag == 65 {
        match sd_string(s, i) {
            Ok((v, j)) => if j == s.len() { Ok(PluginCommandV::ReportPanic(v)) } else { Err(DecodeError::TrailingBytes) },
            Err(e) => Err(e),
        }
    } else {
        Err(DecodeError::UnknownTag)
    }
}

/// Spec-level decoding of a whole command buffer. The buffer must hold
/// exactly one command: bytes after the payload are refused.
pub open spec fn sd_command(s: Seq<u8>) -> Result<PluginCommandV, DecodeError> {
    match sd_u8(s, 0) {
        Err(e) => Err(e),
        Ok((tag, i)) => {
            if tag <= 32 {
                sd_payload_low(s, i, tag)
            } else {
                sd_payload_high(s, i, tag)
            }
        },
    }
}

#[verifier::rlimit(100)]
#[verifier::spinoff_prover]
fn decode_payload_low(buf: &Vec<u8>, pos: usize, tag: u8) -> (r: Result<PluginCommand, DecodeError>)
    requires
        pos <= buf@.len(),
        tag <= 32,
    ensures
        match sd_payload_low(buf@, pos as int, tag) {
            Ok(cv) => r matches Ok(c) && c@ == cv,
            Err(e) => r matches Err(f) && f == e,
        },
{
    match tag {
        0 => {
            match take_event_list(buf, pos) {
                Ok((v, j)) => {
                    if j == buf.len() {
                        Ok(PluginCommand::Subscribe(v))
                    } else {
                        Err(DecodeError::TrailingBytes)
                    }
                },
                Err(e) => Err(e),
            }
        },
        1 => {
            match take_event_list(buf, pos) {
                Ok((v, j)) => {
                    if j == buf.len() {
                        Ok(PluginCommand::Unsubscribe(v))
                    } else {
                        Err(DecodeError::TrailingBytes)
                    }
                },
                Err(e) => Err(e),
            }
        },
        2 => {
            match take_bool(buf, pos) {
                Ok((v, j)) => {
                    if j == buf.len() {
                        Ok(PluginCommand::SetSelectable(v))
                    } else {
                        Err(DecodeError::TrailingBytes)
                    }
                },
                Err(e) => Err(e),
            }
        },
        3 => {
            if pos == buf.len() {
                Ok(PluginCommand::GetPluginIds)
            } else {
                Err(DecodeError::TrailingBytes)
            }
        },
        4 => {
            if pos == buf.len() {
                Ok(PluginCommand::GetZellijVersion)
            } else {
                Err(DecodeError::TrailingBytes)
            }
        },
        5 => {
            match take_file(buf, pos) {
                Ok((v, j)) => {
                    if j == buf.len() {
                        Ok(PluginCommand::OpenFile(v))
                    } else {
                        Err(DecodeError::TrailingBytes)
                    }
                },
                Err(e) => Err(e),
            }
        },
        6 => {
            match take_file(buf, pos) {
                Ok((v, j)) => {
                    if j == buf.len() {
                        Ok(PluginCommand::OpenFileFloating(v))
                    } else {
                        Err(DecodeError::TrailingBytes)
                    }
                },
                Err(e) => Err(e),
            }
        },
        7 => {
            match take_string(buf, pos) {
                Ok((v, j)) => {
                    if j == buf.len() {
                        Ok(PluginCommand::OpenTerminal(v))
                    } else {
                        Err(DecodeError::TrailingBytes)
                    }
                },
                Err(e) => Err(e),
            }
        },
        8 => {
            match take_string(buf, pos) {
                Ok((v, j)) => {
                    if j == buf.len() {
                        Ok(PluginCommand::OpenTerminalFloating(v))
                    } else {
                        Err(DecodeError::TrailingBytes)
                    }
                },
                Err(e) => Err(e),
            }
        },
        9 => {
            match take_command_to_run(buf, pos) {
                Ok((v, j)) => {
                    if j == buf.len() {
                        Ok(PluginCommand::OpenCommandPane(v))
                    } else {
                        Err(DecodeError::TrailingBytes)
                    }
                },
                Err(e) => Err(e),
            }
        },
        10 => {
            match take_command_to_run(buf, pos) {
                Ok((v, j)) => {
                    if j == buf.len() {
                        Ok(PluginCommand::OpenCommandPaneFloating(v))
                    } else {
                        Err(DecodeError::TrailingBytes)
                    }
                },
                Err(e) => Err(e),
            }
        },
        11 => {
            match take_u32(buf, pos) {
                Ok((v, j)) => {
                    if j == buf.len() {
                        Ok(PluginCommand::SwitchTabTo(v))
                    } else {
                        Err(DecodeError::TrailingBytes)
                    }
                },
                Err(e) => Err(e),
            }
        },
        12 => {
            match take_u64(buf, pos) {
                Ok((v, j)) => {
                    if j == buf.len() {
                        Ok(PluginCommand::SetTimeout(v))
                    } else {
                        Err(DecodeError::TrailingBytes)
                    }
                },
                Err(e) => Err(e),
            }
        },
        13 => {
            match take_string_list(buf, pos) {
                Ok((v, j)) => {
                    proof {
                        match sd_u32(buf@, pos as int) {
                            Ok((n2, st)) => {
                                lemma_sd_strings_advances(buf@, st, n2 as int);
                            },
                            Err(_) => {},
                        }
                    }
                    if j == buf.len() {
                        Ok(PluginCommand::ExecCmd(v))
                    } else {
                        Err(DecodeError::TrailingBytes)
                    }
                },
                Err(e) => Err(e),
            }
        },
        14 => {
            match take_message(buf, pos) {
                Ok((v, j)) => {
                    if j == buf.len() {
                        Ok(PluginCommand::PostMessageTo(v))
                    } else {
                        Err(DecodeError::TrailingBytes)
                    }
                },
                Err(e) => Err(e),
            }
        },
        15 => {
            match take_message(buf, pos) {
                Ok((v, j)) => {
                    if j == buf.len() {
                        Ok(PluginCommand::PostMessageToPlugin(v))
                    } else {
                        Err(DecodeError::TrailingBytes)
                    }
                },
                Err(e) => Err(e),
            }
        },
        16 => {
            if pos == buf.len() {
                Ok(PluginCommand::HideSelf)
            } else {
                Err(DecodeError::TrailingBytes)
            }
        },
        17 => {
            match take_bool(buf, pos) {
                Ok((v, j)) => {
                    if j == buf.len() {
                        Ok(PluginCommand::ShowSelf(v))
                    } else {
                        Err(DecodeError::TrailingBytes)
                    }
                },
                Err(e) => Err(e),
            }
        },
        18 => {
            match take_u8(buf, pos) {
                Ok((t2, j)) => match mode_from_u8(t2) {
                    Some(v) => {
                        if j == buf.len() {
                            Ok(PluginCommand::SwitchToMode(v))
                        } else {
                            Err(DecodeError::TrailingBytes)
                        }
                    },
                    None => Err(DecodeError::InvalidValue),
                },
                Err(e) => Err(e),
            }
        },
        19 => {
            match take_string(buf, pos) {
                Ok((v, j)) => {
                    if j == buf.len() {
                        Ok(PluginCommand::NewTabsWithLayout(v))
                    } else {
                        Err(DecodeError::TrailingBytes)
                    }
                },
                Err(e) => Err(e),
            }
        },
        20 => {
            if pos == buf.len() {
                Ok(PluginCommand::NewTab)
            } else {
                Err(DecodeError::TrailingBytes)
            }
        },
        21 => {
            if pos == buf.len() {
                Ok(PluginCommand::GoToNextTab)
            } else {
                Err(DecodeError::TrailingBytes)
            }
        },
        22 => {
            if pos == buf.len() {
                Ok(PluginCommand::GoToPreviousTab)
            } else {
                Err(DecodeError::TrailingBytes)
            }
        },
        23 => {
            match take_u8(buf, pos) {
                Ok((t2, j)) => match resize_from_u8(t2) {
                    Some(v) => {
                        if j == buf.len() {
                            Ok(PluginCommand::Resize(v))
                        } else {
                            Err(DecodeError::TrailingBytes)
                        }
                    },
                    None => Err(DecodeError::InvalidValue),
                },
                Err(e) => Err(e),
            }
        },
        24 => {
            match take_resize_strategy(buf, pos) {
                Ok((v, j)) => {
                    if j == buf.len() {
                        Ok(PluginCommand::ResizeWithDirection(v))
                    } else {
                        Err(DecodeError::TrailingBytes)
                    }
                },
                Err(e) => Err(e),
            }
        },
        25 => {
            if pos == buf.len() {
                Ok(PluginCommand::FocusNextPane)
            } else {
                Err(DecodeError::TrailingBytes)
            }
        },
        26 => {
            if pos == buf.len() {
                Ok(PluginCommand::FocusPreviousPane)
            } else {
                Err(DecodeError::TrailingBytes)
            }
        },
        27 => {
            match take_u8(buf, pos) {
                Ok((t2, j)) => match direction_from_u8(t2) {
                    Some(v) => {
                        if j == buf.len() {
                            Ok(PluginCommand::MoveFocus(v))
                        } else {
                            Err(DecodeError::TrailingBytes)
                        }
                    },
                    None => Err(DecodeError::InvalidValue),
                },
                Err(e) => Err(e),
            }
        },
        28 => {
            match take_u8(buf, pos) {
                Ok((t2, j)) => match direction_from_u8(t2) {
                    Some(v) => {
                        if j == buf.len() {
                            Ok(PluginCommand::MoveFocusOrTab(v))
                        } else {
                            Err(DecodeError::TrailingBytes)
                        }
                    },
                    None => Err(DecodeError::InvalidValue),
                },
                Err(e) => Err(e),
            }
        },
        29 => {
            if pos == buf.len() {
                Ok(PluginCommand::Detach)
            } else {
                Err(DecodeError::TrailingBytes)
            }
        },
        30 => {
            if pos == buf.len() {
                Ok(PluginCommand::EditScrollback)
            } else {
                Err(DecodeError::TrailingBytes)
            }
        },
        31 => {
            match take_bytes(buf, pos) {
                Ok((v, j)) => {
                    if j == buf.len() {
                        Ok(PluginCommand::Write(v))
                    } else {
                        Err(DecodeError::TrailingBytes)
                    }
                },
                Err(e) => Err(e),
            }
        },
        32 => {
            match take_string(buf, pos) {
                Ok((v, j)) => {
                    if j == buf.len() {
                        Ok(PluginCommand::WriteChars(v))
                    } else {
                        Err(DecodeError::TrailingBytes)
                    }
                },
                Err(e) => Err(e),
            }
        },
        _ => Err(DecodeError::UnknownTag),
    }
}

#[verifier::rlimit(100)]
#[verifier::spinoff_prover]
fn decode_payload_high(buf: &Vec<u8>, pos: usize, tag: u8) -> (r: Result<PluginCommand, DecodeError>)
    requires
        pos <= buf@.len(),
        tag > 32,
    ensures
        match sd_payload_high(buf@, pos as int, tag) {
            Ok(cv) => r matches Ok(c) && c@ == cv,
            Err(e) => r matches Err(f) && f == e,
        },
{
    match tag {
        33 => {
            if pos == buf.len() {
                Ok(PluginCommand::ToggleTab)
            } else {
                Err(DecodeError::TrailingBytes)
            }
        },
        34 => {
            if pos == buf.len() {
                Ok(PluginCommand::MovePane)
            } else {
                Err(DecodeError::TrailingBytes)
            }
        },
        35 => {
            match take_u8(buf, pos) {
                Ok((t2, j)) => match direction_from_u8(t2) {
                    Some(v) => {
                        if j == buf.len() {
                            Ok(PluginCommand::MovePaneWithDirection(v))
                        } else {
                            Err(DecodeError::TrailingBytes)
                        }
                    },
                    None => Err(DecodeError::InvalidValue),
                },
                Err(e) => Err(e),
            }
        },
        36 => {
            if pos == buf.len() {
                Ok(PluginCommand::ClearScreen)
            } else {
                Err(DecodeError::TrailingBytes)
            }
        },
        37 => {
            if pos == buf.len() {
                Ok(PluginCommand::ScrollUp)
            } else {
                Err(DecodeError::TrailingBytes)
            }
        },
        38 => {
            if pos == buf.len() {
                Ok(PluginCommand::ScrollDown)
            } else {
                Err(DecodeError::TrailingBytes)
            }
        },
        39 => {
            if pos == buf.len() {
                Ok(PluginCommand::ScrollToTop)
            } else {
                Err(DecodeError::TrailingBytes)
            }
        },
        40 => {
            if pos == buf.len() {
                Ok(PluginCommand::ScrollToBottom)
            } else {
                Err(DecodeError::TrailingBytes)
            }
        },
        41 => {
            if pos == buf.len() {
                Ok(PluginCommand::PageScrollUp)
            } else {
                Err(DecodeError::TrailingBytes)
            }
        },
        42 => {
            if pos == buf.len() {
                Ok(PluginCommand::PageScrollDown)
            } else {
                Err(DecodeError::TrailingBytes)
            }
        },
        43 => {
            if pos == buf.len() {
                Ok(PluginCommand::ToggleFocusFullscreen)
            } else {
                Err(DecodeError::TrailingBytes)
            }
        },
        44 => {
            if pos == buf.len() {
                Ok(PluginCommand::TogglePaneFrames)
            } else {
                Err(DecodeError::TrailingBytes)
            }
        },
        45 => {
            if pos == buf.len() {
                Ok(PluginCommand::TogglePaneEmbedOrEject)
            } else {
                Err(DecodeError::TrailingBytes)
            }
        },
        46 => {
            if pos == buf.len() {
                Ok(PluginCommand::UndoRenamePane)
            } else {
                Err(DecodeError::TrailingBytes)
            }
        },
        47 => {
            if pos == buf.len() {
                Ok(PluginCommand::CloseFocus)
            } else {
                Err(DecodeError::TrailingBytes)
            }
        },
        48 => {
            if pos == buf.len() {
                Ok(PluginCommand::ToggleActiveTabSync)
            } else {
                Err(DecodeError::TrailingBytes)
            }
        },
        49 => {
            if pos == buf.len() {
                Ok(PluginCommand::CloseFocusedTab)
            } else {
                Err(DecodeError::TrailingBytes)
            }
        },
        50 => {
            if pos == buf.len() {
                Ok(PluginCommand::UndoRenameTab)
            } else {
                Err(DecodeError::TrailingBytes)
            }
        },
        51 => {
            if pos == buf.len() {
                Ok(PluginCommand::QuitZellij)
            } else {
                Err(DecodeError::TrailingBytes)
            }
        },
        52 => {
            if pos == buf.len() {
                Ok(PluginCommand::PreviousSwapLayout)
            } else {
                Err(DecodeError::TrailingBytes)
            }
        },
        53 => {
            if pos == buf.len() {
                Ok(PluginCommand::NextSwapLayout)
            } else {
                Err(DecodeError::TrailingBytes)
            }
        },
        54 => {
            match take_string(buf, pos) {
                Ok((v, j)) => {
                    if j == buf.len() {
                        Ok(PluginCommand::GoToTabName(v))
                    } else {
                        Err(DecodeError::TrailingBytes)
                    }
                },
                Err(e) => Err(e),
            }
        },
        55 => {
            match take_string(buf, pos) {
                Ok((v, j)) => {
                    if j == buf.len() {
                        Ok(PluginCommand::FocusOrCreateTab(v))
                    } else {
                        Err(DecodeError::TrailingBytes)
                    }
                },
                Err(e) => Err(e),
            }
        },
        56 => {
            match take_u32(buf, pos) {
                Ok((v, j)) => {
                    if j == buf.len() {
                        Ok(PluginCommand::GoToTab(v))
                    } else {
                        Err(DecodeError::TrailingBytes)
                    }
                },
                Err(e) => Err(e),
            }
        },
        57 => {
            match take_string(buf, pos) {
                Ok((v, j)) => {
                    if j == buf.len() {
                        Ok(PluginCommand::StartOrReloadPlugin(v))
                    } else {
                        Err(DecodeError::TrailingBytes)
                    }
                },
                Err(e) => Err(e),
            }
        },
        58 => {
            match take_u32(buf, pos) {
                Ok((v, j)) => {
                    if j == buf.len() {
                        Ok(PluginCommand::CloseTerminalPane(v))
                    } else {
                        Err(DecodeError::TrailingBytes)
                    }
                },
                Err(e) => Err(e),
            }
        },
        59 => {
            match take_u32(buf, pos) {
                Ok((v, j)) => {
                    if j == buf.len() {
                        Ok(PluginCommand::ClosePluginPane(v))
                    } else {
                        Err(DecodeError::TrailingBytes)
                    }
                },
                Err(e) => Err(e),
            }
        },
        60 => {
            match take_u32(buf, pos) {
                Ok((a, j)) => match take_bool(buf, j) {
                    Ok((b, e2)) => {
                        if e2 == buf.len() {
                            Ok(PluginCommand::FocusTerminalPane(a, b))
                        } else {
                            Err(DecodeError::TrailingBytes)
                        }
                    },
                    Err(e) => Err(e),
                },
                Err(e) => Err(e),
            }
        },
        61 => {
            match take_u32(buf, pos) {
                Ok((a, j)) => match take_bool(buf, j) {
                    Ok((b, e2)) => {
                        if e2 == buf.len() {
                            Ok(PluginCommand::FocusPluginPane(a, b))
                        } else {
                            Err(DecodeError::TrailingBytes)
                        }
                    },
                    Err(e) => Err(e),
                },
                Err(e) => Err(e),
            }
        },
        62 => {
            match take_u32(buf, pos) {
                Ok((a, j)) => match take_string(buf, j) {
                    Ok((n, e2)) => {
                        if e2 == buf.len() {
                            Ok(PluginCommand::RenameTerminalPane(a, n))
                        } else {
                            Err(DecodeError::TrailingBytes)
                        }
                    },
                    Err(e) => Err(e),
                },
                Err(e) => Err(e),
            }
        },
        63 => {
            match take_u32(buf, pos) {
                Ok((a, j)) => match take_string(buf, j) {
                    Ok((n, e2)) => {
                        if e2 == buf.len() {
                            Ok(PluginCommand::RenamePluginPane(a, n))
                        } else {
                            Err(DecodeError::TrailingBytes)
                        }
                    },
                    Err(e) => Err(e),
                },
                Err(e) => Err(e),
            }
        },
        64 => {
            match take_u32(buf, pos) {
                Ok((a, j)) => match take_string(buf, j) {
                    Ok((n, e2)) => {
                        if e2 == buf.len() {
                            Ok(PluginCommand::RenameTab(a, n))
                        } else {
                            Err(DecodeError::TrailingBytes)
                        }
                    },
                    Err(e) => Err(e),
                },
                Err(e) => Err(e),
            }
        },
        65 => {
            match take_string(buf, pos) {
                Ok((v, j)) => {
                    if j == buf.len() {
                        Ok(PluginCommand::ReportPanic(v))
                    } else {
                        Err(DecodeError::TrailingBytes)
                    }
                },
                Err(e) => Err(e),
            }
        },
        _ => Err(DecodeError::UnknownTag),
    }
}

/// Decode one serialized guest command. The buffer must hold exactly one
/// command; the result, success or failure, is exactly what the spec-level
/// decoder says of the buffer's contents.
pub fn decode_command(buf: &Vec<u8>) -> (r: Result<PluginCommand, DecodeError>)
    ensures
        match sd_command(buf@) {
            Ok(cv) => r matches Ok(c) && c@ == cv,
            Err(e) => r matches Err(f) && f == e,
        },
{
    match take_u8(buf, 0) {
        Err(e) => Err(e),
        Ok((tag, i)) => {
            if tag <= 32 {
                decode_payload_low(buf, i, tag)
            } else {
                decode_payload_high(buf, i, tag)
            }
        },
    }
}

/// Serialize a command into its wire form.
#[verifier::rlimit(60)]
pub fn encode_command(c: &PluginCommand) -> (r: Vec<u8>)
    requires
        wf_command(c@),
    ensures
        r@ == spec_encode_command(c@),
{
    let mut out: Vec<u8> = Vec::new();
    match c {
        PluginCommand::Subscribe(v) => {
            put_u8(&mut out, 0);
            put_event_list(&mut out, v);
            proof {
                assert(out@ =~= spec_encode_command(c@));
            }
        },
        PluginCommand::Unsubscribe(v) => {
            put_u8(&mut out, 1);
            put_event_list(&mut out, v);
            proof {
                assert(out@ =~= spec_encode_command(c@));
            }
        },
        PluginCommand::SetSelectable(v) => {
            put_u8(&mut out, 2);
            put_bool(&mut out, *v);
            proof {
                assert(out@ =~= spec_encode_command(c@));
            }
        },
        PluginCommand::GetPluginIds => {
            put_u8(&mut out, 3);
        },
        PluginCommand::GetZellijVersion => {
            put_u8(&mut out, 4);
        },
        PluginCommand::OpenFile(v) => {
            put_u8(&mut out, 5);
            put_file(&mut out, v);
            proof {
                assert(out@ =~= spec_encode_command(c@));
            }
        },
        PluginCommand::OpenFileFloating(v) => {
            put_u8(&mut out, 6);
            put_file(&mut out, v);
            proof {
                assert(out@ =~= spec_encode_command(c@));
            }
        },
        PluginCommand::OpenTerminal(v) => {
            put_u8(&mut out, 7);
            put_string(&mut out, v);
            proof {
                assert(out@ =~= spec_encode_command(c@));
            }
        },
        PluginCommand::OpenTerminalFloating(v) => {
            put_u8(&mut out, 8);
            put_string(&mut out, v);
            proof {
                assert(out@ =~= spec_encode_command(c@));
            }
        },
        PluginCommand::OpenCommandPane(v) => {
            put_u8(&mut out, 9);
            put_command_to_run(&mut out, v);
            proof {
                assert(out@ =~= spec_encode_command(c@));
            }
        },
        PluginCommand::OpenCommandPaneFloating(v) => {
            put_u8(&mut out, 10);
            put_command_to_run(&mut out, v);
            proof {
                assert(out@ =~= spec_encode_command(c@));
            }
        },
        PluginCommand::SwitchTabTo(v) => {
            put_u8(&mut out, 11);
            put_u32(&mut out, *v);
            proof {
                assert(out@ =~= spec_encode_command(c@));
            }
        },
        PluginCommand::SetTimeout(v) => {
            put_u8(&mut out, 12);
            put_u64(&mut out, *v);
            proof {
                assert(out@ =~= spec_encode_command(c@));
            }
        },
        PluginCommand::ExecCmd(v) => {
            put_u8(&mut out, 13);
            proof {
                assert(forall|i: int|
                    0 <= i < v@.len() ==> encode_utf8(#[trigger] v@[i]@).len() <= u32::MAX)
                    by {
                    assert(forall|i: int|
                        0 <= i < v@.len() ==> crate::data::strings_view(v@)[i] == #[trigger] v@[i]@);
                }
            }
            put_string_list(&mut out, v);
            proof {
                assert(out@ =~= spec_encode_command(c@));
            }
        },
        PluginCommand::PostMessageTo(v) => {
            put_u8(&mut out, 14);
            put_message(&mut out, v);
            proof {
                assert(out@ =~= spec_encode_command(c@));
            }
        },
        PluginCommand::PostMessageToPlugin(v) => {
            put_u8(&mut out, 15);
            put_message(&mut out, v);
            proof {
                assert(out@ =~= spec_encode_command(c@));
            }
        },
        PluginCommand::HideSelf => {
            put_u8(&mut out, 16);
        },
        PluginCommand::ShowSelf(v) => {
            put_u8(&mut out, 17);
            put_bool(&mut out, *v);
            proof {
                assert(out@ =~= spec_encode_command(c@));
            }
        },
        PluginCommand::SwitchToMode(v) => {
            put_u8(&mut out, 18);
            put_u8(&mut out, mode_to_u8(*v));
            proof {
                assert(out@ =~= spec_encode_command(c@));
            }
        },
        PluginCommand::NewTabsWithLayout(v) => {
            put_u8(&mut out, 19);
            put_string(&mut out, v);
            proof {
                assert(out@ =~= spec_encode_command(c@));
            }
        },
        PluginCommand::NewTab => {
            put_u8(&mut out, 20);
        },
        PluginCommand::GoToNextTab => {
            put_u8(&mut out, 21);
        },
        PluginCommand::GoToPreviousTab => {
            put_u8(&mut out, 22);
        },
        PluginCommand::Resize(v) => {
            put_u8(&mut out, 23);
            put_u8(&mut out, resize_to_u8(*v));
            proof {
                assert(out@ =~= spec_encode_command(c@));
            }
        },
        PluginCommand::ResizeWithDirection(v) => {
            put_u8(&mut out, 24);
            put_resize_strategy(&mut out, v);
            proof {
                assert(out@ =~= spec_encode_command(c@));
            }
        },
        PluginCommand::FocusNextPane => {
            put_u8(&mut out, 25);
        },
        PluginCommand::FocusPreviousPane => {
            put_u8(&mut out, 26);
        },
        PluginCommand::MoveFocus(v) => {
            put_u8(&mut out, 27);
            put_u8(&mut out, direction_to_u8(*v));
            proof {
                assert(out@ =~= spec_encode_command(c@));
            }
        },
        PluginCommand::MoveFocusOrTab(v) => {
            put_u8(&mut out, 28);
            put_u8(&mut out, direction_to_u8(*v));
            proof {
                assert(out@ =~= spec_encode_command(c@));
            }
        },
        PluginCommand::Detach => {
            put_u8(&mut out, 29);
        },
        PluginCommand::EditScrollback => {
            put_u8(&mut out, 30);
        },
        PluginCommand::Write(v) => {
            put_u8(&mut out, 31);
            put_bytes(&mut out, v);
            proof {
                assert(out@ =~= spec_encode_command(c@));
            }
        },
        PluginCommand::WriteChars(v) => {
            put_u8(&mut out, 32);
            put_string(&mut out, v);
            proof {
                assert(out@ =~= spec_encode_command(c@));
            }
        },
        PluginCommand::ToggleTab => {
            put_u8(&mut out, 33);
        },
        PluginCommand::MovePane => {
            put_u8(&mut out, 34);
        },
        PluginCommand::MovePaneWithDirection(v) => {
            put_u8(&mut out, 35);
            put_u8(&mut out, direction_to_u8(*v));
            proof {
                assert(out@ =~= spec_encode_command(c@));
            }
        },
        PluginCommand::ClearScreen => {
            put_u8(&mut out, 36);
        },
        PluginCommand::ScrollUp => {
            put_u8(&mut out, 37);
        },
        PluginCommand::ScrollDown => {
            put_u8(&mut out, 38);
        },
        PluginCommand::ScrollToTop => {
            put_u8(&mut out, 39);
        },
        PluginCommand::ScrollToBottom => {
            put_u8(&mut out, 40);
        },
        PluginCommand::PageScrollUp => {
            put_u8(&mut out, 41);
        },
        PluginCommand::PageScrollDown => {
            put_u8(&mut out, 42);
        },
        PluginCommand::ToggleFocusFullscreen => {
            put_u8(&mut out, 43);
        },
        PluginCommand::TogglePaneFrames => {
            put_u8(&mut out, 44);
        },
        PluginCommand::TogglePaneEmbedOrEject => {
            put_u8(&mut out, 45);
        },
        PluginCommand::UndoRenamePane => {
            put_u8(&mut out, 46);
        },
        PluginCommand::CloseFocus => {
            put_u8(&mut out, 47);
        },
        PluginCommand::ToggleActiveTabSync => {
            put_u8(&mut out, 48);
        },
        PluginCommand::CloseFocusedTab => {
            put_u8(&mut out, 49);
        },
        PluginCommand::UndoRenameTab => {
            put_u8(&mut out, 50);
        },
        PluginCommand::QuitZellij => {
            put_u8(&mut out, 51);
        },
        PluginCommand::PreviousSwapLayout => {
            put_u8(&mut out, 52);
        },
        PluginCommand::NextSwapLayout => {
            put_u8(&mut out, 53);
        },
        PluginCommand::GoToTabName(v) => {
            put_u8(&mut out, 54);
            put_string(&mut out, v);
            proof {
                assert(out@ =~= spec_encode_command(c@));
            }
        },
        PluginCommand::FocusOrCreateTab(v) => {
            put_u8(&mut out, 55);
            put_string(&mut out, v);
            proof {
                assert(out@ =~= spec_encode_command(c@));
            }
        },
        PluginCommand::GoToTab(v) => {
            put_u8(&mut out, 56);
            put_u32(&mut out, *v);
            proof {
                assert(out@ =~= spec_encode_command(c@));
            }
        },
        PluginCommand::StartOrReloadPlugin(v) => {
            put_u8(&mut out, 57);
            put_string(&mut out, v);
            proof {
                assert(out@ =~= spec_encode_command(c@));
            }
        },
        PluginCommand::CloseTerminalPane(v) => {
            put_u8(&mut out, 58);
            put_u32(&mut out, *v);
            proof {
                assert(out@ =~= spec_encode_command(c@));
            }
        },
        PluginCommand::ClosePluginPane(v) => {
            put_u8(&mut out, 59);
            put_u32(&mut out, *v);
            proof {
                assert(out@ =~= spec_encode_command(c@));
            }
        },
        PluginCommand::FocusTerminalPane(a, b) => {
            put_u8(&mut out, 60);
            put_u32(&mut out, *a);
            put_bool(&mut out, *b);
            proof {
                assert(out@ =~= spec_encode_command(c@));
            }
        },
        PluginCommand::FocusPluginPane(a, b) => {
            put_u8(&mut out, 61);
            put_u32(&mut out, *a);
            put_bool(&mut out, *b);
            proof {
                assert(out@ =~= spec_encode_command(c@));
            }
        },
        PluginCommand::RenameTerminalPane(a, n) => {
            put_u8(&mut out, 62);
            put_u32(&mut out, *a);
            put_string(&mut out, n);
            proof {
                assert(out@ =~= spec_encode_command(c@));
            }
        },
        PluginCommand::RenamePluginPane(a, n) => {
            put_u8(&mut out, 63);
            put_u32(&mut out, *a);
            put_string(&mut out, n);
            proof {
                assert(out@ =~= spec_encode_command(c@));
            }
        },
        PluginCommand::RenameTab(a, n) => {
            put_u8(&mut out, 64);
            put_u32(&mut out, *a);
            put_string(&mut out, n);
            proof {
                assert(out@ =~= spec_encode_command(c@));
            }
        },
        PluginCommand::ReportPanic(v) => {
            put_u8(&mut out, 65);
            put_string(&mut out, v);
            proof {
                assert(out@ =~= spec_encode_command(c@));
            }
        },
    }
    proof {
        assert(out@ =~= spec_encode_command(c@));
    }
    out
}

/// Law: decoding an encoded command gives back exactly that command.
#[verifier::rlimit(80)]
pub proof fn lemma_decode_encode(c: PluginCommandV)
    requires
        wf_command(c),
    ensures
        sd_command(spec_encode_command(c)) == Ok::<PluginCommandV, DecodeError>(c),
{
    let s = spec_encode_command(c);
    let tag = cmd_tag(c);
    lemma_auto_spec_u32_to_from_le_bytes();
    lemma_auto_spec_u64_to_from_le_bytes();
    assert(s =~= Seq::empty() + seq![tag] + se_payload(c));
    lemma_sd_u8_frame(s, Seq::empty(), tag, se_payload(c));
    match c {
        PluginCommandV::Subscribe(v) => {
            assert(s =~= seq![tag] + se_event_list(v) + Seq::<u8>::empty());
            lemma_sd_event_list_frame(s, seq![tag], v, Seq::<u8>::empty());
            assert(s.len() == 1 + se_event_list(v).len());
        },
        PluginCommandV::Unsubscribe(v) => {
            assert(s =~= seq![tag] + se_event_list(v) + Seq::<u8>::empty());
            lemma_sd_event_list_frame(s, seq![tag], v, Seq::<u8>::empty());
            assert(s.len() == 1 + se_event_list(v).len());
        },
        PluginCommandV::SetSelectable(v) => {
            assert(s =~= seq![tag] + se_bool(v) + Seq::<u8>::empty());
            lemma_sd_bool_frame(s, seq![tag], v, Seq::<u8>::empty());
            assert(s.len() == 1 + se_bool(v).len());
        },
        PluginCommandV::GetPluginIds => {
            assert(s.len() == 1);
        },
        PluginCommandV::GetZellijVersion => {
            assert(s.len() == 1);
        },
        PluginCommandV::OpenFile(v) => {
            assert(s =~= seq![tag] + se_file(v) + Seq::<u8>::empty());
            lemma_sd_file_frame(s, seq![tag], v, Seq::<u8>::empty());
            assert(s.len() == 1 + se_file(v).len());
        },
        PluginCommandV::OpenFileFloating(v) => {
            assert(s =~= seq![tag] + se_file(v) + Seq::<u8>::empty());
            lemma_sd_file_frame(s, seq![tag], v, Seq::<u8>::empty());
            assert(s.len() == 1 + se_file(v).len());
        },
        PluginCommandV::OpenTerminal(v) => {
            assert(s =~= seq![tag] + se_string(v) + Seq::<u8>::empty());
            lemma_sd_string_frame(s, seq![tag], v, Seq::<u8>::empty());
            assert(s.len() == 1 + se_string(v).len());
        },
        PluginCommandV::OpenTerminalFloating(v) => {
            assert(s =~= seq![tag] + se_string(v) + Seq::<u8>::empty());
            lemma_sd_string_frame(s, seq![tag], v, Seq::<u8>::empty());
            assert(s.len() == 1 + se_string(v).len());
        },
        PluginCommandV::OpenCommandPane(v) => {
            assert(s =~= seq![tag] + se_command_to_run(v) + Seq::<u8>::empty());
            lemma_sd_command_to_run_frame(s, seq![tag], v, Seq::<u8>::empty());
            assert(s.len() == 1 + se_command_to_run(v).len());
        },
        PluginCommandV::OpenCommandPaneFloating(v) => {
            assert(s =~= seq![tag] + se_command_to_run(v) + Seq::<u8>::empty());
            lemma_sd_command_to_run_frame(s, seq![tag], v, Seq::<u8>::empty());
            assert(s.len() == 1 + se_command_to_run(v).len());
        },
        PluginCommandV::SwitchTabTo(v) => {
            assert(s =~= seq![tag] + spec_u32_to_le_bytes(v) + Seq::<u8>::empty());
            lemma_sd_u32_frame(s, seq![tag], v, Seq::<u8>::empty());
            assert(s.len() == 1 + spec_u32_to_le_bytes(v).len());
        },
        PluginCommandV::SetTimeout(v) => {
            assert(s =~= seq![tag] + spec_u64_to_le_bytes(v) + Seq::<u8>::empty());
            lemma_sd_u64_frame(s, seq![tag], v, Seq::<u8>::empty());
            assert(s.len() == 1 + spec_u64_to_le_bytes(v).len());
        },
        PluginCommandV::ExecCmd(v) => {
            assert(s =~= seq![tag] + se_string_list(v) + Seq::<u8>::empty());
            lemma_sd_string_list_frame(s, seq![tag], v, Seq::<u8>::empty());
            assert(s.len() == 1 + se_string_list(v).len());
        },
        PluginCommandV::PostMessageTo(v) => {
            assert(s =~= seq![tag] + se_message(v) + Seq::<u8>::empty());
            lemma_sd_message_frame(s, seq![tag], v, Seq::<u8>::empty());
            assert(s.len() == 1 + se_message(v).len());
        },
        PluginCommandV::PostMessageToPlugin(v) => {
            assert(s =~= seq![tag] + se_message(v) + Seq::<u8>::empty());
            lemma_sd_message_frame(s, seq![tag], v, Seq::<u8>::empty());
            assert(s.len() == 1 + se_message(v).len());
        },
        PluginCommandV::HideSelf => {
            assert(s.len() == 1);
        },
        PluginCommandV::ShowSelf(v) => {
            assert(s =~= seq![tag] + se_bool(v) + Seq::<u8>::empty());
            lemma_sd_bool_frame(s, seq![tag], v, Seq::<u8>::empty());
            assert(s.len() == 1 + se_bool(v).len());
        },
        PluginCommandV::SwitchToMode(v) => {
            assert(s =~= seq![tag] + seq![mode_tag(v)] + Seq::<u8>::empty());
            lemma_sd_mode_frame(s, seq![tag], v, Seq::<u8>::empty());
            assert(s.len() == 1 + seq![mode_tag(v)].len());
        },
        PluginCommandV::NewTabsWithLayout(v) => {
            assert(s =~= seq![tag] + se_string(v) + Seq::<u8>::empty());
            lemma_sd_string_frame(s, seq![tag], v, Seq::<u8>::empty());
            assert(s.len() == 1 + se_string(v).len());
        },
        PluginCommandV::NewTab => {
            assert(s.len() == 1);
        },
        PluginCommandV::GoToNextTab => {
            assert(s.len() == 1);
        },
        PluginCommandV::GoToPreviousTab => {
            assert(s.len() == 1);
        },
        PluginCommandV::Resize(v) => {
            assert(s =~= seq![tag] + seq![resize_tag(v)] + Seq::<u8>::empty());
            lemma_sd_resize_frame(s, seq![tag], v, Seq::<u8>::empty());
            assert(s.len() == 1 + seq![resize_tag(v)].len());
        },
        PluginCommandV::ResizeWithDirection(v) => {
            assert(s =~= seq![tag] + se_resize_strategy(v) + Seq::<u8>::empty());
            lemma_sd_resize_strategy_frame(s, seq![tag], v, Seq::<u8>::empty());
            assert(s.len() == 1 + se_resize_strategy(v).len());
        },
        PluginCommandV::FocusNextPane => {
            assert(s.len() == 1);
        },
        PluginCommandV::FocusPreviousPane => {
            assert(s.len() == 1);
        },
        PluginCommandV::MoveFocus(v) => {
            assert(s =~= seq![tag] + seq![direction_tag(v)] + Seq::<u8>::empty());
            lemma_sd_direction_frame(s, seq![tag], v, Seq::<u8>::empty());
            assert(s.len() == 1 + seq![direction_tag(v)].len());
        },
        PluginCommandV::MoveFocusOrTab(v) => {
            assert(s =~= seq![tag] + seq![direction_tag(v)] + Seq::<u8>::empty());
            lemma_sd_direction_frame(s, seq![tag], v, Seq::<u8>::empty());
            assert(s.len() == 1 + seq![direction_tag(v)].len());
        },
        PluginCommandV::Detach => {
            assert(s.len() == 1);
        },
        PluginCommandV::EditScrollback => {
            assert(s.len() == 1);
        },
        PluginCommandV::Write(v) => {
            assert(s =~= seq![tag] + se_bytes(v) + Seq::<u8>::empty());
            lemma_sd_bytes_frame(s, seq![tag], v, Seq::<u8>::empty());
            assert(s.len() == 1 + se_bytes(v).len());
        },
        PluginCommandV::WriteChars(v) => {
            assert(s =~= seq![tag] + se_string(v) + Seq::<u8>::empty());
            lemma_sd_string_frame(s, seq![tag], v, Seq::<u8>::empty());
            assert(s.len() == 1 + se_string(v).len());
        },
        PluginCommandV::ToggleTab => {
            assert(s.len() == 1);
        },
        PluginCommandV::MovePane => {
            assert(s.len() == 1);
        },
        PluginCommandV::MovePaneWithDirection(v) => {
            assert(s =~= seq![tag] + seq![direction_tag(v)] + Seq::<u8>::empty());
            lemma_sd_direction_frame(s, seq![tag], v, Seq::<u8>::empty());
            assert(s.len() == 1 + seq![direction_tag(v)].len());
        },
        PluginCommandV::ClearScreen => {
            assert(s.len() == 1);
        },
        PluginCommandV::ScrollUp => {
            assert(s.len() == 1);
        },
        PluginCommandV::ScrollDown => {
            assert(s.len() == 1);
        },
        PluginCommandV::ScrollToTop => {
            assert(s.len() == 1);
        },
        PluginCommandV::ScrollToBottom => {
            assert(s.len() == 1);
        },
        PluginCommandV::PageScrollUp => {
            assert(s.len() == 1);
        },
        PluginCommandV::PageScrollDown => {
            assert(s.len() == 1);
        },
        PluginCommandV::ToggleFocusFullscreen => {
            assert(s.len() == 1);
        },
        PluginCommandV::TogglePaneFrames => {
            assert(s.len() == 1);
        },
        PluginCommandV::TogglePaneEmbedOrEject => {
            assert(s.len() == 1);
        },
        PluginCommandV::UndoRenamePane => {
            assert(s.len() == 1);
        },
        PluginCommandV::CloseFocus => {
            assert(s.len() == 1);
        },
        PluginCommandV::ToggleActiveTabSync => {
            assert(s.len() == 1);
        },
        PluginCommandV::CloseFocusedTab => {
            assert(s.len() == 1);
        },
        PluginCommandV::UndoRenameTab => {
            assert(s.len() == 1);
        },
        PluginCommandV::QuitZellij => {
            assert(s.len() == 1);
        },
        PluginCommandV::PreviousSwapLayout => {
            assert(s.len() == 1);
        },
        PluginCommandV::NextSwapLayout => {
            assert(s.len() == 1);
        },
        PluginCommandV::GoToTabName(v) => {
            assert(s =~= seq![tag] + se_string(v) + Seq::<u8>::empty());
            lemma_sd_string_frame(s, seq![tag], v, Seq::<u8>::empty());
            assert(s.len() == 1 + se_string(v).len());
        },
        PluginCommandV::FocusOrCreateTab(v) => {
            assert(s =~= seq![tag] + se_string(v) + Seq::<u8>::empty());
            lemma_sd_string_frame(s, seq![tag], v, Seq::<u8>::empty());
            assert(s.len() == 1 + se_string(v).len());
        },
        PluginCommandV::GoToTab(v) => {
            assert(s =~= seq![tag] + spec_u32_to_le_bytes(v) + Seq::<u8>::empty());
            lemma_sd_u32_frame(s, seq![tag], v, Seq::<u8>::empty());
            assert(s.len() == 1 + spec_u32_to_le_bytes(v).len());
        },
        PluginCommandV::StartOrReloadPlugin(v) => {
            assert(s =~= seq![tag] + se_string(v) + Seq::<u8>::empty());
            lemma_sd_string_frame(s, seq![tag], v, Seq::<u8>::empty());
            assert(s.len() == 1 + se_string(v).len());
        },
        PluginCommandV::CloseTerminalPane(v) => {
            assert(s =~= seq![tag] + spec_u32_to_le_bytes(v) + Seq::<u8>::empty());
            lemma_sd_u32_frame(s, seq![tag], v, Seq::<u8>::empty());
            assert(s.len() == 1 + spec_u32_to_le_bytes(v).len());
        },
        PluginCommandV::ClosePluginPane(v) => {
            assert(s =~= seq![tag] + spec_u32_to_le_bytes(v) + Seq::<u8>::empty());
            lemma_sd_u32_frame(s, seq![tag], v, Seq::<u8>::empty());
            assert(s.len() == 1 + spec_u32_to_le_bytes(v).len());
        },
        PluginCommandV::FocusTerminalPane(a, b) => {
            assert(s =~= seq![tag] + spec_u32_to_le_bytes(a) + (se_bool(b) + Seq::<u8>::empty()));
            lemma_sd_u32_frame(s, seq![tag], a, se_bool(b) + Seq::<u8>::empty());
            assert(s =~= (seq![tag] + spec_u32_to_le_bytes(a)) + se_bool(b) + Seq::<u8>::empty());
            lemma_sd_bool_frame(s, seq![tag] + spec_u32_to_le_bytes(a), b, Seq::<u8>::empty());
            assert(s.len() == 1 + spec_u32_to_le_bytes(a).len() + se_bool(b).len());
        },
        PluginCommandV::FocusPluginPane(a, b) => {
            assert(s =~= seq![tag] + spec_u32_to_le_bytes(a) + (se_bool(b) + Seq::<u8>::empty()));
            lemma_sd_u32_frame(s, seq![tag], a, se_bool(b) + Seq::<u8>::empty());
            assert(s =~= (seq![tag] + spec_u32_to_le_bytes(a)) + se_bool(b) + Seq::<u8>::empty());
            lemma_sd_bool_frame(s, seq![tag] + spec_u32_to_le_bytes(a), b, Seq::<u8>::empty());
            assert(s.len() == 1 + spec_u32_to_le_bytes(a).len() + se_bool(b).len());
        },
        PluginCommandV::RenameTerminalPane(a, n) => {
            assert(s =~= seq![tag] + spec_u32_to_le_bytes(a) + (se_string(n) + Seq::<u8>::empty()));
            lemma_sd_u32_frame(s, seq![tag], a, se_string(n) + Seq::<u8>::empty());
            assert(s =~= (seq![tag] + spec_u32_to_le_bytes(a)) + se_string(n) + Seq::<u8>::empty());
            lemma_sd_string_frame(s, seq![tag] + spec_u32_to_le_bytes(a), n, Seq::<u8>::empty());
            assert(s.len() == 1 + spec_u32_to_le_bytes(a).len() + se_string(n).len());
        },
        PluginCommandV::RenamePluginPane(a, n) => {
            assert(s =~= seq![tag] + spec_u32_to_le_bytes(a) + (se_string(n) + Seq::<u8>::empty()));
            lemma_sd_u32_frame(s, seq![tag], a, se_string(n) + Seq::<u8>::empty());
            assert(s =~= (seq![tag] + spec_u32_to_le_bytes(a)) + se_string(n) + Seq::<u8>::empty());
            lemma_sd_string_frame(s, seq![tag] + spec_u32_to_le_bytes(a), n, Seq::<u8>::empty());
            assert(s.len() == 1 + spec_u32_to_le_bytes(a).len() + se_string(n).len());
        },
        PluginCommandV::RenameTab(a, n) => {
            assert(s =~= seq![tag] + spec_u32_to_le_bytes(a) + (se_string(n) + Seq::<u8>::empty()));
            lemma_sd_u32_frame(s, seq![tag], a, se_string(n) + Seq::<u8>::empty());
            assert(s =~= (seq![tag] + spec_u32_to_le_bytes(a)) + se_string(n) + Seq::<u8>::empty());
            lemma_sd_string_frame(s, seq![tag] + spec_u32_to_le_bytes(a), n, Seq::<u8>::empty());
            assert(s.len() == 1 + spec_u32_to_le_bytes(a).len() + se_string(n).len());
        },
        PluginCommandV::ReportPanic(v) => {
            assert(s =~= seq![tag] + se_string(v) + Seq::<u8>::empty());
            lemma_sd_string_frame(s, seq![tag], v, Seq::<u8>::empty());
            assert(s.len() == 1 + se_string(v).len());
        },
    }
}

} // verus!
