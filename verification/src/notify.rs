use vstd::prelude::*;
use encoding::{Encoding, EncoderTrap};
use encoding::all::UTF_16LE;
use crate::consts::{NIF_ICON, NIF_MESSAGE, NIF_TIP, NIM_ADD, NIM_DELETE, NIM_MODIFY, TIP_LEN, TRAY_ICON_ID, WM_TRAY_CALLBACK};
use crate::wide::{utf16_units, wide_string};

verus! {

/// Little-endian bytes of a sequence of UTF-16 units: low byte first.
pub open spec fn le_bytes(units: Seq<u16>) -> Seq<u8>
    decreases units.len(),
{
    if units.len() == 0 {
        Seq::empty()
    } else {
        le_bytes(units.drop_last()) + seq![
            (units.last() % 256) as u8,
            (units.last() / 256) as u8,
        ]
    }
}

/// The UTF-16LE byte encoding of a character sequence.
pub open spec fn utf16le_bytes(s: Seq<char>) -> Seq<u8> {
    le_bytes(utf16_units(s))
}

/// The UTF-16 units read from a byte buffer two bytes at a time, low byte
/// first; a trailing odd byte is not read.
pub open spec fn units_from_le(b: Seq<u8>) -> Seq<u16> {
    Seq::new(b.len() / 2, |i: int| (b[2 * i] + 256 * b[2 * i + 1]) as u16)
}

/// The tooltip buffer of NOTIFYICONDATAW filled from `units`: the first
/// units, at most 127 of them, then zeros, with the last slot always zero.
pub open spec fn tip_buffer(units: Seq<u16>) -> Seq<u16> {
    Seq::new(TIP_LEN as nat, |i: int| if i < TIP_LEN - 1 && i < units.len() { units[i] } else { 0u16 })
}

/// The tooltip that `set_tooltip` puts into the tray icon for `tooltip`:
/// the UTF-16LE bytes of the text, NUL-terminated, read back as units.
pub open spec fn tooltip_tip(tooltip: Seq<char>) -> Seq<u16> {
    tip_buffer(units_from_le(utf16le_bytes(tooltip) + seq![0u8, 0u8]))
}

/// Encodes `s` with `encoding::all::UTF_16LE.encode(s, EncoderTrap::Strict)`.
/// The UTF-16 encoder of that crate writes every character, two bytes per
/// unit with the low byte first and a surrogate pair for characters above
/// U+FFFF, and never reports an error; the contract states exactly that.
#[verifier::external_body]
fn encode_utf16le(s: &str) -> (res: Option<Vec<u8>>)
    ensures
        res.is_some(),
        res.unwrap()@ == utf16le_bytes(s@),
{
    UTF_16LE.encode(s, EncoderTrap::Strict).ok()
}

/// The fields of a NOTIFYICONDATAW record that this library sets; all the
/// others (icon handle aside, which the caller supplies) are zero.
pub struct NotifyIconData {
    /// `uID`: which of the window's icons is meant.
    pub id: u32,
    /// `uFlags`: which of the fields below are valid.
    pub flags: u32,
    /// `uCallbackMessage`: the message the shell sends on mouse events.
    pub callback_message: u32,
    /// `szTip`: the tooltip, a NUL-terminated UTF-16 buffer.
    pub tip: Vec<u16>,
}

/// One call of `Shell_NotifyIconW`: the command and the record it takes.
pub struct NotifyRequest {
    pub command: u32,
    pub data: NotifyIconData,
}

impl NotifyIconData {
    /// A record with its size-independent fields cleared, for the tray
    /// window's icon.
    pub fn new() -> (d: NotifyIconData)
        ensures
            d.id == TRAY_ICON_ID,
            d.flags == 0,
            d.callback_message == 0,
            d.tip@ == Seq::new(TIP_LEN as nat, |_i: int| 0u16),
    {
        let mut tip: Vec<u16> = Vec::new();
        while tip.len() < TIP_LEN
            invariant
                tip.len() <= TIP_LEN,
                forall|i: int| 0 <= i < tip.len() ==> tip@[i] == 0u16,
            decreases TIP_LEN - tip.len(),
        {
            tip.push(0);
        }
        proof {
            assert(tip@ =~= Seq::new(TIP_LEN as nat, |_i: int| 0u16));
        }
        NotifyIconData { id: TRAY_ICON_ID, flags: 0, callback_message: 0, tip }
    }
}

/// Reads little-endian UTF-16 units from `bytes` followed by two zero bytes.
fn units_with_nul(bytes: &Vec<u8>) -> (units: Vec<u16>)
    ensures
        units@ == units_from_le(bytes@ + seq![0u8, 0u8]),
{
    let ghost padded = bytes@ + seq![0u8, 0u8];
    let mut v: Vec<u8> = Vec::new();
    let mut k: usize = 0;
    while k < bytes.len()
        invariant
            k <= bytes.len(),
            v@ == bytes@.take(k as int),
        decreases bytes.len() - k,
    {
        proof {
            assert(bytes@.take(k + 1) =~= bytes@.take(k as int).push(bytes@[k as int]));
        }
        v.push(bytes[k]);
        k = k + 1;
    }
    proof {
        assert(bytes@.take(bytes.len() as int) =~= bytes@);
    }
    v.push(0);
    v.push(0);
    assert(v@ =~= padded);
    let n: usize = v.len() / 2;
    let mut units: Vec<u16> = Vec::new();
    let mut i: usize = 0;
    while i < n
        invariant
            v@ == padded,
            n == v.len() / 2,
            i <= n,
            units.len() == i,
            forall|j: int| 0 <= j < i ==> units@[j] == #[trigger] units_from_le(padded)[j],
        decreases n - i,
    {
        let lo = v[2 * i];
        let hi = v[2 * i + 1];
        units.push(lo as u16 + (hi as u16) * 256);
        i = i + 1;
    }
    assert(units@ =~= units_from_le(padded));
    units
}

/// Fills a tooltip buffer from `units`, as `set_tooltip` does.
fn fill_tip(units: &Vec<u16>) -> (tip: Vec<u16>)
    ensures
        tip@ == tip_buffer(units@),
{
    let mut tip: Vec<u16> = Vec::new();
    let mut i: usize = 0;
    while i < TIP_LEN
        invariant
            i <= TIP_LEN,
            tip.len() == i,
            forall|j: int| 0 <= j < i ==> tip@[j] == #[trigger] tip_buffer(units@)[j],
        decreases TIP_LEN - i,
    {
        if i < TIP_LEN - 1 && i < units.len() {
            tip.push(units[i]);
        } else {
            tip.push(0);
        }
        i = i + 1;
    }
    assert(tip@ =~= tip_buffer(units@));
    tip
}

/// The NUL-terminated tooltip buffer for `tooltip`, encoded with the
/// UTF-16LE encoder of the `encoding` crate and cut to the buffer's size.
pub fn tooltip_buffer(tooltip: &str) -> (tip: Vec<u16>)
    ensures
        tip@ == tooltip_tip(tooltip@),
{
    match encode_utf16le(tooltip) {
        Some(bytes) => {
            let units = units_with_nul(&bytes);
            fill_tip(&units)
        },
        None => Vec::new(),
    }
}


/// The request that `init_window` makes to put the icon into the tray: it
/// asks the shell to report mouse events with the tray callback message.
pub fn add_icon_request() -> (r: NotifyRequest)
    ensures
        r.command == NIM_ADD,
        r.data.id == TRAY_ICON_ID,
        r.data.flags == NIF_MESSAGE,
        r.data.callback_message == WM_TRAY_CALLBACK,
        r.data.tip@ == Seq::new(TIP_LEN as nat, |_i: int| 0u16),
{
    let mut data = NotifyIconData::new();
    data.flags = NIF_MESSAGE;
    data.callback_message = WM_TRAY_CALLBACK;
    NotifyRequest { command: NIM_ADD, data }
}

/// The request that `set_tooltip` makes: modify the tooltip of the icon.
pub fn tooltip_request(tooltip: &str) -> (r: NotifyRequest)
    ensures
        r.command == NIM_MODIFY,
        r.data.id == TRAY_ICON_ID,
        r.data.flags == NIF_TIP,
        r.data.callback_message == 0,
        r.data.tip@ == tooltip_tip(tooltip@),
{
    let mut data = NotifyIconData::new();
    data.tip = tooltip_buffer(tooltip);
    data.flags = NIF_TIP;
    NotifyRequest { command: NIM_MODIFY, data }
}

/// The request that `set_icon` makes: modify the icon image (the caller
/// puts the icon handle into the record).
pub fn icon_request() -> (r: NotifyRequest)
    ensures
        r.command == NIM_MODIFY,
        r.data.id == TRAY_ICON_ID,
        r.data.flags == NIF_ICON,
        r.data.callback_message == 0,
        r.data.tip@ == Seq::new(TIP_LEN as nat, |_i: int| 0u16),
{
    let mut data = NotifyIconData::new();
    data.flags = NIF_ICON;
    NotifyRequest { command: NIM_MODIFY, data }
}

/// The request that `shutdown` makes: remove the icon from the tray.
pub fn delete_request() -> (r: NotifyRequest)
    ensures
        r.command == NIM_DELETE,
        r.data.id == TRAY_ICON_ID,
        r.data.flags == NIF_ICON,
        r.data.callback_message == 0,
        r.data.tip@ == Seq::new(TIP_LEN as nat, |_i: int| 0u16),
{
    let mut data = NotifyIconData::new();
    data.flags = NIF_ICON;
    NotifyRequest { command: NIM_DELETE, data }
}

/// The bytes of `le_bytes(u)` are the low and high bytes of each unit in turn.
proof fn lemma_le_bytes(u: Seq<u16>)
    ensures
        le_bytes(u).len() == 2 * u.len(),
        forall|i: int|
            0 <= i < u.len() ==> {
                &&& #[trigger] le_bytes(u)[2 * i] == (u[i] % 256) as u8
                &&& le_bytes(u)[2 * i + 1] == (u[i] / 256) as u8
            },
    decreases u.len(),
{
    if u.len() > 0 {
        lemma_le_bytes(u.drop_last());
        assert forall|i: int| 0 <= i < u.len() implies {
            &&& #[trigger] le_bytes(u)[2 * i] == (u[i] % 256) as u8
            &&& le_bytes(u)[2 * i + 1] == (u[i] / 256) as u8
        } by {
            let d = u.drop_last();
            let tail = seq![(u.last() % 256) as u8, (u.last() / 256) as u8];
            assert(le_bytes(u) == le_bytes(d) + tail);
            if i < u.len() - 1 {
                assert(d[i] == u[i]);
                assert(le_bytes(d)[2 * i] == (d[i] % 256) as u8);
                assert(le_bytes(u)[2 * i] == le_bytes(d)[2 * i]);
                assert(le_bytes(u)[2 * i + 1] == le_bytes(d)[2 * i + 1]);
            } else {
                assert(2 * i == le_bytes(d).len());
                assert(le_bytes(u)[2 * i] == tail[0]);
                assert(le_bytes(u)[2 * i + 1] == tail[1]);
            }
        }
    }
}

/// Reading back the little-endian bytes of `u`, padded with a zero unit,
/// gives `u` followed by a zero unit.
proof fn lemma_units_round_trip(u: Seq<u16>)
    ensures
        units_from_le(le_bytes(u) + seq![0u8, 0u8]) == u.push(0u16),
{
    lemma_le_bytes(u);
    let b = le_bytes(u) + seq![0u8, 0u8];
    assert forall|i: int| 0 <= i < u.len() + 1 implies units_from_le(b)[i] == u.push(0u16)[i] by {
        if i < u.len() {
            assert(b[2 * i] == le_bytes(u)[2 * i]);
            assert(b[2 * i + 1] == le_bytes(u)[2 * i + 1]);
            assert((u[i] % 256) + 256 * (u[i] / 256) == u[i]);
        }
    }
    assert(units_from_le(b) =~= u.push(0u16));
}

/// The tooltip that `set_tooltip` shows is the NUL-terminated wide string
/// of the text that `to_wstring` produces, cut to the 128-unit buffer and
/// always NUL-terminated in its last slot.
pub proof fn tooltip_is_wide_string_prefix(tooltip: Seq<char>)
    ensures
        tooltip_tip(tooltip) == tip_buffer(wide_string(tooltip)),
        tooltip_tip(tooltip).len() == TIP_LEN,
        tooltip_tip(tooltip)[TIP_LEN - 1] == 0u16,
        forall|i: int|
            0 <= i < TIP_LEN - 1 && i < wide_string(tooltip).len() ==> #[trigger] tooltip_tip(
                tooltip,
            )[i] == wide_string(tooltip)[i],
{
    lemma_units_round_trip(utf16_units(tooltip));
}

} // verus!
