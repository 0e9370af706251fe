//! Clipboard events as flat records.

use super::connect::TextArg;
use crate::client::clipboard::{ClipEventCore, ClipKind};
use crate::error::PunktfunkStatus;
use crate::text::{append_decimal, decimal};
use vstd::prelude::*;
use vstd::string::*;
use vstd::utf8::encode_utf8;

verus! {

/// What a [`PunktfunkClipEvent`] is about.
pub const PUNKTFUNK_CLIP_REMOTE_OFFER: u8 = 1;

pub const PUNKTFUNK_CLIP_STATE: u8 = 2;

pub const PUNKTFUNK_CLIP_FETCH_REQUEST: u8 = 3;

pub const PUNKTFUNK_CLIP_DATA: u8 = 4;

pub const PUNKTFUNK_CLIP_CANCELLED: u8 = 5;

pub const PUNKTFUNK_CLIP_ERROR: u8 = 6;

/// A clipboard event, flat. `kind` says which fields count; the rest are
/// zero. Bytes it carries are parked in the connection's slot.
#[derive(Clone, Copy, Debug, PartialEq, Eq, Structural)]
pub struct PunktfunkClipEvent {
    pub kind: u8,
    pub enabled: u8,
    pub policy: u8,
    pub reason: u8,
    pub last: u8,
    pub transfer_id: u32,
    pub seq: u32,
    pub file_index: u32,
    pub status: i32,
    /// How many bytes are parked.
    pub len: usize,
}

/// The formats of an offer: a line each, type and size with a tab between.
pub open spec fn format_list(kinds: Seq<ClipKind>) -> Seq<char>
    decreases kinds.len(),
{
    if kinds.len() == 0 {
        Seq::empty()
    } else {
        format_list(kinds.drop_last()) + kinds.last().mime@ + seq!['\t'] + decimal(
            kinds.last().size_hint as nat,
        ) + seq!['\n']
    }
}

/// The bytes an event parks, if it carries any.
pub open spec fn parked(ev: ClipEventCore) -> Option<Seq<u8>> {
    match ev {
        ClipEventCore::RemoteOffer { seq, kinds } => Some(encode_utf8(format_list(kinds@))),
        ClipEventCore::FetchRequest { req_id, seq, file_index, mime } => Some(encode_utf8(mime@)),
        ClipEventCore::Data { xfer_id, bytes, last } => Some(bytes@),
        _ => None,
    }
}

/// The record of an event, but for the parked bytes.
pub open spec fn record(ev: ClipEventCore) -> PunktfunkClipEvent {
    let blank = blank_event();
    match ev {
        ClipEventCore::RemoteOffer { seq, kinds } => PunktfunkClipEvent {
            kind: PUNKTFUNK_CLIP_REMOTE_OFFER,
            transfer_id: seq,
            ..blank
        },
        ClipEventCore::State { enabled, policy, reason } => PunktfunkClipEvent {
            kind: PUNKTFUNK_CLIP_STATE,
            enabled: if enabled {
                1
            } else {
                0
            },
            policy,
            reason,
            ..blank
        },
        ClipEventCore::FetchRequest { req_id, seq, file_index, mime } => PunktfunkClipEvent {
            kind: PUNKTFUNK_CLIP_FETCH_REQUEST,
            transfer_id: req_id,
            seq,
            file_index,
            ..blank
        },
        ClipEventCore::Data { xfer_id, bytes, last } => PunktfunkClipEvent {
            kind: PUNKTFUNK_CLIP_DATA,
            transfer_id: xfer_id,
            last: if last {
                1
            } else {
                0
            },
            ..blank
        },
        ClipEventCore::Cancelled { id } => PunktfunkClipEvent {
            kind: PUNKTFUNK_CLIP_CANCELLED,
            transfer_id: id,
            ..blank
        },
        ClipEventCore::Error { id, code } => PunktfunkClipEvent {
            kind: PUNKTFUNK_CLIP_ERROR,
            transfer_id: id,
            status: code,
            ..blank
        },
    }
}

/// A record of nothing.
#[verifier::allow_in_spec]
pub fn blank_event() -> PunktfunkClipEvent
    returns
        (PunktfunkClipEvent {
            kind: 0,
            enabled: 0,
            policy: 0,
            reason: 0,
            last: 0,
            transfer_id: 0,
            seq: 0,
            file_index: 0,
            status: 0,
            len: 0,
        }),
{
    PunktfunkClipEvent {
        kind: 0,
        enabled: 0,
        policy: 0,
        reason: 0,
        last: 0,
        transfer_id: 0,
        seq: 0,
        file_index: 0,
        status: 0,
        len: 0,
    }
}

/// The format list of an offer.
fn list_formats(kinds: &Vec<ClipKind>) -> (list: String)
    ensures
        list@ == format_list(kinds@),
{
    let mut list: String = String::new();
    let mut i: usize = 0;
    proof {
        reveal_strlit("\t");
        reveal_strlit("\n");
        assert("\t"@ =~= seq!['\t']);
        assert("\n"@ =~= seq!['\n']);
    }
    while i < kinds.len()
        invariant
            i <= kinds@.len(),
            list@ == format_list(kinds@.take(i as int)),
            "\t"@ == seq!['\t'],
            "\n"@ == seq!['\n'],
        decreases kinds@.len() - i,
    {
        assert(kinds@.take(i + 1).drop_last() =~= kinds@.take(i as int));
        list.append(kinds[i].mime.as_str());
        list.append("\t");
        append_decimal(&mut list, kinds[i].size_hint as u128);
        list.append("\n");
        i = i + 1;
    }
    assert(kinds@.take(kinds@.len() as int) =~= kinds@);
    list
}

/// `out` is the record of the event, and `slot` holds what it parks.
pub open spec fn builds(ev: ClipEventCore, out: PunktfunkClipEvent, slot: Option<Vec<u8>>) -> bool {
    &&& match parked(ev) {
        Some(bytes) => slot matches Some(kept) && kept@ == bytes && out.len == bytes.len(),
        None => slot is None && out.len == 0,
    }
    &&& out == (PunktfunkClipEvent { len: out.len, ..record(ev) })
}

/// Make the record of an event, parking the bytes it carries in `slot`. What
/// an earlier event parked there is gone.
pub fn build_clip_event(ev: ClipEventCore, slot: &mut Option<Vec<u8>>) -> (out: PunktfunkClipEvent)
    ensures
        builds(ev, out, *final(slot)),
        match parked(ev) {
            Some(bytes) => *final(slot) matches Some(kept) && kept@ == bytes && out.len
                == bytes.len(),
            None => *final(slot) is None && out.len == 0,
        },
        out == (PunktfunkClipEvent { len: out.len, ..record(ev) }),
{
    let mut out = blank_event();
    *slot = None;
    match ev {
        ClipEventCore::RemoteOffer { seq, kinds } => {
            let list: String = list_formats(&kinds);
            let bytes: Vec<u8> = list.as_str().as_bytes_vec();
            out = PunktfunkClipEvent {
                kind: PUNKTFUNK_CLIP_REMOTE_OFFER,
                transfer_id: seq,
                len: bytes.len(),
                ..out
            };
            *slot = Some(bytes);
        },
        ClipEventCore::State { enabled, policy, reason } => {
            out = PunktfunkClipEvent {
                kind: PUNKTFUNK_CLIP_STATE,
                enabled: if enabled {
                    1
                } else {
                    0
                },
                policy,
                reason,
                ..out
            };
        },
        ClipEventCore::FetchRequest { req_id, seq, file_index, mime } => {
            let bytes: Vec<u8> = mime.as_str().as_bytes_vec();
            out = PunktfunkClipEvent {
                kind: PUNKTFUNK_CLIP_FETCH_REQUEST,
                transfer_id: req_id,
                seq,
                file_index,
                len: bytes.len(),
                ..out
            };
            *slot = Some(bytes);
        },
        ClipEventCore::Data { xfer_id, bytes, last } => {
            out = PunktfunkClipEvent {
                kind: PUNKTFUNK_CLIP_DATA,
                transfer_id: xfer_id,
                last: if last {
                    1
                } else {
                    0
                },
                len: bytes.len(),
                ..out
            };
            *slot = Some(bytes);
        },
        ClipEventCore::Cancelled { id } => {
            out = PunktfunkClipEvent { kind: PUNKTFUNK_CLIP_CANCELLED, transfer_id: id, ..out };
        },
        ClipEventCore::Error { id, code } => {
            out = PunktfunkClipEvent {
                kind: PUNKTFUNK_CLIP_ERROR,
                transfer_id: id,
                status: code,
                ..out
            };
        },
    }
    out
}

/// One format a caller offers.
#[derive(Debug, PartialEq, Eq)]
pub struct PunktfunkClipKind {
    pub mime: TextArg,
    /// Size in bytes, as far as known. Zero is not known.
    pub size_hint: u64,
}

impl PunktfunkClipKind {
    /// This is the format on offer. No type is the empty one; a type that
    /// cannot be read is none.
    pub open spec fn offers(self, kind: ClipKind) -> bool {
        &&& kind.size_hint == self.size_hint
        &&& match self.mime {
            TextArg::Absent => kind.mime@.len() == 0,
            TextArg::Unreadable => false,
            TextArg::Text(text) => kind.mime@ == text@,
        }
    }
}

/// `r` is what becomes of a caller's offer.
pub open spec fn offer_taken(
    args: Seq<PunktfunkClipKind>,
    r: Result<Vec<ClipKind>, PunktfunkStatus>,
) -> bool {
    match r {
        Ok(kinds) => kinds@.len() == args.len() && forall|i: int|
            0 <= i < args.len() ==> args[i].offers(#[trigger] kinds@[i]),
        Err(e) => e == PunktfunkStatus::InvalidArg && exists|i: int|
            0 <= i < args.len() && (#[trigger] args[i]).mime is Unreadable,
    }
}

/// The formats of a caller's offer, in the caller's order. One that cannot be
/// read refuses the offer.
pub fn offered_kinds(args: &[PunktfunkClipKind]) -> (r: Result<Vec<ClipKind>, PunktfunkStatus>)
    ensures
        offer_taken(args@, r),
        match r {
            Ok(kinds) => kinds@.len() == args@.len() && forall|i: int|
                0 <= i < args@.len() ==> args@[i].offers(#[trigger] kinds@[i]),
            Err(e) => e == PunktfunkStatus::InvalidArg && exists|i: int|
                0 <= i < args@.len() && (#[trigger] args@[i]).mime is Unreadable,
        },
{
    let mut kinds: Vec<ClipKind> = Vec::new();
    let mut i: usize = 0;
    while i < args.len()
        invariant
            i <= args@.len(),
            kinds@.len() == i,
            forall|j: int| 0 <= j < i ==> args@[j].offers(#[trigger] kinds@[j]),
        decreases args@.len() - i,
    {
        let mime: String = match &args[i].mime {
            TextArg::Absent => String::new(),
            TextArg::Unreadable => return Err(PunktfunkStatus::InvalidArg),
            TextArg::Text(text) => text.clone(),
        };
        kinds.push(ClipKind { mime, size_hint: args[i].size_hint });
        i = i + 1;
    }
    Ok(kinds)
}

/// What a fetch is asked for, or why it is not.
pub open spec fn format_asked(arg: TextArg) -> Result<String, PunktfunkStatus> {
    match arg {
        TextArg::Text(text) => Ok(text),
        TextArg::Absent => Err(PunktfunkStatus::NullPointer),
        TextArg::Unreadable => Err(PunktfunkStatus::InvalidArg),
    }
}

/// The format a fetch asks for.
pub fn fetch_format(arg: TextArg) -> (r: Result<String, PunktfunkStatus>)
    ensures
        r == format_asked(arg),
        match arg {
            TextArg::Text(text) => r == Ok::<String, PunktfunkStatus>(text),
            TextArg::Absent => r == Err::<String, PunktfunkStatus>(PunktfunkStatus::NullPointer),
            TextArg::Unreadable => r == Err::<String, PunktfunkStatus>(PunktfunkStatus::InvalidArg),
        },
{
    match arg {
        TextArg::Text(text) => Ok(text),
        TextArg::Absent => Err(PunktfunkStatus::NullPointer),
        TextArg::Unreadable => Err(PunktfunkStatus::InvalidArg),
    }
}

/// A record says its kind, and each field it fills is the event's own; what an
/// event carries is parked whole, and one that carries nothing parks nothing.
pub proof fn law_a_record_tells_its_event(
    ev: ClipEventCore,
    out: PunktfunkClipEvent,
    slot: Option<Vec<u8>>,
)
    requires
        builds(ev, out, slot),
    ensures
        match ev {
            ClipEventCore::RemoteOffer { seq, kinds } => out.kind == 1 && out.transfer_id == seq
                && out.seq == 0 && (slot matches Some(bytes) && bytes@ == encode_utf8(
                format_list(kinds@),
            )),
            ClipEventCore::State { enabled, policy, reason } => out.kind == 2 && (out.enabled == 1
                <==> enabled) && (out.enabled == 0 <==> !enabled) && out.policy == policy
                && out.reason == reason && out.transfer_id == 0 && slot is None,
            ClipEventCore::FetchRequest { req_id, seq, file_index, mime } => out.kind == 3
                && out.transfer_id == req_id && out.seq == seq && out.file_index == file_index && (
            slot matches Some(bytes) && bytes@ == encode_utf8(mime@)),
            ClipEventCore::Data { xfer_id, bytes, last } => out.kind == 4 && out.transfer_id
                == xfer_id && (out.last == 1 <==> last) && (out.last == 0 <==> !last) && (
            slot matches Some(kept) && kept@ == bytes@),
            ClipEventCore::Cancelled { id } => out.kind == 5 && out.transfer_id == id && slot
                is None,
            ClipEventCore::Error { id, code } => out.kind == 6 && out.transfer_id == id
                && out.status == code && slot is None,
        },
        !(ev is State) ==> out.enabled == 0 && out.policy == 0 && out.reason == 0,
        !(ev is Data) ==> out.last == 0,
        !(ev is FetchRequest) ==> out.seq == 0 && out.file_index == 0,
        !(ev is Error) ==> out.status == 0,
        slot matches Some(bytes) ==> out.len == bytes@.len(),
        slot is None ==> out.len == 0,
{
}

/// A list of formats is a line each, in the offer's order: type, tab, size,
/// line end.
pub proof fn law_an_offer_is_a_line_each(kinds: Seq<ClipKind>, kind: ClipKind)
    ensures
        format_list(Seq::<ClipKind>::empty()).len() == 0,
        format_list(kinds.push(kind)) == format_list(kinds) + kind.mime@ + seq!['\t'] + decimal(
            kind.size_hint as nat,
        ) + seq!['\n'],
{
    assert(kinds.push(kind).drop_last() =~= kinds);
}

/// A caller's offer is taken whole and in order, or refused: one format that
/// cannot be read refuses it, and nothing else does.
pub proof fn law_an_offer_is_taken_whole(
    args: Seq<PunktfunkClipKind>,
    r: Result<Vec<ClipKind>, PunktfunkStatus>,
    i: int,
)
    requires
        offer_taken(args, r),
        0 <= i < args.len(),
    ensures
        args[i].mime is Unreadable ==> r == Err::<Vec<ClipKind>, PunktfunkStatus>(
            PunktfunkStatus::InvalidArg,
        ),
        r is Err ==> exists|j: int| 0 <= j < args.len() && (#[trigger] args[j]).mime is Unreadable,
        r matches Ok(kinds) ==> {
            &&& kinds@.len() == args.len()
            &&& kinds@[i].size_hint == args[i].size_hint
            &&& args[i].mime matches TextArg::Text(text) ==> kinds@[i].mime@ == text@
            &&& args[i].mime is Absent ==> kinds@[i].mime@.len() == 0
        },
{
    if let Ok(kinds) = r {
        assert(args[i].offers(kinds@[i]));
    }
}

/// A fetch asks for the format it was given; a missing one and one that cannot
/// be read are told apart.
pub proof fn law_a_fetch_names_its_format(text: String)
    ensures
        format_asked(TextArg::Text(text)) == Ok::<String, PunktfunkStatus>(text),
        format_asked(TextArg::Absent) == Err::<String, PunktfunkStatus>(
            PunktfunkStatus::NullPointer,
        ),
        format_asked(TextArg::Unreadable) == Err::<String, PunktfunkStatus>(
            PunktfunkStatus::InvalidArg,
        ),
{
}

} // verus!
