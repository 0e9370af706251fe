//! Rich pad input, as a caller fills it.

use crate::error::PunktfunkStatus;
use crate::quic::RichInput;
use vstd::prelude::*;

verus! {

/// What a rich input record is about.
pub const PUNKTFUNK_RICH_TOUCHPAD: u8 = 1;

pub const PUNKTFUNK_RICH_MOTION: u8 = 2;

pub const PUNKTFUNK_RICH_TOUCHPAD_EX: u8 = 3;

/// A touchpad contact or a motion sample. `kind` says which fields count.
#[derive(Clone, Copy, Debug)]
pub struct PunktfunkRichInput {
    pub kind: u8,
    pub pad: u8,
    pub finger: u8,
    pub active: u8,
    pub x: u16,
    pub y: u16,
    pub gyro: [i16; 3],
    pub accel: [i16; 3],
}

impl PunktfunkRichInput {
    /// The input the record spells. A kind that is not known spells none.
    pub open spec fn spelled(self) -> Option<RichInput> {
        if self.kind == PUNKTFUNK_RICH_TOUCHPAD {
            Some(
                RichInput::Touchpad {
                    pad: self.pad,
                    finger: self.finger,
                    active: self.active != 0,
                    x: self.x,
                    y: self.y,
                },
            )
        } else if self.kind == PUNKTFUNK_RICH_MOTION {
            Some(RichInput::Motion { pad: self.pad, gyro: self.gyro, accel: self.accel })
        } else {
            None
        }
    }

    pub fn to_rich(self) -> (r: Option<RichInput>)
        ensures
            r == self.spelled(),
    {
        if self.kind == PUNKTFUNK_RICH_TOUCHPAD {
            Some(
                RichInput::Touchpad {
                    pad: self.pad,
                    finger: self.finger,
                    active: self.active != 0,
                    x: self.x,
                    y: self.y,
                },
            )
        } else if self.kind == PUNKTFUNK_RICH_MOTION {
            Some(RichInput::Motion { pad: self.pad, gyro: self.gyro, accel: self.accel })
        } else {
            None
        }
    }
}

/// Rich input with a second trackpad, clicks, signed coordinates and
/// pressure.
#[derive(Clone, Copy, Debug)]
pub struct PunktfunkRichInputEx {
    /// The caller's idea of this record's size.
    pub struct_size: u32,
    pub kind: u8,
    pub pad: u8,
    pub finger: u8,
    pub active: u8,
    pub surface: u8,
    pub click: u8,
    pub _reserved: [u8; 2],
    /// Signed, or the bits of an unsigned coordinate for a plain touchpad.
    pub x: i16,
    pub y: i16,
    pub pressure: u16,
    pub gyro: [i16; 3],
    pub accel: [i16; 3],
}

/// The unsigned number with the same bits.
pub open spec fn same_bits(n: i16) -> u16 {
    if n >= 0 {
        n as u16
    } else {
        (n + 0x1_0000) as u16
    }
}

fn unsigned(n: i16) -> (r: u16)
    ensures
        r == same_bits(n),
{
    if n >= 0 {
        n as u16
    } else {
        (n as i32 + 0x1_0000) as u16
    }
}

impl PunktfunkRichInputEx {
    /// The input the record spells. A kind that is not known spells none.
    pub open spec fn spelled(self) -> Option<RichInput> {
        if self.kind == PUNKTFUNK_RICH_TOUCHPAD_EX {
            Some(
                RichInput::TouchpadEx {
                    pad: self.pad,
                    surface: self.surface,
                    finger: self.finger,
                    touch: self.active != 0,
                    click: self.click != 0,
                    x: self.x,
                    y: self.y,
                    pressure: self.pressure,
                },
            )
        } else if self.kind == PUNKTFUNK_RICH_MOTION {
            Some(RichInput::Motion { pad: self.pad, gyro: self.gyro, accel: self.accel })
        } else if self.kind == PUNKTFUNK_RICH_TOUCHPAD {
            Some(
                RichInput::Touchpad {
                    pad: self.pad,
                    finger: self.finger,
                    active: self.active != 0,
                    x: same_bits(self.x),
                    y: same_bits(self.y),
                },
            )
        } else {
            None
        }
    }

    pub fn to_rich(self) -> (r: Option<RichInput>)
        ensures
            r == self.spelled(),
    {
        if self.kind == PUNKTFUNK_RICH_TOUCHPAD_EX {
            Some(
                RichInput::TouchpadEx {
                    pad: self.pad,
                    surface: self.surface,
                    finger: self.finger,
                    touch: self.active != 0,
                    click: self.click != 0,
                    x: self.x,
                    y: self.y,
                    pressure: self.pressure,
                },
            )
        } else if self.kind == PUNKTFUNK_RICH_MOTION {
            Some(RichInput::Motion { pad: self.pad, gyro: self.gyro, accel: self.accel })
        } else if self.kind == PUNKTFUNK_RICH_TOUCHPAD {
            Some(
                RichInput::Touchpad {
                    pad: self.pad,
                    finger: self.finger,
                    active: self.active != 0,
                    x: unsigned(self.x),
                    y: unsigned(self.y),
                },
            )
        } else {
            None
        }
    }

    /// What reading a caller's record gives.
    pub open spec fn received(rich: Option<PunktfunkRichInputEx>, full_size: usize) -> Result<
        RichInput,
        PunktfunkStatus,
    > {
        match rich {
            None => Err(PunktfunkStatus::NullPointer),
            Some(rich) => if rich.struct_size < full_size || rich.spelled() is None {
                Err(PunktfunkStatus::InvalidArg)
            } else {
                Ok(rich.spelled()->0)
            },
        }
    }

    /// Read a caller's record. `full_size` is what the record takes here: a
    /// caller built against a smaller one is refused, and so is a kind that
    /// is not known.
    pub fn read(rich: Option<PunktfunkRichInputEx>, full_size: usize) -> (r: Result<
        RichInput,
        PunktfunkStatus,
    >)
        ensures
            r == PunktfunkRichInputEx::received(rich, full_size),
            r == match rich {
                None => Err::<RichInput, PunktfunkStatus>(PunktfunkStatus::NullPointer),
                Some(rich) => if rich.struct_size < full_size || rich.spelled() is None {
                    Err(PunktfunkStatus::InvalidArg)
                } else {
                    Ok(rich.spelled()->0)
                },
            },
    {
        let rich = match rich {
            Some(rich) => rich,
            None => return Err(PunktfunkStatus::NullPointer),
        };
        if (rich.struct_size as u64) < full_size as u64 {
            return Err(PunktfunkStatus::InvalidArg);
        }
        match rich.to_rich() {
            Some(input) => Ok(input),
            None => Err(PunktfunkStatus::InvalidArg),
        }
    }
}

/// A plain touchpad or motion record means the same through either form, the
/// coordinates carried by their bits.
pub proof fn law_both_forms_agree(a: PunktfunkRichInput, b: PunktfunkRichInputEx)
    requires
        a.kind == b.kind,
        a.pad == b.pad,
        a.finger == b.finger,
        a.active == b.active,
        a.x == same_bits(b.x),
        a.y == same_bits(b.y),
        a.gyro == b.gyro,
        a.accel == b.accel,
        a.kind != PUNKTFUNK_RICH_TOUCHPAD_EX,
    ensures
        a.spelled() == b.spelled(),
{
}

/// A touchpad record spells a contact at its coordinates, down exactly if
/// `active` is not zero: zero is a lift.
pub proof fn law_a_contact_is_down_or_lifted(a: PunktfunkRichInput)
    ensures
        a.spelled() matches Some(RichInput::Touchpad { pad, finger, active, x, y }) ==> {
            &&& a.kind == 1
            &&& pad == a.pad && finger == a.finger
            &&& active <==> a.active > 0
            &&& x == a.x && y == a.y
        },
        a.kind == 1 ==> a.spelled() is Some && a.spelled()->0 is Touchpad,
{
}

/// A motion record spells its two readings, each its own; kinds that are not
/// known spell nothing.
pub proof fn law_motion_keeps_its_axes(a: PunktfunkRichInput)
    ensures
        a.spelled() matches Some(RichInput::Motion { pad, gyro, accel }) ==> {
            &&& a.kind == 2
            &&& pad == a.pad
            &&& gyro == a.gyro && accel == a.accel
        },
        a.kind == 2 ==> a.spelled() is Some && a.spelled()->0 is Motion,
        a.spelled() is Some <==> a.kind == 1 || a.kind == 2,
        !(a.spelled() matches Some(RichInput::TouchpadEx { .. })),
{
}

/// The wide record spells a contact on its surface, with touch and click each
/// from its own field, and a plain contact or a motion as the narrow one does.
pub proof fn law_the_wide_record_spells_its_fields(b: PunktfunkRichInputEx)
    ensures
        b.spelled() is Some <==> 1 <= b.kind <= 3,
        b.spelled() matches Some(
            RichInput::TouchpadEx { pad, surface, finger, touch, click, x, y, pressure },
        ) ==> {
            &&& b.kind == 3
            &&& pad == b.pad && surface == b.surface && finger == b.finger
            &&& touch <==> b.active > 0
            &&& click <==> b.click > 0
            &&& x == b.x && y == b.y && pressure == b.pressure
        },
        b.kind == 3 ==> b.spelled()->0 is TouchpadEx,
        b.spelled() matches Some(RichInput::Touchpad { pad, finger, active, x, y }) ==> {
            &&& b.kind == 1
            &&& pad == b.pad && finger == b.finger
            &&& active <==> b.active > 0
            &&& (x - b.x) % 0x1_0000 == 0 && (y - b.y) % 0x1_0000 == 0
        },
        b.kind == 1 ==> b.spelled()->0 is Touchpad,
        b.spelled() matches Some(RichInput::Motion { pad, gyro, accel }) ==> b.kind == 2 && pad
            == b.pad && gyro == b.gyro && accel == b.accel,
        b.kind == 2 ==> b.spelled()->0 is Motion,
{
}

/// A record of full size and a known kind is read as what it spells; a
/// smaller one is refused however it is filled, and no record at all is an
/// error of its own.
pub proof fn law_a_small_record_is_not_believed(rich: PunktfunkRichInputEx, full_size: usize)
    ensures
        PunktfunkRichInputEx::received(None, full_size) == Err::<RichInput, PunktfunkStatus>(
            PunktfunkStatus::NullPointer,
        ),
        rich.struct_size >= full_size && 1 <= rich.kind <= 3 ==> (
        PunktfunkRichInputEx::received(Some(rich), full_size) matches Ok(input) && Some(input)
            == rich.spelled()),
        rich.struct_size < full_size || rich.kind == 0 || rich.kind > 3
            ==> PunktfunkRichInputEx::received(Some(rich), full_size) == Err::<
            RichInput,
            PunktfunkStatus,
        >(PunktfunkStatus::InvalidArg),
{
}

} // verus!
