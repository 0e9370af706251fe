//! What a session is set up with.

use vstd::prelude::*;

verus! {

/// A display mode.
#[derive(Clone, Copy, Debug, PartialEq, Eq, Structural)]
pub struct Mode {
    pub width: u32,
    pub height: u32,
    pub refresh_hz: u32,
}

#[derive(Clone, Copy, Debug, PartialEq, Eq, Structural)]
pub enum Role {
    Host,
    Client,
}

#[derive(Clone, Copy, Debug, PartialEq, Eq, Structural)]
pub enum ProtocolPhase {
    P1GameStream,
    P2Punktfunk,
}

/// The field the repair code works over.
#[derive(Clone, Copy, Debug, PartialEq, Eq, Structural)]
pub enum FecScheme {
    Gf8,
    Gf16,
}

impl FecScheme {
    /// The scheme a number names, if any.
    #[verifier::allow_in_spec]
    pub fn from_u8(n: u8) -> Option<FecScheme>
        returns
            (if n == 0 {
                Some(FecScheme::Gf8)
            } else if n == 1 {
                Some(FecScheme::Gf16)
            } else {
                None
            }),
    {
        if n == 0 {
            Some(FecScheme::Gf8)
        } else if n == 1 {
            Some(FecScheme::Gf16)
        } else {
            None
        }
    }
}

#[derive(Clone, Copy, Debug, PartialEq, Eq, Structural)]
pub struct FecConfig {
    pub scheme: FecScheme,
    pub fec_percent: u8,
    pub max_data_per_block: u16,
}

/// A session's configuration.
#[derive(Clone, Copy, Debug)]
pub struct Config {
    pub role: Role,
    pub phase: ProtocolPhase,
    pub fec: FecConfig,
    pub shard_payload: usize,
    /// Largest access unit the receiver takes.
    pub max_frame_bytes: usize,
    pub encrypt: bool,
    pub key: [u8; 16],
    pub salt: [u8; 4],
    pub loopback_drop_period: u32,
}

/// Which compositor the host is asked to run.
#[derive(Clone, Copy, Debug, PartialEq, Eq, Structural)]
pub enum CompositorPref {
    /// The host decides.
    Auto,
    Kwin,
    Wlroots,
    Mutter,
    Gamescope,
}

impl CompositorPref {
    /// The number a preference travels as.
    #[verifier::allow_in_spec]
    pub fn to_u8(self) -> u8
        returns
            (match self {
                CompositorPref::Auto => 0u8,
                CompositorPref::Kwin => 1,
                CompositorPref::Wlroots => 2,
                CompositorPref::Mutter => 3,
                CompositorPref::Gamescope => 4,
            }),
    {
        match self {
            CompositorPref::Auto => 0u8,
            CompositorPref::Kwin => 1,
            CompositorPref::Wlroots => 2,
            CompositorPref::Mutter => 3,
            CompositorPref::Gamescope => 4,
        }
    }

    /// The preference a number names.
    pub open spec fn named(n: u8) -> CompositorPref {
        if n == 1 {
            CompositorPref::Kwin
        } else if n == 2 {
            CompositorPref::Wlroots
        } else if n == 3 {
            CompositorPref::Mutter
        } else if n == 4 {
            CompositorPref::Gamescope
        } else {
            CompositorPref::Auto
        }
    }

    /// The preference a number names. One that is not known leaves the choice
    /// to the host.
    pub fn from_u8(n: u8) -> (pref: CompositorPref)
        ensures
            pref == CompositorPref::named(n),
            n <= 4 ==> pref.to_u8() == n,
            n > 4 ==> pref == CompositorPref::Auto,
    {
        if n == 1 {
            CompositorPref::Kwin
        } else if n == 2 {
            CompositorPref::Wlroots
        } else if n == 3 {
            CompositorPref::Mutter
        } else if n == 4 {
            CompositorPref::Gamescope
        } else {
            CompositorPref::Auto
        }
    }
}

/// Which virtual pad the host is asked to make.
#[derive(Clone, Copy, Debug, PartialEq, Eq, Structural)]
pub enum GamepadPref {
    /// The host decides.
    Auto,
    Xbox360,
    DualSense,
    XboxOne,
    DualShock4,
    SteamController,
    SteamDeck,
}

impl GamepadPref {
    /// The number a preference travels as.
    #[verifier::allow_in_spec]
    pub fn to_u8(self) -> u8
        returns
            (match self {
                GamepadPref::Auto => 0u8,
                GamepadPref::Xbox360 => 1,
                GamepadPref::DualSense => 2,
                GamepadPref::XboxOne => 3,
                GamepadPref::DualShock4 => 4,
                GamepadPref::SteamController => 5,
                GamepadPref::SteamDeck => 6,
            }),
    {
        match self {
            GamepadPref::Auto => 0u8,
            GamepadPref::Xbox360 => 1,
            GamepadPref::DualSense => 2,
            GamepadPref::XboxOne => 3,
            GamepadPref::DualShock4 => 4,
            GamepadPref::SteamController => 5,
            GamepadPref::SteamDeck => 6,
        }
    }

    /// The preference a number names.
    pub open spec fn named(n: u8) -> GamepadPref {
        if n == 1 {
            GamepadPref::Xbox360
        } else if n == 2 {
            GamepadPref::DualSense
        } else if n == 3 {
            GamepadPref::XboxOne
        } else if n == 4 {
            GamepadPref::DualShock4
        } else if n == 5 {
            GamepadPref::SteamController
        } else if n == 6 {
            GamepadPref::SteamDeck
        } else {
            GamepadPref::Auto
        }
    }

    /// The preference a number names. One that is not known leaves the choice
    /// to the host.
    pub fn from_u8(n: u8) -> (pref: GamepadPref)
        ensures
            pref == GamepadPref::named(n),
            n <= 6 ==> pref.to_u8() == n,
            n > 6 ==> pref == GamepadPref::Auto,
    {
        if n == 1 {
            GamepadPref::Xbox360
        } else if n == 2 {
            GamepadPref::DualSense
        } else if n == 3 {
            GamepadPref::XboxOne
        } else if n == 4 {
            GamepadPref::DualShock4
        } else if n == 5 {
            GamepadPref::SteamController
        } else if n == 6 {
            GamepadPref::SteamDeck
        } else {
            GamepadPref::Auto
        }
    }
}

/// A preference is read back as it was sent, each has a number of its own, and
/// a number nobody sends leaves the choice to the host.
pub proof fn law_a_preference_is_read_back(
    a: CompositorPref,
    b: CompositorPref,
    c: GamepadPref,
    d: GamepadPref,
    n: u8,
)
    ensures
        CompositorPref::named(a.to_u8()) == a,
        a.to_u8() == b.to_u8() ==> a == b,
        GamepadPref::named(c.to_u8()) == c,
        c.to_u8() == d.to_u8() ==> c == d,
        CompositorPref::Auto.to_u8() == 0 && CompositorPref::Kwin.to_u8() == 1
            && CompositorPref::Wlroots.to_u8() == 2 && CompositorPref::Mutter.to_u8() == 3
            && CompositorPref::Gamescope.to_u8() == 4,
        GamepadPref::Auto.to_u8() == 0 && GamepadPref::Xbox360.to_u8() == 1
            && GamepadPref::DualSense.to_u8() == 2 && GamepadPref::XboxOne.to_u8() == 3
            && GamepadPref::DualShock4.to_u8() == 4 && GamepadPref::SteamController.to_u8() == 5
            && GamepadPref::SteamDeck.to_u8() == 6,
        n > 4 ==> CompositorPref::named(n) == CompositorPref::Auto,
        n > 6 ==> GamepadPref::named(n) == GamepadPref::Auto,
        FecScheme::from_u8(n) matches Some(s) ==> (n == 0 && s == FecScheme::Gf8) || (n == 1 && s
            == FecScheme::Gf16),
        n <= 1 ==> FecScheme::from_u8(n) is Some,
{
}

} // verus!
