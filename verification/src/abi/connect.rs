//! What a caller hands over to connect, pair and wake, and what it gets back.

use crate::client::planes::AudioPacket;
use crate::config::{CompositorPref, GamepadPref, Mode};
use crate::error::PunktfunkStatus;
use vstd::prelude::*;
use vstd::string::*;
use vstd::utf8::encode_utf8;

verus! {

/// Compositor preferences.
pub const PUNKTFUNK_COMPOSITOR_AUTO: u32 = 0;

pub const PUNKTFUNK_COMPOSITOR_KWIN: u32 = 1;

pub const PUNKTFUNK_COMPOSITOR_WLROOTS: u32 = 2;

pub const PUNKTFUNK_COMPOSITOR_MUTTER: u32 = 3;

pub const PUNKTFUNK_COMPOSITOR_GAMESCOPE: u32 = 4;

/// Gamepad preferences.
pub const PUNKTFUNK_GAMEPAD_AUTO: u32 = 0;

pub const PUNKTFUNK_GAMEPAD_XBOX360: u32 = 1;

pub const PUNKTFUNK_GAMEPAD_DUALSENSE: u32 = 2;

pub const PUNKTFUNK_GAMEPAD_XBOXONE: u32 = 3;

pub const PUNKTFUNK_GAMEPAD_DUALSHOCK4: u32 = 4;

pub const PUNKTFUNK_GAMEPAD_STEAMCONTROLLER: u32 = 5;

pub const PUNKTFUNK_GAMEPAD_STEAMDECK: u32 = 6;

/// Gamepad buttons beyond the usual ones.
pub const PUNKTFUNK_GAMEPAD_BTN_PADDLE1: u32 = 0x0001_0000;

pub const PUNKTFUNK_GAMEPAD_BTN_PADDLE2: u32 = 0x0002_0000;

pub const PUNKTFUNK_GAMEPAD_BTN_PADDLE3: u32 = 0x0004_0000;

pub const PUNKTFUNK_GAMEPAD_BTN_PADDLE4: u32 = 0x0008_0000;

pub const PUNKTFUNK_GAMEPAD_BTN_MISC1: u32 = 0x0020_0000;

/// What a client's decoder and display can do.
pub const PUNKTFUNK_VIDEO_CAP_10BIT: u8 = 0x01;

pub const PUNKTFUNK_VIDEO_CAP_HDR: u8 = 0x02;

pub const PUNKTFUNK_VIDEO_CAP_444: u8 = 0x04;

/// Codec bits.
pub const PUNKTFUNK_CODEC_H264: u8 = 0x01;

pub const PUNKTFUNK_CODEC_HEVC: u8 = 0x02;

pub const PUNKTFUNK_CODEC_AV1: u8 = 0x04;

/// What a host can do.
pub const PUNKTFUNK_HOST_CAP_GAMEPAD_STATE: u8 = 0x01;

pub const PUNKTFUNK_HOST_CAP_CLIPBOARD: u8 = 0x02;

/// Stands for a rumble level that ends by no lease.
pub const PUNKTFUNK_RUMBLE_NO_TTL: u32 = 0xFFFF_FFFF;

/// The compositor a number asks for.
pub open spec fn compositor_asked(n: u32) -> CompositorPref {
    if n > 255 {
        CompositorPref::Auto
    } else {
        CompositorPref::named(n as u8)
    }
}

/// The pad a number asks for.
pub open spec fn gamepad_asked(n: u32) -> GamepadPref {
    if n > 255 {
        GamepadPref::Auto
    } else {
        GamepadPref::named(n as u8)
    }
}

/// The compositor a number asks for. Any number that names none, however
/// wide, leaves the choice to the host.
pub fn compositor_pref(n: u32) -> (pref: CompositorPref)
    ensures
        pref == compositor_asked(n),
        n <= PUNKTFUNK_COMPOSITOR_GAMESCOPE ==> pref.to_u8() == n,
        n > PUNKTFUNK_COMPOSITOR_GAMESCOPE ==> pref == CompositorPref::Auto,
{
    if n > 255 {
        return CompositorPref::Auto;
    }
    CompositorPref::from_u8(n as u8)
}

/// The pad a number asks for. Any number that names none, however wide,
/// leaves the choice to the host.
pub fn gamepad_pref(n: u32) -> (pref: GamepadPref)
    ensures
        pref == gamepad_asked(n),
        n <= PUNKTFUNK_GAMEPAD_STEAMDECK ==> pref.to_u8() == n,
        n > PUNKTFUNK_GAMEPAD_STEAMDECK ==> pref == GamepadPref::Auto,
{
    if n > 255 {
        return GamepadPref::Auto;
    }
    GamepadPref::from_u8(n as u8)
}

/// A text argument.
#[derive(Debug, PartialEq, Eq)]
pub enum TextArg {
    /// No pointer was given.
    Absent,
    /// What it points to is not text.
    Unreadable,
    Text(String),
}

/// The library entry an argument launches.
pub open spec fn launched(arg: TextArg) -> Option<String> {
    match arg {
        TextArg::Text(text) => if text@.len() == 0 {
            None
        } else {
            Some(text)
        },
        _ => None,
    }
}

/// The library entry to launch. An unreadable one is no reason not to
/// connect: it launches nothing.
pub fn launch_id(arg: TextArg) -> (launch: Option<String>)
    ensures
        launch == launched(arg),
        match arg {
            TextArg::Text(text) => if text@.len() == 0 {
                launch is None
            } else {
                launch == Some(text)
            },
            _ => launch is None,
        },
{
    match arg {
        TextArg::Text(text) => {
            if text.as_str().unicode_len() == 0 {
                None
            } else {
                Some(text)
            }
        },
        _ => None,
    }
}

/// The identity two arguments make, or why they make none.
pub open spec fn presented(cert: TextArg, key: TextArg) -> Result<
    Option<(String, String)>,
    PunktfunkStatus,
> {
    match (cert, key) {
        (TextArg::Text(c), TextArg::Text(k)) => Ok(Some((c, k))),
        (TextArg::Absent, TextArg::Absent) => Ok(None),
        _ => Err(PunktfunkStatus::InvalidArg),
    }
}

/// The identity a client presents: both parts, or neither. Half of one, or
/// one that cannot be read, refuses to connect.
pub fn identity(cert: TextArg, key: TextArg) -> (r: Result<Option<(String, String)>, PunktfunkStatus>)
    ensures
        r == presented(cert, key),
        match (cert, key) {
            (TextArg::Text(c), TextArg::Text(k)) => r == Ok::<
                Option<(String, String)>,
                PunktfunkStatus,
            >(Some((c, k))),
            (TextArg::Absent, TextArg::Absent) => r == Ok::<
                Option<(String, String)>,
                PunktfunkStatus,
            >(None),
            _ => r == Err::<Option<(String, String)>, PunktfunkStatus>(PunktfunkStatus::InvalidArg),
        },
{
    match cert {
        TextArg::Text(c) => match key {
            TextArg::Text(k) => Ok(Some((c, k))),
            _ => Err(PunktfunkStatus::InvalidArg),
        },
        TextArg::Absent => match key {
            TextArg::Absent => Ok(None),
            _ => Err(PunktfunkStatus::InvalidArg),
        },
        TextArg::Unreadable => Err(PunktfunkStatus::InvalidArg),
    }
}

/// Everything a caller says about the session it wants.
#[derive(Debug)]
pub struct ConnectArgs {
    pub host: TextArg,
    pub port: u16,
    pub mode: Mode,
    pub compositor: u32,
    pub gamepad: u32,
    /// Zero leaves the rate to the host.
    pub bitrate_kbps: u32,
    pub video_caps: u8,
    pub audio_channels: u8,
    pub video_codecs: u8,
    pub preferred_codec: u8,
    pub launch: TextArg,
    /// The fingerprint the host must show.
    pub pin: Option<[u8; 32]>,
    pub cert: TextArg,
    pub key: TextArg,
    pub timeout_ms: u32,
}

/// A session to set up.
#[derive(Debug)]
pub struct ConnectRequest {
    pub host: String,
    pub port: u16,
    pub mode: Mode,
    pub compositor: CompositorPref,
    pub gamepad: GamepadPref,
    pub bitrate_kbps: u32,
    pub video_caps: u8,
    pub audio_channels: u8,
    pub video_codecs: u8,
    pub preferred_codec: u8,
    pub launch: Option<String>,
    pub pin: Option<[u8; 32]>,
    pub identity: Option<(String, String)>,
    pub timeout_ms: u32,
}

/// The channel counts a session can have.
pub open spec fn is_layout(channels: u8) -> bool {
    channels == 2 || channels == 6 || channels == 8
}

/// The channels a count asks for. One that names no layout asks for stereo.
#[verifier::allow_in_spec]
pub fn normalize_channels(channels: u8) -> u8
    returns
        (if channels == 6 || channels == 8 {
            channels
        } else {
            2
        }),
{
    if channels == 6 || channels == 8 {
        channels
    } else {
        2
    }
}

/// Whatever a caller asks for, the session gets a layout, and a layout that is
/// asked for is kept.
pub proof fn law_only_layouts_are_asked_for(channels: u8)
    ensures
        is_layout(normalize_channels(channels)),
        is_layout(channels) ==> normalize_channels(channels) == channels,
{
}

/// An identity a caller may present: both parts, or neither.
pub open spec fn is_whole(cert: TextArg, key: TextArg) -> bool {
    (cert is Text && key is Text) || (cert is Absent && key is Absent)
}

impl ConnectArgs {
    /// The arguments of a caller that says only where to connect and how it
    /// is known.
    pub open spec fn plain(
        host: TextArg,
        port: u16,
        mode: Mode,
        pin: Option<[u8; 32]>,
        cert: TextArg,
        key: TextArg,
        timeout_ms: u32,
    ) -> ConnectArgs {
        ConnectArgs {
            host,
            port,
            mode,
            compositor: PUNKTFUNK_COMPOSITOR_AUTO,
            gamepad: PUNKTFUNK_GAMEPAD_AUTO,
            bitrate_kbps: 0,
            video_caps: 0,
            audio_channels: 2,
            video_codecs: PUNKTFUNK_CODEC_HEVC,
            preferred_codec: 0,
            launch: TextArg::Absent,
            pin,
            cert,
            key,
            timeout_ms,
        }
    }

    /// What a caller gets that says only where to connect and how it is
    /// known: the host decides the rest, stereo sound, the default codec.
    pub fn basic(
        host: TextArg,
        port: u16,
        mode: Mode,
        pin: Option<[u8; 32]>,
        cert: TextArg,
        key: TextArg,
        timeout_ms: u32,
    ) -> (args: ConnectArgs)
        ensures
            args == ConnectArgs::plain(host, port, mode, pin, cert, key, timeout_ms),
            args == (ConnectArgs {
                host,
                port,
                mode,
                compositor: PUNKTFUNK_COMPOSITOR_AUTO,
                gamepad: PUNKTFUNK_GAMEPAD_AUTO,
                bitrate_kbps: 0,
                video_caps: 0,
                audio_channels: 2,
                video_codecs: PUNKTFUNK_CODEC_HEVC,
                preferred_codec: 0,
                launch: TextArg::Absent,
                pin,
                cert,
                key,
                timeout_ms,
            }),
    {
        ConnectArgs {
            host,
            port,
            mode,
            compositor: PUNKTFUNK_COMPOSITOR_AUTO,
            gamepad: PUNKTFUNK_GAMEPAD_AUTO,
            bitrate_kbps: 0,
            video_caps: 0,
            audio_channels: 2,
            video_codecs: PUNKTFUNK_CODEC_HEVC,
            preferred_codec: 0,
            launch: TextArg::Absent,
            pin,
            cert,
            key,
            timeout_ms,
        }
    }

    /// The arguments make sense: a host that can be read, and a whole
    /// identity.
    pub open spec fn usable(self) -> bool {
        self.host is Text && is_whole(self.cert, self.key)
    }

    /// The request the arguments make.
    pub open spec fn makes(self, r: ConnectRequest) -> bool {
        &&& r.host == self.host->Text_0
        &&& r.port == self.port
        &&& r.mode == self.mode
        &&& r.compositor.to_u8() == if self.compositor <= PUNKTFUNK_COMPOSITOR_GAMESCOPE {
            self.compositor
        } else {
            PUNKTFUNK_COMPOSITOR_AUTO
        }
        &&& r.gamepad.to_u8() == if self.gamepad <= PUNKTFUNK_GAMEPAD_STEAMDECK {
            self.gamepad
        } else {
            PUNKTFUNK_GAMEPAD_AUTO
        }
        &&& r.bitrate_kbps == self.bitrate_kbps
        &&& r.video_caps == self.video_caps
        &&& r.audio_channels == normalize_channels(self.audio_channels)
        &&& r.video_codecs == self.video_codecs
        &&& r.preferred_codec == self.preferred_codec
        &&& r.launch == match self.launch {
            TextArg::Text(text) => if text@.len() == 0 {
                None
            } else {
                Some(text)
            },
            _ => None,
        }
        &&& r.pin == self.pin
        &&& r.identity == if self.cert is Text {
            Some((self.cert->Text_0, self.key->Text_0))
        } else {
            None
        }
        &&& r.timeout_ms == self.timeout_ms
    }

    /// Turn the arguments into a request. Without a readable host, or with
    /// half an identity, there is none.
    pub fn request(self) -> (r: Option<ConnectRequest>)
        ensures
            r is Some <==> self.usable(),
            r matches Some(r) ==> self.makes(r),
    {
        let host: String = match self.host {
            TextArg::Text(host) => host,
            _ => return None,
        };
        let identity: Option<(String, String)> = match identity(self.cert, self.key) {
            Ok(identity) => identity,
            Err(_) => return None,
        };
        Some(
            ConnectRequest {
                host,
                port: self.port,
                mode: self.mode,
                compositor: compositor_pref(self.compositor),
                gamepad: gamepad_pref(self.gamepad),
                bitrate_kbps: self.bitrate_kbps,
                video_caps: self.video_caps,
                audio_channels: normalize_channels(self.audio_channels),
                video_codecs: self.video_codecs,
                preferred_codec: self.preferred_codec,
                launch: launch_id(self.launch),
                pin: self.pin,
                identity,
                timeout_ms: self.timeout_ms,
            },
        )
    }
}

/// What an argument that may not be missing gives.
pub open spec fn given(arg: TextArg) -> Result<String, PunktfunkStatus> {
    match arg {
        TextArg::Text(text) => Ok(text),
        _ => Err(PunktfunkStatus::NullPointer),
    }
}

/// A text that may not be missing.
pub fn required(arg: TextArg) -> (r: Result<String, PunktfunkStatus>)
    ensures
        r == given(arg),
        match arg {
            TextArg::Text(text) => r == Ok::<String, PunktfunkStatus>(text),
            _ => r == Err::<String, PunktfunkStatus>(PunktfunkStatus::NullPointer),
        },
{
    match arg {
        TextArg::Text(text) => Ok(text),
        _ => Err(PunktfunkStatus::NullPointer),
    }
}

/// `r` is what a caller's buffer of `cap` bytes takes of a text.
pub open spec fn ended(text: Seq<char>, cap: usize, r: Result<Vec<u8>, PunktfunkStatus>) -> bool {
    match r {
        Ok(bytes) => bytes@ == encode_utf8(text).push(0) && bytes@.len() <= cap,
        Err(e) => e == PunktfunkStatus::InvalidArg && encode_utf8(text).len() >= cap,
    }
}

/// A text with the zero that ends it, as a caller's buffer takes it. One that
/// does not fit is an error, never cut.
pub fn terminated(text: &str, cap: usize) -> (r: Result<Vec<u8>, PunktfunkStatus>)
    ensures
        ended(text@, cap, r),
        match r {
            Ok(bytes) => bytes@ == encode_utf8(text@).push(0) && bytes@.len() <= cap,
            Err(e) => e == PunktfunkStatus::InvalidArg && encode_utf8(text@).len() >= cap,
        },
{
    let mut bytes: Vec<u8> = text.as_bytes_vec();
    if bytes.len() >= cap {
        return Err(PunktfunkStatus::InvalidArg);
    }
    bytes.push(0);
    Ok(bytes)
}

/// `r` is what two buffers take of an identity's texts.
pub open spec fn both_ended(
    cert: Seq<char>,
    key: Seq<char>,
    cert_cap: usize,
    key_cap: usize,
    r: Result<(Vec<u8>, Vec<u8>), PunktfunkStatus>,
) -> bool {
    match r {
        Ok((c, k)) => ended(cert, cert_cap, Ok(c)) && ended(key, key_cap, Ok(k)),
        Err(e) => e == PunktfunkStatus::InvalidArg && (encode_utf8(cert).len() >= cert_cap
            || encode_utf8(key).len() >= key_cap),
    }
}

/// A fresh identity's two texts, as the caller's buffers take them: both or
/// neither.
pub fn identity_out(cert: &str, key: &str, cert_cap: usize, key_cap: usize) -> (r: Result<
    (Vec<u8>, Vec<u8>),
    PunktfunkStatus,
>)
    ensures
        both_ended(cert@, key@, cert_cap, key_cap, r),
        match r {
            Ok((c, k)) => c@ == encode_utf8(cert@).push(0) && k@ == encode_utf8(key@).push(0)
                && c@.len() <= cert_cap && k@.len() <= key_cap,
            Err(e) => e == PunktfunkStatus::InvalidArg && (encode_utf8(cert@).len() >= cert_cap
                || encode_utf8(key@).len() >= key_cap),
        },
{
    let c: Vec<u8> = match terminated(cert, cert_cap) {
        Ok(bytes) => bytes,
        Err(e) => return Err(e),
    };
    match terminated(key, key_cap) {
        Ok(k) => Ok((c, k)),
        Err(e) => Err(e),
    }
}

/// `r` are the network addresses in `bytes`.
pub open spec fn addresses(bytes: Seq<u8>, r: Result<Vec<[u8; 6]>, PunktfunkStatus>) -> bool {
    match r {
        Ok(macs) => {
            &&& macs@.len() > 0
            &&& macs@.len() == bytes.len() / 6
            &&& forall|i: int, j: int|
                0 <= i < macs@.len() && 0 <= j < 6 ==> #[trigger] macs@[i]@[j] == bytes[i * 6 + j]
        },
        Err(e) => e == PunktfunkStatus::InvalidArg && bytes.len() < 6,
    }
}

/// The network addresses in `bytes`, six bytes each. There must be one.
pub fn wake_addresses(bytes: &[u8]) -> (r: Result<Vec<[u8; 6]>, PunktfunkStatus>)
    ensures
        addresses(bytes@, r),
        match r {
            Ok(macs) => {
                &&& macs@.len() > 0
                &&& macs@.len() == bytes@.len() / 6
                &&& forall|i: int, j: int|
                    0 <= i < macs@.len() && 0 <= j < 6 ==> #[trigger] macs@[i]@[j] == bytes@[i * 6
                        + j]
            },
            Err(e) => e == PunktfunkStatus::InvalidArg && bytes@.len() < 6,
        },
{
    let count: usize = bytes.len() / 6;
    if count == 0 {
        return Err(PunktfunkStatus::InvalidArg);
    }
    let mut macs: Vec<[u8; 6]> = Vec::new();
    let mut i: usize = 0;
    while i < count
        invariant
            count == bytes@.len() / 6,
            bytes@.len() <= usize::MAX,
            i <= count,
            macs@.len() == i,
            forall|k: int, j: int|
                0 <= k < i && 0 <= j < 6 ==> #[trigger] macs@[k]@[j] == bytes@[k * 6 + j],
        decreases count - i,
    {
        let at: usize = i * 6;
        let mac: [u8; 6] = [
            bytes[at],
            bytes[at + 1],
            bytes[at + 2],
            bytes[at + 3],
            bytes[at + 4],
            bytes[at + 5],
        ];
        macs.push(mac);
        i = i + 1;
    }
    Ok(macs)
}

/// An audio packet's description. Its bytes stay with the connection.
#[derive(Clone, Copy, Debug, PartialEq, Eq, Structural)]
pub struct PunktfunkAudioPacket {
    pub len: usize,
    pub seq: u32,
    pub pts_ns: u64,
}

impl PunktfunkAudioPacket {
    /// The description of a packet.
    pub open spec fn described(packet: AudioPacket) -> PunktfunkAudioPacket {
        PunktfunkAudioPacket {
            len: packet.data@.len() as usize,
            seq: packet.seq,
            pts_ns: packet.pts_ns,
        }
    }

    pub fn of(packet: &AudioPacket) -> (out: PunktfunkAudioPacket)
        ensures
            out == PunktfunkAudioPacket::described(*packet),
            out.len == packet.data@.len(),
            out.seq == packet.seq,
            out.pts_ns == packet.pts_ns,
    {
        PunktfunkAudioPacket { len: packet.data.len(), seq: packet.seq, pts_ns: packet.pts_ns }
    }
}

/// A rumble lease as one number.
#[verifier::allow_in_spec]
pub fn rumble_ttl(ttl_ms: Option<u16>) -> u32
    returns
        (match ttl_ms {
            Some(ms) => ms as u32,
            None => PUNKTFUNK_RUMBLE_NO_TTL,
        }),
{
    match ttl_ms {
        Some(ms) => ms as u32,
        None => PUNKTFUNK_RUMBLE_NO_TTL,
    }
}

/// A lease can be told from the absence of one, and read back.
pub proof fn law_a_lease_reads_back(a: Option<u16>, b: Option<u16>)
    requires
        rumble_ttl(a) == rumble_ttl(b),
    ensures
        a == b,
{
}

/// A number asks for the preference it travels as, and any other, however
/// wide, leaves the choice to the host.
pub proof fn law_a_number_asks_for_its_preference(n: u32)
    ensures
        compositor_asked(0) == CompositorPref::Auto && compositor_asked(1) == CompositorPref::Kwin
            && compositor_asked(2) == CompositorPref::Wlroots && compositor_asked(3)
            == CompositorPref::Mutter && compositor_asked(4) == CompositorPref::Gamescope,
        n > 4 ==> compositor_asked(n) == CompositorPref::Auto,
        gamepad_asked(0) == GamepadPref::Auto && gamepad_asked(1) == GamepadPref::Xbox360
            && gamepad_asked(2) == GamepadPref::DualSense && gamepad_asked(3) == GamepadPref::XboxOne
            && gamepad_asked(4) == GamepadPref::DualShock4 && gamepad_asked(5)
            == GamepadPref::SteamController && gamepad_asked(6) == GamepadPref::SteamDeck,
        n > 6 ==> gamepad_asked(n) == GamepadPref::Auto,
{
}

/// A text that says something is launched; an empty one, a missing one and one
/// that cannot be read launch nothing. A text that may not be missing is
/// refused where it is.
pub proof fn law_a_text_is_taken_as_it_is(text: String)
    ensures
        text@.len() > 0 ==> launched(TextArg::Text(text)) == Some(text),
        text@.len() == 0 ==> launched(TextArg::Text(text)) is None,
        launched(TextArg::Absent) is None && launched(TextArg::Unreadable) is None,
        given(TextArg::Text(text)) == Ok::<String, PunktfunkStatus>(text),
        given(TextArg::Absent) == Err::<String, PunktfunkStatus>(PunktfunkStatus::NullPointer),
        given(TextArg::Unreadable) == Err::<String, PunktfunkStatus>(PunktfunkStatus::NullPointer),
{
}

/// An identity is both its parts, in their places, or none; half of one is
/// refused.
pub proof fn law_an_identity_is_whole(cert: TextArg, key: TextArg)
    ensures
        presented(cert, key) is Ok <==> (cert is Text && key is Text) || (cert is Absent && key
            is Absent),
        presented(cert, key) matches Ok(Some((c, k))) ==> cert == TextArg::Text(c) && key
            == TextArg::Text(k),
        cert is Text && key is Text ==> (presented(cert, key) matches Ok(id) && id is Some),
        cert is Absent && key is Absent ==> (presented(cert, key) matches Ok(id) && id is None),
        presented(cert, key) matches Err(e) ==> e == PunktfunkStatus::InvalidArg,
{
}

/// A request says what its arguments said: a host that can be read and a whole
/// identity make one, and nothing is lost on the way.
pub proof fn law_a_request_says_what_was_asked(args: ConnectArgs, r: ConnectRequest, host: String)
    requires
        args.usable(),
        args.makes(r),
        args.host == TextArg::Text(host),
    ensures
        r.host == host && r.port == args.port && r.mode == args.mode,
        r.compositor == compositor_asked(args.compositor) && r.gamepad == gamepad_asked(
            args.gamepad,
        ),
        r.bitrate_kbps == args.bitrate_kbps && r.video_caps == args.video_caps && r.video_codecs
            == args.video_codecs && r.preferred_codec == args.preferred_codec,
        args.audio_channels == 6 || args.audio_channels == 8 ==> r.audio_channels
            == args.audio_channels,
        args.audio_channels != 6 && args.audio_channels != 8 ==> r.audio_channels == 2,
        r.launch == launched(args.launch) && r.pin == args.pin && r.timeout_ms == args.timeout_ms,
        presented(args.cert, args.key) == Ok::<Option<(String, String)>, PunktfunkStatus>(
            r.identity,
        ),
        !(args.host is Text) ==> !args.usable(),
        presented(args.cert, args.key) is Err ==> !args.usable(),
{
}

/// A caller that says no more gets stereo, HEVC and the host's choice of all
/// the rest.
pub proof fn law_a_plain_caller_gets_the_defaults(
    host: TextArg,
    port: u16,
    mode: Mode,
    pin: Option<[u8; 32]>,
    cert: TextArg,
    key: TextArg,
    timeout_ms: u32,
)
    ensures
        ({
            let a = ConnectArgs::plain(host, port, mode, pin, cert, key, timeout_ms);
            &&& a.host == host && a.port == port && a.mode == mode && a.pin == pin && a.cert == cert
                && a.key == key && a.timeout_ms == timeout_ms
            &&& compositor_asked(a.compositor) == CompositorPref::Auto && gamepad_asked(a.gamepad)
                == GamepadPref::Auto
            &&& a.bitrate_kbps == 0 && a.video_caps == 0 && a.audio_channels == 2 && a.video_codecs
                == 2 && a.preferred_codec == 0 && launched(a.launch) is None
        }),
{
}

/// A text goes out whole with a zero behind it where both fit, and is refused
/// where they do not.
pub proof fn law_a_text_goes_out_whole(
    text: Seq<char>,
    cap: usize,
    r: Result<Vec<u8>, PunktfunkStatus>,
)
    requires
        ended(text, cap, r),
    ensures
        r is Ok <==> encode_utf8(text).len() + 1 <= cap,
        r matches Ok(bytes) ==> bytes@.len() == encode_utf8(text).len() + 1 && bytes@[bytes@.len()
            - 1] == 0 && bytes@.take(bytes@.len() - 1) == encode_utf8(text),
        r matches Err(e) ==> e == PunktfunkStatus::InvalidArg,
{
    if let Ok(bytes) = r {
        assert(bytes@.take(bytes@.len() - 1) =~= encode_utf8(text));
    }
}

/// Every six bytes are an address, in order; fewer than six are none.
pub proof fn law_addresses_are_six_bytes_each(
    bytes: Seq<u8>,
    r: Result<Vec<[u8; 6]>, PunktfunkStatus>,
    i: int,
    j: int,
)
    requires
        addresses(bytes, r),
    ensures
        r is Ok <==> bytes.len() >= 6,
        r matches Ok(macs) ==> macs@.len() * 6 <= bytes.len() < (macs@.len() + 1) * 6,
        r matches Ok(macs) ==> (0 <= i < macs@.len() && 0 <= j < 6 ==> macs@[i]@[j] == bytes[6 * i
            + j]),
        r matches Err(e) ==> e == PunktfunkStatus::InvalidArg,
{
}

/// An audio packet's description is the packet's own; a lease is its own
/// milliseconds, and none is told apart from the longest.
pub proof fn law_a_packet_and_a_lease_are_told(packet: AudioPacket, ms: u16)
    requires
        packet.data@.len() <= usize::MAX,
    ensures
        PunktfunkAudioPacket::described(packet).len == packet.data@.len(),
        PunktfunkAudioPacket::described(packet).seq == packet.seq,
        PunktfunkAudioPacket::described(packet).pts_ns == packet.pts_ns,
        rumble_ttl(Some(ms)) == ms,
        rumble_ttl(None) == 0xffff_ffff,
{
}

/// An identity's two texts go out together, each whole and in its own buffer,
/// or not at all.
pub proof fn law_an_identity_goes_out_together(
    cert: Seq<char>,
    key: Seq<char>,
    cert_cap: usize,
    key_cap: usize,
    r: Result<(Vec<u8>, Vec<u8>), PunktfunkStatus>,
)
    requires
        both_ended(cert, key, cert_cap, key_cap, r),
    ensures
        r is Ok <==> encode_utf8(cert).len() < cert_cap && encode_utf8(key).len() < key_cap,
        r matches Ok((c, k)) ==> c@ == encode_utf8(cert).push(0) && k@ == encode_utf8(key).push(0),
        r matches Err(e) ==> e == PunktfunkStatus::InvalidArg,
{
}

} // verus!
