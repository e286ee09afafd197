//! The media service: renting ports for calls, and describing them to the peers.
use crate::config::{AppConfig, AppConfigView};
use crate::sip::sdp::{audio_port, decode_lossy, first_audio_port, utf8_lossy};
use crate::text::lines_of;
use std::sync::Arc;
use vstd::prelude::*;

verus! {

/// How long the media service may take to rent a port.
pub const ALLOCATE_TIMEOUT_SECS: u64 = 3;

/// The metadata field that carries the call to the media service.
pub const TRACE_FIELD: &'static str = "x-trace-id";

/// A character that a metadata value may hold: a tab, or anything but a control character of
/// seven bits.
pub open spec fn is_metadata_char(c: char) -> bool {
    c == '\t' || (c as u32 >= 0x20 && c as u32 != 0x7f)
}

/// A text that a metadata value may hold.
pub open spec fn is_metadata_text(text: Seq<char>) -> bool {
    forall|i: int| 0 <= i < text.len() ==> is_metadata_char(#[trigger] text[i])
}

/// `MetadataValue::from_str` of tonic: it accepts the texts whose bytes are each a tab, or at
/// least 32 and not 127; a character of more than seven bits has only such bytes.
#[verifier::external_body]
fn metadata_accepts(text: &str) -> (r: bool)
    ensures
        r == is_metadata_text(text@),
{
    text.parse::<tonic::metadata::MetadataValue<tonic::metadata::Ascii>>().is_ok()
}

/// The value of the trace field for a call: the call, if metadata can carry it.
pub open spec fn trace_of(call_id: Seq<char>) -> Option<Seq<char>> {
    if is_metadata_text(call_id) {
        Some(call_id)
    } else {
        None
    }
}

pub open spec fn text_view(text: Option<String>) -> Option<Seq<char>> {
    match text {
        Some(t) => Some(t@),
        None => None,
    }
}

/// The value of the trace field for a call.
fn trace(call_id: &str) -> (r: Option<String>)
    ensures
        text_view(r) == trace_of(call_id@),
{
    if metadata_accepts(call_id) {
        Some(call_id.to_owned())
    } else {
        None
    }
}

/// A request to rent a port for a call.
#[derive(Debug, PartialEq, Eq)]
pub struct AllocatePortRequest {
    pub call_id: String,
    pub trace: Option<String>,
}

pub struct AllocatePortRequestView {
    pub call_id: Seq<char>,
    pub trace: Option<Seq<char>>,
}

impl View for AllocatePortRequest {
    type V = AllocatePortRequestView;

    open spec fn view(&self) -> AllocatePortRequestView {
        AllocatePortRequestView { call_id: self.call_id@, trace: text_view(self.trace) }
    }
}

/// A request to give a port back.
#[derive(Debug, PartialEq, Eq)]
pub struct ReleasePortRequest {
    pub rtp_port: u32,
    pub trace: Option<String>,
}

pub struct ReleasePortRequestView {
    pub rtp_port: u32,
    pub trace: Option<Seq<char>>,
}

impl View for ReleasePortRequest {
    type V = ReleasePortRequestView;

    open spec fn view(&self) -> ReleasePortRequestView {
        ReleasePortRequestView { rtp_port: self.rtp_port, trace: text_view(self.trace) }
    }
}

/// The request that rents a port for a call.
pub open spec fn allocation_of(call_id: Seq<char>) -> AllocatePortRequestView {
    AllocatePortRequestView { call_id, trace: trace_of(call_id) }
}

/// The request that gives a port of a call back.
pub open spec fn release_of(rtp_port: u32, call_id: Seq<char>) -> ReleasePortRequestView {
    ReleasePortRequestView { rtp_port, trace: trace_of(call_id) }
}

/// A codec of an audio profile.
#[derive(Debug, PartialEq, Eq)]
pub struct CodecConfig {
    pub payload_type: u8,
    pub name: String,
    pub rate: u32,
    pub fmtp: Option<String>,
}

pub struct CodecConfigView {
    pub payload_type: u8,
    pub name: Seq<char>,
    pub rate: u32,
    pub fmtp: Option<Seq<char>>,
}

impl View for CodecConfig {
    type V = CodecConfigView;

    open spec fn view(&self) -> CodecConfigView {
        CodecConfigView {
            payload_type: self.payload_type,
            name: self.name@,
            rate: self.rate,
            fmtp: text_view(self.fmtp),
        }
    }
}

impl Clone for CodecConfig {
    fn clone(&self) -> (r: Self)
        ensures
            r@ == self@,
    {
        CodecConfig {
            payload_type: self.payload_type,
            name: self.name.clone(),
            rate: self.rate,
            fmtp: match &self.fmtp {
                Some(parameters) => Some(parameters.clone()),
                None => None,
            },
        }
    }
}

/// The codecs, one by one.
pub open spec fn codecs_view(codecs: Seq<CodecConfig>) -> Seq<CodecConfigView> {
    codecs.map_values(|c: CodecConfig| c@)
}

/// The codecs that the platform speaks, in order of preference, and the packet time.
#[derive(Debug, PartialEq, Eq)]
pub struct AudioProfile {
    pub ptime: u8,
    pub codecs: Vec<CodecConfig>,
}

pub struct AudioProfileView {
    pub ptime: u8,
    pub codecs: Seq<CodecConfigView>,
}

impl View for AudioProfile {
    type V = AudioProfileView;

    open spec fn view(&self) -> AudioProfileView {
        AudioProfileView { ptime: self.ptime, codecs: codecs_view(self.codecs@) }
    }
}

/// What a session description is to say.
#[derive(Debug, PartialEq, Eq)]
pub struct SdpOffer {
    pub ip: String,
    pub port: u16,
    pub ptime: u8,
    pub rtcp: bool,
    pub codecs: Vec<CodecConfig>,
}

pub struct SdpOfferView {
    pub ip: Seq<char>,
    pub port: u16,
    pub ptime: u8,
    pub rtcp: bool,
    pub codecs: Seq<CodecConfigView>,
}

impl View for SdpOffer {
    type V = SdpOfferView;

    open spec fn view(&self) -> SdpOfferView {
        SdpOfferView {
            ip: self.ip@,
            port: self.port,
            ptime: self.ptime,
            rtcp: self.rtcp,
            codecs: codecs_view(self.codecs@),
        }
    }
}

/// What the description of a rented port says: the public address, the low sixteen bits of the
/// port, no RTCP, and the profile's codecs in their order.
pub open spec fn offer_of(
    config: AppConfigView,
    profile: AudioProfileView,
    rtp_port: u32,
) -> SdpOfferView {
    SdpOfferView {
        ip: config.public_ip,
        port: (rtp_port % 0x10000) as u16,
        ptime: profile.ptime,
        rtcp: false,
        codecs: profile.codecs,
    }
}

/// Rents and describes ports.
pub struct MediaManager {
    config: Arc<AppConfig>,
    profile: AudioProfile,
}

impl MediaManager {
    /// The configuration.
    pub closed spec fn config(&self) -> AppConfig {
        *self.config
    }

    /// The codecs that are offered.
    pub closed spec fn profile(&self) -> AudioProfile {
        self.profile
    }

    /// A manager that describes ports at the public address, with the codecs of the profile.
    pub fn new(config: Arc<AppConfig>, profile: AudioProfile) -> (r: Self)
        ensures
            r.config() == *config,
            r.profile() == profile,
    {
        MediaManager { config, profile }
    }

    /// The audio port that a session description gives.
    pub fn extract_port_from_sdp(&self, body: &[u8]) -> (r: Option<u16>)
        ensures
            r == first_audio_port(lines_of(utf8_lossy(body@))),
            vstd::utf8::valid_utf8(body@) ==> r == first_audio_port(
                lines_of(vstd::utf8::decode_utf8(body@)),
            ),
    {
        let text = decode_lossy(body);
        audio_port(text.as_str())
    }

    /// The request that rents a port for a call.
    pub fn allocate_port(&self, call_id: &str) -> (r: AllocatePortRequest)
        ensures
            r@ == allocation_of(call_id@),
    {
        AllocatePortRequest { call_id: call_id.to_owned(), trace: trace(call_id) }
    }

    /// The request that gives the port of a call back.
    pub fn release_port(&self, port: u32, call_id: &str) -> (r: ReleasePortRequest)
        ensures
            r@ == release_of(port, call_id@),
    {
        ReleasePortRequest { rtp_port: port, trace: trace(call_id) }
    }

    /// What the description of a rented port says.
    pub fn generate_sdp(&self, rtp_port: u32) -> (r: SdpOffer)
        ensures
            r@ == offer_of(self.config()@, self.profile()@, rtp_port),
    {
        let codecs = self.profile.codecs.clone();
        assert(codecs_view(codecs@) == codecs_view(self.profile.codecs@));
        SdpOffer {
            ip: self.config.public_ip.clone(),
            port: (rtp_port % 0x10000) as u16,
            ptime: self.profile.ptime,
            rtcp: false,
            codecs,
        }
    }
}

/// A port is rented for the call that asks, and the port that is given back is the one that is named;
/// both requests are traced by the call, where metadata can carry its name, and not at all elsewhere.
pub proof fn ports_are_asked_for_and_given_back_by_name(rtp_port: u32, call_id: Seq<char>)
    ensures
        allocation_of(call_id).call_id == call_id,
        release_of(rtp_port, call_id).rtp_port == rtp_port,
        is_metadata_text(call_id) ==> {
            &&& allocation_of(call_id).trace == Some(call_id)
            &&& release_of(rtp_port, call_id).trace == Some(call_id)
        },
        !is_metadata_text(call_id) ==> {
            &&& allocation_of(call_id).trace is None
            &&& release_of(rtp_port, call_id).trace is None
        },
{
}

/// Two ports that are given back are told apart.
pub proof fn ports_that_are_given_back_differ(a: u32, b: u32, call_id: Seq<char>)
    ensures
        release_of(a, call_id) == release_of(b, call_id) <==> a == b,
{
}

/// A description offers what the profile offers, codec by codec in its order and with its packet time,
/// at the public address and without RTCP, at a port that differs from the rented one by a multiple
/// of 65536 only.
pub proof fn offers_describe_the_rented_port(
    config: AppConfigView,
    profile: AudioProfileView,
    rtp_port: u32,
)
    ensures
        ({
            let offer = offer_of(config, profile, rtp_port);
            &&& offer.ip == config.public_ip
            &&& rtp_port <= 0xffff ==> offer.port == rtp_port
            &&& exists|k: int| rtp_port == offer.port + #[trigger] (k * 0x10000)
            &&& offer.ptime == profile.ptime
            &&& !offer.rtcp
            &&& offer.codecs.len() == profile.codecs.len()
            &&& forall|i: int|
                0 <= i < profile.codecs.len() ==> #[trigger] offer.codecs[i] == profile.codecs[i]
        }),
{
    let k: int = rtp_port as int / 0x10000;
    assert(rtp_port == offer_of(config, profile, rtp_port).port + k * 0x10000);
}

/// Requests, profiles and offers are seen whole.
pub proof fn media_is_seen_whole(
    allocation: AllocatePortRequest,
    release: ReleasePortRequest,
    profile: AudioProfile,
    offer: SdpOffer,
    codec: CodecConfig,
    text: String,
)
    ensures
        allocation@.call_id == allocation.call_id@,
        allocation@.trace == text_view(allocation.trace),
        release@.rtp_port == release.rtp_port,
        release@.trace == text_view(release.trace),
        text_view(Some(text)) == Some(text@),
        text_view(None) is None,
        profile@.ptime == profile.ptime,
        profile@.codecs == codecs_view(profile.codecs@),
        offer@.ip == offer.ip@,
        offer@.port == offer.port,
        offer@.ptime == offer.ptime,
        offer@.rtcp == offer.rtcp,
        offer@.codecs == codecs_view(offer.codecs@),
        codecs_view(offer.codecs@).len() == offer.codecs@.len(),
        forall|i: int|
            0 <= i < offer.codecs@.len() ==> #[trigger] codecs_view(offer.codecs@)[i] == offer.codecs@[i]@,
        codec@.payload_type == codec.payload_type,
        codec@.name == codec.name@,
        codec@.rate == codec.rate,
        codec@.fmtp == text_view(codec.fmtp),
{
}

} // verus!
