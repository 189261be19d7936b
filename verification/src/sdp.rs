//! Session descriptions: media lines, payload types and attributes, and the
//! edits a plugin makes to them before it answers an offer.

use crate::utils::{
    c_string_bytes, decimal_string, decimal_text, same_text, starts_with, terminated_prefix,
    utf8_text,
};
use std::collections::HashMap;
use vstd::prelude::*;
use vstd::string::*;
use vstd::utf8::*;

verus! {

/// The kind of media that a media line carries.
#[allow(non_camel_case_types)]
#[derive(Debug, Copy, Clone, PartialEq, Eq, Hash, Structural)]
pub enum janus_sdp_mtype {
    JANUS_SDP_AUDIO,
    JANUS_SDP_VIDEO,
    JANUS_SDP_APPLICATION,
    JANUS_SDP_OTHER,
}

pub type MediaType = janus_sdp_mtype;

/// The number by which Janus knows a kind of media.
pub open spec fn media_type_code(media: MediaType) -> int {
    match media {
        janus_sdp_mtype::JANUS_SDP_AUDIO => 0,
        janus_sdp_mtype::JANUS_SDP_VIDEO => 1,
        janus_sdp_mtype::JANUS_SDP_APPLICATION => 2,
        janus_sdp_mtype::JANUS_SDP_OTHER => 3,
    }
}

impl janus_sdp_mtype {
    /// The number by which Janus knows this kind of media.
    pub fn code(self) -> (code: u32)
        ensures
            code == media_type_code(self),
    {
        match self {
            janus_sdp_mtype::JANUS_SDP_AUDIO => 0,
            janus_sdp_mtype::JANUS_SDP_VIDEO => 1,
            janus_sdp_mtype::JANUS_SDP_APPLICATION => 2,
            janus_sdp_mtype::JANUS_SDP_OTHER => 3,
        }
    }

    /// The kind of media that Janus knows by `code`, if there is one.
    pub fn from_code(code: u32) -> (media: Option<MediaType>)
        ensures
            media is Some <==> code <= 3,
            media matches Some(m) ==> media_type_code(m) == code,
    {
        if code == 0 {
            Some(janus_sdp_mtype::JANUS_SDP_AUDIO)
        } else if code == 1 {
            Some(janus_sdp_mtype::JANUS_SDP_VIDEO)
        } else if code == 2 {
            Some(janus_sdp_mtype::JANUS_SDP_APPLICATION)
        } else if code == 3 {
            Some(janus_sdp_mtype::JANUS_SDP_OTHER)
        } else {
            None
        }
    }
}

/// The direction in which media flows on a media line.
#[allow(non_camel_case_types)]
#[derive(Debug, Copy, Clone, PartialEq, Eq, Hash, Structural)]
pub enum janus_sdp_mdirection {
    JANUS_SDP_DEFAULT,
    JANUS_SDP_SENDRECV,
    JANUS_SDP_SENDONLY,
    JANUS_SDP_RECVONLY,
    JANUS_SDP_INACTIVE,
    JANUS_SDP_INVALID,
}

pub type MediaDirection = janus_sdp_mdirection;

/// The number by which Janus knows a direction.
pub open spec fn media_direction_code(direction: MediaDirection) -> int {
    match direction {
        janus_sdp_mdirection::JANUS_SDP_DEFAULT => 0,
        janus_sdp_mdirection::JANUS_SDP_SENDRECV => 1,
        janus_sdp_mdirection::JANUS_SDP_SENDONLY => 2,
        janus_sdp_mdirection::JANUS_SDP_RECVONLY => 3,
        janus_sdp_mdirection::JANUS_SDP_INACTIVE => 4,
        janus_sdp_mdirection::JANUS_SDP_INVALID => 5,
    }
}

impl janus_sdp_mdirection {
    /// The number by which Janus knows this direction.
    pub fn code(self) -> (code: u32)
        ensures
            code == media_direction_code(self),
    {
        match self {
            janus_sdp_mdirection::JANUS_SDP_DEFAULT => 0,
            janus_sdp_mdirection::JANUS_SDP_SENDRECV => 1,
            janus_sdp_mdirection::JANUS_SDP_SENDONLY => 2,
            janus_sdp_mdirection::JANUS_SDP_RECVONLY => 3,
            janus_sdp_mdirection::JANUS_SDP_INACTIVE => 4,
            janus_sdp_mdirection::JANUS_SDP_INVALID => 5,
        }
    }

    /// The direction that Janus knows by `code`, if there is one.
    pub fn from_code(code: u32) -> (direction: Option<MediaDirection>)
        ensures
            direction is Some <==> code <= 5,
            direction matches Some(d) ==> media_direction_code(d) == code,
    {
        if code == 0 {
            Some(janus_sdp_mdirection::JANUS_SDP_DEFAULT)
        } else if code == 1 {
            Some(janus_sdp_mdirection::JANUS_SDP_SENDRECV)
        } else if code == 2 {
            Some(janus_sdp_mdirection::JANUS_SDP_SENDONLY)
        } else if code == 3 {
            Some(janus_sdp_mdirection::JANUS_SDP_RECVONLY)
        } else if code == 4 {
            Some(janus_sdp_mdirection::JANUS_SDP_INACTIVE)
        } else if code == 5 {
            Some(janus_sdp_mdirection::JANUS_SDP_INVALID)
        } else {
            None
        }
    }
}

/// Available Janus audio codecs.
#[derive(Debug, Copy, Clone, PartialEq, Eq, Hash, Structural)]
pub enum AudioCodec {
    Opus,
    Pcmu,
    Pcma,
    G722,
    Isac16,
    Isac32,
}

/// The name by which Janus knows an audio codec.
pub open spec fn audio_codec_name(codec: AudioCodec) -> Seq<char> {
    match codec {
        AudioCodec::Opus => "opus"@,
        AudioCodec::Pcmu => "pcmu"@,
        AudioCodec::Pcma => "pcma"@,
        AudioCodec::G722 => "g722"@,
        AudioCodec::Isac16 => "isac16"@,
        AudioCodec::Isac32 => "isac32"@,
    }
}

impl AudioCodec {
    /// The name by which Janus knows this codec.
    pub fn to_str(self) -> (name: &'static str)
        ensures
            name@ == audio_codec_name(self),
    {
        match self {
            AudioCodec::Opus => "opus",
            AudioCodec::Pcmu => "pcmu",
            AudioCodec::Pcma => "pcma",
            AudioCodec::G722 => "g722",
            AudioCodec::Isac16 => "isac16",
            AudioCodec::Isac32 => "isac32",
        }
    }
}

/// Available Janus video codecs.
#[derive(Debug, Copy, Clone, PartialEq, Eq, Hash, Structural)]
pub enum VideoCodec {
    Vp8,
    Vp9,
    H264,
    Av1,
    H265,
}

/// The name by which Janus knows a video codec.
pub open spec fn video_codec_name(codec: VideoCodec) -> Seq<char> {
    match codec {
        VideoCodec::Vp8 => "vp8"@,
        VideoCodec::Vp9 => "vp9"@,
        VideoCodec::H264 => "h264"@,
        VideoCodec::Av1 => "av1"@,
        VideoCodec::H265 => "h265"@,
    }
}

impl VideoCodec {
    /// The name by which Janus knows this codec.
    pub fn to_str(self) -> (name: &'static str)
        ensures
            name@ == video_codec_name(self),
    {
        match self {
            VideoCodec::Vp8 => "vp8",
            VideoCodec::Vp9 => "vp9",
            VideoCodec::H264 => "h264",
            VideoCodec::Av1 => "av1",
            VideoCodec::H265 => "h265",
        }
    }
}

/// Parameters controlling SDP offer answering behavior: the keys of the
/// list of parameters from which Janus generates an offer or an answer.
#[derive(Debug, Copy, Clone, PartialEq, Eq, Hash, Structural)]
pub enum OfferAnswerParameters {
    /// Used to signal the end of the offer-answer parameter list.
    Done,
    /// Whether to accept or reject audio.
    Audio,
    /// Whether to accept or reject video.
    Video,
    /// Whether to accept or reject data.
    Data,
    /// The MediaDirection for the audio stream.
    AudioDirection,
    /// The MediaDirection for the video stream.
    VideoDirection,
    /// The AudioCodec for the audio stream.
    AudioCodec,
    /// The VideoCodec for the video stream.
    VideoCodec,
    /// Use this profile for VP9.
    Vp9Profile,
    /// Use this profile for H.264.
    H264Profile,
    /// The payload type for the audio stream.
    AudioPayloadType,
    /// The payload type for the video stream.
    VideoPayloadType,
    /// Whether to negotiate telephone events.
    AudioDtmf,
    /// Add a custom fmtp string for audio.
    AudioFmtp,
    /// Add a custom fmtp string for video.
    VideoFmtp,
    /// Whether to add RTCP-FB attributes.
    VideoRtcpfbDefaults,
    DataLegacy,
    AudioExtension,
    VideoExtension,
    AcceptExtmap,
}

/// The number by which Janus knows a parameter: they count up from 0 for
/// `Done` in the order in which they are declared.
pub open spec fn offer_answer_code(parameter: OfferAnswerParameters) -> int {
    match parameter {
        OfferAnswerParameters::Done => 0,
        OfferAnswerParameters::Audio => 1,
        OfferAnswerParameters::Video => 2,
        OfferAnswerParameters::Data => 3,
        OfferAnswerParameters::AudioDirection => 4,
        OfferAnswerParameters::VideoDirection => 5,
        OfferAnswerParameters::AudioCodec => 6,
        OfferAnswerParameters::VideoCodec => 7,
        OfferAnswerParameters::Vp9Profile => 8,
        OfferAnswerParameters::H264Profile => 9,
        OfferAnswerParameters::AudioPayloadType => 10,
        OfferAnswerParameters::VideoPayloadType => 11,
        OfferAnswerParameters::AudioDtmf => 12,
        OfferAnswerParameters::AudioFmtp => 13,
        OfferAnswerParameters::VideoFmtp => 14,
        OfferAnswerParameters::VideoRtcpfbDefaults => 15,
        OfferAnswerParameters::DataLegacy => 16,
        OfferAnswerParameters::AudioExtension => 17,
        OfferAnswerParameters::VideoExtension => 18,
        OfferAnswerParameters::AcceptExtmap => 19,
    }
}

impl OfferAnswerParameters {
    /// The number by which Janus knows this parameter.
    pub fn code(self) -> (code: i32)
        ensures
            code == offer_answer_code(self),
    {
        match self {
            OfferAnswerParameters::Done => 0,
            OfferAnswerParameters::Audio => 1,
            OfferAnswerParameters::Video => 2,
            OfferAnswerParameters::Data => 3,
            OfferAnswerParameters::AudioDirection => 4,
            OfferAnswerParameters::VideoDirection => 5,
            OfferAnswerParameters::AudioCodec => 6,
            OfferAnswerParameters::VideoCodec => 7,
            OfferAnswerParameters::Vp9Profile => 8,
            OfferAnswerParameters::H264Profile => 9,
            OfferAnswerParameters::AudioPayloadType => 10,
            OfferAnswerParameters::VideoPayloadType => 11,
            OfferAnswerParameters::AudioDtmf => 12,
            OfferAnswerParameters::AudioFmtp => 13,
            OfferAnswerParameters::VideoFmtp => 14,
            OfferAnswerParameters::VideoRtcpfbDefaults => 15,
            OfferAnswerParameters::DataLegacy => 16,
            OfferAnswerParameters::AudioExtension => 17,
            OfferAnswerParameters::VideoExtension => 18,
            OfferAnswerParameters::AcceptExtmap => 19,
        }
    }
}

/// An error indicating that an SDP could not be parsed: it holds the
/// message that the parser left.
#[derive(Debug, Clone)]
pub struct SdpParseError {
    buffer: Vec<u8>,
}

/// The description of a parse error whose message is not text.
pub open spec fn unreadable_message() -> Seq<char> {
    "SDP parsing failed, but the error was not valid UTF-8 :("@
}

impl View for SdpParseError {
    type V = Seq<u8>;

    closed spec fn view(&self) -> Seq<u8> {
        self.buffer@
    }
}

impl SdpParseError {
    /// The error whose message is the terminated string at the start of
    /// `buffer`, the buffer that the parser wrote its message to.
    pub fn from_buffer(buffer: &[u8]) -> (error: SdpParseError)
        ensures
            error@ == terminated_prefix(buffer@),
    {
        SdpParseError { buffer: c_string_bytes(buffer) }
    }

    /// The message of the parser where it is text, and a fixed sentence
    /// where it is not.
    pub fn description(&self) -> (text: String)
        ensures
            text@ == if valid_utf8(self@) {
                decode_utf8(self@)
            } else {
                unreadable_message()
            },
    {
        match utf8_text(self.buffer.as_slice()) {
            Some(text) => text,
            None => String::from_str("SDP parsing failed, but the error was not valid UTF-8 :("),
        }
    }
}

/// The payload type that a lookup by codec answered with `code`: Janus
/// answers with a negative number where the codec is not in the SDP.
pub fn payload_type_of_code(code: i32) -> (pt: Option<i32>)
    ensures
        pt == if code < 0 {
            None
        } else {
            Some(code)
        },
{
    if code < 0 {
        None
    } else {
        Some(code)
    }
}

/// One attribute of a media line, such as `rtpmap:96 opus/48000/2`.
#[derive(Debug)]
pub struct Attribute {
    pub name: String,
    pub value: String,
}

/// What an attribute holds.
pub ghost struct AttributeView {
    pub name: Seq<char>,
    pub value: Seq<char>,
}

impl View for Attribute {
    type V = AttributeView;

    open spec fn view(&self) -> AttributeView {
        AttributeView { name: self.name@, value: self.value@ }
    }
}

impl Attribute {
    /// A copy of this attribute.
    pub fn duplicate(&self) -> (copy: Attribute)
        ensures
            copy@ == self@,
    {
        Attribute { name: self.name.clone(), value: self.value.clone() }
    }
}

/// One media line of a session description: its kind, its payload types in
/// the order listed, and its attributes in the order listed.
#[derive(Debug)]
pub struct MediaLine {
    pub media: MediaType,
    pub ptypes: Vec<i32>,
    pub attributes: Vec<Attribute>,
}

/// What a media line holds.
pub ghost struct MediaLineView {
    pub media: MediaType,
    pub ptypes: Seq<i32>,
    pub attributes: Seq<AttributeView>,
}

/// The contents of a list of attributes.
pub open spec fn attribute_views(attributes: Seq<Attribute>) -> Seq<AttributeView> {
    Seq::new(attributes.len(), |i: int| attributes[i]@)
}

impl View for MediaLine {
    type V = MediaLineView;

    open spec fn view(&self) -> MediaLineView {
        MediaLineView {
            media: self.media,
            ptypes: self.ptypes@,
            attributes: attribute_views(self.attributes@),
        }
    }
}

/// Whether an attribute of this name starts its value with a payload type:
/// `rtpmap`, `fmtp` and `rtcp-fb` do.
pub open spec fn is_payload_attribute(name: Seq<char>) -> bool {
    name == "rtpmap"@ || name == "fmtp"@ || name == "rtcp-fb"@
}

/// Whether `attribute` is taken to speak of payload type `pt`: its name is
/// one of the payload attributes and its value begins with the decimal text
/// of `pt`.
pub open spec fn refers_to_payload(attribute: AttributeView, pt: int) -> bool {
    is_payload_attribute(attribute.name) && decimal_text(pt).is_prefix_of(attribute.value)
}

/// `attribute` with the leading payload type `from` of its value replaced by `to`.
pub open spec fn retarget(attribute: AttributeView, from: int, to: int) -> AttributeView {
    AttributeView {
        name: attribute.name,
        value: decimal_text(to) + attribute.value.skip(decimal_text(from).len() as int),
    }
}

/// The predicate "speaks of payload type `pt`".
pub open spec fn referring(pt: int) -> spec_fn(AttributeView) -> bool {
    |a: AttributeView| refers_to_payload(a, pt)
}

/// The predicate "does not speak of payload type `pt`".
pub open spec fn not_referring(pt: int) -> spec_fn(AttributeView) -> bool {
    |a: AttributeView| !refers_to_payload(a, pt)
}

/// The function that retargets an attribute from `from` to `to`.
pub open spec fn retargeting(from: int, to: int) -> spec_fn(AttributeView) -> AttributeView {
    |a: AttributeView| retarget(a, from, to)
}

/// The attributes of a media line after payload type `from` became `to`:
/// those that spoke of `from` come first, retargeted, the last of them
/// foremost; the others follow in their old order.
pub open spec fn rewrite_attributes(attributes: Seq<AttributeView>, from: int, to: int) -> Seq<
    AttributeView,
> {
    attributes.filter(referring(from)).map_values(retargeting(from, to)).reverse()
        + attributes.filter(not_referring(from))
}

/// The payload types of a media line after `from` became `to`: where `from`
/// is listed, its first occurrence leaves and `to` is put at the front.
pub open spec fn rewrite_ptypes(ptypes: Seq<i32>, from: i32, to: i32) -> Seq<i32> {
    if ptypes.contains(from) {
        seq![to] + ptypes.remove_value(from)
    } else {
        ptypes
    }
}

/// A media line after payload type `from` became `to`.
pub open spec fn rewrite_line(line: MediaLineView, from: i32, to: i32) -> MediaLineView {
    MediaLineView {
        media: line.media,
        ptypes: rewrite_ptypes(line.ptypes, from, to),
        attributes: rewrite_attributes(line.attributes, from as int, to as int),
    }
}

/// Reversing a sequence that grew by one element at its end puts that
/// element first.
proof fn lemma_reverse_push<A>(s: Seq<A>, x: A)
    ensures
        s.push(x).reverse() == seq![x] + s.reverse(),
{
    assert(s.push(x).reverse() =~= seq![x] + s.reverse());
}

/// How `rewrite_attributes` treats one more attribute at the end.
proof fn lemma_rewrite_attributes_push(s: Seq<AttributeView>, x: AttributeView, from: int, to: int)
    ensures
        rewrite_attributes(s.push(x), from, to) == if refers_to_payload(x, from) {
            seq![retarget(x, from, to)] + rewrite_attributes(s, from, to)
        } else {
            rewrite_attributes(s, from, to).push(x)
        },
{
    s.lemma_filter_push(x, referring(from));
    s.lemma_filter_push(x, not_referring(from));
    let hit = s.filter(referring(from));
    let miss = s.filter(not_referring(from));
    if refers_to_payload(x, from) {
        hit.lemma_push_map_commute(retargeting(from, to), x);
        lemma_reverse_push(hit.map_values(retargeting(from, to)), retarget(x, from, to));
        assert(rewrite_attributes(s.push(x), from, to) =~= seq![retarget(x, from, to)]
            + rewrite_attributes(s, from, to));
    } else {
        assert(rewrite_attributes(s.push(x), from, to) =~= rewrite_attributes(s, from, to).push(
            x,
        ));
    }
}

/// Whether `name` is one of the attributes whose value starts with a payload type.
pub fn names_payload_attribute(name: &str) -> (yes: bool)
    ensures
        yes == is_payload_attribute(name@),
{
    same_text(name, "rtpmap") || same_text(name, "fmtp") || same_text(name, "rtcp-fb")
}

impl Attribute {
    /// This attribute with the payload type `from`, which its value begins
    /// with, replaced by `to`, if this attribute speaks of `from`.
    pub fn retargeted(&self, from: i32, to: i32) -> (moved: Option<Attribute>)
        ensures
            moved is Some <==> refers_to_payload(self@, from as int),
            moved matches Some(m) ==> m@ == retarget(self@, from as int, to as int),
    {
        let from_text = decimal_string(from);
        if names_payload_attribute(self.name.as_str()) && starts_with(
            self.value.as_str(),
            from_text.as_str(),
        ) {
            let from_len = from_text.as_str().unicode_len();
            let total = self.value.as_str().unicode_len();
            let rest = self.value.as_str().substring_char(from_len, total);
            let mut value = decimal_string(to);
            value.append(rest);
            let moved = Attribute { name: self.name.clone(), value };
            assert(moved@.value =~= retarget(self@, from as int, to as int).value);
            Some(moved)
        } else {
            None
        }
    }
}

impl MediaLine {
    /// Whether this media line lists payload type `pt`.
    pub fn has_payload_type(&self, pt: i32) -> (found: bool)
        ensures
            found == self@.ptypes.contains(pt),
    {
        let mut i: usize = 0;
        while i < self.ptypes.len()
            invariant
                i <= self.ptypes.len(),
                forall|j: int| 0 <= j < i ==> self.ptypes@[j] != pt,
            decreases self.ptypes.len() - i,
        {
            if self.ptypes[i] == pt {
                return true;
            }
            i += 1;
        }
        false
    }

    /// Adds `attribute` after the attributes that this media line has.
    pub fn push_attribute(&mut self, attribute: Attribute)
        ensures
            final(self)@ == (MediaLineView {
                media: old(self)@.media,
                ptypes: old(self)@.ptypes,
                attributes: old(self)@.attributes.push(attribute@),
            }),
    {
        self.attributes.push(attribute);
        assert(attribute_views(self.attributes@) =~= attribute_views(old(self).attributes@).push(
            attribute@,
        ));
    }

    /// Rewrites every reference to payload type `from` in this media line
    /// into a reference to `to`.
    pub fn rewrite_payload_type(&mut self, from: i32, to: i32)
        ensures
            final(self)@ == rewrite_line(old(self)@, from, to),
    {
        let mut i: usize = 0;
        let mut at: Option<usize> = None;
        while i < self.ptypes.len() && at.is_none()
            invariant
                i <= self.ptypes.len(),
                *self == *old(self),
                at matches Some(k) ==> k < self.ptypes.len() && self.ptypes@[k as int] == from
                    && forall|j: int| 0 <= j < k ==> self.ptypes@[j] != from,
                at is None ==> forall|j: int| 0 <= j < i ==> self.ptypes@[j] != from,
            decreases self.ptypes.len() - i + (if at is None { 1int } else { 0int }),
        {
            if self.ptypes[i] == from {
                at = Some(i);
            } else {
                i += 1;
            }
        }
        proof {
            old(self).ptypes@.index_of_first_ensures(from);
        }
        if let Some(k) = at {
            self.ptypes.remove(k);
            self.ptypes.insert(0, to);
            assert(self.ptypes@ =~= rewrite_ptypes(old(self).ptypes@, from, to));
        }
        let ghost before = attribute_views(old(self).attributes@);
        let mut out: Vec<Attribute> = Vec::new();
        let mut n: usize = 0;
        assert(rewrite_attributes(before.take(0), from as int, to as int)
            =~= Seq::<AttributeView>::empty()) by {
            reveal_with_fuel(Seq::filter, 1);
        }
        while n < self.attributes.len()
            invariant
                n <= self.attributes.len(),
                self.attributes == old(self).attributes,
                self.media == old(self).media,
                self.ptypes@ == rewrite_ptypes(old(self).ptypes@, from, to),
                before == attribute_views(self.attributes@),
                attribute_views(out@) == rewrite_attributes(
                    before.take(n as int),
                    from as int,
                    to as int,
                ),
            decreases self.attributes.len() - n,
        {
            let current = &self.attributes[n];
            let ghost prior = out@;
            proof {
                assert(before.take(n + 1) =~= before.take(n as int).push(current@));
                lemma_rewrite_attributes_push(
                    before.take(n as int),
                    current@,
                    from as int,
                    to as int,
                );
            }
            match current.retargeted(from, to) {
                Some(moved) => {
                    out.insert(0, moved);
                    assert(attribute_views(out@) =~= seq![moved@] + attribute_views(prior));
                },
                None => {
                    let same = current.duplicate();
                    out.push(same);
                    assert(attribute_views(out@) =~= attribute_views(prior).push(same@));
                },
            }
            n += 1;
        }
        assert(before.take(n as int) =~= before);
        self.attributes = out;
    }
}

/// A media line after `attribute` was added for payload type `pt`: a line
/// that lists `pt` has it as its last attribute, any other line is unchanged.
pub open spec fn add_attribute_to_line(
    line: MediaLineView,
    pt: i32,
    attribute: AttributeView,
) -> MediaLineView {
    if line.ptypes.contains(pt) {
        MediaLineView {
            media: line.media,
            ptypes: line.ptypes,
            attributes: line.attributes.push(attribute),
        }
    } else {
        line
    }
}

/// The positions `0`, `1`, ... up to `n`, not included.
pub open spec fn line_indices(n: nat) -> Seq<usize> {
    Seq::new(n, |i: int| i as usize)
}

/// The predicate "the media line at this position carries `media`".
pub open spec fn carrying(lines: Seq<MediaLineView>, media: MediaType) -> spec_fn(usize) -> bool {
    |p: usize| lines[p as int].media == media
}

/// The positions, in rising order, of those of the first `upto` media
/// lines that carry `media`.
pub open spec fn positions_of(lines: Seq<MediaLineView>, media: MediaType, upto: nat) -> Seq<
    usize,
> {
    line_indices(upto).filter(carrying(lines, media))
}

/// Whether `groups` holds, under the number of `media`, exactly the
/// positions of those of the first `upto` media lines that carry it, and
/// nothing under that number where none does.
pub open spec fn groups_media(
    groups: Map<u32, Vec<usize>>,
    lines: Seq<MediaLineView>,
    media: MediaType,
    upto: nat,
) -> bool {
    let key = media_type_code(media) as u32;
    if positions_of(lines, media, upto).len() == 0 {
        !groups.contains_key(key)
    } else {
        groups.contains_key(key) && groups[key]@ == positions_of(lines, media, upto)
    }
}

/// Whether `groups` is the grouping by kind of media of the first `upto`
/// media lines: each kind that occurs has the positions of its lines, in
/// rising order, and no other number is a key.
pub open spec fn groups_lines(
    groups: Map<u32, Vec<usize>>,
    lines: Seq<MediaLineView>,
    upto: nat,
) -> bool {
    &&& groups_media(groups, lines, janus_sdp_mtype::JANUS_SDP_AUDIO, upto)
    &&& groups_media(groups, lines, janus_sdp_mtype::JANUS_SDP_VIDEO, upto)
    &&& groups_media(groups, lines, janus_sdp_mtype::JANUS_SDP_APPLICATION, upto)
    &&& groups_media(groups, lines, janus_sdp_mtype::JANUS_SDP_OTHER, upto)
    &&& forall|key: u32| groups.contains_key(key) ==> key <= 3
}

/// How the positions of a kind of media grow with one more media line.
proof fn lemma_positions_step(lines: Seq<MediaLineView>, media: MediaType, upto: nat)
    requires
        upto < lines.len(),
        upto < usize::MAX,
    ensures
        positions_of(lines, media, upto + 1) == if lines[upto as int].media == media {
            positions_of(lines, media, upto).push(upto as usize)
        } else {
            positions_of(lines, media, upto)
        },
{
    assert(line_indices(upto + 1) =~= line_indices(upto).push(upto as usize));
    line_indices(upto).lemma_filter_push(upto as usize, carrying(lines, media));
}

/// A session description: its media lines in the order listed.
#[derive(Debug)]
pub struct Sdp {
    pub m_lines: Vec<MediaLine>,
}

impl View for Sdp {
    type V = Seq<MediaLineView>;

    open spec fn view(&self) -> Seq<MediaLineView> {
        Seq::new(self.m_lines@.len(), |i: int| self.m_lines@[i]@)
    }
}

impl Sdp {
    /// Adds the attribute `name` with value `contents` to every media line
    /// that lists payload type `pt`.
    pub fn add_attribute(&mut self, pt: i32, name: &str, contents: &str)
        ensures
            final(self)@.len() == old(self)@.len(),
            forall|i: int|
                0 <= i < old(self)@.len() ==> #[trigger] final(self)@[i] == add_attribute_to_line(
                    old(self)@[i],
                    pt,
                    AttributeView { name: name@, value: contents@ },
                ),
    {
        let ghost added = AttributeView { name: name@, value: contents@ };
        let mut i: usize = 0;
        while i < self.m_lines.len()
            invariant
                i <= self.m_lines.len(),
                self.m_lines.len() == old(self).m_lines.len(),
                added == (AttributeView { name: name@, value: contents@ }),
                forall|j: int|
                    0 <= j < i ==> (#[trigger] self.m_lines@[j])@ == add_attribute_to_line(
                        old(self).m_lines@[j]@,
                        pt,
                        added,
                    ),
                forall|j: int|
                    i <= j < self.m_lines.len() ==> #[trigger] self.m_lines@[j] == old(
                        self,
                    ).m_lines@[j],
            decreases self.m_lines.len() - i,
        {
            if self.m_lines[i].has_payload_type(pt) {
                let attribute = Attribute {
                    name: String::from_str(name),
                    value: String::from_str(contents),
                };
                self.m_lines[i].push_attribute(attribute);
            }
            i += 1;
        }
    }

    /// Rewrites every reference to payload type `from` in this session
    /// description into a reference to `to`, media line by media line.
    pub fn rewrite_payload_type(&mut self, from: i32, to: i32)
        ensures
            final(self)@.len() == old(self)@.len(),
            forall|i: int|
                0 <= i < old(self)@.len() ==> #[trigger] final(self)@[i] == rewrite_line(
                    old(self)@[i],
                    from,
                    to,
                ),
    {
        let mut i: usize = 0;
        while i < self.m_lines.len()
            invariant
                i <= self.m_lines.len(),
                self.m_lines.len() == old(self).m_lines.len(),
                forall|j: int|
                    0 <= j < i ==> (#[trigger] self.m_lines@[j])@ == rewrite_line(
                        old(self).m_lines@[j]@,
                        from,
                        to,
                    ),
                forall|j: int|
                    i <= j < self.m_lines.len() ==> #[trigger] self.m_lines@[j] == old(
                        self,
                    ).m_lines@[j],
            decreases self.m_lines.len() - i,
        {
            self.m_lines[i].rewrite_payload_type(from, to);
            i += 1;
        }
    }

    /// The media lines of this session description by kind of media: under
    /// the number of each kind that occurs, the positions of its lines.
    pub fn get_mlines(&self) -> (groups: HashMap<u32, Vec<usize>>)
        ensures
            groups_lines(groups@, self@, self@.len()),
    {
        broadcast use vstd::std_specs::hash::group_hash_axioms;

        let mut groups: HashMap<u32, Vec<usize>> = HashMap::new();
        let mut i: usize = 0;
        assert(forall|media: MediaType| positions_of(self@, media, 0) =~= Seq::<usize>::empty()) by {
            reveal_with_fuel(Seq::filter, 1);
        }
        while i < self.m_lines.len()
            invariant
                i <= self.m_lines.len(),
                groups_lines(groups@, self@, i as nat),
            decreases self.m_lines.len() - i,
        {
            let media = self.m_lines[i].media;
            let key = media.code();
            proof {
                lemma_positions_step(self@, janus_sdp_mtype::JANUS_SDP_AUDIO, i as nat);
                lemma_positions_step(self@, janus_sdp_mtype::JANUS_SDP_VIDEO, i as nat);
                lemma_positions_step(self@, janus_sdp_mtype::JANUS_SDP_APPLICATION, i as nat);
                lemma_positions_step(self@, janus_sdp_mtype::JANUS_SDP_OTHER, i as nat);
            }
            let mut group = match groups.remove(&key) {
                Some(group) => group,
                None => Vec::new(),
            };
            assert(group@ == positions_of(self@, media, i as nat));
            group.push(i);
            groups.insert(key, group);
            i += 1;
        }
        groups
    }
}

} // verus!
