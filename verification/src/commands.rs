//! The typed device command and response model: request shapes with their
//! literal wire command names, enumerated fields with their stable wire
//! mappings, the device's integer boolean encoding, and strict response
//! decoding.

use crate::encoding::base64_encode;
use crate::encoding::serialize_frame;
use crate::frame::Frame;
use vstd::prelude::*;

verus! {

/// Animation generation identifier used for every multi-frame upload.
pub const ANIMATION_PIC_ID: u8 = 1;

/// Inter-frame display duration in milliseconds for multi-frame uploads.
pub const ANIMATION_PIC_SPEED: u32 = 100;

/// A response field that does not follow the wire contract.
#[derive(Clone, Copy, PartialEq, Eq, Structural, Debug)]
pub enum DecodeError {
    /// A boolean field held an integer other than 0 or 1.
    InvalidBoolean,
    /// A channel field held an ordinal outside the channel list.
    InvalidChannel,
    /// A rotation field held an ordinal outside the rotation list.
    InvalidRotation,
    /// A numeric field did not fit its declared width.
    ValueOutOfRange,
}

/// The device's top-level display mode. Transmitted as its zero-based
/// position in this fixed, append-only list.
#[derive(Clone, Copy, PartialEq, Eq, Structural, Debug)]
pub enum Channel {
    Faces,
    Cloud,
    Visualizer,
    Custom,
    BlackScreen,
}

/// The stable wire ordinal of a channel.
pub open spec fn spec_channel_ordinal(c: Channel) -> u8 {
    match c {
        Channel::Faces => 0,
        Channel::Cloud => 1,
        Channel::Visualizer => 2,
        Channel::Custom => 3,
        Channel::BlackScreen => 4,
    }
}

/// The wire ordinal of a channel.
pub fn channel_ordinal(c: Channel) -> (r: u8)
    ensures
        r == spec_channel_ordinal(c),
{
    match c {
        Channel::Faces => 0,
        Channel::Cloud => 1,
        Channel::Visualizer => 2,
        Channel::Custom => 3,
        Channel::BlackScreen => 4,
    }
}

/// Strictly decode a channel ordinal: exactly the ordinals 0 through 4
/// are accepted.
pub fn channel_from_ordinal(v: u64) -> (r: Result<Channel, DecodeError>)
    ensures
        v <= 4 ==> (r matches Ok(c) && spec_channel_ordinal(c) == v),
        v > 4 ==> r == Err::<Channel, DecodeError>(DecodeError::InvalidChannel),
{
    match v {
        0 => Ok(Channel::Faces),
        1 => Ok(Channel::Cloud),
        2 => Ok(Channel::Visualizer),
        3 => Ok(Channel::Custom),
        4 => Ok(Channel::BlackScreen),
        _ => Err(DecodeError::InvalidChannel),
    }
}

/// Clockwise display rotation. Transmitted as its zero-based position in
/// this fixed, append-only list.
#[derive(Clone, Copy, PartialEq, Eq, Structural, Debug)]
pub enum RotationAngle {
    Normal,
    Clockwise90,
    Clockwise180,
    Clockwise270,
}

/// The stable wire ordinal of a rotation angle.
pub open spec fn spec_rotation_ordinal(a: RotationAngle) -> u8 {
    match a {
        RotationAngle::Normal => 0,
        RotationAngle::Clockwise90 => 1,
        RotationAngle::Clockwise180 => 2,
        RotationAngle::Clockwise270 => 3,
    }
}

/// The wire ordinal of a rotation angle.
pub fn rotation_ordinal(a: RotationAngle) -> (r: u8)
    ensures
        r == spec_rotation_ordinal(a),
{
    match a {
        RotationAngle::Normal => 0,
        RotationAngle::Clockwise90 => 1,
        RotationAngle::Clockwise180 => 2,
        RotationAngle::Clockwise270 => 3,
    }
}

/// Strictly decode a rotation ordinal: exactly the ordinals 0 through 3
/// are accepted.
pub fn rotation_from_ordinal(v: u64) -> (r: Result<RotationAngle, DecodeError>)
    ensures
        v <= 3 ==> (r matches Ok(a) && spec_rotation_ordinal(a) == v),
        v > 3 ==> r == Err::<RotationAngle, DecodeError>(DecodeError::InvalidRotation),
{
    match v {
        0 => Ok(RotationAngle::Normal),
        1 => Ok(RotationAngle::Clockwise90),
        2 => Ok(RotationAngle::Clockwise180),
        3 => Ok(RotationAngle::Clockwise270),
        _ => Err(DecodeError::InvalidRotation),
    }
}

/// Frame resolution accepted by the device. Transmitted as the pixel
/// width itself (16, 32 or 64), not as a list position.
#[derive(Clone, Copy, PartialEq, Eq, Structural, Debug)]
pub enum PicWidth {
    P16,
    P32,
    P64,
}

/// The wire value of a resolution: the width in pixels.
pub open spec fn spec_pic_width_value(w: PicWidth) -> u8 {
    match w {
        PicWidth::P16 => 16,
        PicWidth::P32 => 32,
        PicWidth::P64 => 64,
    }
}

/// The wire value of a resolution.
pub fn pic_width_value(w: PicWidth) -> (r: u8)
    ensures
        r == spec_pic_width_value(w),
{
    match w {
        PicWidth::P16 => 16,
        PicWidth::P32 => 32,
        PicWidth::P64 => 64,
    }
}

impl Default for PicWidth {
    /// The only resolution this client sends is the full 64-pixel width.
    fn default() -> (w: PicWidth)
        ensures
            w == PicWidth::P64,
    {
        PicWidth::P64
    }
}

/// Strictly decode the device's integer boolean encoding: 0 is false,
/// 1 is true, and every other value is a protocol error (never coerced).
pub fn int_to_bool(v: u64) -> (r: Result<bool, DecodeError>)
    ensures
        v == 0 ==> r == Ok::<bool, DecodeError>(false),
        v == 1 ==> r == Ok::<bool, DecodeError>(true),
        v >= 2 ==> r == Err::<bool, DecodeError>(DecodeError::InvalidBoolean),
{
    match v {
        0 => Ok(false),
        1 => Ok(true),
        _ => Err(DecodeError::InvalidBoolean),
    }
}

/// Request to read the device's whole configuration.
pub struct GetAllSettingRequest {
    pub command: &'static str,
}

impl Default for GetAllSettingRequest {
    fn default() -> (r: GetAllSettingRequest)
        ensures
            r.command@ == "Channel/GetAllConf"@,
    {
        GetAllSettingRequest { command: "Channel/GetAllConf" }
    }
}

/// Request to invalidate the device's current animation generation id.
/// Must be sent and acknowledged before the first frame of a new
/// animation upload.
pub struct ResetGifIdRequest {
    pub command: &'static str,
}

impl ResetGifIdRequest {
    pub fn new() -> (r: ResetGifIdRequest)
        ensures
            r.command@ == "Draw/ResetHttpGifId"@,
    {
        ResetGifIdRequest { command: "Draw/ResetHttpGifId" }
    }
}

/// Request to switch the device's top-level display mode.
pub struct SelectChannelRequest {
    pub command: &'static str,
    pub select_index: Channel,
}

impl SelectChannelRequest {
    pub fn new(channel: Channel) -> (r: SelectChannelRequest)
        ensures
            r.command@ == "Channel/SetIndex"@,
            r.select_index == channel,
    {
        SelectChannelRequest { command: "Channel/SetIndex", select_index: channel }
    }
}

/// Request to read the device's clock.
pub struct GetDeviceTimeRequest {
    pub command: &'static str,
}

impl GetDeviceTimeRequest {
    pub fn new() -> (r: GetDeviceTimeRequest)
        ensures
            r.command@ == "Device/GetDeviceTime"@,
    {
        GetDeviceTimeRequest { command: "Device/GetDeviceTime" }
    }
}

/// The device's clock reading.
pub struct GetDeviceTimeResponse {
    pub utc_time: u64,
    pub local_time: String,
}

/// The device's answer to most commands: an error code, where zero means
/// the command was accepted.
#[derive(Clone, Copy, PartialEq, Eq, Structural, Debug)]
pub struct DefaultResponse {
    pub error_code: i32,
}

impl DefaultResponse {
    /// A response is a success exactly when its error code is zero; any
    /// nonzero code is a device-side rejection.
    pub fn is_success(&self) -> (r: bool)
        ensures
            r == (self.error_code == 0),
    {
        self.error_code == 0
    }
}

/// A settings response as it arrives from the transport: every field an
/// unvalidated non-negative integer.
#[derive(Clone, Copy, PartialEq, Eq, Structural, Debug)]
pub struct RawSettings {
    pub brightness: u64,
    pub rotation_flag: u64,
    pub clock_time: u64,
    pub gallery_time: u64,
    pub single_galley_time: u64,
    pub power_on_channel_id: u64,
    pub gallery_show_time_flag: u64,
    pub cur_clock_id: u64,
    pub time_24_flag: u64,
    pub temperature_mode: u64,
    pub gyrate_angle: u64,
    pub mirror_flag: u64,
    pub light_switch: u64,
}

/// The validated device configuration.
#[derive(Clone, Copy, PartialEq, Eq, Structural, Debug)]
pub struct GetAllSettingsResponse {
    pub brightness: u8,
    pub rotation_flag: bool,
    pub clock_time: u32,
    pub gallery_time: u32,
    pub single_galley_time: u32,
    pub power_on_channel_id: Channel,
    pub gallery_show_time_flag: bool,
    pub cur_clock_id: u32,
    pub time_24_flag: bool,
    pub temperature_mode: bool,
    pub gyrate_angle: RotationAngle,
    pub mirror_flag: bool,
    pub light_switch: bool,
}

/// The first protocol error in a raw settings response, checking fields
/// in declaration order, or `None` when every field follows the wire
/// contract.
pub open spec fn settings_decode_error(raw: RawSettings) -> Option<DecodeError> {
    if raw.brightness > 255 {
        Some(DecodeError::ValueOutOfRange)
    } else if raw.rotation_flag > 1 {
        Some(DecodeError::InvalidBoolean)
    } else if raw.clock_time > 0xffff_ffff {
        Some(DecodeError::ValueOutOfRange)
    } else if raw.gallery_time > 0xffff_ffff {
        Some(DecodeError::ValueOutOfRange)
    } else if raw.single_galley_time > 0xffff_ffff {
        Some(DecodeError::ValueOutOfRange)
    } else if raw.power_on_channel_id > 4 {
        Some(DecodeError::InvalidChannel)
    } else if raw.gallery_show_time_flag > 1 {
        Some(DecodeError::InvalidBoolean)
    } else if raw.cur_clock_id > 0xffff_ffff {
        Some(DecodeError::ValueOutOfRange)
    } else if raw.time_24_flag > 1 {
        Some(DecodeError::InvalidBoolean)
    } else if raw.temperature_mode > 1 {
        Some(DecodeError::InvalidBoolean)
    } else if raw.gyrate_angle > 3 {
        Some(DecodeError::InvalidRotation)
    } else if raw.mirror_flag > 1 {
        Some(DecodeError::InvalidBoolean)
    } else if raw.light_switch > 1 {
        Some(DecodeError::InvalidBoolean)
    } else {
        None
    }
}

/// Strictly decode a raw settings response. Boolean fields must be
/// exactly 0 or 1, enumerated fields must be a listed ordinal, and
/// numeric fields must fit their declared width; the first violation, in
/// field order, is the reported error.
pub fn decode_settings(raw: &RawSettings) -> (r: Result<GetAllSettingsResponse, DecodeError>)
    ensures
        (r is Ok) <==> settings_decode_error(*raw) is None,
        r matches Err(e) ==> settings_decode_error(*raw) == Some(e),
        r matches Ok(s) ==> {
            &&& s.brightness == raw.brightness as u8
            &&& s.rotation_flag == (raw.rotation_flag == 1)
            &&& s.clock_time == raw.clock_time as u32
            &&& s.gallery_time == raw.gallery_time as u32
            &&& s.single_galley_time == raw.single_galley_time as u32
            &&& spec_channel_ordinal(s.power_on_channel_id) == raw.power_on_channel_id
            &&& s.gallery_show_time_flag == (raw.gallery_show_time_flag == 1)
            &&& s.cur_clock_id == raw.cur_clock_id as u32
            &&& s.time_24_flag == (raw.time_24_flag == 1)
            &&& s.temperature_mode == (raw.temperature_mode == 1)
            &&& spec_rotation_ordinal(s.gyrate_angle) == raw.gyrate_angle
            &&& s.mirror_flag == (raw.mirror_flag == 1)
            &&& s.light_switch == (raw.light_switch == 1)
        },
{
    if raw.brightness > 255 {
        return Err(DecodeError::ValueOutOfRange);
    }
    let brightness: u8 = raw.brightness as u8;
    let rotation_flag = match int_to_bool(raw.rotation_flag) {
        Ok(b) => b,
        Err(e) => { return Err(e) },
    };
    if raw.clock_time > 0xffff_ffff {
        return Err(DecodeError::ValueOutOfRange);
    }
    let clock_time: u32 = raw.clock_time as u32;
    if raw.gallery_time > 0xffff_ffff {
        return Err(DecodeError::ValueOutOfRange);
    }
    let gallery_time: u32 = raw.gallery_time as u32;
    if raw.single_galley_time > 0xffff_ffff {
        return Err(DecodeError::ValueOutOfRange);
    }
    let single_galley_time: u32 = raw.single_galley_time as u32;
    let power_on_channel_id = match channel_from_ordinal(raw.power_on_channel_id) {
        Ok(c) => c,
        Err(e) => { return Err(e) },
    };
    let gallery_show_time_flag = match int_to_bool(raw.gallery_show_time_flag) {
        Ok(b) => b,
        Err(e) => { return Err(e) },
    };
    if raw.cur_clock_id > 0xffff_ffff {
        return Err(DecodeError::ValueOutOfRange);
    }
    let cur_clock_id: u32 = raw.cur_clock_id as u32;
    let time_24_flag = match int_to_bool(raw.time_24_flag) {
        Ok(b) => b,
        Err(e) => { return Err(e) },
    };
    let temperature_mode = match int_to_bool(raw.temperature_mode) {
        Ok(b) => b,
        Err(e) => { return Err(e) },
    };
    let gyrate_angle = match rotation_from_ordinal(raw.gyrate_angle) {
        Ok(a) => a,
        Err(e) => { return Err(e) },
    };
    let mirror_flag = match int_to_bool(raw.mirror_flag) {
        Ok(b) => b,
        Err(e) => { return Err(e) },
    };
    let light_switch = match int_to_bool(raw.light_switch) {
        Ok(b) => b,
        Err(e) => { return Err(e) },
    };
    Ok(
        GetAllSettingsResponse {
            brightness,
            rotation_flag,
            clock_time,
            gallery_time,
            single_galley_time,
            power_on_channel_id,
            gallery_show_time_flag,
            cur_clock_id,
            time_24_flag,
            temperature_mode,
            gyrate_angle,
            mirror_flag,
            light_switch,
        },
    )
}

/// One send-frame command of an animation upload.
pub struct SendAnimationRequest {
    pub command: &'static str,
    pub pic_num: usize,
    pub pic_width: PicWidth,
    pub pic_offset: usize,
    pub pic_id: u8,
    pub pic_speed: u32,
    pub pic_data: Vec<u8>,
}

/// `req` is the send-frame command at position `offset` of an animation
/// of `total` frames whose raw pixel bytes are `frame_bytes`.
pub open spec fn is_frame_command(
    req: SendAnimationRequest,
    frame_bytes: Seq<u8>,
    offset: int,
    total: int,
) -> bool {
    &&& req.command@ == "Draw/SendHttpGif"@
    &&& req.pic_num == total
    &&& req.pic_width == PicWidth::P64
    &&& req.pic_offset == offset
    &&& req.pic_id == ANIMATION_PIC_ID
    &&& req.pic_speed == ANIMATION_PIC_SPEED
    &&& req.pic_data@ == base64_encode(frame_bytes)
}

impl SendAnimationRequest {
    /// The single-frame convenience path: one command with `pic_num` 1
    /// and default offset, id and speed.
    pub fn single_frame(frame: &Frame) -> (r: SendAnimationRequest)
        requires
            frame.wf(),
        ensures
            r.command@ == "Draw/SendHttpGif"@,
            r.pic_num == 1,
            r.pic_width == PicWidth::P64,
            r.pic_offset == 0,
            r.pic_id == 0,
            r.pic_speed == 0,
            r.pic_data@ == base64_encode(frame@),
    {
        SendAnimationRequest {
            command: "Draw/SendHttpGif",
            pic_num: 1,
            pic_width: PicWidth::default(),
            pic_offset: 0,
            pic_id: 0,
            pic_speed: 0,
            pic_data: serialize_frame(frame),
        }
    }

    /// Build the ordered animation upload: exactly one command per input
    /// frame, in input order, each carrying the full frame count, its own
    /// zero-based offset, and the shared generation id and speed.
    pub fn multi_frame(frames: &Vec<Frame>) -> (reqs: Vec<SendAnimationRequest>)
        requires
            forall|i: int| 0 <= i < frames@.len() ==> (#[trigger] frames@[i]).wf(),
        ensures
            reqs@.len() == frames@.len(),
            forall|i: int|
                0 <= i < frames@.len() ==> is_frame_command(
                    #[trigger] reqs@[i],
                    frames@[i]@,
                    i,
                    frames@.len() as int,
                ),
    {
        let total: usize = frames.len();
        let mut reqs: Vec<SendAnimationRequest> = Vec::new();
        let mut i: usize = 0;
        while i < total
            invariant
                i <= total,
                total == frames@.len(),
                forall|k: int| 0 <= k < frames@.len() ==> (#[trigger] frames@[k]).wf(),
                reqs@.len() == i,
                forall|j: int|
                    0 <= j < i ==> is_frame_command(
                        #[trigger] reqs@[j],
                        frames@[j]@,
                        j,
                        total as int,
                    ),
            decreases total - i,
        {
            let pic_data = serialize_frame(&frames[i]);
            reqs.push(
                SendAnimationRequest {
                    command: "Draw/SendHttpGif",
                    pic_num: total,
                    pic_width: PicWidth::P64,
                    pic_offset: i,
                    pic_id: ANIMATION_PIC_ID,
                    pic_speed: ANIMATION_PIC_SPEED,
                    pic_data,
                },
            );
            i = i + 1;
        }
        reqs
    }
}

} // verus!
