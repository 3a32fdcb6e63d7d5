use base64::Engine;
use base64::engine::general_purpose::STANDARD;
use pixoo64::commands::channel_from_ordinal;
use pixoo64::commands::channel_ordinal;
use pixoo64::commands::int_to_bool;
use pixoo64::commands::decode_settings;
use pixoo64::commands::pic_width_value;
use pixoo64::commands::rotation_from_ordinal;
use pixoo64::commands::rotation_ordinal;
use pixoo64::commands::ANIMATION_PIC_ID;
use pixoo64::commands::ANIMATION_PIC_SPEED;
use pixoo64::AnimationBuilder;
use pixoo64::AnimationPlan;
use pixoo64::Channel;
use pixoo64::DecodeError;
use pixoo64::DefaultResponse;
use pixoo64::Frame;
use pixoo64::GetAllSettingRequest;
use pixoo64::GetDeviceTimeRequest;
use pixoo64::PicWidth;
use pixoo64::RawSettings;
use pixoo64::ResetGifIdRequest;
use pixoo64::Rgb;
use pixoo64::RotationAngle;
use pixoo64::SelectChannelRequest;
use pixoo64::SendAnimationRequest;

fn valid_raw_settings() -> RawSettings {
    RawSettings {
        brightness: 90,
        rotation_flag: 1,
        clock_time: 60,
        gallery_time: 30,
        single_galley_time: 5,
        power_on_channel_id: 3,
        gallery_show_time_flag: 0,
        cur_clock_id: 12,
        time_24_flag: 1,
        temperature_mode: 0,
        gyrate_angle: 2,
        mirror_flag: 0,
        light_switch: 1,
    }
}

fn solid_frame(r: u8, g: u8, b: u8) -> Frame {
    let mut frame = Frame::default();
    frame.fill(Rgb { r, g, b });
    frame
}

#[test]
fn request_command_names_match_the_firmware() {
    assert_eq!(GetAllSettingRequest::default().command, "Channel/GetAllConf");
    assert_eq!(ResetGifIdRequest::new().command, "Draw/ResetHttpGifId");
    assert_eq!(GetDeviceTimeRequest::new().command, "Device/GetDeviceTime");
    let select = SelectChannelRequest::new(Channel::Custom);
    assert_eq!(select.command, "Channel/SetIndex");
    assert_eq!(channel_ordinal(select.select_index), 3);
}

#[test]
fn channel_ordinals_are_stable() {
    assert_eq!(channel_ordinal(Channel::Faces), 0);
    assert_eq!(channel_ordinal(Channel::Cloud), 1);
    assert_eq!(channel_ordinal(Channel::Visualizer), 2);
    assert_eq!(channel_ordinal(Channel::Custom), 3);
    assert_eq!(channel_ordinal(Channel::BlackScreen), 4);
    for v in 0..5u64 {
        assert_eq!(channel_ordinal(channel_from_ordinal(v).unwrap()) as u64, v);
    }
    assert_eq!(channel_from_ordinal(5), Err(DecodeError::InvalidChannel));
    assert_eq!(channel_from_ordinal(u64::MAX), Err(DecodeError::InvalidChannel));
}

#[test]
fn rotation_ordinals_are_stable() {
    assert_eq!(rotation_ordinal(RotationAngle::Normal), 0);
    assert_eq!(rotation_ordinal(RotationAngle::Clockwise90), 1);
    assert_eq!(rotation_ordinal(RotationAngle::Clockwise180), 2);
    assert_eq!(rotation_ordinal(RotationAngle::Clockwise270), 3);
    for v in 0..4u64 {
        assert_eq!(rotation_ordinal(rotation_from_ordinal(v).unwrap()) as u64, v);
    }
    assert_eq!(rotation_from_ordinal(4), Err(DecodeError::InvalidRotation));
}

#[test]
fn pic_width_wire_values() {
    assert_eq!(pic_width_value(PicWidth::P16), 16);
    assert_eq!(pic_width_value(PicWidth::P32), 32);
    assert_eq!(pic_width_value(PicWidth::P64), 64);
    assert_eq!(pic_width_value(PicWidth::default()), 64);
}

#[test]
fn int_to_bool_is_strict() {
    assert_eq!(int_to_bool(0), Ok(false));
    assert_eq!(int_to_bool(1), Ok(true));
    assert_eq!(int_to_bool(2), Err(DecodeError::InvalidBoolean));
    assert_eq!(int_to_bool(255), Err(DecodeError::InvalidBoolean));
}

#[test]
fn decode_settings_accepts_a_valid_response() {
    let s = decode_settings(&valid_raw_settings()).unwrap();
    assert_eq!(s.brightness, 90);
    assert!(s.rotation_flag);
    assert_eq!(s.clock_time, 60);
    assert_eq!(s.gallery_time, 30);
    assert_eq!(s.single_galley_time, 5);
    assert_eq!(s.power_on_channel_id, Channel::Custom);
    assert!(!s.gallery_show_time_flag);
    assert_eq!(s.cur_clock_id, 12);
    assert!(s.time_24_flag);
    assert!(!s.temperature_mode);
    assert_eq!(s.gyrate_angle, RotationAngle::Clockwise180);
    assert!(!s.mirror_flag);
    assert!(s.light_switch);
}

#[test]
fn decode_settings_rejects_rotation_flag_two() {
    let mut raw = valid_raw_settings();
    raw.rotation_flag = 2;
    assert_eq!(decode_settings(&raw), Err(DecodeError::InvalidBoolean));
    raw.rotation_flag = 17;
    assert_eq!(decode_settings(&raw), Err(DecodeError::InvalidBoolean));
}

#[test]
fn decode_settings_rejects_every_invalid_boolean_field() {
    for field in 0..5 {
        let mut raw = valid_raw_settings();
        match field {
            0 => raw.gallery_show_time_flag = 2,
            1 => raw.time_24_flag = 3,
            2 => raw.temperature_mode = 9,
            3 => raw.mirror_flag = 2,
            _ => raw.light_switch = 100,
        }
        assert_eq!(decode_settings(&raw), Err(DecodeError::InvalidBoolean));
    }
}

#[test]
fn decode_settings_rejects_bad_enums_and_ranges() {
    let mut raw = valid_raw_settings();
    raw.power_on_channel_id = 9;
    assert_eq!(decode_settings(&raw), Err(DecodeError::InvalidChannel));

    let mut raw = valid_raw_settings();
    raw.gyrate_angle = 7;
    assert_eq!(decode_settings(&raw), Err(DecodeError::InvalidRotation));

    let mut raw = valid_raw_settings();
    raw.brightness = 300;
    assert_eq!(decode_settings(&raw), Err(DecodeError::ValueOutOfRange));

    let mut raw = valid_raw_settings();
    raw.clock_time = u64::MAX;
    assert_eq!(decode_settings(&raw), Err(DecodeError::ValueOutOfRange));
}

#[test]
fn device_time_response_holds_both_clocks() {
    let resp = pixoo64::GetDeviceTimeResponse {
        utc_time: 1_700_000_000,
        local_time: String::from("2023-11-14 22:13:20"),
    };
    assert_eq!(resp.utc_time, 1_700_000_000);
    assert_eq!(resp.local_time, "2023-11-14 22:13:20");
}

#[test]
fn default_response_success_is_error_code_zero() {
    assert!(DefaultResponse { error_code: 0 }.is_success());
    assert!(!DefaultResponse { error_code: 1 }.is_success());
    assert!(!DefaultResponse { error_code: 42 }.is_success());
    assert!(!DefaultResponse { error_code: -3 }.is_success());
}

#[test]
fn single_frame_uses_defaults() {
    let frame = solid_frame(1, 2, 3);
    let req = SendAnimationRequest::single_frame(&frame);
    assert_eq!(req.command, "Draw/SendHttpGif");
    assert_eq!(req.pic_num, 1);
    assert_eq!(req.pic_width, PicWidth::P64);
    assert_eq!(req.pic_offset, 0);
    assert_eq!(req.pic_id, 0);
    assert_eq!(req.pic_speed, 0);
    assert_eq!(STANDARD.decode(&req.pic_data).unwrap(), frame.as_bytes());
}

#[test]
fn multi_frame_numbers_every_command() {
    for n in [1usize, 2, 5] {
        let frames: Vec<Frame> = (0..n).map(|i| solid_frame(i as u8, 0, 0)).collect();
        let reqs = SendAnimationRequest::multi_frame(&frames);
        assert_eq!(reqs.len(), n);
        for (i, req) in reqs.iter().enumerate() {
            assert_eq!(req.command, "Draw/SendHttpGif");
            assert_eq!(req.pic_num, n);
            assert_eq!(req.pic_width, PicWidth::P64);
            assert_eq!(req.pic_offset, i);
            assert_eq!(req.pic_id, ANIMATION_PIC_ID);
            assert_eq!(req.pic_speed, ANIMATION_PIC_SPEED);
            assert_eq!(STANDARD.decode(&req.pic_data).unwrap(), frames[i].as_bytes());
        }
    }
}

#[test]
fn animation_builder_keeps_input_order() {
    let mut builder = AnimationBuilder::new(3);
    assert_eq!(builder.frames().len(), 0);
    builder.add_frame(solid_frame(1, 0, 0));
    builder.add_frame(solid_frame(0, 2, 0));
    builder.add_frame(solid_frame(0, 0, 3));
    let frames = builder.frames();
    assert_eq!(frames.len(), 3);
    assert_eq!(frames[0].as_bytes()[0], 1);
    assert_eq!(frames[1].as_bytes()[1], 2);
    assert_eq!(frames[2].as_bytes()[2], 3);
}

#[test]
fn three_frame_upload_sequence() {
    let frames = vec![solid_frame(9, 0, 0), solid_frame(0, 9, 0), solid_frame(0, 0, 9)];
    let plan = AnimationPlan::build(&frames);

    assert_eq!(plan.reset.command, "Draw/ResetHttpGifId");
    assert_eq!(plan.commands.len(), 3);
    for (i, req) in plan.commands.iter().enumerate() {
        assert_eq!(req.pic_offset, i);
        assert_eq!(req.pic_num, 3);
        assert_eq!(req.pic_id, ANIMATION_PIC_ID);
        assert_eq!(req.pic_speed, ANIMATION_PIC_SPEED);
    }

    // A rejected reset (ErrorCode = 1) means no frame command is issued.
    let reset_response = DefaultResponse { error_code: 1 };
    let mut sent: Vec<&SendAnimationRequest> = Vec::new();
    if reset_response.is_success() {
        for req in plan.commands.iter() {
            sent.push(req);
        }
    }
    assert!(sent.is_empty());

    // An acknowledged reset lets all three frame commands go out, in order.
    let reset_response = DefaultResponse { error_code: 0 };
    if reset_response.is_success() {
        for req in plan.commands.iter() {
            sent.push(req);
        }
    }
    assert_eq!(sent.len(), 3);
    assert!(sent.iter().enumerate().all(|(i, req)| req.pic_offset == i));
}
