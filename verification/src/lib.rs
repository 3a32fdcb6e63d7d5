//! Client-side model of a 64x64 pixel-matrix display device: frame buffers,
//! the device's base64 frame encoding, typed protocol commands and responses,
//! and the animation sequencing rules.

pub mod animation;
pub mod commands;
pub mod encoding;
pub mod frame;

pub use animation::AnimationBuilder;
pub use animation::AnimationPlan;
pub use commands::Channel;
pub use commands::DecodeError;
pub use commands::DefaultResponse;
pub use commands::GetAllSettingRequest;
pub use commands::GetAllSettingsResponse;
pub use commands::GetDeviceTimeRequest;
pub use commands::GetDeviceTimeResponse;
pub use commands::PicWidth;
pub use commands::RawSettings;
pub use commands::ResetGifIdRequest;
pub use commands::RotationAngle;
pub use commands::SelectChannelRequest;
pub use commands::SendAnimationRequest;
pub use frame::Frame;
pub use frame::ImageError;
pub use frame::Rgb;
