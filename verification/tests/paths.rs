//! Runtime-directory resolution, path building, decimal text, and the
//! recording stubs' configuration.

use replayd::ipc::buffer::Buffer;
use replayd::ipc::socket::{get_socket_path, ReadBuffer, BUF_SIZE};
use replayd::recording::config::Config;
use replayd::recording::error::RecordingError;
use replayd::recording::{nanos_until_next_second, to_next_second};
use replayd::util::{parse_u32, runtime_dir, socket_path, u32_to_string};

#[test]
fn runtime_dir_prefers_the_environment() {
    let r = runtime_dir(Some("/tmp/xdg".to_string()));
    assert_eq!(r, "/tmp/xdg");
}

#[test]
fn runtime_dir_falls_back_to_uid() {
    let r = runtime_dir(None);
    assert!(r.starts_with("/run/user/"));
    let uid = &r["/run/user/".len()..];
    assert!(!uid.is_empty());
    assert!(parse_u32(uid).is_some());
    assert_eq!(uid, u32_to_string(users::get_current_uid()));
}

#[test]
fn socket_paths() {
    assert_eq!(socket_path("/run/user/1000"), "/run/user/1000/replayd.sock");
    assert_eq!(get_socket_path("/run/user/1000"), "/run/user/1000/replayd.sock");
}

#[test]
fn decimal_text() {
    assert_eq!(u32_to_string(0), "0");
    assert_eq!(u32_to_string(10), "10");
    assert_eq!(u32_to_string(48000), "48000");
    assert_eq!(u32_to_string(u32::MAX), "4294967295");
}

#[test]
fn decimal_parse() {
    assert_eq!(parse_u32("0"), Some(0));
    assert_eq!(parse_u32("48000"), Some(48000));
    assert_eq!(parse_u32("4294967295"), Some(u32::MAX));
    assert_eq!(parse_u32("4294967296"), None);
    assert_eq!(parse_u32(""), None);
    assert_eq!(parse_u32("12 3"), None);
}

#[test]
fn read_buffer_is_one_zeroed_frame() {
    let b = ReadBuffer::new();
    assert_eq!(b.bytes().len(), BUF_SIZE);
    assert!(b.bytes().iter().all(|&x| x == 0));
    let mut b = b;
    b.fill(vec![1, 2, 3]);
    assert_eq!(b.bytes(), &vec![1, 2, 3]);
}

#[test]
fn send_buffer_is_one_zeroed_frame() {
    let b = Buffer::new();
    assert_eq!(b.bytes().len(), 8192);
    assert!(b.bytes().iter().all(|&x| x == 0));
}

#[test]
fn default_recording_config() {
    let video = Config::default_video_config();
    assert_eq!(video.encoder, "h264_nvenc");
    let audio = Config::default_audio_config();
    assert_eq!(audio.encoder, "aac");
    assert_eq!(audio.samplerate, 48000);
    assert_eq!(audio.sampledepth, 24);
}

#[test]
fn recording_error_message() {
    let e = RecordingError::CodecNotFound("h264_nvenc".to_string());
    assert_eq!(e.message(), "Codec not found: h264_nvenc");
}

#[test]
fn interval_start_is_at_the_next_second() {
    assert_eq!(nanos_until_next_second(0), 1_000_000_000);
    assert_eq!(nanos_until_next_second(250_000_000), 750_000_000);
    assert_eq!(nanos_until_next_second(999_999_999), 1);
    assert_eq!(nanos_until_next_second(1_000_000_000), 0);
    assert_eq!(nanos_until_next_second(1_999_999_999), 0);
    assert!(to_next_second() <= 1_000_000_000);
}
