//! Startup configuration: the camera type and the validated settings.

use vstd::prelude::*;
use crate::errors::ConfigError;
use crate::text::{all_decimal_digits, decimal_value, parse_u64, str_eq};

verus! {

/// Which kind of camera feed the process reads. Fixed at startup and
/// never changed afterwards.
#[derive(Debug, Clone, Copy, PartialEq, Eq, Structural)]
pub enum CameraType {
    /// An RTSP stream read by an external single-frame extraction tool.
    Rtsp,
    /// A still-frame URL fetched with an HTTP GET.
    Http,
}

/// The default interval between cycle completions, in seconds.
pub const DEFAULT_SLEEP_SECS: u64 = 900;

impl CameraType {
    /// Parses the CAMERA_TYPE setting: exactly `"RTSP"` or `"HTTP"`,
    /// case sensitive. Any other value is a configuration error.
    pub fn parse(value: &str) -> (r: Result<CameraType, ConfigError>)
        ensures
            value@ == "RTSP"@ ==> r == Ok::<CameraType, ConfigError>(CameraType::Rtsp),
            value@ == "HTTP"@ ==> r == Ok::<CameraType, ConfigError>(CameraType::Http),
            value@ != "RTSP"@ && value@ != "HTTP"@ ==> r == Err::<CameraType, ConfigError>(
                ConfigError::InvalidCameraType,
            ),
    {
        proof {
            reveal_strlit("RTSP");
            reveal_strlit("HTTP");
            assert("RTSP"@[0] != "HTTP"@[0]);
        }
        if str_eq(value, "RTSP") {
            Ok(CameraType::Rtsp)
        } else if str_eq(value, "HTTP") {
            Ok(CameraType::Http)
        } else {
            Err(ConfigError::InvalidCameraType)
        }
    }
}

/// The raw configuration values as the environment provides them:
/// present or absent, not yet validated.
#[derive(Debug)]
pub struct RawSettings {
    pub feed_url: Option<String>,
    pub feed_name: Option<String>,
    pub output_folder: Option<String>,
    pub camera_type: Option<String>,
    pub sleep_secs: Option<String>,
}

/// The validated startup configuration.
#[derive(Debug, PartialEq, Eq)]
pub struct Settings {
    /// HTTP URL or RTSP stream URL, depending on the camera type.
    pub feed_url: String,
    /// Label for the snapshot counter; defaults to the feed URL.
    pub feed_name: String,
    /// Destination directory for captured frames.
    pub output_folder: String,
    /// Which frame source variant to run.
    pub camera_type: CameraType,
    /// Interval between cycle completions, in seconds.
    pub sleep_secs: u64,
}

/// Whether a CAMERA_TYPE string selects a camera type.
pub open spec fn spec_camera_type_ok(s: Seq<char>) -> bool {
    s == "RTSP"@ || s == "HTTP"@
}

/// Whether a provided-or-absent SLEEP_SECS string is acceptable.
pub open spec fn spec_sleep_ok(o: Option<String>) -> bool {
    match o {
        Option::None => true,
        Option::Some(s) => s@.len() > 0 && all_decimal_digits(s@) && decimal_value(s@)
            <= u64::MAX,
    }
}

/// The sleep interval that a provided-or-absent SLEEP_SECS string denotes.
pub open spec fn spec_sleep_value(o: Option<String>) -> nat
    recommends
        spec_sleep_ok(o),
{
    match o {
        Option::None => DEFAULT_SLEEP_SECS as nat,
        Option::Some(s) => decimal_value(s@),
    }
}

/// Validates the raw configuration. Missing required values and
/// malformed values are fatal configuration errors; nothing else is
/// read later. FEED_NAME defaults to FEED_URL and SLEEP_SECS defaults
/// to `DEFAULT_SLEEP_SECS`.
pub fn build_settings(raw: RawSettings) -> (r: Result<Settings, ConfigError>)
    ensures
        r is Ok <==> (raw.feed_url is Some && raw.output_folder is Some
            && raw.camera_type is Some && spec_camera_type_ok(raw.camera_type->0@)
            && spec_sleep_ok(raw.sleep_secs)),
        (match r {
            Result::Ok(s) => {
                &&& s.feed_url@ == raw.feed_url->0@
                &&& s.output_folder@ == raw.output_folder->0@
                &&& (s.camera_type == CameraType::Rtsp <==> raw.camera_type->0@ == "RTSP"@)
                &&& (s.camera_type == CameraType::Http <==> raw.camera_type->0@ == "HTTP"@)
                &&& s.sleep_secs == spec_sleep_value(raw.sleep_secs)
                &&& s.feed_name@ == (match raw.feed_name {
                    Option::Some(n) => n@,
                    Option::None => raw.feed_url->0@,
                })
            },
            Result::Err(e) => {
                &&& (raw.feed_url is None ==> e == ConfigError::MissingFeedUrl)
                &&& (raw.feed_url is Some && raw.output_folder is None
                    ==> e == ConfigError::MissingOutputFolder)
                &&& (raw.feed_url is Some && raw.output_folder is Some
                    && raw.camera_type is None ==> e == ConfigError::MissingCameraType)
                &&& (raw.feed_url is Some && raw.output_folder is Some
                    && raw.camera_type is Some && !spec_camera_type_ok(raw.camera_type->0@)
                    ==> e == ConfigError::InvalidCameraType)
                &&& (raw.feed_url is Some && raw.output_folder is Some
                    && raw.camera_type is Some && spec_camera_type_ok(raw.camera_type->0@)
                    && !spec_sleep_ok(raw.sleep_secs) ==> e == ConfigError::InvalidSleepSecs)
            },
        }),
{
    let RawSettings { feed_url, feed_name, output_folder, camera_type, sleep_secs } = raw;
    let feed_url = match feed_url {
        Some(u) => u,
        None => {
            return Err(ConfigError::MissingFeedUrl);
        },
    };
    let output_folder = match output_folder {
        Some(f) => f,
        None => {
            return Err(ConfigError::MissingOutputFolder);
        },
    };
    let camera_type_string = match camera_type {
        Some(c) => c,
        None => {
            return Err(ConfigError::MissingCameraType);
        },
    };
    let camera_type = match CameraType::parse(camera_type_string.as_str()) {
        Ok(c) => c,
        Err(e) => {
            return Err(e);
        },
    };
    let sleep_secs = match sleep_secs {
        None => DEFAULT_SLEEP_SECS,
        Some(s) => match parse_u64(s.as_str()) {
            Some(v) => v,
            None => {
                return Err(ConfigError::InvalidSleepSecs);
            },
        },
    };
    let feed_name = match feed_name {
        Some(n) => n,
        None => feed_url.clone(),
    };
    Ok(Settings { feed_url, feed_name, output_folder, camera_type, sleep_secs })
}

} // verus!
