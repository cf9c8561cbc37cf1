//! The frame source variants and the values they hand to the outside
//! world: the snapshot path and the external extraction command.

use vstd::prelude::*;
use vstd::string::*;
use crate::config::CameraType;
use crate::text::{decimal_of, u64_to_decimal};

verus! {

/// The camera feed, a tagged union fixed at startup. Exactly one variant
/// is active per process instance.
#[derive(Debug)]
pub enum FrameSource {
    /// A still-frame URL fetched with a blocking HTTP GET; the fetched
    /// bytes are inspected before they are persisted.
    Http { url: String },
    /// An RTSP stream handed to an external single-frame extraction
    /// tool, which writes the frame to disk itself; this variant never
    /// holds frame bytes in memory.
    Process { stream_url: String },
}

/// Selects the frame source variant for a camera type.
pub fn make_source(camera_type: CameraType, feed_url: String) -> (s: FrameSource)
    ensures
        camera_type == CameraType::Http ==> (s matches FrameSource::Http { url } && url@
            == feed_url@),
        camera_type == CameraType::Rtsp ==> (s matches FrameSource::Process { stream_url }
            && stream_url@ == feed_url@),
{
    match camera_type {
        CameraType::Http => FrameSource::Http { url: feed_url },
        CameraType::Rtsp => FrameSource::Process { stream_url: feed_url },
    }
}

/// The destination path of a snapshot taken at `now_unix` seconds since
/// the Unix epoch: `{folder}/{now_unix}.jpg`.
pub open spec fn spec_snapshot_path(folder: Seq<char>, now_unix: u64) -> Seq<char> {
    folder + "/"@ + decimal_of(now_unix as nat) + ".jpg"@
}

/// Builds the snapshot path `{folder}/{now_unix}.jpg`.
pub fn snapshot_path(folder: &str, now_unix: u64) -> (r: String)
    ensures
        r@ == spec_snapshot_path(folder@, now_unix),
{
    let mut r = folder.to_owned();
    r.append("/");
    let digits = u64_to_decimal(now_unix);
    r.append(digits.as_str());
    r.append(".jpg");
    r
}

/// Law: within one folder, two snapshot paths coincide exactly when
/// their timestamps coincide. Two cycles completing within the same
/// wall-clock second write the same path, so the later write survives
/// alone; cycles in different seconds never collide.
pub proof fn lemma_snapshot_path_collision(folder: Seq<char>, t1: u64, t2: u64)
    ensures
        (spec_snapshot_path(folder, t1) == spec_snapshot_path(folder, t2)) <==> t1 == t2,
{
    reveal_strlit("/");
    reveal_strlit(".jpg");
    if spec_snapshot_path(folder, t1) == spec_snapshot_path(folder, t2) {
        let d1 = decimal_of(t1 as nat);
        let d2 = decimal_of(t2 as nat);
        assert(spec_snapshot_path(folder, t1).len() == folder.len() + 1 + d1.len() + 4);
        assert(spec_snapshot_path(folder, t2).len() == folder.len() + 1 + d2.len() + 4);
        assert(d1.len() == d2.len());
        assert forall|i: int| 0 <= i < d1.len() implies d1[i] == d2[i] by {
            assert(spec_snapshot_path(folder, t1)[folder.len() + 1 + i] == d1[i]);
            assert(spec_snapshot_path(folder, t2)[folder.len() + 1 + i] == d2[i]);
        }
        assert(d1 =~= d2);
        crate::text::lemma_decimal_of_injective(t1 as nat, t2 as nat);
    }
}

/// The name of the external single-frame extraction tool.
pub fn extractor_program() -> (r: String)
    ensures
        r@ == "ffmpeg"@,
{
    let r = "ffmpeg".to_owned();
    r
}

/// The fixed argument template of the extraction tool: force overwrite,
/// force TCP transport, read the stream URL, extract exactly one frame,
/// and write it to the output path.
pub fn extractor_args(stream_url: &str, output_path: &str) -> (r: Vec<String>)
    ensures
        r@.len() == 8,
        r@[0]@ == "-y"@,
        r@[1]@ == "-rtsp_transport"@,
        r@[2]@ == "tcp"@,
        r@[3]@ == "-i"@,
        r@[4]@ == stream_url@,
        r@[5]@ == "-vframes"@,
        r@[6]@ == "1"@,
        r@[7]@ == output_path@,
{
    let mut r: Vec<String> = Vec::new();
    r.push("-y".to_owned());
    r.push("-rtsp_transport".to_owned());
    r.push("tcp".to_owned());
    r.push("-i".to_owned());
    r.push(stream_url.to_owned());
    r.push("-vframes".to_owned());
    r.push("1".to_owned());
    r.push(output_path.to_owned());
    r
}

} // verus!
