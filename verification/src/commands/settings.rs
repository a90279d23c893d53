//! Settings commands: the tool a request names.

use vstd::prelude::*;

use crate::domain::config::resolver::{StoredFFmpegSettings, StoredM3U8DLSettings};
use crate::domain::download::engine::{tool_from_key, ToolId};

verus! {

/// The tool named by a request; an unknown name is refused with the message
/// "未知工具: " followed by the name.
pub fn parse_tool_id(tool_id: &str) -> (r: Result<ToolId, String>)
    ensures
        match tool_from_key(tool_id@) {
            Some(t) => r == Ok::<ToolId, String>(t),
            None => (r matches Err(m) && m@ == "未知工具: "@ + tool_id@),
        },
{
    match ToolId::parse(tool_id) {
        Ok(t) => Ok(t),
        Err(e) => Err(e.message()),
    }
}

/// The tool paths configured in the settings.
#[derive(Debug)]
pub struct ToolPathsConfig {
    pub m3u8dl_path: Option<String>,
    pub ffmpeg_path: Option<String>,
    pub ffprobe_path: Option<String>,
}

/// A configured path: `None` when empty.
pub open spec fn configured(path: String) -> Option<String> {
    if path@.len() > 0 {
        Some(path)
    } else {
        None
    }
}

fn configured_path(path: &String) -> (r: Option<String>)
    ensures
        r == configured(*path),
{
    if path.as_str().is_empty() {
        None
    } else {
        Some(path.clone())
    }
}

/// The tool paths of the stored settings (rows that could not be read give
/// no path).
pub fn tool_paths_from_rows(
    m3u8dl: Option<&StoredM3U8DLSettings>,
    ffmpeg: Option<&StoredFFmpegSettings>,
) -> (r: ToolPathsConfig)
    ensures
        r.m3u8dl_path == match m3u8dl {
            Some(m) => configured(m.n_m3u8dl_path),
            None => None,
        },
        r.ffmpeg_path == match ffmpeg {
            Some(f) => configured(f.ffmpeg_path),
            None => None,
        },
        r.ffprobe_path == match ffmpeg {
            Some(f) => configured(f.ffprobe_path),
            None => None,
        },
{
    let m3u8dl_path = match m3u8dl {
        Some(m) => configured_path(&m.n_m3u8dl_path),
        None => None,
    };
    let (ffmpeg_path, ffprobe_path) = match ffmpeg {
        Some(f) => (configured_path(&f.ffmpeg_path), configured_path(&f.ffprobe_path)),
        None => (None, None),
    };
    ToolPathsConfig { m3u8dl_path, ffmpeg_path, ffprobe_path }
}

} // verus!
