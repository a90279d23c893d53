//! Task-level overrides: the second layer of "defaults + overrides".
//!
//! The add-task dialog collects a [`TaskOverrides`], which is stored with the
//! task and merged over the global defaults when the download starts
//! (a present override wins).

use vstd::prelude::*;

use crate::domain::config::{MuxFormat, SubtitleFormat};
use crate::domain::download::UrlType;

verus! {

/// Overrides of one task; `None` keeps the global default.
#[derive(Debug, Clone, PartialEq)]
pub struct TaskOverrides {
    /// Save directory.
    pub save_dir: Option<String>,
    /// File name.
    pub save_name: Option<String>,
    /// Mux container format.
    pub mux_format: Option<MuxFormat>,
    /// Speed limit (such as "10M").
    pub max_speed: Option<String>,
    /// Range to download (such as "00:00:00-00:10:00").
    pub custom_range: Option<String>,
    /// Subtitle format.
    pub subtitle_format: Option<SubtitleFormat>,
    /// Download subtitles only.
    pub subtitles_only: Option<bool>,
    /// Scheduled start (local ISO 8601 time, consumed by the front end).
    pub scheduled_start_at: Option<String>,
    /// Manually selected streams (`-sv`/`-sa`/`-ss`).
    pub selection: Option<StreamSelection>,
    /// Preset the overrides came from.
    pub preset_id: Option<String>,
    /// Task-level decryption key (used when the global key store is empty).
    pub key: Option<String>,
}

/// No field of the overrides is set.
pub open spec fn no_overrides(o: TaskOverrides) -> bool {
    &&& o.save_dir is None
    &&& o.save_name is None
    &&& o.mux_format is None
    &&& o.max_speed is None
    &&& o.custom_range is None
    &&& o.subtitle_format is None
    &&& o.subtitles_only is None
    &&& o.scheduled_start_at is None
    &&& o.selection is None
    &&& o.preset_id is None
    &&& o.key is None
}

impl Default for TaskOverrides {
    fn default() -> (r: TaskOverrides)
        ensures
            no_overrides(r),
    {
        TaskOverrides {
            save_dir: None,
            save_name: None,
            mux_format: None,
            max_speed: None,
            custom_range: None,
            subtitle_format: None,
            subtitles_only: None,
            scheduled_start_at: None,
            selection: None,
            preset_id: None,
            key: None,
        }
    }
}

impl TaskOverrides {
    /// Whether nothing is overridden (the value equals the default).
    pub fn is_empty(&self) -> (r: bool)
        ensures
            r == no_overrides(*self),
    {
        self.save_dir.is_none() && self.save_name.is_none() && self.mux_format.is_none()
            && self.max_speed.is_none() && self.custom_range.is_none()
            && self.subtitle_format.is_none() && self.subtitles_only.is_none()
            && self.scheduled_start_at.is_none() && self.selection.is_none()
            && self.preset_id.is_none() && self.key.is_none()
    }
}

/// Manually selected streams.
#[derive(Debug, Clone, PartialEq)]
pub struct StreamSelection {
    /// Video selector.
    pub video: Option<String>,
    /// Audio selector.
    pub audio: Option<String>,
    /// Subtitle selector.
    pub subtitle: Option<String>,
}

impl Default for StreamSelection {
    fn default() -> (r: StreamSelection)
        ensures
            r.video is None && r.audio is None && r.subtitle is None,
    {
        StreamSelection { video: None, audio: None, subtitle: None }
    }
}

fn copy_opt_string(o: &Option<String>) -> (r: Option<String>)
    ensures
        r == *o,
{
    match o {
        Some(v) => Some(v.clone()),
        None => None,
    }
}

impl StreamSelection {
    /// An equal copy.
    pub fn duplicate(&self) -> (r: StreamSelection)
        ensures
            r == *self,
    {
        StreamSelection {
            video: copy_opt_string(&self.video),
            audio: copy_opt_string(&self.audio),
            subtitle: copy_opt_string(&self.subtitle),
        }
    }
}

impl TaskOverrides {
    /// An equal copy.
    pub fn duplicate(&self) -> (r: TaskOverrides)
        ensures
            r == *self,
    {
        TaskOverrides {
            save_dir: copy_opt_string(&self.save_dir),
            save_name: copy_opt_string(&self.save_name),
            mux_format: self.mux_format,
            max_speed: copy_opt_string(&self.max_speed),
            custom_range: copy_opt_string(&self.custom_range),
            subtitle_format: self.subtitle_format,
            subtitles_only: self.subtitles_only,
            scheduled_start_at: copy_opt_string(&self.scheduled_start_at),
            selection: match &self.selection {
                Some(sel) => Some(sel.duplicate()),
                None => None,
            },
            preset_id: copy_opt_string(&self.preset_id),
            key: copy_opt_string(&self.key),
        }
    }
}

/// What an engine builds a command line from: the task itself plus its
/// overrides (global defaults come separately).
#[derive(Debug, Clone)]
pub struct TaskSpec {
    /// Task identifier.
    pub task_id: String,
    /// Download URL.
    pub url: String,
    /// File name (overrides applied).
    pub file_name: String,
    /// Save directory (overrides and global default applied).
    pub save_dir: String,
    /// Task-level overrides.
    pub overrides: TaskOverrides,
    /// URL type (decides the engine and argument branches).
    pub url_type: UrlType,
}

/// A named set of overrides, applied to the add-task dialog in one go.
#[derive(Debug, Clone, PartialEq)]
pub struct TaskPreset {
    /// Identifier.
    pub id: String,
    /// Name.
    pub name: String,
    /// Icon name.
    pub icon: Option<String>,
    /// Description.
    pub description: Option<String>,
    /// The overrides.
    pub overrides: TaskOverrides,
    /// Creation time.
    pub created_at: String,
    /// Last update time.
    pub updated_at: String,
}

} // verus!
