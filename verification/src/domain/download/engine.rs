//! Identifiers of the external download tools.

use vstd::prelude::*;

use crate::domain::task::entity::ProgressData;
use crate::error::AppError;
use crate::text::str_eq;

verus! {

/// An external tool; also the row key of its settings.
#[derive(Debug, Clone, Copy, PartialEq, Eq, Hash, Structural)]
pub enum ToolId {
    /// N_m3u8DL-RE: streaming downloads (HLS/DASH/MSS).
    Nm3u8dl,
    /// FFmpeg: direct video downloads, muxing, probing.
    Ffmpeg,
}

/// The persisted key of a tool.
pub open spec fn tool_key(t: ToolId) -> Seq<char> {
    match t {
        ToolId::Nm3u8dl => "nm3u8dl"@,
        ToolId::Ffmpeg => "ffmpeg"@,
    }
}

/// The tool whose key is `s`, if any.
pub open spec fn tool_from_key(s: Seq<char>) -> Option<ToolId> {
    if s == "nm3u8dl"@ {
        Some(ToolId::Nm3u8dl)
    } else if s == "ffmpeg"@ {
        Some(ToolId::Ffmpeg)
    } else {
        None
    }
}

impl ToolId {
    /// The persisted key.
    pub fn as_str(self) -> (r: &'static str)
        ensures
            r@ == tool_key(self),
    {
        match self {
            ToolId::Nm3u8dl => "nm3u8dl",
            ToolId::Ffmpeg => "ffmpeg",
        }
    }

    /// Parses a key; any other string is a configuration error naming it.
    pub fn parse(s: &str) -> (r: Result<ToolId, AppError>)
        ensures
            tool_from_key(s@) matches Some(t) ==> r == Ok::<ToolId, AppError>(t),
            tool_from_key(s@) is None ==> (r matches Err(AppError::Config(m)) && m@
                == "未知工具: "@ + s@),
    {
        if str_eq(s, "nm3u8dl") {
            Ok(ToolId::Nm3u8dl)
        } else if str_eq(s, "ffmpeg") {
            Ok(ToolId::Ffmpeg)
        } else {
            Err(AppError::Config(String::from_str("未知工具: ").concat(s)))
        }
    }
}

impl std::str::FromStr for ToolId {
    type Err = AppError;

    fn from_str(s: &str) -> (r: Result<ToolId, AppError>)
        ensures
            tool_from_key(s@) matches Some(t) ==> r == Ok::<ToolId, AppError>(t),
            tool_from_key(s@) is None ==> (r matches Err(AppError::Config(m)) && m@
                == "未知工具: "@ + s@),
    {
        ToolId::parse(s)
    }
}

/// What an engine reads from the output of its process; pushed to the front
/// end as events.
#[derive(Debug, Clone, PartialEq)]
pub enum EngineEvent {
    /// A log line.
    Log { level: String, message: String },
    /// A progress update.
    Progress { data: ProgressData },
    /// A change of phase (such as merging or muxing).
    Status { action: String },
}

/// The engine of a URL type among the registered ones, given which of them
/// handle that type (in the order they were registered): the first that
/// handles it, else the first registered (the widest fallback); `None` when
/// none is registered.
pub open spec fn dispatch_index(handles: Seq<bool>) -> Option<int> {
    if handles.len() == 0 {
        None
    } else if exists|i: int| 0 <= i < handles.len() && handles[i] {
        Some(choose|i: int| first_handler_at(handles, i))
    } else {
        Some(0)
    }
}

/// `i` is the first registered engine that handles the type.
pub open spec fn first_handler_at(handles: Seq<bool>, i: int) -> bool {
    0 <= i < handles.len() && handles[i] && forall|j: int| 0 <= j < i ==> !handles[j]
}

/// Picks the engine for a URL type, given which registered engines handle it.
pub fn dispatch_engine(handles: &Vec<bool>) -> (r: Option<usize>)
    ensures
        match r {
            Some(i) => dispatch_index(handles@) == Some(i as int),
            None => dispatch_index(handles@) is None,
        },
{
    let mut i: usize = 0;
    while i < handles.len()
        invariant
            i <= handles.len(),
            forall|j: int| 0 <= j < i ==> !handles@[j],
        decreases handles.len() - i,
    {
        if handles[i] {
            proof {
                assert(first_handler_at(handles@, i as int));
                let k = choose|k: int| first_handler_at(handles@, k);
                if k < i {
                    assert(!handles@[k]);
                } else if k > i {
                    assert(!handles@[i as int]);
                }
            }
            return Some(i);
        }
        i = i + 1;
    }
    if handles.len() == 0 {
        None
    } else {
        Some(0)
    }
}

/// The first registered engine whose tool is `id`.
pub fn find_engine(ids: &Vec<ToolId>, id: ToolId) -> (r: Option<usize>)
    ensures
        match r {
            Some(i) => i < ids@.len() && ids@[i as int] == id && forall|j: int|
                0 <= j < i ==> ids@[j] != id,
            None => forall|j: int| 0 <= j < ids@.len() ==> ids@[j] != id,
        },
{
    let mut i: usize = 0;
    while i < ids.len()
        invariant
            i <= ids.len(),
            forall|j: int| 0 <= j < i ==> ids@[j] != id,
        decreases ids.len() - i,
    {
        if ids[i] == id {
            return Some(i);
        }
        i = i + 1;
    }
    None
}

/// Every tool key parses back to its tool.
pub proof fn lemma_tool_key_round_trip(t: ToolId)
    ensures
        tool_from_key(tool_key(t)) == Some(t),
{
    reveal_strlit("nm3u8dl");
    reveal_strlit("ffmpeg");
    assert("ffmpeg"@ != "nm3u8dl"@) by {
        assert("ffmpeg"@.len() != "nm3u8dl"@.len());
    }
}

} // verus!
