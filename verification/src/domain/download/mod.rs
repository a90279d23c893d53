pub mod engine;
pub mod listing;
pub mod probe;
pub mod progress;
pub mod stream_info;
pub mod url_type;

pub use engine::{EngineEvent, ToolId};
pub use probe::ProbeStream;
pub use progress::{ProgressPoint, ProgressTracker, SamplingPolicy, TaskProgressBuffer};
pub use stream_info::{AudioStream, BaseStream, SubtitleStream, VideoStream};
pub use url_type::UrlType;
