pub mod entity;
pub mod overrides;
pub mod record;

pub use entity::{ProgressData, TaskEntity, TaskStatus};
pub use overrides::{StreamSelection, TaskOverrides, TaskPreset, TaskSpec};
pub use record::{HistoryRecord, LocalDateTime, TaskRecord};
