//! Progress displays: multi-task bars, columns, and spinners.

mod bar;
mod columns;
mod spinner;

pub use bar::{Progress, ProgressBar, Task};
pub use columns::{
    format_duration, BarColumn, ColumnKind, ElapsedColumn, MofNColumn, PercentageColumn,
    ProgressColumn, SpinnerColumn, TextColumn, TimeRemainingColumn, TransferSpeedColumn,
};
pub use spinner::{Spinner, SpinnerDef, SpinnerStyle};
