pub mod fields;
pub mod formatter;
pub mod level;
pub mod logger;
pub mod output;
pub mod text;
pub mod timestamp;

pub use fields::{FieldSet, FieldValue};
pub use formatter::{
    ComponentPosition, ComponentType, FlexibleFormatter, Formatter, JsonFormatter,
    PrettyFormatter, TemplateComponent,
};
pub use level::Level;
pub use logger::{create_logger, FormatterChoice, LogBuilder, Logger};
pub use output::{FileOutput, MultiOutput, Output, SinkChoice, StderrOutput, StdoutOutput};
pub use timestamp::Timestamp;
