//! Host enumeration core: typed cell values, result tables, a collector
//! registry, group composition and a cursor adapter for paged record sources.

pub mod collectors;
pub mod cursor;
pub mod dto;
pub mod formatter;
pub mod group;
pub mod hive;
pub mod registry;
pub mod runtime;
pub mod value;

pub use collectors::{
    AmsiProvidersCommand, AntivirusCommand, ExampleCommand, LastShutdownCommand, OSInfoCommand,
};
pub use cursor::{CursorAction, CursorEvent, CursorPhase, WbemIterator};
pub use dto::{CommandDTO, CommandData, CommandResult, ErrorKind, Row};
pub use formatter::{format_command_dto, format_group_result, Formatter, SimpleFormatter};
pub use group::{CommandGroup, GroupRun, GroupStep, MiscGroup};
pub use hive::{RegistryHive, RegistryHiveType};
pub use registry::{get_command, CommandRegistration, Registry};
pub use runtime::Runtime;
pub use value::CellValue;
