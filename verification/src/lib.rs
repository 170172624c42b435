//! An event-ingestion pipeline core: a dynamic value model with type-checked
//! coercion, a dotted-path configuration resolver, a bit-packed hierarchical
//! error taxonomy, and the decision logic of a bounded-channel staged pipeline.

pub mod config;
pub mod console;
pub mod datatype;
pub mod error;
pub mod event;
pub mod pipeline;
pub mod text;
pub mod value;

pub use config::ConfigNode;
pub use config::ConfigTable;
pub use console::ConsoleOutput;
pub use datatype::DataType;
pub use datatype::ToType;
pub use error::Error;
pub use event::Event;
pub use event::EventField;
pub use event::ToEvent;
pub use pipeline::ChannelModel;
pub use pipeline::Decoder;
pub use pipeline::Processor;
pub use pipeline::StageState;
pub use value::Bytes;
pub use value::Value;
