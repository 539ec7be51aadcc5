use vstd::prelude::*;

pub mod analyser;
pub mod extract;
pub mod outline;
pub mod position;
pub mod query;
pub mod resolve;
pub mod store;
pub mod tree;
pub mod types;
pub mod utils;

pub use analyser::Analyser;
pub use extract::Capture;
pub use extract::CaptureLabel;
pub use extract::RawCapture;
pub use extract::fold_captures;
pub use extract::interpret_captures;
pub use extract::parse_label;
pub use position::Position;
pub use position::Range;
pub use position::is_position_in_range;
pub use outline::ModuleSymbol;
pub use outline::PortSymbol;
pub use outline::document_outline;
pub use outline::module_display_name;
pub use outline::port_detail;
pub use outline::port_display_name;
pub use resolve::find_named_node_at;
pub use resolve::find_port_at;
pub use resolve::get_symbol_name_at;
pub use store::DocumentData;
pub use store::DocumentStore;
pub use tree::SyntaxNode;
pub use tree::collect_errors;
pub use types::Diagnostic;
pub use types::Module;
pub use types::Port;
pub use types::PortDir;
pub use types::PortType;
pub use types::Severity;
pub use utils::ts_to_lsp_range;
