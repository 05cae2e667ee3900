//! Host-side logic of a single compute dispatch that exercises threadgroup
//! memory: the two kernel sources, the typed four-byte buffers shared with the
//! device, the ordered list of setup, encoding and readback steps, and the
//! report line.

pub mod error;
pub mod report;
pub mod run;
pub mod shader;
pub mod word;

pub use error::RunError;
pub use report::output_line;
pub use run::{Action, BufferRole, Directive, Event, GridSize, Run};
pub use shader::{load_shader_src, ShaderVariant, ENTRY_POINT, MEM_AS_ARG_SRC, MEM_AS_LOCAL_SRC};
pub use word::{decode_word, encode_word, WORD_BYTES};
