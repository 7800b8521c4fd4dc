pub mod handles;
pub mod pipeline;
pub mod shader;
pub mod layout;
