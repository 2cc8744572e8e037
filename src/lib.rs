pub mod batch;
pub mod callback;
pub mod channels;
pub mod engine;
pub mod input;
pub mod sink;
pub mod splash;
pub mod viewport;

pub use batch::{plan_batch, BatchStep, TerminalInputs};
pub use callback::CallbackRez;
pub use channels::{ChannelState, ChannelTable, Decision, Error};
pub use engine::{EngineCore, HandlerSlot, LoopAction, Phase};
pub use input::{EscapeCode, InputDecoder, SshInput};
pub use sink::SinkBuffer;
pub use splash::get_splash;
pub use viewport::Viewport;
