pub mod move_flags;
pub mod net;
pub mod npc_text;
pub mod particles;
pub mod perf;
pub mod pipe_warm;
pub mod player;
pub mod portrait;
pub mod ribbons;
pub mod single;
pub mod text;
