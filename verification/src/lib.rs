pub mod arena;
pub mod arith;
pub mod capture;
pub mod capture_laws;
pub mod dequantize;
pub mod device;
pub mod device_id;
pub mod dtype;
pub mod dummy_cuda;
pub mod error;
pub mod launch;
pub mod matmul;
pub mod messages;
pub mod moe;
pub mod moe_tier;
pub mod moe_workspace;
pub mod names;
pub mod quantize;
pub mod runs;
pub mod shape;
pub mod storage;
pub mod text;
