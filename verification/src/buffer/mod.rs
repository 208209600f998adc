pub mod buffer_pool_manager;
pub mod frame_header;
pub mod lru_k_replacer;
