pub mod transaction;
pub mod transaction_manager;
pub mod transanction_manager;
pub mod watermark;
