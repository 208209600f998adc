pub mod execution_engine;
pub mod executor_context;
pub mod executors;
pub mod expressions;
pub mod mock_scan_executor;
pub mod plans;
