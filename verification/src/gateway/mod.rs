pub mod close_code;
pub mod gatewayclosecode;
pub mod gatewayopcode;
pub mod op_code;
pub mod shardconnection;
pub mod event;
