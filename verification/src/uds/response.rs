//! UDS responses: the common envelope and the data of each service.

pub mod access_timing_param;
pub mod authentication;
pub mod clear_diagnostic_info;
pub mod ctrl_dtc_setting;
pub mod dynamically_define_did;
pub mod ecu_reset;
pub mod io_ctrl;
pub mod link_ctrl;
pub mod read_data_by_pid;
pub mod read_did;
pub mod read_mem_by_addr;
pub mod request_transfer_exit;
pub mod request_upload;
pub mod response_on_event;
pub mod routine_ctrl;
pub mod secured_data_trans;
pub mod security_access;
pub mod session_ctrl;
pub mod tester_present;
pub mod transfer_data;
pub mod write_did;
pub mod write_mem_by_addr;
pub mod message;
pub mod negatives;
