pub mod account;
pub mod dom;
pub mod error;
pub mod html_extractor;
pub mod jobcan;
pub mod jobcan_html_extractor;
pub mod scan;
pub mod stamp;
pub mod stamp_type;
pub mod user;
pub mod working_status;
