pub mod user_cmd;
