pub mod user_no_password;
