pub mod password_hash;
