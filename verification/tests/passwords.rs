use short_link::domain::auth::transport::http::{login_post_handler, register_post_handler, LoginRequest, RegisterRequest};
use short_link::tools::password_hash::{hash_password, to_hex_lower};

const ABC_SHA256: &str = "ba7816bf8f01cfea414140de5dae2223b00361a396177a9cb410ff61f20015ad";
const EMPTY_SHA256: &str = "e3b0c44298fc1c149afbf4c8996fb92427ae41e4649b934ca495991b7852b855";

#[test]
fn hex_text_of_bytes() {
    assert_eq!(to_hex_lower(&[]), "");
    assert_eq!(to_hex_lower(&[0x00, 0x0f, 0xa5, 0xff]), "000fa5ff");
}

#[test]
fn password_hashes_are_sha256_hex() {
    assert_eq!(hash_password("abc"), ABC_SHA256);
    assert_eq!(hash_password(""), EMPTY_SHA256);
    assert_ne!(hash_password("abc"), "abc");
}

#[test]
fn routes_ask_the_store_with_the_hash() {
    let login = login_post_handler(LoginRequest { email: "a@b.c".to_string(), password: "abc".to_string() });
    assert_eq!(login.email, "a@b.c");
    assert_eq!(login.password_hash, ABC_SHA256);
    let reg = register_post_handler(RegisterRequest {
        name: "Ann".to_string(),
        email: "a@b.c".to_string(),
        password: "abc".to_string(),
    });
    assert_eq!(reg.name, "Ann");
    assert_eq!(reg.email, "a@b.c");
    assert_eq!(reg.password_hash, ABC_SHA256);
}
