//! Password hashing: passwords are stored and compared only as the
//! lowercase hexadecimal text of their SHA-256 digest.
use sha2::Digest;
use vstd::prelude::*;
use vstd::utf8::encode_utf8;

verus! {

/// The SHA-256 digest of `data`.
pub uninterp spec fn sha256_of(data: Seq<u8>) -> Seq<u8>;

/// `sha2::Sha256::digest`: the SHA-256 digest of `data`, named `sha256_of`
/// (a function of the bytes alone); the algorithm itself is not stated.
#[verifier::external_body]
fn sha256_digest(data: &[u8]) -> (digest: Vec<u8>)
    ensures
        digest@ == sha256_of(data@),
{
    <sha2::Sha256 as Digest>::digest(data).to_vec()
}

/// The lowercase hexadecimal digit of `d` (for `d < 16`).
pub open spec fn hex_char(d: nat) -> char {
    if d == 0 {
        '0'
    } else
 if d == 1 {
        '1'
    } else
 if d == 2 {
        '2'
    } else
 if d == 3 {
        '3'
    } else
 if d == 4 {
        '4'
    } else
 if d == 5 {
        '5'
    } else
 if d == 6 {
        '6'
    } else
 if d == 7 {
        '7'
    } else
 if d == 8 {
        '8'
    } else
 if d == 9 {
        '9'
    } else
 if d == 10 {
        'a'
    } else
 if d == 11 {
        'b'
    } else
 if d == 12 {
        'c'
    } else
 if d == 13 {
        'd'
    } else
 if d == 14 {
        'e'
    } else {
        'f'
    }
}

/// The lowercase hexadecimal text of `bytes`: two digits per byte, high
/// digit first.
pub open spec fn hex_lower(bytes: Seq<u8>) -> Seq<char>
    decreases bytes.len(),
{
    if bytes.len() == 0 {
        Seq::empty()
    } else {
        hex_lower(bytes.drop_last()) + seq![hex_char((bytes.last() / 16) as nat), hex_char((bytes.last() % 16) as nat)]
    }
}

/// The stored form of the password `password`: the hexadecimal text of the
/// SHA-256 digest of its UTF-8 bytes.
pub open spec fn password_hash_text(password: Seq<char>) -> Seq<char> {
    hex_lower(sha256_of(encode_utf8(password)))
}

fn hex_digit_str(d: u8) -> (s: &'static str)
    requires
        d < 16,
    ensures
        s@ == seq![hex_char(d as nat)],
{
    if d == 0 {
        proof { reveal_strlit("0"); }
        "0"
    } else if d == 1 {
        proof { reveal_strlit("1"); }
        "1"
    } else if d == 2 {
        proof { reveal_strlit("2"); }
        "2"
    } else if d == 3 {
        proof { reveal_strlit("3"); }
        "3"
    } else if d == 4 {
        proof { reveal_strlit("4"); }
        "4"
    } else if d == 5 {
        proof { reveal_strlit("5"); }
        "5"
    } else if d == 6 {
        proof { reveal_strlit("6"); }
        "6"
    } else if d == 7 {
        proof { reveal_strlit("7"); }
        "7"
    } else if d == 8 {
        proof { reveal_strlit("8"); }
        "8"
    } else if d == 9 {
        proof { reveal_strlit("9"); }
        "9"
    } else if d == 10 {
        proof { reveal_strlit("a"); }
        "a"
    } else if d == 11 {
        proof { reveal_strlit("b"); }
        "b"
    } else if d == 12 {
        proof { reveal_strlit("c"); }
        "c"
    } else if d == 13 {
        proof { reveal_strlit("d"); }
        "d"
    } else if d == 14 {
        proof { reveal_strlit("e"); }
        "e"
    } else {
        proof { reveal_strlit("f"); }
        "f"
    }
}

/// The hexadecimal text of `bytes`.
pub fn to_hex_lower(bytes: &[u8]) -> (s: String)
    ensures
        s@ == hex_lower(bytes@),
        s@.len() == 2 * bytes@.len(),
{
    let mut s = String::new();
    let mut i: usize = 0;
    while i < bytes.len()
        invariant
            i <= bytes@.len(),
            s@ == hex_lower(bytes@.take(i as int)),
        decreases bytes@.len() - i,
    {
        let b = bytes[i];
        s.append(hex_digit_str(b / 16));
        s.append(hex_digit_str(b % 16));
        proof {
            let next = bytes@.take(i + 1);
            assert(next.drop_last() =~= bytes@.take(i as int));
            assert(next.last() == b);
        }
        i = i + 1;
    }
    assert(bytes@.take(bytes@.len() as int) =~= bytes@);
    proof {
        lemma_hex_lower_shape(bytes@);
    }
    s
}

/// The stored form of `password`.
pub fn hash_password(password: &str) -> (hash: String)
    ensures
        hash@ == password_hash_text(password@),
        hash@ == hex_lower(sha256_of(encode_utf8(password@))),
{
    let digest = sha256_digest(password.as_bytes());
    to_hex_lower(digest.as_slice())
}

/// The stored form of a password is the hexadecimal text of the SHA-256
/// digest of all of the password's UTF-8 bytes.
pub proof fn lemma_password_hash_covers_all_bytes(password: Seq<char>)
    ensures
        password_hash_text(password) == hex_lower(sha256_of(encode_utf8(password))),
{
}

/// The hexadecimal text of `bytes` has two digits per byte: at `2 * i` the
/// high digit of byte `i`, at `2 * i + 1` its low digit.
pub proof fn lemma_hex_lower_shape(bytes: Seq<u8>)
    ensures
        hex_lower(bytes).len() == 2 * bytes.len(),
        forall|i: int|
            #![trigger bytes[i]]
            0 <= i < bytes.len() ==> hex_lower(bytes)[2 * i] == hex_char((bytes[i] / 16) as nat)
                && hex_lower(bytes)[2 * i + 1] == hex_char((bytes[i] % 16) as nat),
    decreases bytes.len(),
{
    if bytes.len() > 0 {
        let front = bytes.drop_last();
        lemma_hex_lower_shape(front);
        assert forall|i: int| #![trigger bytes[i]] 0 <= i < bytes.len() implies hex_lower(bytes)[2 * i] == hex_char((bytes[i] / 16) as nat)
            && hex_lower(bytes)[2 * i + 1] == hex_char((bytes[i] % 16) as nat) by {
            if i < front.len() {
                assert(front[i] == bytes[i]);
            }
        }
    }
}

/// Different hexadecimal digits are different characters.
pub proof fn lemma_hex_char_distinct(d: nat, e: nat)
    requires
        d < 16,
        e < 16,
        hex_char(d) == hex_char(e),
    ensures
        d == e,
{
}

/// Different byte sequences have different hexadecimal texts.
pub proof fn lemma_hex_lower_injective(a: Seq<u8>, b: Seq<u8>)
    requires
        hex_lower(a) == hex_lower(b),
    ensures
        a == b,
{
    lemma_hex_lower_shape(a);
    lemma_hex_lower_shape(b);
    assert(a.len() == b.len());
    assert forall|i: int| 0 <= i < a.len() implies a[i] == b[i] by {
        assert(hex_lower(a)[2 * i] == hex_char((a[i] / 16) as nat));
        assert(hex_lower(b)[2 * i] == hex_char((b[i] / 16) as nat));
        assert(hex_lower(a)[2 * i + 1] == hex_char((a[i] % 16) as nat));
        assert(hex_lower(b)[2 * i + 1] == hex_char((b[i] % 16) as nat));
        lemma_hex_char_distinct((a[i] / 16) as nat, (b[i] / 16) as nat);
        lemma_hex_char_distinct((a[i] % 16) as nat, (b[i] % 16) as nat);
    }
    assert(a =~= b);
}

} // verus!
