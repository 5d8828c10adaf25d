use arti_core::{sha3_dual, ConsensusMeta, Lifetime};
use sha3::{Digest, Sha3_256};

#[test]
fn t_sha3_dual() {
    let s = b"Loarax ipsum gruvvulus thneed amet, snergelly once-ler lerkim, sed do barbaloot tempor gluppitus ut labore et truffula magna aliqua. Ut enim ad grickle-grass veniam, quis miff-muffered ga-zumpco laboris nisi ut cruffulus ex ea schloppity consequat. Duis aute snarggle in swomeeswans in voluptate axe-hacker esse rippulus crummii eu moof nulla snuvv.";

    let sha3_of_whole: [u8; 32] = Sha3_256::digest(s).into();

    for idx in 0..s.len() {
        let sha3_of_part: [u8; 32] = Sha3_256::digest(&s[..idx]).into();
        let (a, b) = sha3_dual(&s[..idx], &s[idx..]);
        assert_eq!(a, sha3_of_part);
        assert_eq!(b, sha3_of_whole);
    }
}

#[test]
fn consensus_meta_fields() {
    let lt = Lifetime { valid_after: 100, fresh_until: 200, valid_until: 300 };
    let signed = [1u8; 32];
    let whole = [2u8; 32];
    let meta = ConsensusMeta::new(lt, signed, whole);
    assert_eq!(*meta.lifetime(), lt);
    assert_eq!(meta.sha3_256_of_signed(), &signed);
    assert_eq!(meta.sha3_256_of_whole(), &whole);

    let m2 = ConsensusMeta::from_signed_text(lt, b"abc", b"def");
    let expect_signed: [u8; 32] = Sha3_256::digest(b"abc").into();
    let expect_whole: [u8; 32] = Sha3_256::digest(b"abcdef").into();
    assert_eq!(m2.sha3_256_of_signed(), &expect_signed);
    assert_eq!(m2.sha3_256_of_whole(), &expect_whole);
}
