use rand::rngs::OsRng;
use wots_rs::Keypair;
use wots_rs::PublicKey;
use wots_rs::SecretKey;
use wots_rs::Signature;

/// Apply sha256 `n` times to a 32-byte block.
fn iterate(block: [u8; 32], n: usize) -> [u8; 32] {
    let mut cur = block;
    for _ in 0..n {
        cur = sha256_rs::sha256(&cur);
    }
    cur
}

/// A deterministic 32x32 byte array, distinct for distinct tags.
fn fixed_blocks(tag: u8) -> [[u8; 32]; 32] {
    let mut blocks = [[0u8; 32]; 32];
    for i in 0..32 {
        for j in 0..32 {
            blocks[i][j] = (i as u8)
                .wrapping_mul(31)
                .wrapping_add(j as u8)
                .wrapping_mul(17)
                .wrapping_add(tag);
        }
    }
    blocks
}

#[test]
fn it_works() {
    let message = b"hello";

    let mut csprng = OsRng {};
    let keypair = Keypair::generate(&mut csprng);

    let signature = keypair.sign(message);
    assert!(keypair.verify(message, signature));
}

#[test]
fn round_trip_fixed_key() {
    let secret = SecretKey::from_bytes(fixed_blocks(1));
    let public = PublicKey::from_secret(&secret);

    let message = b"a message of no particular length";
    let signature = secret.sign(message);
    assert!(public.verify(message, signature));
}

#[test]
fn round_trip_empty_message() {
    let secret = SecretKey::from_bytes(fixed_blocks(2));
    let public = PublicKey::from_secret(&secret);

    let signature = secret.sign(b"");
    assert!(public.verify(b"", signature));
}

#[test]
fn tampered_message_fails() {
    let secret = SecretKey::from_bytes(fixed_blocks(3));
    let public = PublicKey::from_secret(&secret);

    let message = b"pay 10 to alice";
    let signature = secret.sign(message);
    let sig_blocks = signature.to_bytes();

    let mut tampered = *message;
    for bit in 0..8 {
        for pos in 0..tampered.len() {
            tampered[pos] ^= 1 << bit;
            let sig = Signature::from_bytes(sig_blocks);
            assert!(!public.verify(&tampered, sig));
            tampered[pos] ^= 1 << bit;
        }
    }
    assert!(public.verify(message, signature));
}

#[test]
fn tampered_signature_fails() {
    let secret = SecretKey::from_bytes(fixed_blocks(4));
    let public = PublicKey::from_secret(&secret);

    let message = b"hello";
    let signature = secret.sign(message);
    let blocks = signature.to_bytes();

    for i in 0..32 {
        let mut tampered = blocks;
        tampered[i][7] ^= 0x20;
        assert!(!public.verify(message, Signature::from_bytes(tampered)));
    }
    assert!(public.verify(message, signature));
}

#[test]
fn chain_algebra_identity() {
    let secret = SecretKey::from_bytes(fixed_blocks(5));
    let public = PublicKey::from_secret(&secret);

    let message = b"chain algebra";
    let signature = secret.sign(message);

    let digest = sha256_rs::sha256(message);
    let sig_blocks = signature.to_bytes();
    let pub_blocks = public.to_bytes();
    for i in 0..32 {
        assert_eq!(iterate(sig_blocks[i], digest[i] as usize), pub_blocks[i]);
    }
}

#[test]
fn sign_depth_formula() {
    // sha256(b"hello") starts with byte 44, so chain 0 of a signature on
    // b"hello" is the seed hashed 256 - 44 = 212 times.
    let digest = sha256_rs::sha256(b"hello");
    assert_eq!(digest[0], 44);

    let seeds = fixed_blocks(6);
    let secret = SecretKey::from_bytes(seeds);
    let signature = secret.sign(b"hello");

    assert_eq!(signature.to_bytes()[0], iterate(seeds[0], 212));
}

#[test]
fn public_key_is_full_chain() {
    let seeds = fixed_blocks(7);
    let public = PublicKey::from_secret(&SecretKey::from_bytes(seeds));
    let blocks = public.to_bytes();
    for i in 0..32 {
        assert_eq!(blocks[i], iterate(seeds[i], 256));
    }
}

#[test]
fn sign_is_deterministic() {
    let secret = SecretKey::from_bytes(fixed_blocks(8));
    let message = b"same message";
    let first = secret.sign(message);
    let second = secret.sign(message);
    assert_eq!(first.to_bytes(), second.to_bytes());
    assert!(first == second);
}

#[test]
fn distinct_keys_distinct_publics() {
    let mut csprng = OsRng {};
    let first = Keypair::generate(&mut csprng);
    let second = Keypair::generate(&mut csprng);
    assert!(first.public.to_bytes() != second.public.to_bytes());
}

#[test]
fn bytes_round_trip_secret_key() {
    let x = SecretKey::from_bytes(fixed_blocks(9));
    assert!(SecretKey::from_bytes(x.to_bytes()) == x);
}

#[test]
fn bytes_round_trip_public_key() {
    let x = PublicKey::from_bytes(fixed_blocks(10));
    assert!(PublicKey::from_bytes(x.to_bytes()) == x);
}

#[test]
fn bytes_round_trip_signature() {
    let x = Signature::from_bytes(fixed_blocks(11));
    assert!(Signature::from_bytes(x.to_bytes()) == x);
}

#[test]
fn byte_layout_is_block_order() {
    let blocks = fixed_blocks(12);
    let out = Signature::from_bytes(blocks).to_bytes();
    for i in 0..32 {
        for j in 0..32 {
            assert_eq!(out[i][j], blocks[i][j]);
        }
    }
}

/// Reusing one secret key for two messages is a misuse that the scheme does
/// not detect: both signatures verify, and together they leak enough chain
/// values to forge a signature for any digest that is the byte-wise minimum
/// of the two observed digests. The forged blocks still complete every chain
/// exactly to the public key, which is what this test checks; only the lack
/// of a message with that digest stands between the adversary and a full
/// forgery.
#[test]
fn key_reuse_leaks_forgeable_chains() {
    let mut csprng = OsRng {};
    let keypair = Keypair::generate(&mut csprng);

    let s1 = keypair.sign(b"hello");
    assert!(keypair.verify(b"hello", Signature::from_bytes(s1.to_bytes())));

    let s2 = keypair.sign(b"world");
    assert!(keypair.verify(b"world", Signature::from_bytes(s2.to_bytes())));

    let d1 = sha256_rs::sha256(b"hello");
    let d2 = sha256_rs::sha256(b"world");
    let s1_blocks = s1.to_bytes();
    let s2_blocks = s2.to_bytes();
    let pub_blocks = keypair.public.to_bytes();

    for i in 0..32 {
        // Forge the block for digest byte min(d1[i], d2[i]) by walking the
        // less-iterated signature block forward by the difference.
        let (forged, depth) = if d1[i] >= d2[i] {
            (iterate(s1_blocks[i], (d1[i] - d2[i]) as usize), d2[i])
        } else {
            (iterate(s2_blocks[i], (d2[i] - d1[i]) as usize), d1[i])
        };
        assert_eq!(iterate(forged, depth as usize), pub_blocks[i]);
    }
}
