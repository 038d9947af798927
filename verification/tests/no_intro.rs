use holani::cartridge::lnx_header::LNXRotation;
use holani::cartridge::no_intro::{
    check_no_intro, content_key, digest_key, NoIntroSet, NO_INTRO, NO_INTRO_COUNT,
};

#[test]
fn digest_key_reads_the_first_byte_highest() {
    let digest: [u8; 16] = [
        0x00, 0x11, 0x22, 0x33, 0x44, 0x55, 0x66, 0x77, 0x88, 0x99, 0xaa, 0xbb, 0xcc, 0xdd, 0xee,
        0xff,
    ];
    assert_eq!(digest_key(&digest), 0x00112233445566778899aabbccddeeff);
    assert_eq!(digest_key(&[0; 16]), 0);
    assert_eq!(digest_key(&[0xff; 16]), u128::MAX);
    let mut one = [0u8; 16];
    one[15] = 1;
    assert_eq!(digest_key(&one), 1);
    one[0] = 0x80;
    assert_eq!(digest_key(&one), (1 << 127) | 1);
}

#[test]
fn digest_key_is_what_the_hexadecimal_form_writes() {
    let digest = md5::compute(b"abcdefghijklmnopqrstuvwxyz");
    let key = digest_key(&digest.0);
    assert_eq!(format!("{:032x}", key), format!("{:x}", digest));
    assert_eq!(format!("{:032x}", key), "c3fcd3d76192e4007dfb496cca67e13b");
}

#[test]
fn content_key_is_the_md5_digest() {
    assert_eq!(content_key(b""), 0xd41d8cd98f00b204e9800998ecf8427e);
    assert_eq!(content_key(b"abc"), 0x900150983cd24fb0d6963f7d28e17f72);
    assert_eq!(content_key(b"message digest"), 0xf96b697d7cb7938d525a2f31aaf161d0);
    assert_eq!(
        content_key(b"The quick brown fox jumps over the lazy dog"),
        0x9e107d9d372bb6826bd81d3542a419d6
    );
    let long = vec![0x5au8; 100_000];
    assert_eq!(format!("{:032x}", content_key(&long)), format!("{:x}", md5::compute(&long)));
}

#[test]
fn register_has_its_rows() {
    assert_eq!(NO_INTRO_COUNT, 94);
    assert_eq!(NO_INTRO.len(), 94);
    assert_eq!(
        NO_INTRO[0],
        (0xb425941149874c6371c40e85cc5b6241, "A.P.B. (USA, Europe)", LNXRotation::_0)
    );
    assert_eq!(
        NO_INTRO[93],
        (0xd008f41ec119e2c5c6a0782aebf148a8, "Zarlor Mercenary (USA, Europe)", LNXRotation::_0)
    );
}

#[test]
fn known_digest_gives_title_and_rotation() {
    let set = NoIntroSet::new();
    assert_eq!(
        set.lookup(0xb425941149874c6371c40e85cc5b6241),
        Ok(("A.P.B. (USA, Europe)", LNXRotation::_0))
    );
    assert_eq!(
        set.lookup(0x0b572c0dfb938849eeec39b2c9583547),
        Ok(("Gauntlet - The Third Encounter (USA, Europe)", LNXRotation::_270))
    );
    assert_eq!(
        set.lookup(0x276b9be28571189912f05d321fcb04ef),
        Ok(("NFL Football (USA, Europe)", LNXRotation::_90))
    );
    assert_eq!(
        set.lookup(0x87dff4f4d5e1e4a7132d19f94d4e9b3a),
        Ok(("Bill & Ted's Excellent Adventure (USA, Europe)", LNXRotation::_0))
    );
    assert_eq!(
        set.lookup(0x05d28ab0e92b19147e7f5ea88c6efb6d),
        Ok(("Lynx Casino (USA, Europe)", LNXRotation::_0))
    );
}

#[test]
fn every_row_is_found_under_its_digest() {
    let set = NoIntroSet::new();
    for (key, title, rotation) in NO_INTRO {
        assert_eq!(set.lookup(key), Ok((title, rotation)));
    }
}

#[test]
fn rotations_of_the_register() {
    let turned: Vec<(&str, LNXRotation)> = NO_INTRO
        .iter()
        .filter(|row| row.2 != LNXRotation::_0)
        .map(|row| (row.1, row.2))
        .collect();
    assert_eq!(
        turned,
        vec![
            ("Gauntlet - The Third Encounter (USA, Europe) (Beta) (1990-06-04)", LNXRotation::_270),
            ("Gauntlet - The Third Encounter (USA, Europe)", LNXRotation::_270),
            ("Klax (USA, Europe) (Beta)", LNXRotation::_270),
            ("Klax (USA, Europe)", LNXRotation::_270),
            ("NFL Football (USA, Europe)", LNXRotation::_90),
            ("Raiden (USA) (Proto)", LNXRotation::_270),
        ]
    );
}

#[test]
fn flipped_bit_is_unknown() {
    let set = NoIntroSet::new();
    for (key, _, _) in NO_INTRO {
        for bit in 0..128 {
            assert_eq!(set.lookup(key ^ (1u128 << bit)), Err(()));
        }
    }
}

#[test]
fn unknown_digest_is_an_error() {
    let set = NoIntroSet::new();
    assert_eq!(set.lookup(0), Err(()));
    assert_eq!(set.lookup(u128::MAX), Err(()));
    assert_eq!(set.lookup(0xd41d8cd98f00b204e9800998ecf8427e), Err(()));
}

#[test]
fn unknown_content_is_an_error() {
    assert_eq!(check_no_intro(b""), Err(()));
    assert_eq!(check_no_intro(b"not a cartridge"), Err(()));
    let set = NoIntroSet::new();
    assert_eq!(set.check(&[0u8; 512]), Err(()));
    assert_eq!(set.check(b"abc"), set.lookup(0x900150983cd24fb0d6963f7d28e17f72));
}
