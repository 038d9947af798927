//! The register of known cartridge dumps: for the MD5 digest of a dump, the
//! title of the game and how it turns the screen.

use vstd::prelude::*;
use crate::cartridge::lnx_header::LNXRotation;

verus! {

/// The number of dumps in the register.
pub const NO_INTRO_COUNT: usize = 94;

/// The register: the digest of each dump as a number, the title, and the
/// rotation.
pub const NO_INTRO: [(u128, &'static str, LNXRotation); 94] = [
    (0xb425941149874c6371c40e85cc5b6241, "A.P.B. (USA, Europe)", LNXRotation::_0),
    (0x8ce6c739d30d6c5ba197fcdd73d5ead5, "Alien vs Predator (USA) (Proto) (1993-12-17)", LNXRotation::_0),
    (0x49d6eeb3c983246ff4d7034497f7095c, "Awesome Golf (USA, Europe)", LNXRotation::_0),
    (0x8c9a72ddbb5559293862684ec67bfa92, "Baseball Heroes (USA, Europe)", LNXRotation::_0),
    (0xf19b95e4835c5fbc44b180dbd3f024fc, "Basketbrawl (USA, Europe)", LNXRotation::_0),
    (0x6e9bbff3c7b66d3ec0411ffbe0e41dfd, "Batman Returns (USA, Europe)", LNXRotation::_0),
    (0xfddecd756abe5eaf613ca1db31d51df7, "Battle Wheels (USA, Europe)", LNXRotation::_0),
    (0xd405ea54b77390b06222f9dac7cea827, "Battlezone 2000 (USA, Europe)", LNXRotation::_0),
    (0x87dff4f4d5e1e4a7132d19f94d4e9b3a, "Bill & Ted's Excellent Adventure (USA, Europe)", LNXRotation::_0),
    (0xc81abf2919effd525b83c2103b75e6ca, "Block Out (USA, Europe)", LNXRotation::_0),
    (0x7c3cb287de2d9f67ff342b4e42592732, "Blue Lightning (USA, Europe) (Demo)", LNXRotation::_0),
    (0xf7b4775771bc25d9053af5c69a8c8b2a, "Blue Lightning (USA, Europe)", LNXRotation::_0),
    (0x90841f8fed54862f8a8750ddf212eb84, "Bubble Trouble (USA, Europe)", LNXRotation::_0),
    (0x73e02bb77dcf857a6578f0e24b4ecb9e, "California Games (USA, Europe)", LNXRotation::_0),
    (0x13cb869b95c67c532efdd0e924e37299, "Centipede (USA) (Proto)", LNXRotation::_0),
    (0x85b33c5e5985ab041ecc44555a8cfb42, "Checkered Flag (USA, Europe)", LNXRotation::_0),
    (0x24611d1445ebd34ab79fb0ae996ff4e4, "Chip's Challenge (USA, Europe)", LNXRotation::_0),
    (0xb4acbd3c544a0d92cc8ad1380bf8a810, "Crystal Mines II (USA, Europe)", LNXRotation::_0),
    (0xf8b4debd68eb0d7c578242fa74e1c593, "Daemonsgate (USA) (Proto)", LNXRotation::_0),
    (0xf764b88c44afa8b5ebefb8eb2e4d7b97, "Desert Strike - Return to the Gulf (USA, Europe)", LNXRotation::_0),
    (0x9496be61fd0675553f05345c5fc2d15c, "Dinolympics (USA, Europe)", LNXRotation::_0),
    (0x8cd77bec912c9b4dcebd8a82dcf91a0b, "Dirty Larry - Renegade Cop (USA, Europe)", LNXRotation::_0),
    (0x0e91b7ed60bb47d569ba24df671ad3a3, "Double Dragon (USA, Europe)", LNXRotation::_0),
    (0x3ff35996887c2ff95e275085efbbbbed, "Dracula the Undead (USA, Europe)", LNXRotation::_0),
    (0xc49ca94a908db219224c6d5baa206ab6, "Electrocop (USA, Europe)", LNXRotation::_0),
    (0x32e726ab7941eb1e833dcc4cf348a060, "European Soccer Challenge (USA, Europe)", LNXRotation::_0),
    (0x858480bb97d86a52b1ca17dc390a8bdc, "Eye of the Beholder (USA) (Proto)", LNXRotation::_0),
    (0x7b3f49bda3162fac51a387905e6fb6f4, "Eye of the Beholder (USA) (Unl)", LNXRotation::_0),
    (0x69abd21c83390dae54630919c3c150d0, "Fat Bobby (USA, Europe)", LNXRotation::_0),
    (0x19eb0ca77284b5d91a63eb02f6962930, "Fidelity Ultimate Chess Challenge, The (USA, Europe)", LNXRotation::_0),
    (0xd5be9118bcb14243468001b08c4aa21a, "Gates of Zendocon (USA, Europe)", LNXRotation::_0),
    (0x8815ea087af1aa89b4f7b65bd3cb8534, "Gauntlet - The Third Encounter (USA, Europe) (Beta) (1990-06-04)", LNXRotation::_270),
    (0x0b572c0dfb938849eeec39b2c9583547, "Gauntlet - The Third Encounter (USA, Europe)", LNXRotation::_270),
    (0xeb9b5b2b6160e5f3015bc2a669d886b6, "Gordo 106 (USA, Europe)", LNXRotation::_0),
    (0xc265f0de8c5bd77db8f9cf5a1f7ab68f, "Hard Drivin' (USA, Europe)", LNXRotation::_0),
    (0xa08b8070ad613bdb2637162b3bf39574, "Hockey (USA, Europe)", LNXRotation::_0),
    (0x76a48869c14fbcf85588001a1327253d, "Hydra (USA, Europe)", LNXRotation::_0),
    (0xaddc6c0ae7b535839815b8e7f7fd0f11, "Ishido - The Way of Stones (USA, Europe)", LNXRotation::_0),
    (0x087e6ed018ad0573bd7ce3a91d34f2c9, "Jimmy Connors' Tennis (USA, Europe)", LNXRotation::_0),
    (0x440462507cf5cffaa8d3d3a66f01ac6a, "Joust (USA, Europe)", LNXRotation::_0),
    (0x57043e8e79588c067118a4d5f307cd76, "Klax (USA, Europe) (Beta)", LNXRotation::_270),
    (0xf96a0ddcc72c971226e8fdfd95607c88, "Klax (USA, Europe)", LNXRotation::_270),
    (0x7e82db12a5749ab983e2f3c8bf4c0f6e, "Krazy Ace - Miniature Golf (USA, Europe)", LNXRotation::_0),
    (0xe5e42190918847b8c6056e78316ee91d, "Kung Food (USA, Europe)", LNXRotation::_0),
    (0x3cae85572df3b43f0220326bf4bb3c8b, "Lemmings (USA, Europe)", LNXRotation::_0),
    (0x7ee41edaef283459c9df93366c5da267, "Lexis (USA)", LNXRotation::_0),
    (0x96fd77f3527bc6f65977b99ab63d7f84, "Lode Runner (USA) (Proto) (Unl)", LNXRotation::_0),
    (0x8399c8fba48ba1a4389a96e75838dc49, "Loopz (USA) (Proto)", LNXRotation::_0),
    (0x05d28ab0e92b19147e7f5ea88c6efb6d, "Lynx Casino (USA, Europe)", LNXRotation::_0),
    (0x5d8fdfb15441cdfb8a1c66c243c486da, "Lynx II Production Test Program (USA)", LNXRotation::_0),
    (0x98c851c7ed924e1c7123c60e5164819e, "Malibu Bikini Volleyball (USA, Europe) (Beta) (1993-05-11)", LNXRotation::_0),
    (0x280344c8b073895ecce286d1b9d87d8b, "Malibu Bikini Volleyball (USA, Europe)", LNXRotation::_0),
    (0x194a3eeb876d2b74cc480f4d337d79b3, "Marlboro Go! (Europe) (Proto)", LNXRotation::_0),
    (0x192b6b764a3a1c7831e0a785fa4b5453, "Ms. Pac-Man (USA, Europe)", LNXRotation::_0),
    (0x276b9be28571189912f05d321fcb04ef, "NFL Football (USA, Europe)", LNXRotation::_90),
    (0x7ec4063eb6c7c74600d6a16fb3a3bdbd, "Ninja Gaiden (USA, Europe)", LNXRotation::_0),
    (0xc9ed2a3bdefd6d5fdf67302d87b5cfb2, "Ninja Gaiden III - The Ancient Ship of Doom (USA, Europe)", LNXRotation::_0),
    (0x0a14754b351b4f11a1359e252b8eb992, "Pac-Land (USA, Europe)", LNXRotation::_0),
    (0x2a59d2ca6d6f07bc2791bf349e2778ee, "Paperboy (USA, Europe)", LNXRotation::_0),
    (0x29a248fbc87f477b49587581e29c1dc7, "Pinball Jam (USA, Europe)", LNXRotation::_0),
    (0x5565889a9a8817f99ec6dda322a70877, "Pit-Fighter (USA, Europe)", LNXRotation::_0),
    (0xb29414b8c81cc9ef28ef2f7a09d6d876, "Power Factor (USA, Europe)", LNXRotation::_0),
    (0x12e1eb0900402ef6de8b72dda5d22f47, "QIX (USA, Europe)", LNXRotation::_0),
    (0xabfd6ae93c31e8f59aa934ad922cb4dd, "Raiden (USA) (Proto)", LNXRotation::_270),
    (0xe0cb426257761c3688a866332ed48340, "Rampage (USA, Europe)", LNXRotation::_0),
    (0xd8045ed542d5e58c779c884e0930e16c, "Rampart (USA, Europe)", LNXRotation::_0),
    (0x702e4d515d9f33698407b118c4cd373f, "Road Riot 4WD (USA) (Proto 1)", LNXRotation::_0),
    (0x8e0680d9d484749297bd7f4cfd5b7354, "Road Riot 4WD (USA) (Proto 2)", LNXRotation::_0),
    (0x9222e42a160924dee0c87a67fdbc48d0, "Road Riot 4WD (USA) (Proto 3)", LNXRotation::_0),
    (0x39617ebb81f3c1df27354c18571bd6c3, "RoadBlasters (USA, Europe)", LNXRotation::_0),
    (0xf9faa45e3c35e505249c3f9df801737b, "Robo-Squash (USA, Europe)", LNXRotation::_0),
    (0x60c1dfbf112bbb2a49cf16eddb191842, "Robotron 2084 (USA, Europe)", LNXRotation::_0),
    (0xff6fff314446ab70dfecb21e2de4a2f6, "Rygar (USA, Europe)", LNXRotation::_0),
    (0x490f8063bbb299070c4aceab64195088, "S.T.U.N. Runner (USA, Europe)", LNXRotation::_0),
    (0x0cf228912d2f8eeb29aa215abf416f6d, "Scrapyard Dog (USA, Europe)", LNXRotation::_0),
    (0xf92d57198ef2da30dba63bdd7c15ff83, "Shadow of the Beast (USA, Europe)", LNXRotation::_0),
    (0x46634eb87e6380d4d10f7b80d177c1ff, "Shanghai (USA, Europe)", LNXRotation::_0),
    (0x8828c0042a1a397de67c4e49042161ff, "Steel Talons (USA, Europe)", LNXRotation::_0),
    (0x67dd69e6ffaf61bc85243d272d9ee9d9, "Super Asteroids, Missile Command (USA, Europe)", LNXRotation::_0),
    (0x6cd23cb37c4c4c34ef4e197468462f3f, "Super Off-Road (USA, Europe)", LNXRotation::_0),
    (0xa19802bd3a7e390daf7e2cbe5a81ed38, "Super Skweek (USA, Europe)", LNXRotation::_0),
    (0x4971dd8b47d3475dc8d31b5325c14459, "Switchblade II (USA, Europe)", LNXRotation::_0),
    (0x4581ac0418679567dce041c88cc97719, "Todd's Adventures in Slime World (USA, Europe)", LNXRotation::_0),
    (0xec46311f47276e20cc43228c96d119a1, "Toki (USA, Europe)", LNXRotation::_0),
    (0x391dfaba9ab8b9b60e9d8ca2a73f5711, "Tournament Cyberball (USA, Europe)", LNXRotation::_0),
    (0x8caaaf56f95ee0bb610ca14af2d12a61, "Turbo Sub (USA, Europe)", LNXRotation::_0),
    (0x44d7c4ea6b8d930075f5b05c94b5f973, "Viking Child (USA, Europe)", LNXRotation::_0),
    (0xe7f118ac59f985ceea2ecfc0f17e9cc6, "Warbirds (USA, Europe)", LNXRotation::_0),
    (0x7fcf204013cbedf7eaaf682ff5f216ba, "World Class Soccer (USA, Europe)", LNXRotation::_0),
    (0x69fb597cb4db019c48fd2e0c1cc7b75c, "Xenophobe (USA, Europe)", LNXRotation::_0),
    (0xc145bfe904e5d56f479df44204b255da, "Xybots (USA, Europe)", LNXRotation::_0),
    (0x52997de9af205728a0e17ea3475f7ae2, "Zaku (USA) (Beta) (Unl)", LNXRotation::_0),
    (0x6b9d6872961b22de6b1b0cced65d8e3f, "Zaku (USA) (Unl)", LNXRotation::_0),
    (0xd008f41ec119e2c5c6a0782aebf148a8, "Zarlor Mercenary (USA, Europe)", LNXRotation::_0),
];

/// The MD5 digest of `data`.
pub uninterp spec fn md5_digest(data: Seq<u8>) -> Seq<u8>;

/// Calls `md5::compute` and hands out the sixteen bytes of the digest. The
/// bytes are those that `md5_digest` names for the data; nothing more is
/// claimed of them.
#[verifier::external_body]
fn md5_compute(data: &[u8]) -> (digest: [u8; 16])
    ensures
        digest@ == md5_digest(data@),
{
    md5::compute(data).0
}

/// A hash index from digests to rows of the register, held in a
/// `hashbrown::HashMap`.
#[verifier::external_body]
pub struct DigestIndex {
    map: hashbrown::HashMap<u128, usize>,
}

/// The row that the index holds for each digest.
pub uninterp spec fn index_entries(index: DigestIndex) -> Map<u128, usize>;

/// Calls `hashbrown::HashMap::new`: the new index holds no entry.
#[verifier::external_body]
fn index_new() -> (index: DigestIndex)
    ensures
        (index_entries(index) == Map::<u128, usize>::empty()),
{
    DigestIndex { map: hashbrown::HashMap::new() }
}

/// Calls `hashbrown::HashMap::insert`: afterwards the index holds `row` for
/// `key`, in place of any row it held for `key` before, and every other
/// entry as before.
#[verifier::external_body]
fn index_insert(index: &mut DigestIndex, key: u128, row: usize)
    ensures
        index_entries(*final(index)) == index_entries(*old(index)).insert(key, row),
{
    index.map.insert(key, row);
}

/// Calls `hashbrown::HashMap::get`: the row that the index holds for `key`,
/// if it holds one.
#[verifier::external_body]
fn index_get(index: &DigestIndex, key: u128) -> (row: Option<usize>)
    ensures
        row == (if index_entries(*index).dom().contains(key) {
            Some(index_entries(*index)[key])
        } else {
            None
        }),
{
    index.map.get(&key).copied()
}

/// The bytes read as one number, the first byte highest.
pub open spec fn key_of_bytes(bytes: Seq<u8>) -> u128
    decreases bytes.len(),
{
    if bytes.len() == 0 {
        0
    } else {
        (key_of_bytes(bytes.drop_last()) << 8) | (bytes.last() as u128)
    }
}

/// The last of the first `n` rows of the register that has the digest `key`.
pub open spec fn find_below(key: u128, n: nat) -> Option<int>
    decreases n,
{
    if n == 0 {
        None
    } else if NO_INTRO[n - 1].0 == key {
        Some(n - 1)
    } else {
        find_below(key, (n - 1) as nat)
    }
}

/// The row of the register that has the digest `key`.
pub open spec fn find(key: u128) -> Option<int> {
    find_below(key, NO_INTRO_COUNT as nat)
}

/// What the register says of the digest `key`: title and rotation of the
/// dump if it is known, and an error if it is not.
pub open spec fn registered(key: u128) -> Result<(&'static str, LNXRotation), ()> {
    match find(key) {
        Some(row) => Ok((NO_INTRO[row].1, NO_INTRO[row].2)),
        None => Err(()),
    }
}

/// The entries of an index built from the first `n` rows of the register.
pub open spec fn rows_below(n: nat) -> Map<u128, usize> {
    Map::new(|key: u128| find_below(key, n) is Some, |key: u128| find_below(key, n).unwrap() as usize)
}

/// A digest as one number, the first byte highest: the number that the
/// digest's hexadecimal form writes.
pub fn digest_key(digest: &[u8; 16]) -> (key: u128)
    ensures
        key == key_of_bytes(digest@),
{
    let mut key: u128 = 0;
    for i in 0..16usize
        invariant
            key == key_of_bytes(digest@.take(i as int)),
    {
        assert(digest@.take(i + 1).drop_last() == digest@.take(i as int));
        key = (key << 8) | (digest[i] as u128);
    }
    assert(digest@.take(16) == digest@);
    key
}

/// The digest of `data` as a number.
pub fn content_key(data: &[u8]) -> (key: u128)
    ensures
        key == key_of_bytes(md5_digest(data@)),
{
    let digest = md5_compute(data);
    digest_key(&digest)
}

/// The register of known dumps, indexed by digest.
pub struct NoIntroSet {
    index: DigestIndex,
}

impl NoIntroSet {
    /// The index holds every row of the register under its digest.
    pub closed spec fn wf(&self) -> bool {
        index_entries(self.index) == rows_below(NO_INTRO_COUNT as nat)
    }

    /// Builds the index over the register.
    pub fn new() -> (r: Self)
        ensures
            r.wf(),
    {
        let mut index = index_new();
        assert(index_entries(index) =~= rows_below(0));
        for row in 0..NO_INTRO_COUNT
            invariant
                index_entries(index) == rows_below(row as nat),
        {
            index_insert(&mut index, NO_INTRO[row].0, row);
            assert(index_entries(index) =~= rows_below((row + 1) as nat));
        }
        Self { index }
    }

    /// What the register says of a dump with the digest `key`.
    pub fn lookup(&self, key: u128) -> (r: Result<(&'static str, LNXRotation), ()>)
        requires
            self.wf(),
        ensures
            r == registered(key),
    {
        match index_get(&self.index, key) {
            Some(row) => {
                proof {
                    lemma_found_row(key, NO_INTRO_COUNT as nat);
                }
                Ok((NO_INTRO[row].1, NO_INTRO[row].2))
            },
            None => Err(()),
        }
    }

    /// What the register says of the dump `data`.
    pub fn check(&self, data: &[u8]) -> (r: Result<(&'static str, LNXRotation), ()>)
        requires
            self.wf(),
        ensures
            r == registered(key_of_bytes(md5_digest(data@))),
    {
        self.lookup(content_key(data))
    }
}

/// What the register says of the dump `data`: title and rotation if its
/// digest is that of a known dump, and an error if it is not. The index is
/// built for the one call; to check many dumps, keep a `NoIntroSet`.
pub fn check_no_intro(data: &[u8]) -> (r: Result<(&'static str, LNXRotation), ()>)
    ensures
        r == registered(key_of_bytes(md5_digest(data@))),
{
    NoIntroSet::new().check(data)
}

proof fn lemma_found_row(key: u128, n: nat)
    ensures
        find_below(key, n) matches Some(row) ==> 0 <= row < n && NO_INTRO[row].0 == key,
    decreases n,
{
    if n > 0 {
        lemma_found_row(key, (n - 1) as nat);
    }
}

/// The row of the register that has the digest `key`, read off the digests
/// written out one by one; the number of rows if none has it.
pub open spec fn row_of(key: u128) -> u8 {
    if key == 0xb425941149874c6371c40e85cc5b6241 {
        0
    } else if key == 0x8ce6c739d30d6c5ba197fcdd73d5ead5 {
        1
    } else if key == 0x49d6eeb3c983246ff4d7034497f7095c {
        2
    } else if key == 0x8c9a72ddbb5559293862684ec67bfa92 {
        3
    } else if key == 0xf19b95e4835c5fbc44b180dbd3f024fc {
        4
    } else if key == 0x6e9bbff3c7b66d3ec0411ffbe0e41dfd {
        5
    } else if key == 0xfddecd756abe5eaf613ca1db31d51df7 {
        6
    } else if key == 0xd405ea54b77390b06222f9dac7cea827 {
        7
    } else if key == 0x87dff4f4d5e1e4a7132d19f94d4e9b3a {
        8
    } else if key == 0xc81abf2919effd525b83c2103b75e6ca {
        9
    } else if key == 0x7c3cb287de2d9f67ff342b4e42592732 {
        10
    } else if key == 0xf7b4775771bc25d9053af5c69a8c8b2a {
        11
    } else if key == 0x90841f8fed54862f8a8750ddf212eb84 {
        12
    } else if key == 0x73e02bb77dcf857a6578f0e24b4ecb9e {
        13
    } else if key == 0x13cb869b95c67c532efdd0e924e37299 {
        14
    } else if key == 0x85b33c5e5985ab041ecc44555a8cfb42 {
        15
    } else if key == 0x24611d1445ebd34ab79fb0ae996ff4e4 {
        16
    } else if key == 0xb4acbd3c544a0d92cc8ad1380bf8a810 {
        17
    } else if key == 0xf8b4debd68eb0d7c578242fa74e1c593 {
        18
    } else if key == 0xf764b88c44afa8b5ebefb8eb2e4d7b97 {
        19
    } else if key == 0x9496be61fd0675553f05345c5fc2d15c {
        20
    } else if key == 0x8cd77bec912c9b4dcebd8a82dcf91a0b {
        21
    } else if key == 0x0e91b7ed60bb47d569ba24df671ad3a3 {
        22
    } else if key == 0x3ff35996887c2ff95e275085efbbbbed {
        23
    } else if key == 0xc49ca94a908db219224c6d5baa206ab6 {
        24
    } else if key == 0x32e726ab7941eb1e833dcc4cf348a060 {
        25
    } else if key == 0x858480bb97d86a52b1ca17dc390a8bdc {
        26
    } else if key == 0x7b3f49bda3162fac51a387905e6fb6f4 {
        27
    } else if key == 0x69abd21c83390dae54630919c3c150d0 {
        28
    } else if key == 0x19eb0ca77284b5d91a63eb02f6962930 {
        29
    } else if key == 0xd5be9118bcb14243468001b08c4aa21a {
        30
    } else if key == 0x8815ea087af1aa89b4f7b65bd3cb8534 {
        31
    } else if key == 0x0b572c0dfb938849eeec39b2c9583547 {
        32
    } else if key == 0xeb9b5b2b6160e5f3015bc2a669d886b6 {
        33
    } else if key == 0xc265f0de8c5bd77db8f9cf5a1f7ab68f {
        34
    } else if key == 0xa08b8070ad613bdb2637162b3bf39574 {
        35
    } else if key == 0x76a48869c14fbcf85588001a1327253d {
        36
    } else if key == 0xaddc6c0ae7b535839815b8e7f7fd0f11 {
        37
    } else if key == 0x087e6ed018ad0573bd7ce3a91d34f2c9 {
        38
    } else if key == 0x440462507cf5cffaa8d3d3a66f01ac6a {
        39
    } else if key == 0x57043e8e79588c067118a4d5f307cd76 {
        40
    } else if key == 0xf96a0ddcc72c971226e8fdfd95607c88 {
        41
    } else if key == 0x7e82db12a5749ab983e2f3c8bf4c0f6e {
        42
    } else if key == 0xe5e42190918847b8c6056e78316ee91d {
        43
    } else if key == 0x3cae85572df3b43f0220326bf4bb3c8b {
        44
    } else if key == 0x7ee41edaef283459c9df93366c5da267 {
        45
    } else if key == 0x96fd77f3527bc6f65977b99ab63d7f84 {
        46
    } else if key == 0x8399c8fba48ba1a4389a96e75838dc49 {
        47
    } else if key == 0x05d28ab0e92b19147e7f5ea88c6efb6d {
        48
    } else if key == 0x5d8fdfb15441cdfb8a1c66c243c486da {
        49
    } else if key == 0x98c851c7ed924e1c7123c60e5164819e {
        50
    } else if key == 0x280344c8b073895ecce286d1b9d87d8b {
        51
    } else if key == 0x194a3eeb876d2b74cc480f4d337d79b3 {
        52
    } else if key == 0x192b6b764a3a1c7831e0a785fa4b5453 {
        53
    } else if key == 0x276b9be28571189912f05d321fcb04ef {
        54
    } else if key == 0x7ec4063eb6c7c74600d6a16fb3a3bdbd {
        55
    } else if key == 0xc9ed2a3bdefd6d5fdf67302d87b5cfb2 {
        56
    } else if key == 0x0a14754b351b4f11a1359e252b8eb992 {
        57
    } else if key == 0x2a59d2ca6d6f07bc2791bf349e2778ee {
        58
    } else if key == 0x29a248fbc87f477b49587581e29c1dc7 {
        59
    } else if key == 0x5565889a9a8817f99ec6dda322a70877 {
        60
    } else if key == 0xb29414b8c81cc9ef28ef2f7a09d6d876 {
        61
    } else if key == 0x12e1eb0900402ef6de8b72dda5d22f47 {
        62
    } else if key == 0xabfd6ae93c31e8f59aa934ad922cb4dd {
        63
    } else if key == 0xe0cb426257761c3688a866332ed48340 {
        64
    } else if key == 0xd8045ed542d5e58c779c884e0930e16c {
        65
    } else if key == 0x702e4d515d9f33698407b118c4cd373f {
        66
    } else if key == 0x8e0680d9d484749297bd7f4cfd5b7354 {
        67
    } else if key == 0x9222e42a160924dee0c87a67fdbc48d0 {
        68
    } else if key == 0x39617ebb81f3c1df27354c18571bd6c3 {
        69
    } else if key == 0xf9faa45e3c35e505249c3f9df801737b {
        70
    } else if key == 0x60c1dfbf112bbb2a49cf16eddb191842 {
        71
    } else if key == 0xff6fff314446ab70dfecb21e2de4a2f6 {
        72
    } else if key == 0x490f8063bbb299070c4aceab64195088 {
        73
    } else if key == 0x0cf228912d2f8eeb29aa215abf416f6d {
        74
    } else if key == 0xf92d57198ef2da30dba63bdd7c15ff83 {
        75
    } else if key == 0x46634eb87e6380d4d10f7b80d177c1ff {
        76
    } else if key == 0x8828c0042a1a397de67c4e49042161ff {
        77
    } else if key == 0x67dd69e6ffaf61bc85243d272d9ee9d9 {
        78
    } else if key == 0x6cd23cb37c4c4c34ef4e197468462f3f {
        79
    } else if key == 0xa19802bd3a7e390daf7e2cbe5a81ed38 {
        80
    } else if key == 0x4971dd8b47d3475dc8d31b5325c14459 {
        81
    } else if key == 0x4581ac0418679567dce041c88cc97719 {
        82
    } else if key == 0xec46311f47276e20cc43228c96d119a1 {
        83
    } else if key == 0x391dfaba9ab8b9b60e9d8ca2a73f5711 {
        84
    } else if key == 0x8caaaf56f95ee0bb610ca14af2d12a61 {
        85
    } else if key == 0x44d7c4ea6b8d930075f5b05c94b5f973 {
        86
    } else if key == 0xe7f118ac59f985ceea2ecfc0f17e9cc6 {
        87
    } else if key == 0x7fcf204013cbedf7eaaf682ff5f216ba {
        88
    } else if key == 0x69fb597cb4db019c48fd2e0c1cc7b75c {
        89
    } else if key == 0xc145bfe904e5d56f479df44204b255da {
        90
    } else if key == 0x52997de9af205728a0e17ea3475f7ae2 {
        91
    } else if key == 0x6b9d6872961b22de6b1b0cced65d8e3f {
        92
    } else if key == 0xd008f41ec119e2c5c6a0782aebf148a8 {
        93
    } else {
        94
    }
}

/// The first `n` rows of the register are where `row_of` says.
spec fn rows_agree(n: nat) -> bool
    decreases n,
{
    n == 0 || (row_of(NO_INTRO[n - 1].0) == n - 1 && rows_agree((n - 1) as nat))
}

proof fn lemma_rows_agree()
    ensures
        rows_agree(NO_INTRO_COUNT as nat),
{
    reveal_with_fuel(rows_agree, 95);
}

proof fn lemma_row_agrees(n: nat, row: int)
    requires
        rows_agree(n),
        0 <= row < n,
    ensures
        row_of(NO_INTRO[row].0) == row,
    decreases n,
{
    if row < n - 1 {
        lemma_row_agrees((n - 1) as nat, row);
    }
}

proof fn lemma_row_of_tells_apart(a: u128, b: u128)
    by (bit_vector)
    requires
        row_of(a) == row_of(b),
        row_of(a) < 94,
    ensures
        a == b,
{
}

proof fn lemma_find_below_is_row_of(key: u128, n: nat)
    requires
        n <= NO_INTRO_COUNT,
    ensures
        find_below(key, n) == (if row_of(key) < n {
            Some(row_of(key) as int)
        } else {
            None
        }),
    decreases n,
{
    if n > 0 {
        lemma_find_below_is_row_of(key, (n - 1) as nat);
        lemma_rows_agree();
        lemma_row_agrees(NO_INTRO_COUNT as nat, n - 1);
        if row_of(key) == n - 1 {
            lemma_row_of_tells_apart(key, NO_INTRO[n - 1].0);
        }
    }
}

/// The row that the register has for a digest is the row that `row_of` reads
/// off the digests written out.
pub proof fn find_is_row_of(key: u128)
    ensures
        find(key) == (if row_of(key) < NO_INTRO_COUNT {
            Some(row_of(key) as int)
        } else {
            None
        }),
{
    lemma_find_below_is_row_of(key, NO_INTRO_COUNT as nat);
}

/// Every row of the register is found under its own digest: no two rows
/// have the same.
pub proof fn every_row_is_found(row: int)
    requires
        0 <= row < NO_INTRO_COUNT,
    ensures
        find(NO_INTRO[row].0) == Some(row),
        registered(NO_INTRO[row].0) == Ok::<_, ()>((NO_INTRO[row].1, NO_INTRO[row].2)),
{
    lemma_rows_agree();
    lemma_row_agrees(NO_INTRO_COUNT as nat, row);
    find_is_row_of(NO_INTRO[row].0);
}

proof fn lemma_flipped_bit_is_unknown(key: u128, bit: u32)
    by (bit_vector)
    requires
        row_of(key) < 94,
        bit < 128,
    ensures
        row_of(key ^ (1u128 << bit)) == 94,
{
}

/// A digest that differs from the digest of a known dump in exactly one bit
/// is not the digest of a known dump.
pub proof fn flipped_bit_is_unknown(key: u128, bit: u32)
    requires
        registered(key) is Ok,
        bit < 128,
    ensures
        registered(key ^ (1u128 << bit)) is Err,
{
    find_is_row_of(key);
    lemma_flipped_bit_is_unknown(key, bit);
    find_is_row_of(key ^ (1u128 << bit));
}

} // verus!
