//! The constants of the construction: the modulus as a number that can be
//! computed with, and the table of round constants.

use crate::big::{
    be_nat, big_from_bytes_be, big_rem, big_value, big_values, lemma_be_nat_push,
};
use crate::field::{modulus, residues};
use num_bigint::BigUint;
use vstd::arithmetic::div_mod::lemma_mod_bound;
use vstd::prelude::*;

verus! {

/// The number of rounds, which is the length of the table.
pub const ROUNDS: usize = 61;

/// The numbers from which the round constants are taken, in the order of the
/// rounds, as the construction publishes them: 256-bit numbers, of which some
/// are not below the modulus.
pub open spec fn published_constants() -> Seq<nat> {
    seq![
        0x2e2ebbb178296b63d88ec198f0976ad98bc1d4eb0d921ddd2eb86cb7e70a98e5nat,
        0x21bfc154b5b071d22d06105663553801f858c1f231020b4c291a729d6281d349nat,
        0x126cfa352b0e2701442b36e0c2fc88287cfd3bfecce842afc0e3e78d8edb4ad8nat,
        0x0309d7067ab65de1a99fe23f458d0bc3f18c59b6642ef48afc679ef17cb6928cnat,
        0x194c4693409966960be88513cfe32987c125f71398a782e44973fb8af4798bd8nat,
        0x05a849684bc58cc0d6e9f319b4dae26db171733bf60f31d978e41d09a75a6319nat,
        0x18bd4dae5134538bd2f90d41bbb1e330b2a8286ba4a09aca3fbbdcf932534be5nat,
        0x0736c60cd39fd1649d4845b4f9a6ec9baca89fb2de0a3d7eeabe43504b5607fanat,
        0x25a6971a9d2c1de9f374378d8f61492b1bd3c46584c076a76c43c3cd1a747512nat,
        0x0a3373d15fa6dce221f83226c02d41f8aea5cfc6da4c9f4981ada1bd4b50f56enat,
        0x2b70028e2bf4e008e22eddb78d4190d73c289dc6445b3f64e15f8bd0ec02c672nat,
        0x0b24ef461a71eed93dd366342f9ca4eebb749c8a5a6057c801d538c7c0666ba4nat,
        0x05d1e0ac576d1ec814b621516339ae1a291c7df36b5fd6cf0b4e3c9cd25e3072nat,
        0x271cfbf88e9744b8596e7e2d6875c8005d0e62014010ac35e95a7ce2390bc50fnat,
        0x196309f1d170d741ab1ce90c39772017fb7cdec78c37882b98a6b56956c13defnat,
        0x127c1116c575c03c7f6d83417d8c1b3808f92ee16924a54094bf094721e9e4f5nat,
        0x1bff78047ee67d38a54fdc540f9a2ba07f63489acd36425f1ae210ac329826f5nat,
        0x06c7dc7bbae615fcf1896f2b8db7d92c05dc1ea1c8134e9db6fd588672c53e9anat,
        0x12df78cba175ef76dbfcc9c785926bb3949a87ec7533e2559a27a64b91cebba5nat,
        0x2bd4cdc962e3da62cb3c96f7c428a9b0d518bfa7ce26f8fce7a6af769afb6540nat,
        0x24edd3847febbe44c4cc390246e3379b47fd01a030d0cd0b4fcf7fbd1cabfe58nat,
        0x1ce065d2c2561bb573e4cf4259d3b0b0e9eacb447751c62b77d0bc5e4e3c7d15nat,
        0x18053e9f0d45f9eefbda135bfd39329e34837e633565c314fb9030b9db7381bbnat,
        0x162ffa8742138bbe516168bf86ec78b1ad1e8b535ac455a7cfbb22c13f9c5a9enat,
        0x079eea42e16ac6442ca82623fc0e8d9ad3996a47a8013ea9cb73858ca42b7159nat,
        0x0a49af2bbe11b05bd02a69a47b1bad5b2170407ada21142f06e4e109de88a1b6nat,
        0x12c34eebbaa69cccc36929e8f4a6e40771e153ff77943da55c4fc860537b733anat,
        0x008de5ac6b4e359335b6fce58dc0e5e43fd2aefd86bac35abe579b8cace5dbc8nat,
        0x04a6e988b50d915734bf3296d83057ffe6a550f8987e4597bee7d333cd24a865nat,
        0x24112633926cfc6028fa2ffd9f090b1e5428a0a87d7118356e48b5d470449217nat,
        0x0d56329982f3df38a3f19fb814c3013f419ba0eb8403b27c0c0e75c6fe1cf468nat,
        0x1f01ef80763c95f53c434164493d9673aeef290bf1aa1997d677b557b9692e8anat,
        0x105c5257f801527e60b0361c00075b5a79d2dc6821d8a1258d906ed453c7e7benat,
        0x03db505a0c32cb61ca099389c2180e1c83827fb41d9fed84d88766df44c63079nat,
        0x1262e738f38db6c79d24d9727294421cd95afa24f4700c1323ab83c3a06ace32nat,
        0x0ee68c3e38c194033994c0d4d7bde35bfafa35b22a95f915f82c5a3b0422bd9anat,
        0x2ee5427bd20c47f8d2f0aa9e6419f7926abcd5965084292ae54dd780077e6902nat,
        0x1e542d31d2a381792e0a9241c46229a22fd9382443e423a0e419d0feb58656afnat,
        0x0ba39f01462ab6a7cf621952752fcde48677d7f32df47e940eacf4954c5ef632nat,
        0x29c00b058c17800146bdc06b1e73ff5d0ff53df96f8463818c0572d11fcaf88bnat,
        0x0b6200895b60a6c6794fcf1c2b1b15d03a713c905a8ba1f1315f7501fe1a50b8nat,
        0x2bc639b1b85d731f62d2c6f391d4498e392cb75edcbd5c4c0fa8b26d32d68a12nat,
        0x2a89f38e6440ce641127046b67d8e615f14503d72d76bf3c703a01d1463a8445nat,
        0x1750ede7eeeb4edd7838b67fac6d250a54055eeead10e69b3a6e1f076ca87868nat,
        0x0c2d65084bead2a743115be5329d5458d29802081f6f9dac4165c42651f9be2bnat,
        0x28303e2d834e16e1fe33c9ab726a3e75dd0dad9bfea1a43267199e1f243993fbnat,
        0x2b572811ca34ea5110d10772e4ced362ebefd7cd1e1884b769e9435914efc5e5nat,
        0x17521ca5799fe2ea82c67c0a8d0863b5eec0ef9b703e195dd402b7008b53f6b4nat,
        0x0407e54b96a5b63c609fa3797b223c73d260a365ad58b25891a5660272096bd5nat,
        0x1a3cd155b03c7d33cc8222c997424bc14069e2edbf4b8aa564c9e5832bdace91nat,
        0x296255b5e697e517c502ba49b18aaad89514a490a02e7a878b5d559841b93fbdnat,
        0x174835801a1f1525b4c21853b965c5048af465e9f79de9d16748c67953da79a7nat,
        0x2d4afed7a708e5972e84d766292f2c841c5d8570961074d59ad3f51e9369a597nat,
        0x1c0eb06744c9866e271cd29a7f17f72964faba3cd088b95e73dcce9d92c79ba6nat,
        0x26705e7e4f23a7d786ad1786b353a2f8b82269c7b58ab70d7b93f41685d34d45nat,
        0x04e674d88b90b1188353106ae25c0447acace9dc6d62cfe7fec2d7993dfd7a22nat,
        0x0df3335da13ff46f65095f975d157886241aeccff38fd9bba92644f8969d7e09nat,
        0x2dfff62b9282ec05b1fa44479a6e9debe9ac631813d2b10e44b9e0fe19e4d4eenat,
        0x08ece248fe1ce1cd705699b5cd07c990ec27721bab59b657bb138e487ee6694dnat,
        0x2c1ab81db607ba76dbf71f48752c856bf183044981c3b6d1fd31b179a078f571nat,
        0x01de6f8886868e351bf4caad293bd86ed29ef63810e15cb809542e01bfbbcb88nat,
    ]
}

/// The round constants, in the order in which the rounds use them: the
/// residues of the published numbers, so that each is an element of the field.
pub open spec fn round_constants() -> Seq<nat> {
    residues(published_constants())
}

/// There are as many round constants as rounds, and each lies below the modulus.
pub proof fn lemma_round_constants_in_field()
    ensures
        round_constants().len() == ROUNDS,
        forall|i: int| 0 <= i < ROUNDS ==> #[trigger] round_constants()[i] < modulus(),
{
    assert forall|i: int| 0 <= i < ROUNDS implies #[trigger] round_constants()[i] < modulus() by {
        lemma_mod_bound(published_constants()[i] as int, modulus() as int);
    }
}

/// The number whose digits in base 2^64 are the four words, most significant first.
pub open spec fn words_value(w0: u64, w1: u64, w2: u64, w3: u64) -> nat {
    (w0 as nat) * 0x1_0000_0000_0000_0000_0000_0000_0000_0000_0000_0000_0000_0000
        + (w1 as nat) * 0x1_0000_0000_0000_0000_0000_0000_0000_0000
        + (w2 as nat) * 0x1_0000_0000_0000_0000
        + (w3 as nat)
}

/// Appends one byte, which becomes the least significant digit.
fn push_byte(bytes: &mut Vec<u8>, b: u8)
    ensures
        final(bytes)@ == old(bytes)@.push(b),
        be_nat(final(bytes)@) == be_nat(old(bytes)@) * 256 + b,
{
    bytes.push(b);
    proof {
        lemma_be_nat_push(old(bytes)@, b);
    }
}

/// Appends the eight bytes of `w`, most significant first.
fn push_word(bytes: &mut Vec<u8>, w: u64)
    ensures
        final(bytes)@.len() == old(bytes)@.len() + 8,
        be_nat(final(bytes)@) == be_nat(old(bytes)@) * 0x1_0000_0000_0000_0000 + w,
{
    let q1: u64 = w / 256;
    let q2: u64 = q1 / 256;
    let q3: u64 = q2 / 256;
    let q4: u64 = q3 / 256;
    let q5: u64 = q4 / 256;
    let q6: u64 = q5 / 256;
    let q7: u64 = q6 / 256;
    push_byte(bytes, q7 as u8);
    push_byte(bytes, (q6 % 256) as u8);
    push_byte(bytes, (q5 % 256) as u8);
    push_byte(bytes, (q4 % 256) as u8);
    push_byte(bytes, (q3 % 256) as u8);
    push_byte(bytes, (q2 % 256) as u8);
    push_byte(bytes, (q1 % 256) as u8);
    push_byte(bytes, (w % 256) as u8);
}

/// The number whose digits in base 2^64 are the four words, most significant
/// first, built from its 32 bytes.
pub fn from_words(w0: u64, w1: u64, w2: u64, w3: u64) -> (r: BigUint)
    ensures
        big_value(r) == words_value(w0, w1, w2, w3),
{
    let mut bytes: Vec<u8> = Vec::new();
    push_word(&mut bytes, w0);
    push_word(&mut bytes, w1);
    push_word(&mut bytes, w2);
    push_word(&mut bytes, w3);
    big_from_bytes_be(bytes.as_slice())
}

/// The modulus of the field.
pub fn get_fr() -> (r: BigUint)
    ensures
        big_value(r) == modulus(),
{
    from_words(0x12ab655e9a2ca556, 0x60b44d1e5c37b001, 0x59aa76fed0000001, 0x0a11800000000001)
}

/// The published number of round `i`.
fn published_constant(i: usize) -> (r: BigUint)
    requires
        i < ROUNDS,
    ensures
        big_value(r) == published_constants()[i as int],
{
    match i {
        0 => from_words(0x2e2ebbb178296b63, 0xd88ec198f0976ad9, 0x8bc1d4eb0d921ddd, 0x2eb86cb7e70a98e5),
        1 => from_words(0x21bfc154b5b071d2, 0x2d06105663553801, 0xf858c1f231020b4c, 0x291a729d6281d349),
        2 => from_words(0x126cfa352b0e2701, 0x442b36e0c2fc8828, 0x7cfd3bfecce842af, 0xc0e3e78d8edb4ad8),
        3 => from_words(0x0309d7067ab65de1, 0xa99fe23f458d0bc3, 0xf18c59b6642ef48a, 0xfc679ef17cb6928c),
        4 => from_words(0x194c469340996696, 0x0be88513cfe32987, 0xc125f71398a782e4, 0x4973fb8af4798bd8),
        5 => from_words(0x05a849684bc58cc0, 0xd6e9f319b4dae26d, 0xb171733bf60f31d9, 0x78e41d09a75a6319),
        6 => from_words(0x18bd4dae5134538b, 0xd2f90d41bbb1e330, 0xb2a8286ba4a09aca, 0x3fbbdcf932534be5),
        7 => from_words(0x0736c60cd39fd164, 0x9d4845b4f9a6ec9b, 0xaca89fb2de0a3d7e, 0xeabe43504b5607fa),
        8 => from_words(0x25a6971a9d2c1de9, 0xf374378d8f61492b, 0x1bd3c46584c076a7, 0x6c43c3cd1a747512),
        9 => from_words(0x0a3373d15fa6dce2, 0x21f83226c02d41f8, 0xaea5cfc6da4c9f49, 0x81ada1bd4b50f56e),
        10 => from_words(0x2b70028e2bf4e008, 0xe22eddb78d4190d7, 0x3c289dc6445b3f64, 0xe15f8bd0ec02c672),
        11 => from_words(0x0b24ef461a71eed9, 0x3dd366342f9ca4ee, 0xbb749c8a5a6057c8, 0x01d538c7c0666ba4),
        12 => from_words(0x05d1e0ac576d1ec8, 0x14b621516339ae1a, 0x291c7df36b5fd6cf, 0x0b4e3c9cd25e3072),
        13 => from_words(0x271cfbf88e9744b8, 0x596e7e2d6875c800, 0x5d0e62014010ac35, 0xe95a7ce2390bc50f),
        14 => from_words(0x196309f1d170d741, 0xab1ce90c39772017, 0xfb7cdec78c37882b, 0x98a6b56956c13def),
        15 => from_words(0x127c1116c575c03c, 0x7f6d83417d8c1b38, 0x08f92ee16924a540, 0x94bf094721e9e4f5),
        16 => from_words(0x1bff78047ee67d38, 0xa54fdc540f9a2ba0, 0x7f63489acd36425f, 0x1ae210ac329826f5),
        17 => from_words(0x06c7dc7bbae615fc, 0xf1896f2b8db7d92c, 0x05dc1ea1c8134e9d, 0xb6fd588672c53e9a),
        18 => from_words(0x12df78cba175ef76, 0xdbfcc9c785926bb3, 0x949a87ec7533e255, 0x9a27a64b91cebba5),
        19 => from_words(0x2bd4cdc962e3da62, 0xcb3c96f7c428a9b0, 0xd518bfa7ce26f8fc, 0xe7a6af769afb6540),
        20 => from_words(0x24edd3847febbe44, 0xc4cc390246e3379b, 0x47fd01a030d0cd0b, 0x4fcf7fbd1cabfe58),
        21 => from_words(0x1ce065d2c2561bb5, 0x73e4cf4259d3b0b0, 0xe9eacb447751c62b, 0x77d0bc5e4e3c7d15),
        22 => from_words(0x18053e9f0d45f9ee, 0xfbda135bfd39329e, 0x34837e633565c314, 0xfb9030b9db7381bb),
        23 => from_words(0x162ffa8742138bbe, 0x516168bf86ec78b1, 0xad1e8b535ac455a7, 0xcfbb22c13f9c5a9e),
        24 => from_words(0x079eea42e16ac644, 0x2ca82623fc0e8d9a, 0xd3996a47a8013ea9, 0xcb73858ca42b7159),
        25 => from_words(0x0a49af2bbe11b05b, 0xd02a69a47b1bad5b, 0x2170407ada21142f, 0x06e4e109de88a1b6),
        26 => from_words(0x12c34eebbaa69ccc, 0xc36929e8f4a6e407, 0x71e153ff77943da5, 0x5c4fc860537b733a),
        27 => from_words(0x008de5ac6b4e3593, 0x35b6fce58dc0e5e4, 0x3fd2aefd86bac35a, 0xbe579b8cace5dbc8),
        28 => from_words(0x04a6e988b50d9157, 0x34bf3296d83057ff, 0xe6a550f8987e4597, 0xbee7d333cd24a865),
        29 => from_words(0x24112633926cfc60, 0x28fa2ffd9f090b1e, 0x5428a0a87d711835, 0x6e48b5d470449217),
        30 => from_words(0x0d56329982f3df38, 0xa3f19fb814c3013f, 0x419ba0eb8403b27c, 0x0c0e75c6fe1cf468),
        31 => from_words(0x1f01ef80763c95f5, 0x3c434164493d9673, 0xaeef290bf1aa1997, 0xd677b557b9692e8a),
        32 => from_words(0x105c5257f801527e, 0x60b0361c00075b5a, 0x79d2dc6821d8a125, 0x8d906ed453c7e7be),
        33 => from_words(0x03db505a0c32cb61, 0xca099389c2180e1c, 0x83827fb41d9fed84, 0xd88766df44c63079),
        34 => from_words(0x1262e738f38db6c7, 0x9d24d9727294421c, 0xd95afa24f4700c13, 0x23ab83c3a06ace32),
        35 => from_words(0x0ee68c3e38c19403, 0x3994c0d4d7bde35b, 0xfafa35b22a95f915, 0xf82c5a3b0422bd9a),
        36 => from_words(0x2ee5427bd20c47f8, 0xd2f0aa9e6419f792, 0x6abcd5965084292a, 0xe54dd780077e6902),
        37 => from_words(0x1e542d31d2a38179, 0x2e0a9241c46229a2, 0x2fd9382443e423a0, 0xe419d0feb58656af),
        38 => from_words(0x0ba39f01462ab6a7, 0xcf621952752fcde4, 0x8677d7f32df47e94, 0x0eacf4954c5ef632),
        39 => from_words(0x29c00b058c178001, 0x46bdc06b1e73ff5d, 0x0ff53df96f846381, 0x8c0572d11fcaf88b),
        40 => from_words(0x0b6200895b60a6c6, 0x794fcf1c2b1b15d0, 0x3a713c905a8ba1f1, 0x315f7501fe1a50b8),
        41 => from_words(0x2bc639b1b85d731f, 0x62d2c6f391d4498e, 0x392cb75edcbd5c4c, 0x0fa8b26d32d68a12),
        42 => from_words(0x2a89f38e6440ce64, 0x1127046b67d8e615, 0xf14503d72d76bf3c, 0x703a01d1463a8445),
        43 => from_words(0x1750ede7eeeb4edd, 0x7838b67fac6d250a, 0x54055eeead10e69b, 0x3a6e1f076ca87868),
        44 => from_words(0x0c2d65084bead2a7, 0x43115be5329d5458, 0xd29802081f6f9dac, 0x4165c42651f9be2b),
        45 => from_words(0x28303e2d834e16e1, 0xfe33c9ab726a3e75, 0xdd0dad9bfea1a432, 0x67199e1f243993fb),
        46 => from_words(0x2b572811ca34ea51, 0x10d10772e4ced362, 0xebefd7cd1e1884b7, 0x69e9435914efc5e5),
        47 => from_words(0x17521ca5799fe2ea, 0x82c67c0a8d0863b5, 0xeec0ef9b703e195d, 0xd402b7008b53f6b4),
        48 => from_words(0x0407e54b96a5b63c, 0x609fa3797b223c73, 0xd260a365ad58b258, 0x91a5660272096bd5),
        49 => from_words(0x1a3cd155b03c7d33, 0xcc8222c997424bc1, 0x4069e2edbf4b8aa5, 0x64c9e5832bdace91),
        50 => from_words(0x296255b5e697e517, 0xc502ba49b18aaad8, 0x9514a490a02e7a87, 0x8b5d559841b93fbd),
        51 => from_words(0x174835801a1f1525, 0xb4c21853b965c504, 0x8af465e9f79de9d1, 0x6748c67953da79a7),
        52 => from_words(0x2d4afed7a708e597, 0x2e84d766292f2c84, 0x1c5d8570961074d5, 0x9ad3f51e9369a597),
        53 => from_words(0x1c0eb06744c9866e, 0x271cd29a7f17f729, 0x64faba3cd088b95e, 0x73dcce9d92c79ba6),
        54 => from_words(0x26705e7e4f23a7d7, 0x86ad1786b353a2f8, 0xb82269c7b58ab70d, 0x7b93f41685d34d45),
        55 => from_words(0x04e674d88b90b118, 0x8353106ae25c0447, 0xacace9dc6d62cfe7, 0xfec2d7993dfd7a22),
        56 => from_words(0x0df3335da13ff46f, 0x65095f975d157886, 0x241aeccff38fd9bb, 0xa92644f8969d7e09),
        57 => from_words(0x2dfff62b9282ec05, 0xb1fa44479a6e9deb, 0xe9ac631813d2b10e, 0x44b9e0fe19e4d4ee),
        58 => from_words(0x08ece248fe1ce1cd, 0x705699b5cd07c990, 0xec27721bab59b657, 0xbb138e487ee6694d),
        59 => from_words(0x2c1ab81db607ba76, 0xdbf71f48752c856b, 0xf183044981c3b6d1, 0xfd31b179a078f571),
        _ => from_words(0x01de6f8886868e35, 0x1bf4caad293bd86e, 0xd29ef63810e15cb8, 0x09542e01bfbbcb88),
    }
}

/// The round constant of round `i`: the published number, reduced by the
/// modulus `fr`.
fn round_constant(i: usize, fr: &BigUint) -> (r: BigUint)
    requires
        i < ROUNDS,
        big_value(*fr) == modulus(),
    ensures
        big_value(r) == round_constants()[i as int],
        big_value(r) < modulus(),
{
    proof {
        lemma_round_constants_in_field();
    }
    big_rem(published_constant(i), fr)
}

/// The whole table of round constants, in order, each an element of the field.
pub fn get_constants() -> (r: Vec<BigUint>)
    ensures
        r@.len() == ROUNDS,
        big_values(r@) == round_constants(),
        forall|i: int| 0 <= i < ROUNDS ==> big_value(#[trigger] r@[i]) < modulus(),
{
    let fr = get_fr();
    let mut table: Vec<BigUint> = Vec::new();
    let mut i: usize = 0;
    while i < ROUNDS
        invariant
            i <= ROUNDS,
            table@.len() == i,
            big_value(fr) == modulus(),
            forall|j: int| 0 <= j < i ==> big_value(#[trigger] table@[j]) == round_constants()[j],
            forall|j: int| 0 <= j < i ==> big_value(#[trigger] table@[j]) < modulus(),
        decreases ROUNDS - i,
    {
        table.push(round_constant(i, &fr));
        i += 1;
    }
    proof {
        lemma_round_constants_in_field();
        assert(big_values(table@) =~= round_constants());
    }
    table
}

} // verus!
