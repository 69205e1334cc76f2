use bog::Oldname;
use bog::Oldword;
use bog::Stuff;
use bog::Tome;
use bog::UnixenConfig;

// One test in this file: the primitive's initialization aborts if it is
// repeated in one process, so each test that performs it sits alone in
// its own binary.
#[test]
fn speak_then_know_round_trips() {
    let unix = UnixenConfig { home: Some(String::from("/tmp/x")) };
    let tome = Tome::open(unix).expect("a resolved base opens");
    monosodium::init_sodium();
    let plan = tome.reroot().expect("key generation succeeds");
    let truename = plan.truename;
    let cryptoname = truename.cryptoname();

    // What the identity speaks, it and its projection both know.
    let word = truename.speak(b"hello");
    assert_eq!(cryptoname.know(b"hello", &word), Stuff::Oldspoken);
    assert_eq!(truename.know(b"hello", &word), Stuff::Oldspoken);
    let oldname = Oldname::Crypto(truename.cryptoname());
    assert_eq!(oldname.know(b"hello", &word), Stuff::Oldspoken);

    // A changed payload is rejected.
    assert_eq!(cryptoname.know(b"hello!", &word), Stuff::Gibberish);
    assert_eq!(cryptoname.know(b"hellp", &word), Stuff::Gibberish);

    // A single flipped byte of the signature is rejected.
    let mut corrupt = word.runes().clone();
    corrupt[0] ^= 1;
    let corrupt_word = Oldword::from_runes(corrupt).expect("length unchanged");
    assert_eq!(cryptoname.know(b"hello", &corrupt_word), Stuff::Gibberish);
    let mut corrupt = word.runes().clone();
    corrupt[63] ^= 0x80;
    let corrupt_word = Oldword::from_runes(corrupt).expect("length unchanged");
    assert_eq!(cryptoname.know(b"hello", &corrupt_word), Stuff::Gibberish);

    // A silent word is never a valid signature.
    let silent = Oldword::silent();
    assert_eq!(cryptoname.know(b"hello", &silent), Stuff::Gibberish);
    assert_eq!(cryptoname.know_own_name(&silent), Stuff::Gibberish);
}
