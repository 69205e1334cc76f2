use bog::Oldname;
use bog::Stuff;
use bog::Tome;
use bog::UnixenConfig;

// One test in this file: the primitive's initialization aborts if it is
// repeated in one process, so each test that performs it sits alone in
// its own binary.
#[test]
fn self_attestation_affirmed() {
    let unix = UnixenConfig { home: Some(String::from("/tmp/bog_attest")) };
    let tome = Tome::open(unix).expect("a resolved base opens");
    monosodium::init_sodium();
    let plan = tome.reroot().expect("key generation succeeds");
    assert_eq!(plan.path, "/tmp/bog_attest/root");
    assert_eq!(plan.mode, 0o600);

    let truename = plan.truename;
    assert_eq!(plan.record, truename.secretly_write());

    // A self-attestation verifies against the identity that spoke it,
    // and against its public-only projection.
    let word = truename.speak_own_name();
    assert_eq!(truename.know_own_name(&word), Stuff::Oldspoken);
    let cryptoname = truename.cryptoname();
    assert_eq!(cryptoname.know_own_name(&word), Stuff::Oldspoken);

    // The polymorphic reference dispatches to whichever variant it wraps.
    let as_crypto = Oldname::Crypto(truename.cryptoname());
    assert_eq!(as_crypto.know_own_name(&word), Stuff::Oldspoken);
    let as_true = Oldname::True(truename);
    assert_eq!(as_true.know_own_name(&word), Stuff::Oldspoken);
}
