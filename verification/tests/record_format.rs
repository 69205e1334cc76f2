use bog::Cryptoname;
use bog::Stuff;
use bog::Tome;
use bog::UnixenConfig;
use monosodium::util::CryptoBuf;
use monosodium::util::base64::Base64Config;

fn decode_b64(line: &str) -> Vec<u8> {
    let buf = CryptoBuf::decode_base64_config(line.as_bytes(), Base64Config::Standard)
        .expect("the line holds valid base64");
    buf.to_vec()
}

// One test in this file: the primitive's initialization aborts if it is
// repeated in one process, so each test that performs it sits alone in
// its own binary.
#[test]
fn records_hold_the_keys_in_base64() {
    let unix = UnixenConfig { home: Some(String::from("/tmp/bog_record")) };
    let tome = Tome::open(unix).expect("a resolved base opens");
    monosodium::init_sodium();
    let plan = tome.reroot().expect("key generation succeeds");
    let truename = plan.truename;

    // The secret record is three newline-terminated lines.
    let secret_text = String::from_utf8(truename.secretly_write()).expect("records are text");
    assert!(secret_text.ends_with('\n'));
    let lines: Vec<&str> = secret_text.trim_end_matches('\n').split('\n').collect();
    assert_eq!(lines.len(), 3);
    assert_eq!(lines[0], "#=Ed.");
    assert!(lines[1].starts_with("Public: "));
    assert!(lines[2].starts_with("SECRET: "));

    // The public record is the first two of those lines.
    let public_text = String::from_utf8(truename.cryptoname().write()).expect("records are text");
    let public_lines: Vec<&str> = public_text.trim_end_matches('\n').split('\n').collect();
    assert_eq!(public_lines.len(), 2);
    assert_eq!(public_lines[0], lines[0]);
    assert_eq!(public_lines[1], lines[1]);

    // Decoding the public line yields a key that knows the identity's words.
    let public_key = decode_b64(&lines[1]["Public: ".len()..]);
    assert_eq!(public_key.len(), 32);
    let recovered = Cryptoname::from_runes(public_key).expect("a public key fits a cryptoname");
    let word = truename.speak(b"carved in the door");
    assert_eq!(recovered.know(b"carved in the door", &word), Stuff::Oldspoken);

    // Decoding the secret line yields the very signing key: signing the
    // same payload with it reproduces the identity's signature bytes.
    let secret_key = decode_b64(&lines[2]["SECRET: ".len()..]);
    assert_eq!(secret_key.len(), 64);
    let mut sig = vec![0u8; 64];
    monosodium::sign(&mut sig, b"carved in the door", &secret_key).expect("signing succeeds");
    assert_eq!(sig.as_slice(), word.runes().as_slice());

    // Key bytes of the wrong length never make a cryptoname.
    assert!(Cryptoname::from_runes(vec![1u8; 31]).is_none());
    assert!(Cryptoname::from_runes(vec![1u8; 33]).is_none());
}
