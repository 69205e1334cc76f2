use bog::Eraname;
use bog::Loudname;
use bog::Oldword;
use bog::Tome;
use bog::UnixenConfig;
use bog::usename;

#[test]
fn usename_rejects_short_and_long() {
    assert!(usename(b"").is_none());
    assert!(usename(b"a").is_none());
    assert!(usename(b"ab").is_none());
    let sixty_four = vec![7u8; 64];
    assert!(usename(&sixty_four).is_none());
    let longer = vec![7u8; 100];
    assert!(usename(&longer).is_none());
}

#[test]
fn usename_round_trips_in_bounds() {
    let name = usename(b"ged").expect("three bytes are a valid name");
    assert_eq!(name.runes().as_slice(), b"ged");
    let sixty_three = vec![9u8; 63];
    let name = usename(&sixty_three).expect("sixty-three bytes are a valid name");
    assert_eq!(name.runes().as_slice(), sixty_three.as_slice());
}

#[test]
fn loudname_and_eraname_runes() {
    assert_eq!(Loudname::Earth.rune(), [0u8]);
    assert_eq!(Loudname::Ged.rune(), [0xffu8]);
    assert_eq!(Eraname::Rei.runes(), [0u8, 0u8]);
}

#[test]
fn silent_word_is_zero() {
    let w = Oldword::silent();
    assert_eq!(w.runes().len(), 64);
    assert!(w.runes().iter().all(|&b| b == 0));
}

#[test]
fn oldword_from_runes_checks_length() {
    assert!(Oldword::from_runes(vec![1u8; 63]).is_none());
    assert!(Oldword::from_runes(vec![1u8; 65]).is_none());
    let w = Oldword::from_runes(vec![1u8; 64]).expect("sixty-four bytes fit a word");
    assert_eq!(w.runes().as_slice(), vec![1u8; 64].as_slice());
}

#[test]
fn config_paths_join_base() {
    let unix = UnixenConfig { home: Some(String::from("/tmp/bog")) };
    assert_eq!(unix.usenames_dir().unwrap(), "/tmp/bog/usenames");
    assert_eq!(unix.cryptonames_dir().unwrap(), "/tmp/bog/cryptonames");
    assert_eq!(unix.truenames_dir().unwrap(), "/tmp/bog/truenames");
    assert_eq!(unix.composted_dir().unwrap(), "/tmp/bog/.composted");
    assert_eq!(unix.root_path().unwrap(), "/tmp/bog/root");

    let empty = UnixenConfig { home: None };
    assert!(empty.usenames_dir().is_none());
    assert!(empty.root_path().is_none());
}

#[test]
fn open_fails_without_home() {
    let t = Tome::open(UnixenConfig { home: None });
    assert!(t.is_none());
}

#[test]
fn open_plan_lists_four_dirs() {
    let unix = UnixenConfig { home: Some(String::from("/tmp/bog")) };
    let plan = Tome::open_plan(&unix).expect("a resolved base has a plan");
    assert_eq!(plan.len(), 4);
    assert_eq!(plan[0].path, "/tmp/bog/usenames");
    assert_eq!(plan[0].mode, 0o755);
    assert_eq!(plan[1].path, "/tmp/bog/cryptonames");
    assert_eq!(plan[1].mode, 0o755);
    assert_eq!(plan[2].path, "/tmp/bog/truenames");
    assert_eq!(plan[2].mode, 0o700);
    assert_eq!(plan[3].path, "/tmp/bog/.composted");
    assert_eq!(plan[3].mode, 0o700);
}

#[test]
fn open_plan_none_without_home() {
    assert!(Tome::open_plan(&UnixenConfig { home: None }).is_none());
}
