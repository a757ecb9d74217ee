use venus_worker::state::{str_equal, SealingState};
use venus_worker::types::{InvalidSectorSize, SealProof, SIZE_2K, SIZE_32G, SIZE_512M, SIZE_64G, SIZE_8M};

#[test]
fn state_names_round_trip() {
    for s in SealingState::all() {
        assert_eq!(SealingState::parse(s.name()), Ok(s));
    }
    assert_eq!(SealingState::all().len(), 17);
}

#[test]
fn state_name_text() {
    assert_eq!(SealingState::PC1Done.name(), "PC1Done");
    assert_eq!(SealingState::Empty.name(), "Empty");
    assert_eq!(SealingState::parse("C2Done"), Ok(SealingState::C2Done));
}

#[test]
fn state_parse_refuses_unknown_text() {
    let e = SealingState::parse("not-a-real-state").unwrap_err();
    assert_eq!(e.text, "not-a-real-state");
    assert!(SealingState::parse("").is_err());
    assert!(SealingState::parse("empty").is_err());
    assert!(SealingState::parse("Empty ").is_err());
}

#[test]
fn str_equal_compares_characters() {
    assert!(str_equal("abc", "abc"));
    assert!(!str_equal("abc", "abd"));
    assert!(!str_equal("abc", "ab"));
    assert!(str_equal("", ""));
}

#[test]
fn sector_sizes() {
    assert_eq!(SealProof::StackedDrg2KiBV1.sector_size(), 2 << 10);
    assert_eq!(SealProof::StackedDrg8MiBV1_1.sector_size(), 8 << 20);
    assert_eq!(SealProof::StackedDrg512MiBV1.sector_size(), 512 << 20);
    assert_eq!(SealProof::StackedDrg32GiBV1_1.sector_size(), 32 << 30);
    assert_eq!(SealProof::StackedDrg64GiBV1.sector_size(), 64 << 30);
}

#[test]
fn proof_kind_from_sector_size() {
    assert_eq!(SealProof::try_from(SIZE_2K), Ok(SealProof::StackedDrg2KiBV1_1));
    assert_eq!(SealProof::try_from(SIZE_8M), Ok(SealProof::StackedDrg8MiBV1_1));
    assert_eq!(SealProof::try_from(SIZE_512M), Ok(SealProof::StackedDrg512MiBV1_1));
    assert_eq!(SealProof::try_from(SIZE_32G), Ok(SealProof::StackedDrg32GiBV1_1));
    assert_eq!(SealProof::try_from(SIZE_64G), Ok(SealProof::StackedDrg64GiBV1_1));
    assert_eq!(SealProof::try_from(4096).unwrap_err().size, 4096);
    assert!(SealProof::try_from(0).is_err());
}

#[test]
fn sector_size_error_message() {
    assert_eq!(InvalidSectorSize { size: 4096 }.message(), "invalid sector size 4096");
    assert_eq!(InvalidSectorSize { size: 0 }.message(), "invalid sector size 0");
    assert_eq!(
        SealProof::try_from(12345).unwrap_err().message(),
        "invalid sector size 12345"
    );
}
