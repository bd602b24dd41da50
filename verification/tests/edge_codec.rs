use reflex_instrument::edge::{Layout, Memo, Phase, Recall};

/// Fifteen bits: tag 4 + phase 3 + imprint 8. The mask is a parameter; this is an example.
fn layout() -> Layout {
    Layout::new(0x0FFF_E000, 0b101).expect("15-битная маска, ненулевой тег")
}

#[test]
fn foreign_bits_survive_the_write() {
    let layout = layout();
    let foreign = 0x2000_00FF;
    let written = Memo::new(layout, Phase::Suspected, 3).apply_to(foreign);
    assert_eq!(written & !layout.mask(), foreign, "вне маски — байт в байт");
}

#[test]
fn what_was_written_is_read_back() {
    let word = Memo::new(layout(), Phase::Confirmed, 200).apply_to(0);
    match layout().read(word) {
        Recall::Ours(memo) => {
            assert_eq!(memo.phase, Phase::Confirmed);
            assert_eq!(memo.imprint, 200);
        }
        Recall::Foreign { theirs } => panic!("своё прочлось чужим: {theirs:#x}"),
        Recall::Untouched => panic!("своё прочлось нетронутым: {word:#x}"),
    }
}

#[test]
fn another_writer_is_recognised_without_memory() {
    let alien = Memo::new(layout(), Phase::Suspected, 1).apply_to(0) ^ 0x0000_2000;
    assert!(matches!(layout().read(alien), Recall::Foreign { .. }));
}

#[test]
fn empty_word_is_untouched() {
    assert!(matches!(layout().read(0), Recall::Untouched));
}

#[test]
fn a_neighbour_outside_our_mask_is_untouched_not_foreign() {
    assert!(matches!(layout().read(0x0000_00CC), Recall::Untouched));
    assert!(matches!(layout().read(0xF000_0000), Recall::Untouched));
}

#[test]
fn a_foreign_tag_under_our_mask_is_reported_with_the_whole_word() {
    let alien = 0x0055_0000 | 0x0000_00CC;
    assert!(matches!(layout().read(alien), Recall::Foreign { theirs } if theirs == alien));
}

#[test]
fn a_mask_too_narrow_for_the_fields_is_refused() {
    assert!(Layout::new(0x07FF_E000, 0b101).is_none());
}

#[test]
fn a_zero_tag_is_refused() {
    assert!(Layout::new(0x0FFF_E000, 0).is_none());
}

#[test]
fn a_discontiguous_mask_is_refused() {
    assert!(Layout::new(0xFF00_FF00, 0b101).is_none());
}

#[test]
fn a_tag_wider_than_four_bits_is_refused() {
    assert!(Layout::new(0x0FFF_E000, 16).is_none());
    assert!(Layout::new(0x0FFF_E000, 15).is_some());
}

#[test]
fn descent_preserves_foreign_bits() {
    let told = Memo::new(layout(), Phase::Suspected, 3).descends();
    let foreign = 0x2000_00FF;
    let written = (foreign & !told.mask) | told.under;
    assert_eq!(written & !told.mask, foreign, "вне маски спуска чужие биты целы");
    assert_eq!(written, Memo::new(layout(), Phase::Suspected, 3).apply_to(foreign));
}
