use imgui_eq::parameter_list::{
    count, index_of, parameter_name, slot_name_of, slot_of, BandField, ParamSlot, BAND_COUNT,
};

#[test]
fn count_is_five_per_band() {
    assert_eq!(count(), 20);
    assert_eq!(count(), BAND_COUNT * 5);
}

#[test]
fn slots_are_band_major() {
    assert_eq!(slot_of(0), Some(ParamSlot { band: 0, field: BandField::Kind }));
    assert_eq!(slot_of(1), Some(ParamSlot { band: 0, field: BandField::Freq }));
    assert_eq!(slot_of(2), Some(ParamSlot { band: 0, field: BandField::DbGain }));
    assert_eq!(slot_of(3), Some(ParamSlot { band: 0, field: BandField::QValue }));
    assert_eq!(slot_of(4), Some(ParamSlot { band: 0, field: BandField::Mode }));
    assert_eq!(slot_of(5), Some(ParamSlot { band: 1, field: BandField::Kind }));
    assert_eq!(slot_of(13), Some(ParamSlot { band: 2, field: BandField::QValue }));
    assert_eq!(slot_of(19), Some(ParamSlot { band: 3, field: BandField::Mode }));
}

#[test]
fn indices_outside_the_list_have_no_slot() {
    assert_eq!(slot_of(20), None);
    assert_eq!(slot_of(21), None);
    assert_eq!(slot_of(i32::MAX), None);
    assert_eq!(slot_of(-1), None);
    assert_eq!(slot_of(i32::MIN), None);
}

#[test]
fn index_and_slot_round_trip() {
    for i in 0..20 {
        let slot = slot_of(i).unwrap();
        assert_eq!(index_of(slot), i);
    }
}

#[test]
fn field_offsets() {
    assert_eq!(BandField::from_offset(0), BandField::Kind);
    assert_eq!(BandField::from_offset(4), BandField::Mode);
    assert_eq!(BandField::QValue.offset(), 3);
    assert_eq!(BandField::DbGain.label(), "dB");
}

#[test]
fn parameter_names() {
    assert_eq!(parameter_name(0), "Band 1 Type");
    assert_eq!(parameter_name(1), "Band 1 hz");
    assert_eq!(parameter_name(2), "Band 1 dB");
    assert_eq!(parameter_name(3), "Band 1 Q Value");
    assert_eq!(parameter_name(4), "Band 1 mode");
    assert_eq!(parameter_name(7), "Band 2 dB");
    assert_eq!(parameter_name(19), "Band 4 mode");
    assert_eq!(
        slot_name_of(ParamSlot { band: 2, field: BandField::Freq }),
        "Band 3 hz"
    );
}

#[test]
fn parameter_names_outside_the_list_are_empty() {
    assert_eq!(parameter_name(20), "");
    assert_eq!(parameter_name(100), "");
    assert_eq!(parameter_name(-1), "");
}
