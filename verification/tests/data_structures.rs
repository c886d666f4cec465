use diffraction_surface::data_structures::{
    DiffractiveData, COSINE, COSINE_OUT, COSINE_SURFACE_NORMAL, CURRENT_ORDER, ELECTRIC_FIELD_X,
    ELECTRIC_FIELD_X_OUT, ELECTRIC_FIELD_Y, ELECTRIC_FIELD_Y_OUT, ELECTRIC_FIELD_Z,
    ELECTRIC_FIELD_Z_OUT, ENDING_ORDER, INDEX_IN, INDEX_OUT, IS_REFLECTIVE, LENGTH, LINES_PER_UM,
    LINES_PER_UM_REFRACTED, MM_PER_UNIT, PHASE_DERIVATIVES, PHASE_SHIFT, POSITION,
    RELATIVE_ENERGY, RESERVED_FOR_FUTURE_USE, RETURN_FLAG, SEED, SLOT_COUNT, STARTING_ORDER,
    UNKNOWN_19, UNKNOWN_26_29, UNKNOWN_38_39, WAVELENGTH_UM,
};
use diffraction_surface::double::{is_one, is_zero, ONE, POSITIVE_ZERO, SIGN_BIT};
use diffraction_surface::error::DiffractionError;

/// A block in which slot `n` holds `n`.
fn offsets_block() -> [u64; SLOT_COUNT] {
    let mut slots = [0u64; SLOT_COUNT];
    for (offset, slot) in slots.iter_mut().enumerate() {
        *slot = offset as u64;
    }
    slots
}

#[test]
fn block_has_53_slots() {
    assert_eq!(SLOT_COUNT, 53);
    assert_eq!(std::mem::size_of::<[u64; SLOT_COUNT]>(), 53 * 8);
    assert_eq!(std::mem::align_of::<[u64; SLOT_COUNT]>(), 8);
}

#[test]
fn null_pointer_gives_no_record() {
    let data = DiffractiveData::from_pointer(&None);
    assert_eq!(data.err(), Some(DiffractionError::NullBuffer));
}

#[test]
fn every_field_is_read_from_its_slots() {
    let mut slots = offsets_block();
    let data = DiffractiveData::from_pointer(&Some(&mut slots)).unwrap();
    assert_eq!(data.length, 0);
    assert_eq!(data.position, [1, 2, 3]);
    assert_eq!(data.cosine, [4, 5, 6]);
    assert_eq!(data.cosine_surface_normal, [7, 8, 9]);
    assert_eq!(data.wavelength_um, 10);
    assert_eq!(data.is_reflective, 11);
    assert_eq!(data.index_in, 12);
    assert_eq!(data.index_out, 13);
    assert_eq!(data.current_order, 14);
    assert_eq!(data.starting_order, 15);
    assert_eq!(data.ending_order, 16);
    assert_eq!(data.mm_per_unit, 17);
    assert_eq!(data.seed, 18);
    assert_eq!(data.unknown_field_19, 19);
    assert_eq!(data.electric_field_x, [20, 21]);
    assert_eq!(data.electric_field_y, [22, 23]);
    assert_eq!(data.electric_field_z, [24, 25]);
    assert_eq!(data.unknown_fields_26_29, [26, 27, 28, 29]);
    assert_eq!(data.relative_energy, 30);
    assert_eq!(data.return_flag, 31);
    assert_eq!(data.phase_shift, 32);
    assert_eq!(data.phase_derivatives, [33, 34]);
    assert_eq!(data.cosine_out, [35, 36, 37]);
    assert_eq!(data.unknown_fields_38_39, [38, 39]);
    assert_eq!(data.electric_field_x_out, [40, 41]);
    assert_eq!(data.electric_field_y_out, [42, 43]);
    assert_eq!(data.electric_field_z_out, [44, 45]);
    assert_eq!(data.reserved_for_future_use, [46, 47, 48, 49, 50]);
    assert_eq!(data.lines_per_um, 51);
    assert_eq!(data.lines_per_um_refracted, 52);
}

#[test]
fn reading_leaves_the_block_as_it_was() {
    let mut slots = offsets_block();
    let _ = DiffractiveData::from_pointer(&Some(&mut slots));
    assert_eq!(slots, offsets_block());
}

#[test]
fn slot_offsets_are_those_of_the_host() {
    let offsets = [
        (LENGTH, 0),
        (POSITION, 1),
        (COSINE, 4),
        (COSINE_SURFACE_NORMAL, 7),
        (WAVELENGTH_UM, 10),
        (IS_REFLECTIVE, 11),
        (INDEX_IN, 12),
        (INDEX_OUT, 13),
        (CURRENT_ORDER, 14),
        (STARTING_ORDER, 15),
        (ENDING_ORDER, 16),
        (MM_PER_UNIT, 17),
        (SEED, 18),
        (UNKNOWN_19, 19),
        (ELECTRIC_FIELD_X, 20),
        (ELECTRIC_FIELD_Y, 22),
        (ELECTRIC_FIELD_Z, 24),
        (UNKNOWN_26_29, 26),
        (RELATIVE_ENERGY, 30),
        (RETURN_FLAG, 31),
        (PHASE_SHIFT, 32),
        (PHASE_DERIVATIVES, 33),
        (COSINE_OUT, 35),
        (UNKNOWN_38_39, 38),
        (ELECTRIC_FIELD_X_OUT, 40),
        (ELECTRIC_FIELD_Y_OUT, 42),
        (ELECTRIC_FIELD_Z_OUT, 44),
        (RESERVED_FOR_FUTURE_USE, 46),
        (LINES_PER_UM, 51),
        (LINES_PER_UM_REFRACTED, 52),
    ];
    for (constant, offset) in offsets {
        assert_eq!(constant, offset);
    }
}

#[test]
fn zero_and_one_are_recognised_by_their_bits() {
    assert_eq!(POSITIVE_ZERO, 0.0f64.to_bits());
    assert_eq!(SIGN_BIT, (-0.0f64).to_bits());
    assert_eq!(ONE, 1.0f64.to_bits());
    assert!(is_zero(0.0f64.to_bits()));
    assert!(is_zero((-0.0f64).to_bits()));
    assert!(!is_zero(f64::MIN_POSITIVE.to_bits()));
    assert!(!is_zero(1));
    assert!(!is_zero(1.0f64.to_bits()));
    assert!(is_one(1.0f64.to_bits()));
    assert!(!is_one((-1.0f64).to_bits()));
    assert!(!is_one((1.0f64 + f64::EPSILON).to_bits()));
    assert!(!is_one(0));
}
