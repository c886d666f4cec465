//! The ray block that the host and the plugin share.
//!
//! The host owns a block of 53 doubles, laid out without padding, and lends it
//! to the plugin for one call. The layout is fixed by the host: slot `n` always
//! means the same field. Here the block is an array of 53 bit patterns, and
//! [`DiffractiveData`] is the record of its named fields, read from the block
//! slot by slot.

use vstd::prelude::*;
use crate::error::DiffractionError;

verus! {

/// The number of slots in the block.
pub const SLOT_COUNT: usize = 53;

/// Slot of the block's own length in slots.
pub const LENGTH: usize = 0;

/// First of the three slots of the ray's position, in local coordinates.
pub const POSITION: usize = 1;

/// First of the three slots of the ray's direction cosines.
pub const COSINE: usize = 4;

/// First of the three slots of the surface normal's direction cosines.
pub const COSINE_SURFACE_NORMAL: usize = 7;

/// Slot of the wavelength, in micrometers.
pub const WAVELENGTH_UM: usize = 10;

/// Slot of the reflective flag: zero for the refracted path, one for the
/// reflected path.
pub const IS_REFLECTIVE: usize = 11;

/// Slot of the refractive index on the incident side.
pub const INDEX_IN: usize = 12;

/// Slot of the refractive index on the exit side.
pub const INDEX_OUT: usize = 13;

/// Slot of the diffraction order of this call.
pub const CURRENT_ORDER: usize = 14;

/// Slot of the first diffraction order that the surface models.
pub const STARTING_ORDER: usize = 15;

/// Slot of the last diffraction order that the surface models.
pub const ENDING_ORDER: usize = 16;

/// Slot of the length of one lens unit, in millimeters.
pub const MM_PER_UNIT: usize = 17;

/// Slot of the random seed.
pub const SEED: usize = 18;

/// A slot of unknown meaning.
pub const UNKNOWN_19: usize = 19;

/// First of the two slots of the incident electric field's x component.
pub const ELECTRIC_FIELD_X: usize = 20;

/// First of the two slots of the incident electric field's y component.
pub const ELECTRIC_FIELD_Y: usize = 22;

/// First of the two slots of the incident electric field's z component.
pub const ELECTRIC_FIELD_Z: usize = 24;

/// First of four slots of unknown meaning.
pub const UNKNOWN_26_29: usize = 26;

/// Slot of the ray's relative energy.
pub const RELATIVE_ENERGY: usize = 30;

/// Slot of the output mode: one where the plugin returns the phase and its
/// derivatives only, two where it returns the whole outgoing ray.
pub const RETURN_FLAG: usize = 31;

/// Slot of the phase added to the ray, in radians.
pub const PHASE_SHIFT: usize = 32;

/// First of the two slots of the phase's derivatives, by local x and by
/// local y.
pub const PHASE_DERIVATIVES: usize = 33;

/// First of the three slots of the outgoing ray's direction cosines.
pub const COSINE_OUT: usize = 35;

/// First of two slots of unknown meaning.
pub const UNKNOWN_38_39: usize = 38;

/// First of the two slots of the outgoing electric field's x component.
pub const ELECTRIC_FIELD_X_OUT: usize = 40;

/// First of the two slots of the outgoing electric field's y component.
pub const ELECTRIC_FIELD_Y_OUT: usize = 42;

/// First of the two slots of the outgoing electric field's z component.
pub const ELECTRIC_FIELD_Z_OUT: usize = 44;

/// First of the five slots kept for later use.
pub const RESERVED_FOR_FUTURE_USE: usize = 46;

/// Slot of the grating's lines per micrometer, for the reflected ray.
pub const LINES_PER_UM: usize = 51;

/// Slot of the grating's lines per micrometer, for the refracted ray.
pub const LINES_PER_UM_REFRACTED: usize = 52;

/// The fields of one ray block, each double as its bit pattern.
///
/// The record is a reading of the block, not the block: changing a field here
/// changes nothing that the host sees.
#[derive(Clone, Copy, Debug)]
pub struct DiffractiveData {
    /// Slot 0: the length of the block, in slots.
    pub length: u64,
    /// Slots 1 to 3: the ray's position, in local coordinates.
    pub position: [u64; 3],
    /// Slots 4 to 6: the ray's direction cosines.
    pub cosine: [u64; 3],
    /// Slots 7 to 9: the surface normal's direction cosines.
    pub cosine_surface_normal: [u64; 3],
    /// Slot 10: the wavelength, in micrometers.
    pub wavelength_um: u64,
    /// Slot 11: zero for the refracted path, one for the reflected path.
    pub is_reflective: u64,
    /// Slot 12: the refractive index on the incident side.
    pub index_in: u64,
    /// Slot 13: the refractive index on the exit side.
    pub index_out: u64,
    /// Slot 14: the diffraction order of this call.
    pub current_order: u64,
    /// Slot 15: the first diffraction order that the surface models.
    pub starting_order: u64,
    /// Slot 16: the last diffraction order that the surface models.
    pub ending_order: u64,
    /// Slot 17: the length of one lens unit, in millimeters.
    pub mm_per_unit: u64,
    /// Slot 18: a random seed.
    pub seed: u64,
    /// Slot 19: of unknown meaning; carried, never interpreted.
    pub unknown_field_19: u64,
    /// Slots 20 and 21: the incident electric field's x component.
    pub electric_field_x: [u64; 2],
    /// Slots 22 and 23: the incident electric field's y component.
    pub electric_field_y: [u64; 2],
    /// Slots 24 and 25: the incident electric field's z component.
    pub electric_field_z: [u64; 2],
    /// Slots 26 to 29: of unknown meaning; carried, never interpreted.
    pub unknown_fields_26_29: [u64; 4],
    /// Slot 30: the ray's relative energy.
    pub relative_energy: u64,
    /// Slot 31: the output mode.
    pub return_flag: u64,
    /// Slot 32: the phase added to the ray, in radians.
    pub phase_shift: u64,
    /// Slots 33 and 34: the phase's derivatives, by local x and by local y.
    pub phase_derivatives: [u64; 2],
    /// Slots 35 to 37: the outgoing ray's direction cosines.
    pub cosine_out: [u64; 3],
    /// Slots 38 and 39: of unknown meaning; carried, never interpreted.
    pub unknown_fields_38_39: [u64; 2],
    /// Slots 40 and 41: the outgoing electric field's x component.
    pub electric_field_x_out: [u64; 2],
    /// Slots 42 and 43: the outgoing electric field's y component.
    pub electric_field_y_out: [u64; 2],
    /// Slots 44 and 45: the outgoing electric field's z component.
    pub electric_field_z_out: [u64; 2],
    /// Slots 46 to 50: kept for later use; carried, never interpreted.
    pub reserved_for_future_use: [u64; 5],
    /// Slot 51: the grating's lines per micrometer, for the reflected ray.
    pub lines_per_um: u64,
    /// Slot 52: the grating's lines per micrometer, for the refracted ray.
    pub lines_per_um_refracted: u64,
}

impl DiffractiveData {
    /// What the record holds for the slot at `offset`: the layout of the
    /// block, from offset to field.
    pub open spec fn slot(self, offset: int) -> u64 {
        if offset < POSITION {
            self.length
        } else if offset < COSINE {
            self.position[offset - POSITION]
        } else if offset < COSINE_SURFACE_NORMAL {
            self.cosine[offset - COSINE]
        } else if offset < WAVELENGTH_UM {
            self.cosine_surface_normal[offset - COSINE_SURFACE_NORMAL]
        } else if offset < IS_REFLECTIVE {
            self.wavelength_um
        } else if offset < INDEX_IN {
            self.is_reflective
        } else if offset < INDEX_OUT {
            self.index_in
        } else if offset < CURRENT_ORDER {
            self.index_out
        } else if offset < STARTING_ORDER {
            self.current_order
        } else if offset < ENDING_ORDER {
            self.starting_order
        } else if offset < MM_PER_UNIT {
            self.ending_order
        } else if offset < SEED {
            self.mm_per_unit
        } else if offset < UNKNOWN_19 {
            self.seed
        } else if offset < ELECTRIC_FIELD_X {
            self.unknown_field_19
        } else if offset < ELECTRIC_FIELD_Y {
            self.electric_field_x[offset - ELECTRIC_FIELD_X]
        } else if offset < ELECTRIC_FIELD_Z {
            self.electric_field_y[offset - ELECTRIC_FIELD_Y]
        } else if offset < UNKNOWN_26_29 {
            self.electric_field_z[offset - ELECTRIC_FIELD_Z]
        } else if offset < RELATIVE_ENERGY {
            self.unknown_fields_26_29[offset - UNKNOWN_26_29]
        } else if offset < RETURN_FLAG {
            self.relative_energy
        } else if offset < PHASE_SHIFT {
            self.return_flag
        } else if offset < PHASE_DERIVATIVES {
            self.phase_shift
        } else if offset < COSINE_OUT {
            self.phase_derivatives[offset - PHASE_DERIVATIVES]
        } else if offset < UNKNOWN_38_39 {
            self.cosine_out[offset - COSINE_OUT]
        } else if offset < ELECTRIC_FIELD_X_OUT {
            self.unknown_fields_38_39[offset - UNKNOWN_38_39]
        } else if offset < ELECTRIC_FIELD_Y_OUT {
            self.electric_field_x_out[offset - ELECTRIC_FIELD_X_OUT]
        } else if offset < ELECTRIC_FIELD_Z_OUT {
            self.electric_field_y_out[offset - ELECTRIC_FIELD_Y_OUT]
        } else if offset < RESERVED_FOR_FUTURE_USE {
            self.electric_field_z_out[offset - ELECTRIC_FIELD_Z_OUT]
        } else if offset < LINES_PER_UM {
            self.reserved_for_future_use[offset - RESERVED_FOR_FUTURE_USE]
        } else if offset < LINES_PER_UM_REFRACTED {
            self.lines_per_um
        } else {
            self.lines_per_um_refracted
        }
    }

    /// The record that a block of 53 slots holds: each field from its slots.
    pub open spec fn decode(slots: Seq<u64>) -> DiffractiveData {
        DiffractiveData {
            length: slots[LENGTH as int],
            position: [slots[POSITION as int], slots[POSITION + 1], slots[POSITION + 2]],
            cosine: [slots[COSINE as int], slots[COSINE + 1], slots[COSINE + 2]],
            cosine_surface_normal: [
                slots[COSINE_SURFACE_NORMAL as int],
                slots[COSINE_SURFACE_NORMAL + 1],
                slots[COSINE_SURFACE_NORMAL + 2],
            ],
            wavelength_um: slots[WAVELENGTH_UM as int],
            is_reflective: slots[IS_REFLECTIVE as int],
            index_in: slots[INDEX_IN as int],
            index_out: slots[INDEX_OUT as int],
            current_order: slots[CURRENT_ORDER as int],
            starting_order: slots[STARTING_ORDER as int],
            ending_order: slots[ENDING_ORDER as int],
            mm_per_unit: slots[MM_PER_UNIT as int],
            seed: slots[SEED as int],
            unknown_field_19: slots[UNKNOWN_19 as int],
            electric_field_x: [slots[ELECTRIC_FIELD_X as int], slots[ELECTRIC_FIELD_X + 1]],
            electric_field_y: [slots[ELECTRIC_FIELD_Y as int], slots[ELECTRIC_FIELD_Y + 1]],
            electric_field_z: [slots[ELECTRIC_FIELD_Z as int], slots[ELECTRIC_FIELD_Z + 1]],
            unknown_fields_26_29: [
                slots[UNKNOWN_26_29 as int],
                slots[UNKNOWN_26_29 + 1],
                slots[UNKNOWN_26_29 + 2],
                slots[UNKNOWN_26_29 + 3],
            ],
            relative_energy: slots[RELATIVE_ENERGY as int],
            return_flag: slots[RETURN_FLAG as int],
            phase_shift: slots[PHASE_SHIFT as int],
            phase_derivatives: [slots[PHASE_DERIVATIVES as int], slots[PHASE_DERIVATIVES + 1]],
            cosine_out: [slots[COSINE_OUT as int], slots[COSINE_OUT + 1], slots[COSINE_OUT + 2]],
            unknown_fields_38_39: [slots[UNKNOWN_38_39 as int], slots[UNKNOWN_38_39 + 1]],
            electric_field_x_out: [
                slots[ELECTRIC_FIELD_X_OUT as int],
                slots[ELECTRIC_FIELD_X_OUT + 1],
            ],
            electric_field_y_out: [
                slots[ELECTRIC_FIELD_Y_OUT as int],
                slots[ELECTRIC_FIELD_Y_OUT + 1],
            ],
            electric_field_z_out: [
                slots[ELECTRIC_FIELD_Z_OUT as int],
                slots[ELECTRIC_FIELD_Z_OUT + 1],
            ],
            reserved_for_future_use: [
                slots[RESERVED_FOR_FUTURE_USE as int],
                slots[RESERVED_FOR_FUTURE_USE + 1],
                slots[RESERVED_FOR_FUTURE_USE + 2],
                slots[RESERVED_FOR_FUTURE_USE + 3],
                slots[RESERVED_FOR_FUTURE_USE + 4],
            ],
            lines_per_um: slots[LINES_PER_UM as int],
            lines_per_um_refracted: slots[LINES_PER_UM_REFRACTED as int],
        }
    }

    /// Reads the record from a block, if there is one.
    ///
    /// A null address is `None`: it gives `NullBuffer`. Any block gives the
    /// record of its fields, whose image is that block.
    pub fn from_pointer(data_pointer: &Option<&mut [u64; SLOT_COUNT]>) -> (data: Result<
        DiffractiveData,
        DiffractionError,
    >)
        ensures
            match *data_pointer {
                Some(slots) => data matches Ok(record) && record == DiffractiveData::decode(slots@)
                    && record@ == slots@,
                None => data == Err::<DiffractiveData, DiffractionError>(DiffractionError::NullBuffer),
            },
    {
        match data_pointer {
            Some(slots) => {
                let record = DiffractiveData {
                    length: slots[LENGTH],
                    position: [slots[POSITION], slots[POSITION + 1], slots[POSITION + 2]],
                    cosine: [slots[COSINE], slots[COSINE + 1], slots[COSINE + 2]],
                    cosine_surface_normal: [
                        slots[COSINE_SURFACE_NORMAL],
                        slots[COSINE_SURFACE_NORMAL + 1],
                        slots[COSINE_SURFACE_NORMAL + 2],
                    ],
                    wavelength_um: slots[WAVELENGTH_UM],
                    is_reflective: slots[IS_REFLECTIVE],
                    index_in: slots[INDEX_IN],
                    index_out: slots[INDEX_OUT],
                    current_order: slots[CURRENT_ORDER],
                    starting_order: slots[STARTING_ORDER],
                    ending_order: slots[ENDING_ORDER],
                    mm_per_unit: slots[MM_PER_UNIT],
                    seed: slots[SEED],
                    unknown_field_19: slots[UNKNOWN_19],
                    electric_field_x: [slots[ELECTRIC_FIELD_X], slots[ELECTRIC_FIELD_X + 1]],
                    electric_field_y: [slots[ELECTRIC_FIELD_Y], slots[ELECTRIC_FIELD_Y + 1]],
                    electric_field_z: [slots[ELECTRIC_FIELD_Z], slots[ELECTRIC_FIELD_Z + 1]],
                    unknown_fields_26_29: [
                        slots[UNKNOWN_26_29],
                        slots[UNKNOWN_26_29 + 1],
                        slots[UNKNOWN_26_29 + 2],
                        slots[UNKNOWN_26_29 + 3],
                    ],
                    relative_energy: slots[RELATIVE_ENERGY],
                    return_flag: slots[RETURN_FLAG],
                    phase_shift: slots[PHASE_SHIFT],
                    phase_derivatives: [slots[PHASE_DERIVATIVES], slots[PHASE_DERIVATIVES + 1]],
                    cosine_out: [slots[COSINE_OUT], slots[COSINE_OUT + 1], slots[COSINE_OUT + 2]],
                    unknown_fields_38_39: [slots[UNKNOWN_38_39], slots[UNKNOWN_38_39 + 1]],
                    electric_field_x_out: [
                        slots[ELECTRIC_FIELD_X_OUT],
                        slots[ELECTRIC_FIELD_X_OUT + 1],
                    ],
                    electric_field_y_out: [
                        slots[ELECTRIC_FIELD_Y_OUT],
                        slots[ELECTRIC_FIELD_Y_OUT + 1],
                    ],
                    electric_field_z_out: [
                        slots[ELECTRIC_FIELD_Z_OUT],
                        slots[ELECTRIC_FIELD_Z_OUT + 1],
                    ],
                    reserved_for_future_use: [
                        slots[RESERVED_FOR_FUTURE_USE],
                        slots[RESERVED_FOR_FUTURE_USE + 1],
                        slots[RESERVED_FOR_FUTURE_USE + 2],
                        slots[RESERVED_FOR_FUTURE_USE + 3],
                        slots[RESERVED_FOR_FUTURE_USE + 4],
                    ],
                    lines_per_um: slots[LINES_PER_UM],
                    lines_per_um_refracted: slots[LINES_PER_UM_REFRACTED],
                };
                assert(record@ =~= slots@);
                Ok(record)
            },
            None => Err(DiffractionError::NullBuffer),
        }
    }
}

impl View for DiffractiveData {
    type V = Seq<u64>;

    /// The image of the record: the block that holds its fields, slot by slot.
    open spec fn view(&self) -> Seq<u64> {
        Seq::new(SLOT_COUNT as nat, |offset: int| self.slot(offset))
    }
}

/// Reading a block and taking the image of the record gives the block back:
/// every slot belongs to a field.
pub proof fn lemma_decode_then_image(slots: Seq<u64>)
    requires
        slots.len() == SLOT_COUNT,
    ensures
        DiffractiveData::decode(slots)@ == slots,
{
    assert(DiffractiveData::decode(slots)@ =~= slots);
}

/// Taking the image of a record and reading it gives the record back: no two
/// fields share a slot, and no field lies outside the block.
pub proof fn lemma_image_then_decode(data: DiffractiveData)
    ensures
        data@.len() == SLOT_COUNT,
        DiffractiveData::decode(data@) == data,
{
    let read = DiffractiveData::decode(data@);
    assert(forall|offset: int| 0 <= offset < SLOT_COUNT ==> data@[offset] == data.slot(offset));
    assert(read.position =~= data.position);
    assert(read.cosine =~= data.cosine);
    assert(read.cosine_surface_normal =~= data.cosine_surface_normal);
    assert(read.electric_field_x =~= data.electric_field_x);
    assert(read.electric_field_y =~= data.electric_field_y);
    assert(read.electric_field_z =~= data.electric_field_z);
    assert(read.unknown_fields_26_29 =~= data.unknown_fields_26_29);
    assert(read.phase_derivatives =~= data.phase_derivatives);
    assert(read.cosine_out =~= data.cosine_out);
    assert(read.unknown_fields_38_39 =~= data.unknown_fields_38_39);
    assert(read.electric_field_x_out =~= data.electric_field_x_out);
    assert(read.electric_field_y_out =~= data.electric_field_y_out);
    assert(read.electric_field_z_out =~= data.electric_field_z_out);
    assert(read.reserved_for_future_use =~= data.reserved_for_future_use);
}

} // verus!
