//! What the surface does to one ray: how the energy is split between the
//! refracted and the reflected path, and the phase that the grating adds.

use vstd::arithmetic::power2::lemma2_to64_rest;
use vstd::prelude::*;
use crate::data_structures::{
    DiffractiveData, PHASE_DERIVATIVES, PHASE_SHIFT, RELATIVE_ENERGY, RETURN_FLAG, SLOT_COUNT,
};
use crate::double::{
    exponent_field, is_one, is_product, is_rounded, is_zero, significand, spec_is_one,
    spec_is_zero, total, Operation, ONE, POSITIVE_ZERO,
};
use crate::error::DiffractionError;
use crate::functions::{get_total_power, is_total_power};

verus! {

/// The share of an order's power that goes on through the surface: the bits of
/// `0.9`.
pub const TRANSMITTED_FRACTION: u64 = 0x3FEC_CCCC_CCCC_CCCD;

/// The share of an order's power that the surface reflects: the bits of
/// `0.1`.
pub const REFLECTED_FRACTION: u64 = 0x3FB9_9999_9999_999A;

/// The output mode that every successful call leaves in the block, whatever
/// mode the host asked for: the bits of `1.0`, "phase and phase derivatives
/// only".
pub const PHASE_ONLY: u64 = ONE;

/// The path of the ray that a call models.
#[derive(Clone, Copy, Debug, PartialEq, Eq, Structural)]
pub enum Path {
    /// The ray goes on through the surface.
    Transmitted,
    /// The ray is reflected by the surface.
    Reflected,
}

impl Path {
    /// The share of an order's power that this path carries.
    pub open spec fn spec_energy_fraction(self) -> u64 {
        match self {
            Path::Transmitted => TRANSMITTED_FRACTION,
            Path::Reflected => REFLECTED_FRACTION,
        }
    }

    /// The share of an order's power that this path carries.
    #[verifier::when_used_as_spec(spec_energy_fraction)]
    pub fn energy_fraction(self) -> (fraction: u64)
        ensures
            fraction == self.spec_energy_fraction(),
    {
        match self {
            Path::Transmitted => TRANSMITTED_FRACTION,
            Path::Reflected => REFLECTED_FRACTION,
        }
    }
}

/// The path that a reflective flag selects: the transmitted path where the
/// flag is exactly zero, the reflected path where it is exactly one, and none
/// for any other double.
pub open spec fn spec_reflective_path(is_reflective: u64) -> Option<Path> {
    if spec_is_zero(is_reflective) {
        Some(Path::Transmitted)
    } else if spec_is_one(is_reflective) {
        Some(Path::Reflected)
    } else {
        None
    }
}

/// Reads the path from a reflective flag, or rejects the flag.
pub fn reflective_path(is_reflective: u64) -> (path: Result<Path, DiffractionError>)
    ensures
        path == match spec_reflective_path(is_reflective) {
            Some(selected) => Ok::<Path, DiffractionError>(selected),
            None => Err::<Path, DiffractionError>(DiffractionError::InvalidReflectiveFlag),
        },
{
    if is_zero(is_reflective) {
        Ok(Path::Transmitted)
    } else if is_one(is_reflective) {
        Ok(Path::Reflected)
    } else {
        Err(DiffractionError::InvalidReflectiveFlag)
    }
}

/// Whether the plugin writes the slot at `offset`: the relative energy, the
/// output mode, the phase shift and the two phase derivatives.
pub open spec fn is_output_slot(offset: int) -> bool {
    ||| offset == RELATIVE_ENERGY
    ||| offset == RETURN_FLAG
    ||| offset == PHASE_SHIFT
    ||| offset == PHASE_DERIVATIVES
    ||| offset == PHASE_DERIVATIVES + 1
}

/// What one call returns to the host: the values of the five slots that it
/// writes.
#[derive(Clone, Copy, Debug)]
pub struct Interaction {
    /// The ray's relative energy.
    pub relative_energy: u64,
    /// The output mode.
    pub return_flag: u64,
    /// The phase added to the ray, in radians.
    pub phase_shift: u64,
    /// The phase's derivatives, by local x and by local y.
    pub phase_derivatives: [u64; 2],
}

impl Interaction {
    /// The block `slots` after this interaction is written to it: the five
    /// output slots hold its values, and every other slot is as before.
    pub open spec fn written_to(self, slots: Seq<u64>) -> Seq<u64> {
        slots
            .update(RELATIVE_ENERGY as int, self.relative_energy)
            .update(RETURN_FLAG as int, self.return_flag)
            .update(PHASE_SHIFT as int, self.phase_shift)
            .update(PHASE_DERIVATIVES as int, self.phase_derivatives[0])
            .update(PHASE_DERIVATIVES + 1, self.phase_derivatives[1])
    }

    /// Writes the interaction to the block: its five output slots, and no
    /// other.
    pub fn write_to(&self, slots: &mut [u64; SLOT_COUNT])
        ensures
            final(slots)@ == self.written_to(old(slots)@),
            forall|offset: int|
                0 <= offset < SLOT_COUNT && !is_output_slot(offset)
                    ==> final(slots)@[offset] == old(slots)@[offset],
    {
        slots[RELATIVE_ENERGY] = self.relative_energy;
        slots[RETURN_FLAG] = self.return_flag;
        slots[PHASE_SHIFT] = self.phase_shift;
        slots[PHASE_DERIVATIVES] = self.phase_derivatives[0];
        slots[PHASE_DERIVATIVES + 1] = self.phase_derivatives[1];
    }
}

/// Whether `interaction` is what the surface does to the ray of `data` on
/// `path`, as `arithmetic` computes it.
///
/// - The relative energy is the total power of one order, times the share of
///   the path.
/// - The output mode is "phase only".
/// - The phase does not change along local x: that derivative is `+0.0`.
/// - The derivative along local y is the current order, times the lines per
///   micrometer, times the wavelength.
/// - The phase shift is that derivative times the ray's local y.
pub open spec fn diffracts<A: Fn(Operation, u64, u64) -> u64>(
    arithmetic: A,
    data: DiffractiveData,
    path: Path,
    interaction: Interaction,
) -> bool {
    let derivative = interaction.phase_derivatives[1];
    &&& interaction.return_flag == PHASE_ONLY
    &&& interaction.phase_derivatives[0] == POSITIVE_ZERO
    &&& exists|total_power: u64, lines: u64|
        #![trigger
            is_total_power(arithmetic, data.ending_order, data.starting_order, total_power),
            is_product(arithmetic, data.current_order, data.lines_per_um, lines)
        ]
        {
            &&& is_total_power(arithmetic, data.ending_order, data.starting_order, total_power)
            &&& is_product(
                arithmetic,
                total_power,
                path.spec_energy_fraction(),
                interaction.relative_energy,
            )
            &&& is_product(arithmetic, data.current_order, data.lines_per_um, lines)
            &&& is_product(arithmetic, lines, data.wavelength_um, derivative)
            &&& is_product(arithmetic, derivative, data.position[1], interaction.phase_shift)
        }
}

/// Computes what the surface does to the ray of `data`.
///
/// A reflective flag that is neither zero nor one is rejected; for every other
/// record the interaction is computed, from products and a quotient that are
/// asked of `arithmetic`.
pub fn diffract<A: Fn(Operation, u64, u64) -> u64>(
    data: &DiffractiveData,
    arithmetic: &A,
) -> (outcome: Result<Interaction, DiffractionError>)
    requires
        total(*arithmetic),
    ensures
        match spec_reflective_path(data.is_reflective) {
            Some(path) => outcome matches Ok(interaction)
                && diffracts(*arithmetic, *data, path, interaction),
            None => outcome == Err::<Interaction, DiffractionError>(
                DiffractionError::InvalidReflectiveFlag,
            ),
        },
{
    let path = match reflective_path(data.is_reflective) {
        Ok(path) => path,
        Err(error) => return Err(error),
    };
    let total_power = get_total_power(data.ending_order, data.starting_order, arithmetic);
    let relative_energy = arithmetic(Operation::Multiply, total_power, path.energy_fraction());
    let lines = arithmetic(Operation::Multiply, data.current_order, data.lines_per_um);
    let derivative = arithmetic(Operation::Multiply, lines, data.wavelength_um);
    let phase_shift = arithmetic(Operation::Multiply, derivative, data.position[1]);
    let interaction = Interaction {
        relative_energy,
        return_flag: PHASE_ONLY,
        phase_shift,
        phase_derivatives: [POSITIVE_ZERO, derivative],
    };
    assert(is_total_power(*arithmetic, data.ending_order, data.starting_order, total_power));
    assert(is_product(*arithmetic, data.current_order, data.lines_per_um, lines));
    Ok(interaction)
}

/// Read by name, a block that an interaction was written to holds the
/// interaction in its four output fields, and in every other field what the
/// block held before.
pub proof fn lemma_written_fields(interaction: Interaction, slots: Seq<u64>)
    requires
        slots.len() == SLOT_COUNT,
    ensures
        interaction.written_to(slots).len() == SLOT_COUNT,
        DiffractiveData::decode(interaction.written_to(slots)) == (DiffractiveData {
            relative_energy: interaction.relative_energy,
            return_flag: interaction.return_flag,
            phase_shift: interaction.phase_shift,
            phase_derivatives: interaction.phase_derivatives,
            ..DiffractiveData::decode(slots)
        }),
{
    let after = DiffractiveData::decode(interaction.written_to(slots));
    assert(after.phase_derivatives =~= interaction.phase_derivatives);
}

/// The two shares are nine tenths and one tenth, each rounded to a double.
pub proof fn lemma_energy_shares()
    ensures
        is_rounded(TRANSMITTED_FRACTION, 9, 10),
        is_rounded(REFLECTED_FRACTION, 1, 10),
{
    lemma2_to64_rest();
    assert(exponent_field(TRANSMITTED_FRACTION) == 1022);
    assert(significand(TRANSMITTED_FRACTION) == 0x1C_CCCC_CCCC_CCCD);
    assert(exponent_field(REFLECTED_FRACTION) == 1019);
    assert(significand(REFLECTED_FRACTION) == 0x19_9999_9999_999A);
}

} // verus!
