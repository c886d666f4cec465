//! A diffractive surface for an optical-design host.
//!
//! The host traces rays through a lens system. Where a ray meets this surface
//! it lends the plugin a block of 53 doubles that describes the ray, and the
//! plugin answers in the same block: the share of the energy that the ray
//! keeps, and the phase that the grating adds. A second call gives the host
//! the names of the surface's parameters.
//!
//! The library holds the rules of both calls. It carries every double as its
//! 64 bits and asks the caller's arithmetic for each sum, product and
//! quotient; see [`double`].

pub mod data_structures;
pub mod diffraction;
pub mod double;
pub mod error;
pub mod functions;
pub mod param_names;

use vstd::prelude::*;
use vstd::string::StringSliceAdditionalSpecFns;
use crate::data_structures::{
    DiffractiveData, IS_REFLECTIVE, PHASE_DERIVATIVES, RETURN_FLAG, SLOT_COUNT,
};
use crate::diffraction::{
    diffract, diffracts, is_output_slot, spec_reflective_path, Interaction, PHASE_ONLY,
};
use crate::double::{total, Operation, POSITIVE_ZERO};
use crate::error::{FAILURE_STATUS, SUCCESS_STATUS};
use crate::functions::{c_string, str_to_mut_i8_ptr};
use crate::param_names::{
    copy_from, lemma_param_name_characters, overwritten, param_name, spec_param_name,
    NAME_CAPACITY,
};

verus! {

/// The loader's reason for a call when a process unloads the library.
pub const DLL_PROCESS_DETACH: u32 = 0;

/// The loader's reason for a call when a process loads the library.
pub const DLL_PROCESS_ATTACH: u32 = 1;

/// The loader's reason for a call when a thread starts.
pub const DLL_THREAD_ATTACH: u32 = 2;

/// The loader's reason for a call when a thread ends.
pub const DLL_THREAD_DETACH: u32 = 3;

/// What the loader is told after a notification: the library accepts it.
pub const ACCEPTED: u32 = 1;

/// Whether `reason` is one of the four reasons that the loader gives.
pub open spec fn spec_is_loader_reason(reason: u32) -> bool {
    reason == DLL_PROCESS_ATTACH || reason == DLL_PROCESS_DETACH || reason == DLL_THREAD_ATTACH
        || reason == DLL_THREAD_DETACH
}

/// Tells whether `reason` is one of the four reasons that the loader gives.
#[verifier::when_used_as_spec(spec_is_loader_reason)]
pub fn is_loader_reason(reason: u32) -> (known: bool)
    ensures
        known == spec_is_loader_reason(reason),
{
    reason == DLL_PROCESS_ATTACH || reason == DLL_PROCESS_DETACH || reason == DLL_THREAD_ATTACH
        || reason == DLL_THREAD_DETACH
}

/// Answers the loader's notification that a process or a thread attaches or
/// detaches. The library keeps no state, so there is nothing to do but accept.
///
/// The loader gives no other reason than the four; a caller that may hold
/// another tests it with [`is_loader_reason`] first.
#[allow(non_snake_case)]
pub fn DllMain(ul_reason_for_call: u32) -> (answer: u32)
    requires
        spec_is_loader_reason(ul_reason_for_call),
    ensures
        answer == ACCEPTED,
{
    ACCEPTED
}

/// Called when a ray hits the surface: computes the ray's relative energy and
/// the phase that the grating adds, and writes them to the block.
///
/// - With no block the call fails.
/// - With a reflective flag that is neither zero nor one the call fails, and
///   the block is left as it was.
/// - Otherwise the call succeeds: the block's five output slots hold the
///   interaction that `arithmetic` computes from the block, and every other
///   slot is left as it was.
#[allow(non_snake_case)]
pub fn UserDiffraction<A: Fn(Operation, u64, u64) -> u64>(
    data_pointer: Option<&mut [u64; SLOT_COUNT]>,
    arithmetic: A,
) -> (status: i32)
    requires
        total(arithmetic),
    ensures
        match data_pointer {
            None => status == FAILURE_STATUS,
            Some(slots) => match spec_reflective_path(slots@[IS_REFLECTIVE as int]) {
                None => status == FAILURE_STATUS && final(slots)@ == slots@,
                Some(path) => status == SUCCESS_STATUS && exists|interaction: Interaction|
                    #![trigger interaction.written_to(slots@)]
                    diffracts(arithmetic, DiffractiveData::decode(slots@), path, interaction)
                        && final(slots)@ == interaction.written_to(slots@),
            },
        },
        data_pointer matches Some(slots) ==> forall|offset: int|
            0 <= offset < SLOT_COUNT && !is_output_slot(offset)
                ==> final(slots)@[offset] == slots@[offset],
        data_pointer matches Some(slots) ==> (status == SUCCESS_STATUS ==> {
            &&& final(slots)@[RETURN_FLAG as int] == PHASE_ONLY
            &&& final(slots)@[PHASE_DERIVATIVES as int] == POSITIVE_ZERO
        }),
{
    let data = match DiffractiveData::from_pointer(&data_pointer) {
        Ok(data) => data,
        Err(error) => return error.status(),
    };
    let interaction = match diffract(&data, &arithmetic) {
        Ok(interaction) => interaction,
        Err(error) => return error.status(),
    };
    if let Some(slots) = data_pointer {
        interaction.write_to(slots);
    }
    SUCCESS_STATUS
}

/// Called when the host loads the names of the surface's parameters: reads the
/// index of a parameter from the first character of the buffer and writes the
/// parameter's name over the start of the buffer, as a C string.
///
/// The rest of the buffer is left as it was. An index that names no parameter
/// gives the empty string. The call succeeds always, also where the host
/// lends no buffer and there is nothing to write to.
#[allow(non_snake_case)]
pub fn UserParamNames(param_data_pointer: Option<&mut [i8; NAME_CAPACITY]>) -> (status: i32)
    ensures
        status == SUCCESS_STATUS,
        param_data_pointer matches Some(param_data) ==> final(param_data)@ == overwritten(
            param_data@,
            c_string(spec_param_name(param_data@[0]).spec_bytes()),
        ),
{
    if let Some(param_data) = param_data_pointer {
        let name = param_name(param_data[0]);
        proof {
            lemma_param_name_characters(param_data[0]);
        }
        copy_from(param_data, &str_to_mut_i8_ptr(name));
    }
    SUCCESS_STATUS
}

} // verus!
