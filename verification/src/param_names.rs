//! The names of the surface's parameters, as the host shows them.

use vstd::prelude::*;
use vstd::string::StringSliceAdditionalSpecFns;
use crate::functions::c_string;

verus! {

/// The number of characters in the buffer that the host lends for a name.
pub const NAME_CAPACITY: usize = 31;

/// The index of the one parameter that the surface has: the grating's lines
/// per micrometer.
pub const LINES_PER_UM_INDEX: i8 = 1;

/// The name of the parameter at `index`: empty for an index that names no
/// parameter.
pub open spec fn spec_param_name(index: i8) -> &'static str {
    if index == LINES_PER_UM_INDEX {
        "lines/um"
    } else {
        ""
    }
}

/// Looks up the name of the parameter at `index`.
#[verifier::when_used_as_spec(spec_param_name)]
pub fn param_name(index: i8) -> (name: &'static str)
    ensures
        name == spec_param_name(index),
{
    if index == LINES_PER_UM_INDEX {
        "lines/um"
    } else {
        ""
    }
}

/// The buffer after `characters` are copied to its start: they replace as many
/// characters, and the rest of the buffer is as before.
pub open spec fn overwritten(buffer: Seq<i8>, characters: Seq<i8>) -> Seq<i8> {
    Seq::new(
        buffer.len(),
        |index: int|
            if index < characters.len() {
                characters[index]
            } else {
                buffer[index]
            },
    )
}

/// Copies `characters` to the start of the buffer.
pub fn copy_from(buffer: &mut [i8; NAME_CAPACITY], characters: &Vec<i8>)
    requires
        characters@.len() <= NAME_CAPACITY,
    ensures
        final(buffer)@ == overwritten(old(buffer)@, characters@),
{
    let mut index: usize = 0;
    while index < characters.len()
        invariant
            index <= characters@.len() <= NAME_CAPACITY,
            buffer@ == overwritten(old(buffer)@, characters@.take(index as int)),
        decreases characters@.len() - index,
    {
        buffer[index] = characters[index];
        index += 1;
        assert(buffer@ =~= overwritten(old(buffer)@, characters@.take(index as int)));
    }
    assert(characters@.take(index as int) =~= characters@);
}

/// The C string of each name, character by character: `lines/um` and its
/// terminator for the one parameter, the terminator alone for every other
/// index. No name holds a NUL, and each fits the host's buffer.
pub proof fn lemma_param_name_characters(index: i8)
    ensures
        !spec_param_name(index).spec_bytes().contains(0u8),
        c_string(spec_param_name(index).spec_bytes()).len() <= NAME_CAPACITY,
        index == LINES_PER_UM_INDEX ==> c_string(spec_param_name(index).spec_bytes()) == seq![
            108i8, 105i8, 110i8, 101i8, 115i8, 47i8, 117i8, 109i8, 0i8,
        ],
        index != LINES_PER_UM_INDEX ==> c_string(spec_param_name(index).spec_bytes()) == seq![0i8],
{
    reveal_strlit("lines/um");
    reveal_strlit("");
    let name = spec_param_name(index);
    assert(vstd::string::is_ascii(name));
    vstd::string::is_ascii_spec_bytes(name);
    let bytes = name.spec_bytes();
    if index == LINES_PER_UM_INDEX {
        assert(c_string(bytes) =~= seq![
            108i8, 105i8, 110i8, 101i8, 115i8, 47i8, 117i8, 109i8, 0i8,
        ]);
    } else {
        assert(c_string(bytes) =~= seq![0i8]);
    }
}

} // verus!
