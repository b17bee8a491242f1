//! The program's identity: a fixed, globally unique identifier embedded at
//! build time, by which the host runtime routes invocations to this program.

use vstd::prelude::*;

verus! {

/// Length in bytes of the program identifier.
pub const PROGRAM_ID_LEN: usize = 32;

/// The program identifier as a mathematical sequence of bytes. The value is
/// a build-time constant; changing it changes the program's address and
/// breaks every existing caller.
pub open spec fn program_id_spec() -> Seq<u8> {
    seq![
        23u8, 155u8, 152u8, 191u8, 172u8, 132u8, 21u8, 156u8,
        16u8, 132u8, 218u8, 205u8, 33u8, 73u8, 105u8, 71u8,
        66u8, 148u8, 18u8, 71u8, 202u8, 37u8, 84u8, 211u8,
        225u8, 203u8, 197u8, 129u8, 46u8, 242u8, 32u8, 223u8,
    ]
}

/// Returns the program's declared identifier. Every call yields the same
/// fixed-length byte string.
pub fn program_id() -> (id: Vec<u8>)
    ensures
        id@ == program_id_spec(),
        id@.len() == PROGRAM_ID_LEN,
{
    let id: Vec<u8> = vec![
        23u8, 155u8, 152u8, 191u8, 172u8, 132u8, 21u8, 156u8,
        16u8, 132u8, 218u8, 205u8, 33u8, 73u8, 105u8, 71u8,
        66u8, 148u8, 18u8, 71u8, 202u8, 37u8, 84u8, 211u8,
        225u8, 203u8, 197u8, 129u8, 46u8, 242u8, 32u8, 223u8,
    ];
    proof {
        assert(id@ =~= program_id_spec());
    }
    id
}

/// Identity stability: reading the program identifier twice yields
/// byte-identical results, since both reads denote the same constant.
pub proof fn lemma_program_id_stable(first: Seq<u8>, second: Seq<u8>)
    requires
        first == program_id_spec(),
        second == program_id_spec(),
    ensures
        first == second,
        first.len() == PROGRAM_ID_LEN,
{
}

} // verus!
