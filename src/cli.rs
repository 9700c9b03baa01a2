//! The command line of the transfer command.
use vstd::prelude::*;

verus! {

/// The recipient and amount texts, when the command line (program name first)
/// holds both; `None` means that usage is to be shown and the command ends
/// successfully. Arguments after the second are not read.
pub fn transfer_args(args: &Vec<String>) -> (r: Option<(String, String)>)
    ensures
        r is Some <==> args@.len() >= 3,
        r matches Some((to, amount)) ==> to@ == args@[1]@ && amount@ == args@[2]@,
{
    if args.len() < 3 {
        None
    } else {
        Some((args[1].clone(), args[2].clone()))
    }
}

} // verus!
