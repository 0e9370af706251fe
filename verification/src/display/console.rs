//! The session display writes must come from.

use vstd::prelude::*;

verus! {

/// Stands for a console nobody is at.
pub const NO_CONSOLE: u32 = 0xFFFF_FFFF;

/// This process's session and the console's, where they differ: display
/// writes fail then. No console, or a session that is not known, is no
/// difference.
#[verifier::allow_in_spec]
pub fn console_session_mismatch(own: Option<u32>, console: u32) -> Option<(u32, u32)>
    returns
        (match own {
            Some(own) => if console != NO_CONSOLE && own != console {
                Some((own, console))
            } else {
                None
            },
            None => None,
        }),
{
    match own {
        Some(own) => if console != NO_CONSOLE && own != console {
            Some((own, console))
        } else {
            None
        },
        None => None,
    }
}

/// Two sessions differ where both are known and they are not the same; the
/// process's own comes first.
pub proof fn law_a_mismatch_names_both_sessions(own: u32, console: u32)
    ensures
        console_session_mismatch(None, console) is None,
        console_session_mismatch(Some(own), 0xffff_ffff) is None,
        own == console ==> console_session_mismatch(Some(own), console) is None,
        own != console && console != 0xffff_ffff ==> console_session_mismatch(Some(own), console)
            == Some((own, console)),
{
}

} // verus!
