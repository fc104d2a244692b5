//! Taking a port from an allocator supplied by the caller.
use vstd::prelude::*;

use crate::error::FigError;

verus! {

/// Draws one port from `allocate`, which asks the operating system for a
/// free one. Port 0 is never handed on: it would mean "any port" to a
/// listener.
pub fn allocate_port<F: Fn() -> Result<u16, FigError>>(allocate: &F) -> (r: Result<u16, FigError>)
    requires
        allocate.requires(()),
    ensures
        r matches Ok(p) ==> p != 0 && allocate.ensures((), Ok::<u16, FigError>(p)),
        r matches Err(e) ==> allocate.ensures((), Err::<u16, FigError>(e)) || (
        allocate.ensures((), Ok::<u16, FigError>(0)) && e is IoError),
        (forall|p: u16| allocate.ensures((), Ok::<u16, FigError>(p)) ==> p != 0) && (forall|
            e: FigError,
        | !allocate.ensures((), Err::<u16, FigError>(e))) ==> r is Ok,
{
    match allocate() {
        Ok(p) => {
            if p == 0 {
                Err(FigError::IoError("the operating system assigned no port".to_owned()))
            } else {
                Ok(p)
            }
        },
        Err(e) => Err(e),
    }
}

} // verus!
