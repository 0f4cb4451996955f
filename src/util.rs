use vstd::prelude::*;
use crate::protocol::A_AUTH;
use crate::protocol::A_CLSE;
use crate::protocol::A_CNXN;
use crate::protocol::A_OKAY;
use crate::protocol::A_OPEN;
use crate::protocol::A_SYNC;
use crate::protocol::A_WRTE;

verus! {

/// The name of a command, for diagnostics.
pub open spec fn cmd_label(t: u32) -> &'static str {
    if t == A_SYNC {
        "A_SYNC"
    } else if t == A_CLSE {
        "A_CLSE"
    } else if t == A_CNXN {
        "A_CNXN"
    } else if t == A_OKAY {
        "A_OKAY"
    } else if t == A_OPEN {
        "A_OPEN"
    } else if t == A_WRTE {
        "A_WRTE"
    } else if t == A_AUTH {
        "A_AUTH"
    } else {
        "unknown cmd"
    }
}

/// The name of command `t`, or `unknown cmd`.
pub fn cmd_type_is(t: u32) -> (r: &'static str)
    ensures
        r@ == cmd_label(t)@,
{
    if t == A_SYNC {
        "A_SYNC"
    } else if t == A_CLSE {
        "A_CLSE"
    } else if t == A_CNXN {
        "A_CNXN"
    } else if t == A_OKAY {
        "A_OKAY"
    } else if t == A_OPEN {
        "A_OPEN"
    } else if t == A_WRTE {
        "A_WRTE"
    } else if t == A_AUTH {
        "A_AUTH"
    } else {
        "unknown cmd"
    }
}

} // verus!
