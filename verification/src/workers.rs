//! Sandbox boxes numbered by a small signed id.
use vstd::prelude::*;
use crate::text::{owned, signed_decimal, signed_decimal_string};

verus! {

/// The working directory of box `id`.
pub open spec fn isolate_box_path(id: int) -> Seq<char> {
    "/var/lib/isolate/"@ + signed_decimal(id) + "/box"@
}

/// A sandbox box.
pub struct IsolateBox {
    pub id: i8,
    pub path: String,
}

impl IsolateBox {
    pub fn new(id: i8) -> (r: IsolateBox)
        ensures
            r.id == id,
            r.path@ == isolate_box_path(id as int),
    {
        let mut path = owned("/var/lib/isolate/");
        path.append(signed_decimal_string(id as i64).as_str());
        path.append("/box");
        IsolateBox { id, path }
    }
}

} // verus!
