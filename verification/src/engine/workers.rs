//! Sandbox boxes: each has a numeric id and a working directory under the
//! `isolate` root.
use vstd::prelude::*;
use crate::text::{decimal, decimal_string, owned};

verus! {

/// The working directory of `isolate` box `id`.
pub open spec fn box_path(id: nat) -> Seq<char> {
    "/var/lib/isolate/"@ + decimal(id) + "/box"@
}

/// The working directory of `isolate` box `id`.
pub fn box_path_of(id: usize) -> (r: String)
    ensures
        r@ == box_path(id as nat),
{
    let mut p = owned("/var/lib/isolate/");
    p.append(decimal_string(id as u64).as_str());
    p.append("/box");
    p
}

/// A sandbox box that work runs in.
pub trait Sandbox {
    /// The box's `isolate` id.
    fn id(&self) -> usize;

    /// The box's working directory.
    fn path(&self) -> String;
}

/// A box whose files are removed after every use.
#[derive(Debug)]
pub struct EphemeralBox {
    pub id: usize,
    pub path: String,
}

impl EphemeralBox {
    pub fn new(id: usize) -> (r: Self)
        ensures
            r.id == id,
            r.path@ == box_path(id as nat),
    {
        EphemeralBox { id, path: box_path_of(id) }
    }
}

impl Sandbox for EphemeralBox {
    fn id(&self) -> (r: usize)
        ensures
            r == self.id,
    {
        self.id
    }

    fn path(&self) -> (r: String)
        ensures
            r@ == self.path@,
    {
        self.path.clone()
    }
}

/// A box whose files are kept between uses.
#[derive(Debug)]
pub struct PersistentBox {
    pub id: usize,
    pub path: String,
}

impl PersistentBox {
    pub fn new(id: usize) -> (r: Self)
        ensures
            r.id == id,
            r.path@ == box_path(id as nat),
    {
        PersistentBox { id, path: box_path_of(id) }
    }
}

impl Sandbox for PersistentBox {
    fn id(&self) -> (r: usize)
        ensures
            r == self.id,
    {
        self.id
    }

    fn path(&self) -> (r: String)
        ensures
            r@ == self.path@,
    {
        self.path.clone()
    }
}

} // verus!
