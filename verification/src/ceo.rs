//! Configuration shared with the optical-model components.
//!
//! The optical, sensor and dome-seeing models themselves are opaque
//! simulation components that live outside this crate and merely
//! implement the [`crate::Dos`] protocol; only the plain-data
//! configuration they are built from is kept here.

use vstd::prelude::*;

verus! {

/// Coordinates of the computational-fluid-dynamics database the
/// dome-seeing model loads its records from.
#[derive(Debug)]
pub struct CfdDataBase {
    region: String,
    bucket: String,
    path: String,
}

impl CfdDataBase {
    /// The storage region.
    pub closed spec fn spec_region(&self) -> Seq<char> {
        self.region@
    }

    /// The storage bucket.
    pub closed spec fn spec_bucket(&self) -> Seq<char> {
        self.bucket@
    }

    /// The path inside the bucket.
    pub closed spec fn spec_path(&self) -> Seq<char> {
        self.path@
    }

    /// Builds a database description from its three coordinates.
    pub fn new(region: String, bucket: String, path: String) -> (r: CfdDataBase)
        ensures
            r.spec_region() == region@,
            r.spec_bucket() == bucket@,
            r.spec_path() == path@,
    {
        CfdDataBase { region, bucket, path }
    }

    /// The storage region, as text.
    pub fn region(&self) -> (r: &str)
        ensures
            r@ == self.spec_region(),
    {
        self.region.as_str()
    }

    /// The storage bucket, as text.
    pub fn bucket(&self) -> (r: &str)
        ensures
            r@ == self.spec_bucket(),
    {
        self.bucket.as_str()
    }

    /// The path inside the bucket, as text.
    pub fn path(&self) -> (r: &str)
        ensures
            r@ == self.spec_path(),
    {
        self.path.as_str()
    }
}

impl Default for CfdDataBase {
    /// The baseline database the models were calibrated against.
    fn default() -> (r: CfdDataBase)
        ensures
            r.spec_region() == "us-west-2"@,
            r.spec_bucket() == "gmto.modeling"@,
            r.spec_path() == "Baseline2020"@,
    {
        CfdDataBase {
            region: "us-west-2".to_owned(),
            bucket: "gmto.modeling".to_owned(),
            path: "Baseline2020".to_owned(),
        }
    }
}

} // verus!
