use vstd::prelude::*;

verus! {

/// The payload of the JSON prefix API.
pub struct ApiResponse {
    pub status: String,
    pub data: Data,
}

/// The two prefix lists of the JSON prefix API, one per address family.
pub struct Data {
    pub ipv4_prefixes: Vec<Prefix>,
    pub ipv6_prefixes: Vec<Prefix>,
}

/// One announced prefix as the JSON prefix API describes it.
pub struct Prefix {
    pub prefix: String,
    pub name: Option<String>,
    pub country_code: Option<String>,
    pub description: Option<String>,
    pub parent: Parent,
}

/// The allocation that a prefix of the JSON prefix API belongs to.
pub struct Parent {
    pub rir_name: Option<String>,
}

/// An IP address family.
#[derive(Clone, Copy, Debug, PartialEq, Eq, Structural)]
pub enum Family {
    V4,
    V6,
}

impl Family {
    /// The family that a version number (4 or 6) stands for.
    pub fn from_version(version: u8) -> (r: Option<Family>)
        ensures
            r == (if version == 4 {
                Some(Family::V4)
            } else if version == 6 {
                Some(Family::V6)
            } else {
                None
            }),
    {
        if version == 4 {
            Some(Family::V4)
        } else if version == 6 {
            Some(Family::V6)
        } else {
            None
        }
    }

    /// The version number of the family.
    pub fn version(self) -> (r: u8)
        ensures
            r == (if self == Family::V4 { 4u8 } else { 6u8 }),
    {
        match self {
            Family::V4 => 4,
            Family::V6 => 6,
        }
    }
}

} // verus!
