//! The ordered enumeration of supported API versions, the packed
//! numeric version encoding, and versioned-name records.
#![allow(non_camel_case_types)]

use vstd::prelude::*;

use crate::cl::cl_version;

verus! {

/// A supported API version level. The negotiator only ever moves
/// downward through this order.
#[derive(Clone, Copy, Debug, PartialEq, Eq, Structural)]
pub enum CLVersion {
    Cl1_0,
    Cl1_1,
    Cl1_2,
    Cl3_0,
}

/// A versioned name record: a packed numeric version followed by a
/// name, stored null-padded to a fixed 64-byte field when encoded.
#[derive(Clone, Debug, PartialEq, Eq)]
pub struct cl_name_version {
    pub version: cl_version,
    pub name: Vec<u8>,
}

/// The packed numeric form of a version: major in the top 10 bits,
/// minor in the next 10, patch in the low 12.
pub open spec fn spec_mk_cl_version(major: u32, minor: u32, patch: u32) -> u32 {
    (major << 22) | (minor << 12) | patch
}

pub fn mk_cl_version(major: u32, minor: u32, patch: u32) -> (r: cl_version)
    ensures
        r == spec_mk_cl_version(major, minor, patch),
{
    (major << 22u32) | (minor << 12u32) | patch
}

/// The 64-byte name field of an encoded record: the name truncated or
/// null-padded to exactly 64 bytes.
pub open spec fn spec_name_field(name: Seq<u8>) -> Seq<u8> {
    if name.len() >= 64 {
        name.take(64)
    } else {
        name + Seq::new((64 - name.len()) as nat, |i: int| 0u8)
    }
}

/// The name truncated or null-padded to the fixed 64-byte field width.
pub fn name_field_vec(name: &Vec<u8>) -> (r: Vec<u8>)
    ensures
        r@ == spec_name_field(name@),
{
    let mut field: Vec<u8> = Vec::new();
    let mut i: usize = 0;
    while i < 64
        invariant
            i <= 64,
            field@ =~= spec_name_field(name@).take(i as int),
        decreases 64 - i,
    {
        if i < name.len() {
            field.push(name[i]);
        } else {
            field.push(0);
        }
        i = i + 1;
    }
    proof {
        assert(field@ =~= spec_name_field(name@));
    }
    field
}

/// Builds a versioned name record from a packed version and a name.
pub fn mk_cl_version_ext(major: u32, minor: u32, patch: u32, name: &str) -> (r: cl_name_version)
    ensures
        r.version == spec_mk_cl_version(major, minor, patch),
        r.name@ == spec_name_field(vstd::utf8::encode_utf8(name@)),
{
    let bytes = name.as_bytes_vec();
    let field = name_field_vec(&bytes);
    cl_name_version { version: mk_cl_version(major, minor, patch), name: field }
}

impl CLVersion {
    /// The position of this level in the order of versions.
    pub open spec fn spec_rank(self) -> int {
        match self {
            CLVersion::Cl1_0 => 0,
            CLVersion::Cl1_1 => 1,
            CLVersion::Cl1_2 => 2,
            CLVersion::Cl3_0 => 3,
        }
    }

    /// Whether this level is at or above another in the version order.
    pub fn at_least(self, other: CLVersion) -> (r: bool)
        ensures
            r == (self.spec_rank() >= other.spec_rank()),
    {
        let a: u8 = match self {
            CLVersion::Cl1_0 => 0,
            CLVersion::Cl1_1 => 1,
            CLVersion::Cl1_2 => 2,
            CLVersion::Cl3_0 => 3,
        };
        let b: u8 = match other {
            CLVersion::Cl1_0 => 0,
            CLVersion::Cl1_1 => 1,
            CLVersion::Cl1_2 => 2,
            CLVersion::Cl3_0 => 3,
        };
        a >= b
    }

    pub open spec fn spec_code(self) -> u32 {
        match self {
            CLVersion::Cl1_0 => 0x400000,
            CLVersion::Cl1_1 => 0x401000,
            CLVersion::Cl1_2 => 0x402000,
            CLVersion::Cl3_0 => 0xC00000,
        }
    }

    /// The packed numeric version of this level.
    pub fn code(self) -> (r: cl_version)
        ensures
            r == self.spec_code(),
    {
        match self {
            CLVersion::Cl1_0 => 0x400000,
            CLVersion::Cl1_1 => 0x401000,
            CLVersion::Cl1_2 => 0x402000,
            CLVersion::Cl3_0 => 0xC00000,
        }
    }

    pub open spec fn spec_from_code(v: u32) -> Option<CLVersion> {
        if v == 0x400000 {
            Some(CLVersion::Cl1_0)
        } else if v == 0x401000 {
            Some(CLVersion::Cl1_1)
        } else if v == 0x402000 {
            Some(CLVersion::Cl1_2)
        } else if v == 0xC00000 {
            Some(CLVersion::Cl3_0)
        } else {
            None
        }
    }

    /// The level whose packed numeric version is the given value, if
    /// there is one.
    pub fn from_code(v: cl_version) -> (r: Option<CLVersion>)
        ensures
            r == Self::spec_from_code(v),
    {
        if v == 0x400000 {
            Some(CLVersion::Cl1_0)
        } else if v == 0x401000 {
            Some(CLVersion::Cl1_1)
        } else if v == 0x402000 {
            Some(CLVersion::Cl1_2)
        } else if v == 0xC00000 {
            Some(CLVersion::Cl3_0)
        } else {
            None
        }
    }

    pub open spec fn spec_version_chars(self) -> Seq<char> {
        match self {
            CLVersion::Cl1_0 => "1.0"@,
            CLVersion::Cl1_1 => "1.1"@,
            CLVersion::Cl1_2 => "1.2"@,
            CLVersion::Cl3_0 => "3.0"@,
        }
    }

    /// The "<major>.<minor>" form of this level.
    pub fn version_string(self) -> (r: String)
        ensures
            r@ == self.spec_version_chars(),
    {
        match self {
            CLVersion::Cl1_0 => String::from_str("1.0"),
            CLVersion::Cl1_1 => String::from_str("1.1"),
            CLVersion::Cl1_2 => String::from_str("1.2"),
            CLVersion::Cl3_0 => String::from_str("3.0"),
        }
    }
}

} // verus!
