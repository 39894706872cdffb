//! The parameter encoder: every typed value that an info query can
//! report is turned into its canonical flat byte form. Integers use
//! the byte order of the supported targets (least significant byte
//! first), booleans widen to the canonical four-byte sentinels,
//! strings carry exactly one null terminator, records are padded to a
//! fixed width, and sequences concatenate their elements' encodings.
//! The encoder never fails: every value has some encoding.
//!
//! Beside it stand the small argument checks shared by the API entry
//! points and the one reply routine of the two-phase query protocol.

use vstd::prelude::*;

use crate::cl::CL_DEVICE_TYPE_ACCELERATOR;
use crate::cl::CL_DEVICE_TYPE_ALL;
use crate::cl::CL_DEVICE_TYPE_CPU;
use crate::cl::CL_DEVICE_TYPE_CUSTOM;
use crate::cl::CL_DEVICE_TYPE_DEFAULT;
use crate::cl::CL_DEVICE_TYPE_GPU;
use crate::cl::CL_FALSE;
use crate::cl::CL_INVALID_DEVICE_TYPE;
use crate::cl::CL_INVALID_VALUE;
use crate::cl::CL_TRUE;
use crate::cl::cl_device_type;
use crate::cl::cl_int;
use crate::cl::cl_context_properties;
use crate::version::cl_name_version;
use crate::version::name_field_vec;
use crate::version::spec_name_field;

verus! {

/// The four bytes of a 32-bit value, least significant first.
pub open spec fn u32_le_bytes(v: u32) -> Seq<u8> {
    seq![v as u8, (v >> 8) as u8, (v >> 16) as u8, (v >> 24) as u8]
}

/// The eight bytes of a 64-bit value, least significant first.
pub open spec fn u64_le_bytes(v: u64) -> Seq<u8> {
    seq![
        v as u8,
        (v >> 8) as u8,
        (v >> 16) as u8,
        (v >> 24) as u8,
        (v >> 32) as u8,
        (v >> 40) as u8,
        (v >> 48) as u8,
        (v >> 56) as u8,
    ]
}

pub fn u32_le_vec(v: u32) -> (r: Vec<u8>)
    ensures
        r@ == u32_le_bytes(v),
{
    let mut r: Vec<u8> = Vec::new();
    r.push(#[verifier::truncate] (v as u8));
    r.push(#[verifier::truncate] ((v >> 8u32) as u8));
    r.push(#[verifier::truncate] ((v >> 16u32) as u8));
    r.push(#[verifier::truncate] ((v >> 24u32) as u8));
    proof {
        assert(r@ =~= u32_le_bytes(v));
    }
    r
}

pub fn u64_le_vec(v: u64) -> (r: Vec<u8>)
    ensures
        r@ == u64_le_bytes(v),
{
    let mut r: Vec<u8> = Vec::new();
    r.push(#[verifier::truncate] (v as u8));
    r.push(#[verifier::truncate] ((v >> 8u64) as u8));
    r.push(#[verifier::truncate] ((v >> 16u64) as u8));
    r.push(#[verifier::truncate] ((v >> 24u64) as u8));
    r.push(#[verifier::truncate] ((v >> 32u64) as u8));
    r.push(#[verifier::truncate] ((v >> 40u64) as u8));
    r.push(#[verifier::truncate] ((v >> 48u64) as u8));
    r.push(#[verifier::truncate] ((v >> 56u64) as u8));
    proof {
        assert(r@ =~= u64_le_bytes(v));
    }
    r
}

/// A typed value with a canonical flat byte encoding.
pub trait CLProp {
    /// The canonical encoding of this value.
    spec fn cl_vec_spec(&self) -> Seq<u8>;

    fn cl_vec(&self) -> (r: Vec<u8>)
        ensures
            r@ == self.cl_vec_spec(),
    ;
}

impl CLProp for bool {
    open spec fn cl_vec_spec(&self) -> Seq<u8> {
        u32_le_bytes(
            if *self {
                CL_TRUE
            } else {
                CL_FALSE
            },
        )
    }

    fn cl_vec(&self) -> (r: Vec<u8>) {
        u32_le_vec(
            if *self {
                CL_TRUE
            } else {
                CL_FALSE
            },
        )
    }
}

impl CLProp for i8 {
    open spec fn cl_vec_spec(&self) -> Seq<u8> {
        seq![*self as u8]
    }

    fn cl_vec(&self) -> (r: Vec<u8>) {
        let mut r: Vec<u8> = Vec::new();
        r.push(#[verifier::truncate] (*self as u8));
        proof {
            assert(r@ =~= seq![*self as u8]);
        }
        r
    }
}

impl CLProp for u32 {
    open spec fn cl_vec_spec(&self) -> Seq<u8> {
        u32_le_bytes(*self)
    }

    fn cl_vec(&self) -> (r: Vec<u8>) {
        u32_le_vec(*self)
    }
}

impl CLProp for u64 {
    open spec fn cl_vec_spec(&self) -> Seq<u8> {
        u64_le_bytes(*self)
    }

    fn cl_vec(&self) -> (r: Vec<u8>) {
        u64_le_vec(*self)
    }
}

impl CLProp for isize {
    open spec fn cl_vec_spec(&self) -> Seq<u8> {
        u64_le_bytes(*self as u64)
    }

    fn cl_vec(&self) -> (r: Vec<u8>) {
        u64_le_vec(#[verifier::truncate] (*self as u64))
    }
}

impl CLProp for usize {
    open spec fn cl_vec_spec(&self) -> Seq<u8> {
        u64_le_bytes(*self as u64)
    }

    fn cl_vec(&self) -> (r: Vec<u8>) {
        u64_le_vec(*self as u64)
    }
}

/// The canonical encoding of a string: its bytes and one null
/// terminator.
pub open spec fn spec_string_prop(s: Seq<char>) -> Seq<u8> {
    vstd::utf8::encode_utf8(s).push(0u8)
}

/// The canonical encoding of a borrowed string: a string that cannot
/// be represented losslessly (one with an interior null) degrades to
/// a single null byte instead of failing.
pub open spec fn spec_str_prop(s: Seq<char>) -> Seq<u8> {
    let b = vstd::utf8::encode_utf8(s);
    if b.contains(0u8) {
        seq![0u8]
    } else {
        b.push(0u8)
    }
}

impl CLProp for String {
    open spec fn cl_vec_spec(&self) -> Seq<u8> {
        spec_string_prop(self@)
    }

    fn cl_vec(&self) -> (r: Vec<u8>) {
        let mut r = self.as_str().as_bytes_vec();
        r.push(0);
        r
    }
}

impl CLProp for &str {
    open spec fn cl_vec_spec(&self) -> Seq<u8> {
        spec_str_prop(self@)
    }

    fn cl_vec(&self) -> (r: Vec<u8>) {
        let mut b = self.as_bytes_vec();
        let mut has_nul = false;
        let mut i: usize = 0;
        while i < b.len()
            invariant
                i <= b.len(),
                b@ == vstd::utf8::encode_utf8(self@),
                has_nul == (exists|j: int| 0 <= j < i && b@[j] == 0u8),
            decreases b.len() - i,
        {
            if b[i] == 0 {
                has_nul = true;
            }
            i = i + 1;
        }
        if has_nul {
            let mut r: Vec<u8> = Vec::new();
            r.push(0);
            proof {
                assert(r@ =~= seq![0u8]);
            }
            r
        } else {
            proof {
                assert(!b@.contains(0u8));
            }
            b.push(0);
            b
        }
    }
}

impl CLProp for cl_name_version {
    open spec fn cl_vec_spec(&self) -> Seq<u8> {
        u32_le_bytes(self.version) + spec_name_field(self.name@)
    }

    fn cl_vec(&self) -> (r: Vec<u8>) {
        let mut r = u32_le_vec(self.version);
        let mut field = name_field_vec(&self.name);
        r.append(&mut field);
        r
    }
}

/// The concatenation of the encodings of a sequence of values.
pub open spec fn concat_cl_vec<T: CLProp>(s: Seq<T>) -> Seq<u8>
    decreases s.len(),
{
    if s.len() == 0 {
        Seq::empty()
    } else {
        concat_cl_vec(s.drop_last()) + s.last().cl_vec_spec()
    }
}

impl<T: CLProp> CLProp for Vec<T> {
    open spec fn cl_vec_spec(&self) -> Seq<u8> {
        concat_cl_vec(self@)
    }

    fn cl_vec(&self) -> (r: Vec<u8>) {
        let mut res: Vec<u8> = Vec::new();
        let mut i: usize = 0;
        while i < self.len()
            invariant
                i <= self.len(),
                res@ == concat_cl_vec(self@.take(i as int)),
            decreases self.len() - i,
        {
            let mut e = self[i].cl_vec();
            res.append(&mut e);
            proof {
                assert(self@.take(i + 1).drop_last() =~= self@.take(i as int));
                assert(self@.take(i + 1).last() == self@[i as int]);
            }
            i = i + 1;
        }
        proof {
            assert(self@.take(self@.len() as int) =~= self@);
        }
        res
    }
}

/// A concatenated encoding is at least as long as its last element's.
pub proof fn lemma_concat_len_ge_last<T: CLProp>(s: Seq<T>)
    requires
        s.len() > 0,
    ensures
        concat_cl_vec(s).len() >= s.last().cl_vec_spec().len(),
{
}

/// The canonical encoding of a typed value.
pub fn cl_prop<T: CLProp>(v: T) -> (r: Vec<u8>)
    ensures
        r@ == v.cl_vec_spec(),
{
    v.cl_vec()
}

/// A string as bytes with exactly one null terminator; a string with
/// an interior null has no such form.
pub fn str_as_nul_vec(s: &str) -> (r: Result<Vec<u8>, cl_int>)
    ensures
        ({
            let b = vstd::utf8::encode_utf8(s@);
            if b.contains(0u8) {
                r == Err::<Vec<u8>, cl_int>(CL_INVALID_VALUE)
            } else {
                r matches Ok(v) && v@ == b.push(0u8)
            }
        }),
{
    let b = s.as_bytes_vec();
    let mut i: usize = 0;
    while i < b.len()
        invariant
            i <= b.len(),
            b@ == vstd::utf8::encode_utf8(s@),
            forall|j: int| 0 <= j < i ==> b@[j] != 0u8,
        decreases b.len() - i,
    {
        if b[i] == 0 {
            proof {
                assert(b@[i as int] == 0u8);
                assert(b@.contains(0u8));
            }
            return Err(CL_INVALID_VALUE);
        }
        i = i + 1;
    }
    proof {
        assert(!b@.contains(0u8));
    }
    let mut r = b;
    r.push(0);
    Ok(r)
}

pub open spec fn spec_check_cl_device_type(val: cl_device_type) -> Result<(), cl_int> {
    if val > 0xFFFFFFFF {
        Err(CL_INVALID_DEVICE_TYPE)
    } else {
        let v = val as u32;
        if v == CL_DEVICE_TYPE_ACCELERATOR || v == CL_DEVICE_TYPE_ALL || v == CL_DEVICE_TYPE_CPU
            || v == CL_DEVICE_TYPE_CUSTOM || v == CL_DEVICE_TYPE_DEFAULT || v
            == CL_DEVICE_TYPE_GPU {
            Ok(())
        } else {
            Err(CL_INVALID_DEVICE_TYPE)
        }
    }
}

/// A device-type argument is valid when it is exactly one of the
/// defined type constants (including the all-devices mask).
pub fn check_cl_device_type(val: cl_device_type) -> (r: Result<(), cl_int>)
    ensures
        r == spec_check_cl_device_type(val),
{
    if val > 0xFFFFFFFF {
        return Err(CL_INVALID_DEVICE_TYPE);
    }
    let v = #[verifier::truncate] (val as u32);
    if v == CL_DEVICE_TYPE_ACCELERATOR || v == CL_DEVICE_TYPE_ALL || v == CL_DEVICE_TYPE_CPU || v
        == CL_DEVICE_TYPE_CUSTOM || v == CL_DEVICE_TYPE_DEFAULT || v == CL_DEVICE_TYPE_GPU {
        Ok(())
    } else {
        Err(CL_INVALID_DEVICE_TYPE)
    }
}

pub open spec fn spec_check_cl_bool(val: cl_context_properties) -> Option<()> {
    if 0 <= val <= 0xFFFFFFFF && (val == CL_TRUE || val == CL_FALSE) {
        Some(())
    } else {
        None
    }
}

/// A property value is a canonical boolean when it decodes to the
/// true or false sentinel.
pub fn check_cl_bool(val: cl_context_properties) -> (r: Option<()>)
    ensures
        r == spec_check_cl_bool(val),
{
    if val == 0 || val == 1 {
        Some(())
    } else {
        None
    }
}

/// The reply of the two-phase query protocol, shared by every info
/// operation: `d` is the encoded value; `param_value` and
/// `param_value_size_ret` say whether the caller supplied an output
/// buffer of declared capacity `param_value_size`, and a size
/// receiver. A too-small buffer fails with the invalid-value status,
/// unless no buffer was supplied at all; the size receiver and the
/// buffer are each written exactly when supplied.
pub fn cl_info_reply(d: Vec<u8>, param_value_size: usize, param_value: bool, param_value_size_ret: bool) -> (r:
    Result<(Option<Vec<u8>>, Option<usize>), cl_int>)
    ensures
        r == spec_info_reply(d, param_value_size, param_value, param_value_size_ret),
{
    let size: usize = d.len();
    if param_value_size < size && param_value {
        return Err(CL_INVALID_VALUE);
    }
    let value = if param_value {
        Some(d)
    } else {
        None
    };
    let size_ret = if param_value_size_ret {
        Some(size)
    } else {
        None
    };
    Ok((value, size_ret))
}

pub open spec fn spec_info_reply(d: Vec<u8>, param_value_size: usize, param_value: bool, param_value_size_ret: bool) -> Result<
    (Option<Vec<u8>>, Option<usize>),
    cl_int,
> {
    if param_value && param_value_size < d@.len() {
        Err(CL_INVALID_VALUE)
    } else {
        Ok(
            (
                if param_value {
                    Some(d)
                } else {
                    None
                },
                if param_value_size_ret {
                    Some(d@.len() as usize)
                } else {
                    None
                },
            ),
        )
    }
}

} // verus!
