//! Contexts: reference-counted objects created from one or more
//! devices and a validated property list. Creation deduplicates the
//! device list and stores the raw property echo; retain and release
//! move a single counter, and the release that sees the count at one
//! is the unique owner of the deallocation: it frees the slot exactly
//! once.
#![allow(non_camel_case_types)]

use vstd::prelude::*;

use crate::cl::CL_CONTEXT_DEVICES;
use crate::cl::CL_CONTEXT_INTEROP_USER_SYNC;
use crate::cl::CL_CONTEXT_NUM_DEVICES;
use crate::cl::CL_CONTEXT_PLATFORM;
use crate::cl::CL_CONTEXT_PROPERTIES;
use crate::cl::CL_CONTEXT_REFERENCE_COUNT;
use crate::cl::CL_DEVICE_NOT_FOUND;
use crate::cl::CL_INVALID_CONTEXT;
use crate::cl::CL_INVALID_DEVICE;
use crate::cl::CL_INVALID_PROPERTY;
use crate::cl::CL_INVALID_VALUE;
use crate::cl::cl_context;
use crate::cl::cl_context_info;
use crate::cl::cl_context_properties;
use crate::cl::cl_device_id;
use crate::cl::cl_device_type;
use crate::cl::cl_int;
use crate::cl::cl_uint;
use crate::icd::Icd;
use crate::icd::check_device;
use crate::icd::get_devs_for_type;
use crate::icd::spec_check_device;
use crate::icd::spec_device_valid;
use crate::icd::spec_matching_devs;
use crate::platform::check_platform;
use crate::platform::spec_check_platform;
use crate::properties::Properties;
use crate::properties::spec_parse_props;
use crate::properties::spec_raw_echo;
use crate::util::CLProp;
use crate::util::check_cl_bool;
use crate::util::check_cl_device_type;
use crate::util::cl_info_reply;
use crate::util::concat_cl_vec;
use crate::util::spec_check_cl_bool;
use crate::util::spec_check_cl_device_type;
use crate::util::u32_le_bytes;
use crate::util::u32_le_vec;
use vstd::pervasive::VecAdditionalExecFns;

verus! {

/// A context object: its constituent device handles, the raw echo of
/// the property array it was created with, and its reference count.
pub struct _cl_context {
    pub devs: Vec<cl_device_id>,
    pub properties: Vec<cl_context_properties>,
    pub refs: cl_uint,
}

impl _cl_context {
    /// A fresh context starts with one reference, owned by the
    /// creator.
    pub fn new(devs: Vec<cl_device_id>, properties: Vec<cl_context_properties>) -> (r: Self)
        ensures
            r.devs == devs,
            r.properties == properties,
            r.refs == 1,
    {
        Self { devs, properties, refs: 1 }
    }
}

pub open spec fn spec_check_context(context: cl_context) -> Result<(), cl_int> {
    if context == 0 {
        Err(CL_INVALID_CONTEXT)
    } else {
        Ok(())
    }
}

/// A null context handle is invalid; anything further about an
/// unknown non-null handle is outside the external contract.
pub fn check_context(context: cl_context) -> (r: Result<(), cl_int>)
    ensures
        r == spec_check_context(context),
{
    if context == 0 {
        return Err(CL_INVALID_CONTEXT);
    }
    Ok(())
}

/// A context handle that names a live slot of the registry.
pub open spec fn spec_context_live(icd: Icd, context: cl_context) -> bool {
    1 <= context <= icd.contexts@.len() && icd.contexts@[context - 1] is Some
}

/// The device list with duplicates removed outright: every handle
/// keeps its first occurrence only, and the order of those first
/// occurrences is preserved.
pub open spec fn spec_dedup_devices(s: Seq<cl_device_id>) -> Seq<cl_device_id>
    decreases s.len(),
{
    if s.len() == 0 {
        Seq::empty()
    } else {
        let rest = spec_dedup_devices(s.drop_last());
        if s.drop_last().contains(s.last()) {
            rest
        } else {
            rest.push(s.last())
        }
    }
}

/// The deduplicated list holds exactly the handles of the input.
proof fn lemma_dedup_contains(s: Seq<cl_device_id>, x: cl_device_id)
    ensures
        spec_dedup_devices(s).contains(x) <==> s.contains(x),
    decreases s.len(),
{
    if s.len() > 0 {
        let rest = spec_dedup_devices(s.drop_last());
        lemma_dedup_contains(s.drop_last(), x);
        if s.contains(x) && !s.drop_last().contains(x) {
            let i = choose|i: int| 0 <= i < s.len() && s[i] == x;
            if i < s.len() - 1 {
                assert(s.drop_last()[i] == x);
                assert(s.drop_last().contains(x));
            }
            assert(s.last() == x);
        }
        if s.drop_last().contains(x) {
            assert(s.contains(x));
        }
        if !s.drop_last().contains(s.last()) {
            if x == s.last() {
                assert(rest.push(s.last())[rest.len() as int] == x);
                assert(rest.push(s.last()).contains(x));
            }
            if rest.contains(x) {
                let j = choose|j: int| 0 <= j < rest.len() && rest[j] == x;
                assert(rest.push(s.last())[j] == x);
                assert(rest.push(s.last()).contains(x));
            }
            if rest.push(s.last()).contains(x) {
                let j = choose|j: int| 0 <= j < rest.len() + 1 && rest.push(s.last())[j] == x;
                if j < rest.len() {
                    assert(rest[j] == x);
                } else {
                    assert(s.last() == x);
                }
            }
        }
    }
}

/// Removes every later occurrence of an earlier handle, keeping the
/// first occurrences in order.
fn dedup_devices(devs: &Vec<cl_device_id>) -> (r: Vec<cl_device_id>)
    ensures
        r@ == spec_dedup_devices(devs@),
{
    let mut out: Vec<cl_device_id> = Vec::new();
    let mut i: usize = 0;
    while i < devs.len()
        invariant
            i <= devs@.len(),
            out@ == spec_dedup_devices(devs@.take(i as int)),
        decreases devs@.len() - i,
    {
        let x = devs[i];
        let mut seen = false;
        let mut j: usize = 0;
        while j < out.len()
            invariant
                j <= out@.len(),
                seen == (exists|k: int| 0 <= k < j && out@[k] == x),
            decreases out@.len() - j,
        {
            if out[j] == x {
                seen = true;
            }
            j = j + 1;
        }
        proof {
            assert(seen == out@.contains(x));
            lemma_dedup_contains(devs@.take(i as int), x);
            let pre = devs@.take(i as int + 1);
            assert(pre.drop_last() =~= devs@.take(i as int));
            assert(pre.last() == devs@[i as int]);
        }
        if !seen {
            out.push(x);
        }
        i = i + 1;
    }
    proof {
        assert(devs@.take(devs@.len() as int) =~= devs@);
    }
    out
}

/// What validating the parsed property pairs yields, in order: a
/// platform key must name a valid platform, the interop-sync key must
/// carry a canonical boolean, and any other key is unsupported.
pub open spec fn spec_check_props(
    props: Seq<(cl_context_properties, cl_context_properties)>,
) -> Result<(), cl_int>
    decreases props.len(),
{
    if props.len() == 0 {
        Ok(())
    } else {
        let k = props[0].0;
        let v = props[0].1;
        let first: Result<(), cl_int> = if k as u32 == CL_CONTEXT_PLATFORM {
            spec_check_platform(v as usize)
        } else if k as u32 == CL_CONTEXT_INTEROP_USER_SYNC {
            if spec_check_cl_bool(v) is Some {
                Ok(())
            } else {
                Err(CL_INVALID_PROPERTY)
            }
        } else {
            Err(CL_INVALID_PROPERTY)
        };
        match first {
            Err(e) => Err(e),
            Ok(()) => spec_check_props(props.skip(1)),
        }
    }
}

/// Validates the parsed property pairs, first failure first.
fn check_props(props: &Properties) -> (r: Result<(), cl_int>)
    ensures
        r == spec_check_props(props.props@),
{
    let mut i: usize = 0;
    proof {
        assert(props.props@.skip(0) =~= props.props@);
    }
    while i < props.props.len()
        invariant
            i <= props.props@.len(),
            spec_check_props(props.props@) == spec_check_props(props.props@.skip(i as int)),
        decreases props.props@.len() - i,
    {
        let (k, v) = props.props[i];
        proof {
            let rest = props.props@.skip(i as int);
            assert(rest[0] == props.props@[i as int]);
            assert(rest.skip(1) =~= props.props@.skip(i as int + 1));
        }
        let k32 = #[verifier::truncate] (k as u32);
        if k32 == CL_CONTEXT_PLATFORM {
            check_platform(#[verifier::truncate] (v as usize))?;
        } else if k32 == CL_CONTEXT_INTEROP_USER_SYNC {
            if check_cl_bool(v).is_none() {
                return Err(CL_INVALID_PROPERTY);
            }
        } else {
            return Err(CL_INVALID_PROPERTY);
        }
        i = i + 1;
    }
    Ok(())
}

/// The view of an optional borrowed list.
pub open spec fn spec_opt_view(v: Option<&Vec<cl_context_properties>>) -> Option<
    Seq<cl_context_properties>,
> {
    match v {
        None => None,
        Some(v) => Some(v@),
    }
}

/// What context creation decides, in order: the device array and the
/// count must be present, user data demands a notify callback, the
/// property list must parse and validate, and every device of the
/// deduplicated list must be a member of the registry. Success yields
/// the deduplicated device list.
pub open spec fn spec_create_context_result(
    icd: Icd,
    properties: Option<Seq<cl_context_properties>>,
    num_devices: cl_uint,
    devices: Option<Seq<cl_device_id>>,
    pfn_notify: bool,
    user_data: bool,
) -> Result<Seq<cl_device_id>, cl_int> {
    if devices is None {
        Err(CL_INVALID_VALUE)
    } else if num_devices == 0 {
        Err(CL_INVALID_VALUE)
    } else if !pfn_notify && user_data {
        Err(CL_INVALID_VALUE)
    } else {
        match spec_parse_props(properties) {
            None => Err(CL_INVALID_PROPERTY),
            Some(ps) => match spec_check_props(ps) {
                Err(e) => Err(e),
                Ok(()) => {
                    let devs = spec_dedup_devices(devices.unwrap());
                    if exists|k: int| 0 <= k < devs.len() && !spec_device_valid(icd, devs[k]) {
                        Err(CL_INVALID_DEVICE)
                    } else {
                        Ok(devs)
                    }
                },
            },
        }
    }
}

/// Creation succeeded: a fresh slot was appended holding the
/// deduplicated device list, the raw property echo and one reference,
/// and the new handle names it.
pub open spec fn spec_context_created(
    old_icd: Icd,
    new_icd: Icd,
    r: Result<cl_context, cl_int>,
    devs: Seq<cl_device_id>,
    echo: Seq<cl_context_properties>,
) -> bool {
    &&& r == Ok::<cl_context, cl_int>((old_icd.contexts@.len() + 1) as usize)
    &&& new_icd.devices == old_icd.devices
    &&& new_icd.contexts@.len() == old_icd.contexts@.len() + 1
    &&& forall|k: int|
        0 <= k < old_icd.contexts@.len() ==> new_icd.contexts@[k] == old_icd.contexts@[k]
    &&& new_icd.contexts@.last() matches Some(c) && c.devs@ == devs && c.properties@ == echo
        && c.refs == 1
}

/// Creates a context from an explicit device list. On any failure the
/// state is untouched; on success a fresh context with one reference
/// is registered and its handle returned.
pub fn create_context(
    icd: &mut Icd,
    properties: Option<&Vec<cl_context_properties>>,
    num_devices: cl_uint,
    devices: Option<&Vec<cl_device_id>>,
    pfn_notify: bool,
    user_data: bool,
) -> (r: Result<cl_context, cl_int>)
    requires
        devices matches Some(d) ==> d@.len() == num_devices as int,
        old(icd).contexts@.len() < usize::MAX,
    ensures
        ({
            let outcome = spec_create_context_result(
                *old(icd),
                spec_opt_view(properties),
                num_devices,
                match devices {
                    None => None,
                    Some(d) => Some(d@),
                },
                pfn_notify,
                user_data,
            );
            match outcome {
                Err(e) => r == Err::<cl_context, cl_int>(e) && *final(icd) == *old(icd),
                Ok(devs) => spec_context_created(
                    *old(icd),
                    *final(icd),
                    r,
                    devs,
                    spec_raw_echo(spec_opt_view(properties)),
                ),
            }
        }),
{
    let device_list = match devices {
        None => {
            return Err(CL_INVALID_VALUE);
        },
        Some(d) => d,
    };
    if num_devices == 0 {
        return Err(CL_INVALID_VALUE);
    }
    if !pfn_notify && user_data {
        return Err(CL_INVALID_VALUE);
    }
    let props = match Properties::from_raw(properties) {
        None => {
            return Err(CL_INVALID_PROPERTY);
        },
        Some(p) => p,
    };
    check_props(&props)?;
    let devs = dedup_devices(device_list);
    let mut i: usize = 0;
    while i < devs.len()
        invariant
            i <= devs@.len(),
            *icd == *old(icd),
            devices == Some(device_list),
            num_devices != 0,
            pfn_notify || !user_data,
            spec_parse_props(spec_opt_view(properties)) == Some(props.props@),
            spec_check_props(props.props@) is Ok,
            devs@ == spec_dedup_devices(device_list@),
            forall|k: int| 0 <= k < i ==> spec_device_valid(*icd, devs@[k]),
        decreases devs@.len() - i,
    {
        if let Err(e) = check_device(icd, devs[i]) {
            proof {
                assert(!spec_device_valid(*icd, devs@[i as int]));
            }
            return Err(e);
        }
        i = i + 1;
    }
    let echo = Properties::from_raw_echo(properties);
    let handle = icd.contexts.len() + 1;
    icd.contexts.push(Some(_cl_context::new(devs, echo)));
    Ok(handle)
}

/// Creates a context from a type filter: resolves the filter to the
/// matching devices, fails with the not-found status when nothing
/// matches, and otherwise behaves exactly as creation from that
/// device list.
pub fn create_context_from_type(
    icd: &mut Icd,
    properties: Option<&Vec<cl_context_properties>>,
    device_type: cl_device_type,
    pfn_notify: bool,
    user_data: bool,
) -> (r: Result<cl_context, cl_int>)
    requires
        old(icd).devices@.len() < 0x100000000,
        old(icd).contexts@.len() < usize::MAX,
    ensures
        ({
            let matching = spec_matching_devs(old(icd).devices@, device_type);
            if spec_check_cl_device_type(device_type) is Err {
                r == Err::<cl_context, cl_int>(spec_check_cl_device_type(device_type).get_Err_0())
                    && *final(icd) == *old(icd)
            } else if matching.len() == 0 {
                r == Err::<cl_context, cl_int>(CL_DEVICE_NOT_FOUND) && *final(icd) == *old(icd)
            } else {
                match spec_create_context_result(
                    *old(icd),
                    spec_opt_view(properties),
                    matching.len() as u32,
                    Some(matching),
                    pfn_notify,
                    user_data,
                ) {
                    Err(e) => r == Err::<cl_context, cl_int>(e) && *final(icd) == *old(icd),
                    Ok(devs) => spec_context_created(
                        *old(icd),
                        *final(icd),
                        r,
                        devs,
                        spec_raw_echo(spec_opt_view(properties)),
                    ),
                }
            }
        }),
{
    check_cl_device_type(device_type)?;
    let devs = get_devs_for_type(icd, device_type);
    if devs.len() == 0 {
        return Err(CL_DEVICE_NOT_FOUND);
    }
    proof {
        lemma_matching_devs_len(icd.devices@, device_type);
    }
    let n = devs.len() as cl_uint;
    create_context(icd, properties, n, Some(&devs), pfn_notify, user_data)
}

/// The handles that pass a filter are never more numerous than the
/// devices.
proof fn lemma_matching_devs_len(devices: Seq<crate::icd::_cl_device_id>, ty: cl_device_type)
    ensures
        spec_matching_devs(devices, ty).len() <= devices.len(),
    decreases devices.len(),
{
    if devices.len() > 0 {
        lemma_matching_devs_len(devices.drop_last(), ty);
    }
}

/// One step of the reference counter, as the external contract has
/// it: the counter wraps rather than saturates.
pub open spec fn spec_wrap_inc(r: cl_uint) -> cl_uint {
    if r == 0xFFFFFFFFu32 {
        0
    } else {
        (r + 1) as u32
    }
}

pub open spec fn spec_wrap_dec(r: cl_uint) -> cl_uint {
    if r == 0 {
        0xFFFFFFFFu32
    } else {
        (r - 1) as u32
    }
}

/// Retains a context: one more reference. A null handle is invalid;
/// so is one that names no live slot, where the external contract
/// leaves the behaviour undefined.
pub fn retain_context(icd: &mut Icd, context: cl_context) -> (r: Result<(), cl_int>)
    ensures
        !spec_context_live(*old(icd), context) ==> r == Err::<(), cl_int>(CL_INVALID_CONTEXT)
            && final(icd).devices == old(icd).devices && final(icd).contexts@ == old(
            icd,
        ).contexts@,
        spec_context_live(*old(icd), context) ==> ({
            &&& r == Ok::<(), cl_int>(())
            &&& final(icd).devices == old(icd).devices
            &&& final(icd).contexts@.len() == old(icd).contexts@.len()
            &&& forall|k: int|
                0 <= k < old(icd).contexts@.len() && k != context - 1 ==> final(icd).contexts@[k]
                    == old(icd).contexts@[k]
            &&& ({
                let c = old(icd).contexts@[context - 1].unwrap();
                final(icd).contexts@[context - 1] matches Some(c2) && c2.devs == c.devs
                    && c2.properties == c.properties && c2.refs == spec_wrap_inc(c.refs)
            })
        }),
{
    check_context(context)?;
    let idx = context - 1;
    if idx >= icd.contexts.len() {
        return Err(CL_INVALID_CONTEXT);
    }
    let mut slot: Option<_cl_context> = None;
    icd.contexts.set_and_swap(idx, &mut slot);
    match slot {
        None => {
            proof {
                assert(icd.contexts@ =~= old(icd).contexts@);
            }
            Err(CL_INVALID_CONTEXT)
        },
        Some(mut c) => {
            c.refs = if c.refs == 0xFFFFFFFFu32 {
                0
            } else {
                c.refs + 1
            };
            icd.contexts.set(idx, Some(c));
            Ok(())
        },
    }
}

/// Releases a context: one reference less, and the release that sees
/// the count at one deallocates the context — the slot is freed
/// exactly once, and the handle is dead from then on.
pub fn release_context(icd: &mut Icd, context: cl_context) -> (r: Result<(), cl_int>)
    ensures
        !spec_context_live(*old(icd), context) ==> r == Err::<(), cl_int>(CL_INVALID_CONTEXT)
            && final(icd).devices == old(icd).devices && final(icd).contexts@ == old(
            icd,
        ).contexts@,
        spec_context_live(*old(icd), context) ==> ({
            &&& r == Ok::<(), cl_int>(())
            &&& final(icd).devices == old(icd).devices
            &&& final(icd).contexts@.len() == old(icd).contexts@.len()
            &&& forall|k: int|
                0 <= k < old(icd).contexts@.len() && k != context - 1 ==> final(icd).contexts@[k]
                    == old(icd).contexts@[k]
            &&& ({
                let c = old(icd).contexts@[context - 1].unwrap();
                if c.refs == 1 {
                    final(icd).contexts@[context - 1] is None
                } else {
                    final(icd).contexts@[context - 1] matches Some(c2) && c2.devs == c.devs
                        && c2.properties == c.properties && c2.refs == spec_wrap_dec(c.refs)
                }
            })
        }),
{
    check_context(context)?;
    let idx = context - 1;
    if idx >= icd.contexts.len() {
        return Err(CL_INVALID_CONTEXT);
    }
    let mut slot: Option<_cl_context> = None;
    icd.contexts.set_and_swap(idx, &mut slot);
    match slot {
        None => {
            proof {
                assert(icd.contexts@ =~= old(icd).contexts@);
            }
            Err(CL_INVALID_CONTEXT)
        },
        Some(mut c) => {
            if c.refs == 1 {
                // the slot stays empty: this release owned the last
                // reference and deallocates the context
                Ok(())
            } else {
                c.refs = if c.refs == 0 {
                    0xFFFFFFFFu32
                } else {
                    c.refs - 1
                };
                icd.contexts.set(idx, Some(c));
                Ok(())
            }
        },
    }
}

/// What each context query reports, as bytes: the device handles, the
/// device count, the echoed-empty property placeholder, or the
/// current reference count.
pub open spec fn spec_context_info_bytes(c: _cl_context, param_name: cl_context_info) -> Option<
    Seq<u8>,
> {
    if param_name == CL_CONTEXT_DEVICES {
        Some(concat_cl_vec(c.devs@))
    } else if param_name == CL_CONTEXT_NUM_DEVICES {
        Some(u32_le_bytes(c.devs@.len() as u32))
    } else if param_name == CL_CONTEXT_PROPERTIES {
        Some(Seq::empty())
    } else if param_name == CL_CONTEXT_REFERENCE_COUNT {
        Some(u32_le_bytes(c.refs))
    } else {
        None
    }
}

/// The context query of the two-phase protocol: validate the handle,
/// resolve the parameter, check the declared capacity, then report
/// the size and the bytes exactly where the caller supplied a
/// receiver.
pub fn get_context_info(
    icd: &Icd,
    context: cl_context,
    param_name: cl_context_info,
    param_value_size: usize,
    param_value: bool,
    param_value_size_ret: bool,
) -> (r: Result<(Option<Vec<u8>>, Option<usize>), cl_int>)
    ensures
        !spec_context_live(*icd, context) ==> r == Err::<
            (Option<Vec<u8>>, Option<usize>),
            cl_int,
        >(CL_INVALID_CONTEXT),
        spec_context_live(*icd, context) ==> ({
            let c = icd.contexts@[context - 1].unwrap();
            match spec_context_info_bytes(c, param_name) {
                None => r == Err::<(Option<Vec<u8>>, Option<usize>), cl_int>(CL_INVALID_VALUE),
                Some(d) => if param_value && param_value_size < d.len() {
                    r == Err::<(Option<Vec<u8>>, Option<usize>), cl_int>(CL_INVALID_VALUE)
                } else {
                    r matches Ok((value, size_ret)) && (param_value ==> (value matches Some(v)
                        && v@ == d)) && (!param_value ==> value is None) && size_ret == (
                    if param_value_size_ret {
                        Some(d.len() as usize)
                    } else {
                        None
                    })
                },
            }
        }),
{
    check_context(context)?;
    let idx = context - 1;
    if idx >= icd.contexts.len() {
        return Err(CL_INVALID_CONTEXT);
    }
    let c = match &icd.contexts[idx] {
        None => {
            return Err(CL_INVALID_CONTEXT);
        },
        Some(c) => c,
    };
    let d: Vec<u8> = if param_name == CL_CONTEXT_DEVICES {
        c.devs.cl_vec()
    } else if param_name == CL_CONTEXT_NUM_DEVICES {
        u32_le_vec(#[verifier::truncate] (c.devs.len() as u32))
    } else if param_name == CL_CONTEXT_PROPERTIES {
        let empty: Vec<cl_context_properties> = Vec::new();
        let v = empty.cl_vec();
        proof {
            assert(v@ =~= Seq::<u8>::empty());
        }
        v
    } else if param_name == CL_CONTEXT_REFERENCE_COUNT {
        u32_le_vec(c.refs)
    } else {
        return Err(CL_INVALID_VALUE);
    };
    cl_info_reply(d, param_value_size, param_value, param_value_size_ret)
}

/// Every recognized context query on a context with at least one
/// device reports at least one byte, so a size-only query always
/// reports a positive size — except the property query, which echoes
/// the empty placeholder.
pub proof fn lemma_context_info_size_positive(c: _cl_context, param_name: cl_context_info)
    requires
        param_name != CL_CONTEXT_PROPERTIES,
        c.devs@.len() > 0,
    ensures
        spec_context_info_bytes(c, param_name) matches Some(d) ==> d.len() > 0,
{
    if param_name == CL_CONTEXT_DEVICES {
        crate::util::lemma_concat_len_ge_last(c.devs@);
        assert(c.devs@.last().cl_vec_spec().len() == 8);
    }
}

/// A context always holds at least one device: the deduplicated list
/// of a non-empty device list is non-empty.
pub proof fn lemma_dedup_nonempty(s: Seq<cl_device_id>)
    requires
        s.len() > 0,
    ensures
        spec_dedup_devices(s).len() > 0,
    decreases s.len(),
{
    if s.drop_last().len() > 0 {
        lemma_dedup_nonempty(s.drop_last());
    } else {
        assert(!s.drop_last().contains(s.last()));
    }
}

/// Creation with a zero device count is invalid, whatever the other
/// arguments hold.
pub proof fn lemma_create_zero_devices_invalid(
    icd: Icd,
    properties: Option<Seq<cl_context_properties>>,
    devices: Option<Seq<cl_device_id>>,
    pfn_notify: bool,
    user_data: bool,
)
    ensures
        spec_create_context_result(icd, properties, 0, devices, pfn_notify, user_data) == Err::<
            Seq<cl_device_id>,
            cl_int,
        >(CL_INVALID_VALUE),
{
}

/// Creation with user data but no notify callback is invalid,
/// whatever the other arguments hold.
pub proof fn lemma_create_user_data_without_notify_invalid(
    icd: Icd,
    properties: Option<Seq<cl_context_properties>>,
    num_devices: cl_uint,
    devices: Option<Seq<cl_device_id>>,
)
    ensures
        spec_create_context_result(icd, properties, num_devices, devices, false, true) == Err::<
            Seq<cl_device_id>,
            cl_int,
        >(CL_INVALID_VALUE),
{
}

/// A property list in which the same key appears twice makes
/// creation fail with the invalid-property status, once the argument
/// checks ahead of it pass.
pub proof fn lemma_create_duplicate_property_invalid(
    icd: Icd,
    props: Seq<cl_context_properties>,
    num_devices: cl_uint,
    devices: Option<Seq<cl_device_id>>,
    pfn_notify: bool,
    user_data: bool,
)
    requires
        devices is Some,
        num_devices != 0,
        pfn_notify || !user_data,
        crate::properties::spec_has_dup_key(crate::properties::spec_pairs(props)),
    ensures
        spec_create_context_result(icd, Some(props), num_devices, devices, pfn_notify, user_data)
            == Err::<Seq<cl_device_id>, cl_int>(CL_INVALID_PROPERTY),
{
}

/// The counter after some retains.
pub open spec fn spec_incs(r: cl_uint, n: nat) -> cl_uint
    decreases n,
{
    if n == 0 {
        r
    } else {
        spec_wrap_inc(spec_incs(r, (n - 1) as nat))
    }
}

/// The counter after some releases that each found it above one.
pub open spec fn spec_decs(r: cl_uint, n: nat) -> cl_uint
    decreases n,
{
    if n == 0 {
        r
    } else {
        spec_wrap_dec(spec_decs(r, (n - 1) as nat))
    }
}

proof fn lemma_incs_small(n: nat)
    requires
        n < 0xFFFFFFFF,
    ensures
        spec_incs(1, n) == n + 1,
    decreases n,
{
    if n > 0 {
        lemma_incs_small((n - 1) as nat);
    }
}

proof fn lemma_decs_small(n: nat, r: cl_uint)
    requires
        n < r,
    ensures
        spec_decs(r, n) == r - n,
    decreases n,
{
    if n > 0 {
        lemma_decs_small((n - 1) as nat, r);
    }
}

/// Balanced retain and release: a freshly created context carries one
/// reference; each retain moves the counter up by one and each
/// release that finds it above one moves it down by one, so after n
/// retains the counter stands at n + 1, after n further releases it
/// is back at one, and the next release is the one that finds it at
/// one and deallocates the context — exactly once.
pub proof fn lemma_retain_release_balance(n: u32)
    requires
        n < 0xFFFFFFFFu32,
    ensures
        spec_incs(1, n as nat) == n + 1,
        n > 0 ==> spec_decs((n + 1) as u32, n as nat) == 1,
{
    lemma_incs_small(n as nat);
    if n > 0 {
        lemma_decs_small(n as nat, (n + 1) as u32);
    }
}

} // verus!
