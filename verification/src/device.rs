//! The capability aggregator and version negotiator: classifies each
//! usable screen (embedded or full profile, custom or not), derives
//! its extension list, and negotiates the supported API version by a
//! fixed chain of downgrade rules that can only ever lower the
//! result. Screens that miss the absolute minimum limits are
//! discarded at discovery and never exposed.

use vstd::prelude::*;

use crate::cl::CL_DEVICE_TYPE_CPU;
use crate::cl::CL_DEVICE_TYPE_CUSTOM;
use crate::cl::CL_DEVICE_TYPE_DEFAULT;
use crate::cl::CL_DEVICE_TYPE_GPU;
use crate::cl::cl_device_type;
use crate::cl::cl_uint;
use crate::cl::cl_ulong;
use crate::screen::ComputeParam;
use crate::screen::PipeScreen;
use crate::screen::pipe_cap;
use crate::screen::pipe_compute_cap;
use crate::screen::pipe_endian;
use crate::screen::pipe_loader_device_type;
use crate::screen::pipe_shader_cap;
use crate::screen::pipe_shader_ir;
use crate::screen::pipe_shader_type;
use crate::version::CLVersion;
use crate::version::cl_name_version;
use crate::version::mk_cl_version;
use crate::version::mk_cl_version_ext;
use crate::version::spec_mk_cl_version;
use crate::version::spec_name_field;

verus! {

/// A discovered device: its screen together with everything the
/// aggregator derived from it at discovery.
pub struct Device {
    pub screen: PipeScreen,
    pub cl_version: CLVersion,
    pub clc_version: CLVersion,
    pub clc_versions: Vec<cl_name_version>,
    pub custom: bool,
    pub embedded: bool,
    pub extension_string: String,
    pub extensions: Vec<cl_name_version>,
}

// The raw limits a device query reports, as functions of the screen
// alone; the executable getters below return exactly these.
pub open spec fn spec_address_bits(s: PipeScreen) -> cl_uint {
    s.screen.address_bits
}

pub open spec fn spec_const_max_size(s: PipeScreen) -> cl_ulong {
    s.spec_shader_param(pipe_shader_cap::PIPE_SHADER_CAP_MAX_CONST_BUFFER_SIZE) as u64
}

pub open spec fn spec_global_mem_size(s: PipeScreen) -> cl_ulong {
    s.screen.max_global_size
}

pub open spec fn spec_image_2d_size(s: PipeScreen) -> usize {
    s.spec_param(pipe_cap::PIPE_CAP_MAX_TEXTURE_2D_SIZE) as usize
}

pub open spec fn spec_image_3d_size(s: PipeScreen) -> usize {
    1usize << ((s.spec_param(pipe_cap::PIPE_CAP_MAX_TEXTURE_3D_LEVELS) - 1) as usize)
}

/// The three-dimensional image size is reported as a level count and
/// expanded by shifting; the shift is meaningful only for level
/// counts in this range.
pub open spec fn spec_image_3d_shiftable(s: PipeScreen) -> bool {
    1 <= s.spec_param(pipe_cap::PIPE_CAP_MAX_TEXTURE_3D_LEVELS) <= 32
}

pub open spec fn spec_image_3d_supported(s: PipeScreen) -> bool {
    s.spec_param(pipe_cap::PIPE_CAP_MAX_TEXTURE_3D_LEVELS) != 0
}

pub open spec fn spec_image_array_size(s: PipeScreen) -> usize {
    s.spec_param(pipe_cap::PIPE_CAP_MAX_TEXTURE_ARRAY_LAYERS) as usize
}

pub open spec fn spec_image_buffer_size(s: PipeScreen) -> usize {
    s.spec_param(pipe_cap::PIPE_CAP_MAX_TEXTURE_BUFFER_SIZE) as usize
}

pub open spec fn spec_image_read_count(s: PipeScreen) -> cl_uint {
    s.spec_shader_param(pipe_shader_cap::PIPE_SHADER_CAP_MAX_SAMPLER_VIEWS) as u32
}

pub open spec fn spec_image_write_count(s: PipeScreen) -> cl_uint {
    s.spec_shader_param(pipe_shader_cap::PIPE_SHADER_CAP_MAX_SHADER_IMAGES) as u32
}

pub open spec fn spec_image_supported(s: PipeScreen) -> bool {
    &&& s.spec_shader_param(pipe_shader_cap::PIPE_SHADER_CAP_MAX_SHADER_IMAGES) != 0
    &&& spec_image_read_count(s) >= 8
    &&& spec_image_write_count(s) >= 8
    &&& spec_image_2d_size(s) >= 2048
}

pub open spec fn spec_little_endian(s: PipeScreen) -> bool {
    s.spec_param(pipe_cap::PIPE_CAP_ENDIANNESS) == pipe_endian::PIPE_ENDIAN_LITTLE.spec_value()
}

pub open spec fn spec_local_mem_size(s: PipeScreen) -> cl_ulong {
    s.screen.max_local_size
}

pub open spec fn spec_max_block_sizes(s: PipeScreen) -> Seq<usize> {
    s.screen.max_block_size@.map(|i: int, v: u64| v as usize)
}

pub open spec fn spec_max_clock_freq(s: PipeScreen) -> cl_uint {
    s.screen.max_clock_frequency
}

pub open spec fn spec_max_compute_units(s: PipeScreen) -> cl_uint {
    s.screen.max_compute_units
}

pub open spec fn spec_max_grid_dimensions(s: PipeScreen) -> cl_uint {
    s.screen.grid_dimension as u32
}

pub open spec fn spec_max_mem_alloc(s: PipeScreen) -> cl_ulong {
    s.screen.max_mem_alloc_size
}

pub open spec fn spec_max_samplers(s: PipeScreen) -> cl_uint {
    s.spec_shader_param(pipe_shader_cap::PIPE_SHADER_CAP_MAX_TEXTURE_SAMPLERS) as u32
}

pub open spec fn spec_max_threads_per_block(s: PipeScreen) -> usize {
    s.screen.max_threads_per_block as usize
}

pub open spec fn spec_param_max_size(s: PipeScreen) -> usize {
    s.screen.max_input_size as usize
}

pub open spec fn spec_unified_memory(s: PipeScreen) -> bool {
    s.spec_param(pipe_cap::PIPE_CAP_UMA) == 1
}

pub open spec fn spec_vendor_id(s: PipeScreen) -> cl_uint {
    if s.spec_param(pipe_cap::PIPE_CAP_VENDOR_ID) == -1 {
        0
    } else {
        s.spec_param(pipe_cap::PIPE_CAP_VENDOR_ID) as u32
    }
}

/// A device may be exposed at all only when a kernel can take at
/// least the minimum parameter bytes.
pub open spec fn spec_check_valid(s: PipeScreen) -> bool {
    spec_param_max_size(s) >= 128
}

/// A device is usable by this layer only when it can run compute
/// kernels in the serialized intermediate form.
pub open spec fn spec_is_valid(s: PipeScreen) -> bool {
    &&& s.spec_param(pipe_cap::PIPE_CAP_COMPUTE) == 1
    &&& s.spec_shader_param(pipe_shader_cap::PIPE_SHADER_CAP_SUPPORTED_IRS) & (1i32
        << pipe_shader_ir::PIPE_SHADER_IR_NIR_SERIALIZED.spec_ordinal()) != 0
}

/// The embedded-profile test: a device that supports images but
/// misses any full-profile image minimum reports the embedded
/// profile.
pub open spec fn spec_check_embedded(s: PipeScreen) -> bool {
    spec_image_supported(s) && (spec_max_samplers(s) < 16 || spec_image_read_count(s) < 128
        || spec_image_write_count(s) < 64 || spec_image_2d_size(s) < 16384
        || spec_image_array_size(s) < 2048 || spec_image_buffer_size(s) < 65536)
}

/// The custom-device test: allocation, dimensionality and
/// profile-dependent size minimums that every non-custom device must
/// meet.
pub open spec fn spec_check_custom(s: PipeScreen, embedded: bool) -> bool {
    let limit_lo = if 0x40000000u64 < spec_global_mem_size(s) {
        0x40000000u64
    } else {
        spec_global_mem_size(s)
    };
    let limit = if limit_lo > 0x2000000u64 {
        limit_lo
    } else {
        0x2000000u64
    };
    ||| spec_max_mem_alloc(s) < limit
    ||| spec_max_grid_dimensions(s) < 3
    ||| (if embedded {
        spec_param_max_size(s) < 256 || spec_const_max_size(s) < 1024 || spec_local_mem_size(s)
            < 1024
    } else {
        spec_param_max_size(s) < 256 || spec_const_max_size(s) < 65536 || spec_local_mem_size(s)
            < 16384
    })
}

/// Whether an extension of the given name is in the list.
pub open spec fn spec_has_ext(exts: Seq<Seq<char>>, name: Seq<char>) -> bool {
    exists|i: int| 0 <= i < exts.len() && exts[i] == name
}

/// The version negotiation chain: starting from the highest level,
/// each unmet requirement can only move the result downward, in this
/// fixed order; an explicit override replaces the computed result.
pub open spec fn spec_check_version(
    s: PipeScreen,
    embedded: bool,
    exts: Seq<Seq<char>>,
    env: Option<CLVersion>,
) -> CLVersion {
    let a = if embedded && spec_image_supported(s) && (spec_image_3d_size(s) < 2048
        || !spec_has_ext(exts, "cles_khr_2d_image_array_writes"@)) {
        CLVersion::Cl1_2
    } else {
        CLVersion::Cl3_0
    };
    let b = if spec_image_supported(s) && (spec_image_array_size(s) < 256 || spec_image_buffer_size(
        s,
    ) < 2048) {
        CLVersion::Cl1_1
    } else {
        a
    };
    let c = if !spec_has_ext(exts, "cl_khr_fp64"@) {
        CLVersion::Cl1_1
    } else {
        b
    };
    let d = if !spec_has_ext(exts, "cl_khr_byte_addressable_store"@) || !spec_has_ext(
        exts,
        "cl_khr_global_int32_base_atomics"@,
    ) || !spec_has_ext(exts, "cl_khr_global_int32_extended_atomics"@) || !spec_has_ext(
        exts,
        "cl_khr_local_int32_base_atomics"@,
    ) || !spec_has_ext(exts, "cl_khr_local_int32_extended_atomics"@) || spec_param_max_size(s)
        < 1024 || spec_local_mem_size(s) < 32768 {
        CLVersion::Cl1_0
    } else {
        c
    };
    match env {
        Some(v) => v,
        None => d,
    }
}

/// One record of an encoded versioned-name list matches a version and
/// a name.
pub open spec fn nv_matches(nv: cl_name_version, major: u32, minor: u32, name: Seq<char>) -> bool {
    &&& nv.version == spec_mk_cl_version(major, minor, 0)
    &&& nv.name@ == spec_name_field(vstd::utf8::encode_utf8(name))
}

/// The supported sub-language list of a negotiated level: one record
/// per level, descending from the negotiated level down to the lowest.
pub open spec fn spec_clc_versions_ok(res: CLVersion, s: Seq<cl_name_version>) -> bool {
    match res {
        CLVersion::Cl1_0 => s.len() == 1 && nv_matches(s[0], 1, 0, "OpenCL C 1.0"@),
        CLVersion::Cl1_1 => s.len() == 2 && nv_matches(s[0], 1, 1, "OpenCL C 1.1"@) && nv_matches(
            s[1],
            1,
            0,
            "OpenCL C 1.0"@,
        ),
        CLVersion::Cl1_2 => s.len() == 3 && nv_matches(s[0], 1, 2, "OpenCL C 1.2"@) && nv_matches(
            s[1],
            1,
            1,
            "OpenCL C 1.1"@,
        ) && nv_matches(s[2], 1, 0, "OpenCL C 1.0"@),
        CLVersion::Cl3_0 => s.len() == 4 && nv_matches(s[0], 3, 0, "OpenCL C 3.0"@) && nv_matches(
            s[1],
            1,
            2,
            "OpenCL C 1.2"@,
        ) && nv_matches(s[2], 1, 1, "OpenCL C 1.1"@) && nv_matches(s[3], 1, 0, "OpenCL C 1.0"@),
    }
}

/// The one extension this layer reports on every device.
pub open spec fn spec_base_ext_name() -> Seq<char> {
    "cl_khr_byte_addressable_store"@
}

/// What the aggregator derives for a device: every field of the
/// finished record as a function of its screen and the optional
/// version override.
pub open spec fn spec_device_built(d: Device, s: PipeScreen, env: Option<CLVersion>) -> bool {
    let embedded = spec_check_embedded(s);
    let res = spec_check_version(s, embedded, seq![spec_base_ext_name()], env);
    &&& d.screen == s
    &&& d.embedded == embedded
    &&& d.custom == spec_check_custom(s, embedded)
    &&& d.extension_string@ == spec_base_ext_name()
    &&& d.extensions@.len() == 1
    &&& nv_matches(d.extensions@[0], 1, 0, spec_base_ext_name())
    &&& d.cl_version == res
    &&& d.clc_version == res
    &&& spec_clc_versions_ok(res, d.clc_versions@)
}

impl Device {
    fn shader_param(&self, cap: pipe_shader_cap) -> (r: i32)
        ensures
            r == self.screen.spec_shader_param(cap),
    {
        self.screen.shader_param(pipe_shader_type::PIPE_SHADER_COMPUTE, cap)
    }

    pub fn address_bits(&self) -> (r: cl_uint)
        ensures
            r == spec_address_bits(self.screen),
    {
        self.screen.compute_param(pipe_compute_cap::PIPE_COMPUTE_CAP_ADDRESS_BITS)
    }

    pub fn const_max_size(&self) -> (r: cl_ulong)
        ensures
            r == spec_const_max_size(self.screen),
    {
        let v = self.shader_param(pipe_shader_cap::PIPE_SHADER_CAP_MAX_CONST_BUFFER_SIZE);
        #[verifier::truncate] (v as u64)
    }

    /// The externally visible classification of this device; a custom
    /// device reports only the custom type, every other device the
    /// type its loader kind maps to.
    pub fn device_type(&self) -> (r: cl_device_type)
        ensures
            r == spec_device_type(self.screen, self.custom),
    {
        if self.custom {
            return CL_DEVICE_TYPE_CUSTOM as cl_device_type;
        }
        (match self.screen.device_type() {
            pipe_loader_device_type::PIPE_LOADER_DEVICE_SOFTWARE => CL_DEVICE_TYPE_CPU,
            pipe_loader_device_type::PIPE_LOADER_DEVICE_PCI => CL_DEVICE_TYPE_GPU
                | CL_DEVICE_TYPE_DEFAULT,
            pipe_loader_device_type::PIPE_LOADER_DEVICE_PLATFORM => CL_DEVICE_TYPE_GPU
                | CL_DEVICE_TYPE_DEFAULT,
            pipe_loader_device_type::NUM_PIPE_LOADER_DEVICE_TYPES => CL_DEVICE_TYPE_CUSTOM,
        }) as cl_device_type
    }

    pub fn global_mem_size(&self) -> (r: cl_ulong)
        ensures
            r == spec_global_mem_size(self.screen),
    {
        self.screen.compute_param(pipe_compute_cap::PIPE_COMPUTE_CAP_MAX_GLOBAL_SIZE)
    }

    pub fn image_2d_size(&self) -> (r: usize)
        ensures
            r == spec_image_2d_size(self.screen),
    {
        let v = self.screen.param(pipe_cap::PIPE_CAP_MAX_TEXTURE_2D_SIZE);
        #[verifier::truncate] (v as usize)
    }

    pub fn image_3d_size(&self) -> (r: usize)
        requires
            spec_image_3d_shiftable(self.screen),
        ensures
            r == spec_image_3d_size(self.screen),
    {
        let levels = self.screen.param(pipe_cap::PIPE_CAP_MAX_TEXTURE_3D_LEVELS);
        1usize << ((levels - 1) as usize)
    }

    pub fn image_3d_supported(&self) -> (r: bool)
        ensures
            r == spec_image_3d_supported(self.screen),
    {
        self.screen.param(pipe_cap::PIPE_CAP_MAX_TEXTURE_3D_LEVELS) != 0
    }

    pub fn image_array_size(&self) -> (r: usize)
        ensures
            r == spec_image_array_size(self.screen),
    {
        let v = self.screen.param(pipe_cap::PIPE_CAP_MAX_TEXTURE_ARRAY_LAYERS);
        #[verifier::truncate] (v as usize)
    }

    pub fn image_buffer_size(&self) -> (r: usize)
        ensures
            r == spec_image_buffer_size(self.screen),
    {
        let v = self.screen.param(pipe_cap::PIPE_CAP_MAX_TEXTURE_BUFFER_SIZE);
        #[verifier::truncate] (v as usize)
    }

    pub fn image_read_count(&self) -> (r: cl_uint)
        ensures
            r == spec_image_read_count(self.screen),
    {
        let v = self.shader_param(pipe_shader_cap::PIPE_SHADER_CAP_MAX_SAMPLER_VIEWS);
        #[verifier::truncate] (v as cl_uint)
    }

    pub fn image_supported(&self) -> (r: bool)
        ensures
            r == spec_image_supported(self.screen),
    {
        self.shader_param(pipe_shader_cap::PIPE_SHADER_CAP_MAX_SHADER_IMAGES) != 0
            && self.image_read_count() >= 8 && self.image_write_count() >= 8 && self.image_2d_size()
            >= 2048
    }

    pub fn image_write_count(&self) -> (r: cl_uint)
        ensures
            r == spec_image_write_count(self.screen),
    {
        let v = self.shader_param(pipe_shader_cap::PIPE_SHADER_CAP_MAX_SHADER_IMAGES);
        #[verifier::truncate] (v as cl_uint)
    }

    pub fn little_endian(&self) -> (r: bool)
        ensures
            r == spec_little_endian(self.screen),
    {
        let endianness = self.screen.param(pipe_cap::PIPE_CAP_ENDIANNESS);
        endianness == pipe_endian::PIPE_ENDIAN_LITTLE.value()
    }

    pub fn local_mem_size(&self) -> (r: cl_ulong)
        ensures
            r == spec_local_mem_size(self.screen),
    {
        self.screen.compute_param(pipe_compute_cap::PIPE_COMPUTE_CAP_MAX_LOCAL_SIZE)
    }

    pub fn max_block_sizes(&self) -> (r: Vec<usize>)
        ensures
            r@ == spec_max_block_sizes(self.screen),
    {
        let v: Vec<u64> = self.screen.compute_param(
            pipe_compute_cap::PIPE_COMPUTE_CAP_MAX_BLOCK_SIZE,
        );
        let mut r: Vec<usize> = Vec::new();
        let mut i: usize = 0;
        while i < v.len()
            invariant
                i <= v.len(),
                v@ == self.screen.screen.max_block_size@,
                r@ =~= spec_max_block_sizes(self.screen).take(i as int),
            decreases v.len() - i,
        {
            let e = v[i];
            r.push(#[verifier::truncate] (e as usize));
            i = i + 1;
        }
        proof {
            assert(r@ =~= spec_max_block_sizes(self.screen));
        }
        r
    }

    pub fn max_clock_freq(&self) -> (r: cl_uint)
        ensures
            r == spec_max_clock_freq(self.screen),
    {
        self.screen.compute_param(pipe_compute_cap::PIPE_COMPUTE_CAP_MAX_CLOCK_FREQUENCY)
    }

    pub fn max_compute_units(&self) -> (r: cl_uint)
        ensures
            r == spec_max_compute_units(self.screen),
    {
        self.screen.compute_param(pipe_compute_cap::PIPE_COMPUTE_CAP_MAX_COMPUTE_UNITS)
    }

    pub fn max_grid_dimensions(&self) -> (r: cl_uint)
        ensures
            r == spec_max_grid_dimensions(self.screen),
    {
        let v: u64 = self.screen.compute_param(pipe_compute_cap::PIPE_COMPUTE_CAP_GRID_DIMENSION);
        #[verifier::truncate] (v as cl_uint)
    }

    pub fn max_mem_alloc(&self) -> (r: cl_ulong)
        ensures
            r == spec_max_mem_alloc(self.screen),
    {
        self.screen.compute_param(pipe_compute_cap::PIPE_COMPUTE_CAP_MAX_MEM_ALLOC_SIZE)
    }

    pub fn max_samplers(&self) -> (r: cl_uint)
        ensures
            r == spec_max_samplers(self.screen),
    {
        let v = self.shader_param(pipe_shader_cap::PIPE_SHADER_CAP_MAX_TEXTURE_SAMPLERS);
        #[verifier::truncate] (v as cl_uint)
    }

    pub fn max_threads_per_block(&self) -> (r: usize)
        ensures
            r == spec_max_threads_per_block(self.screen),
    {
        let v: u64 = self.screen.compute_param(
            pipe_compute_cap::PIPE_COMPUTE_CAP_MAX_THREADS_PER_BLOCK,
        );
        #[verifier::truncate] (v as usize)
    }

    pub fn param_max_size(&self) -> (r: usize)
        ensures
            r == spec_param_max_size(self.screen),
    {
        let v: u64 = self.screen.compute_param(pipe_compute_cap::PIPE_COMPUTE_CAP_MAX_INPUT_SIZE);
        #[verifier::truncate] (v as usize)
    }

    pub fn screen(&self) -> (r: &PipeScreen)
        ensures
            *r == self.screen,
    {
        &self.screen
    }

    pub fn unified_memory(&self) -> (r: bool)
        ensures
            r == spec_unified_memory(self.screen),
    {
        self.screen.param(pipe_cap::PIPE_CAP_UMA) == 1
    }

    pub fn vendor_id(&self) -> (r: cl_uint)
        ensures
            r == spec_vendor_id(self.screen),
    {
        let id = self.screen.param(pipe_cap::PIPE_CAP_VENDOR_ID);
        if id == -1 {
            return 0;
        }
        #[verifier::truncate] (id as u32)
    }
}

/// The value of a digit string read in base ten, most significant
/// digit first.
pub open spec fn dec_val(s: Seq<char>) -> int
    decreases s.len(),
{
    if s.len() == 0 {
        0
    } else {
        dec_val(s.drop_last()) * 10 + (s.last() as u32 - 48)
    }
}

pub open spec fn is_ascii_digit(c: char) -> bool {
    48 <= c as u32 <= 57
}

pub open spec fn all_digits(s: Seq<char>) -> bool {
    forall|i: int| 0 <= i < s.len() ==> is_ascii_digit(s[i])
}

/// A decimal number as the external parser reads it: an optional
/// leading plus sign, then at least one digit, rejected when the
/// value does not fit 32 bits.
pub open spec fn spec_parse_dec(s: Seq<char>) -> Option<u32> {
    let body = if s.len() > 0 && s[0] == '+' {
        s.skip(1)
    } else {
        s
    };
    if body.len() == 0 || !all_digits(body) {
        None
    } else if dec_val(body) > u32::MAX {
        None
    } else {
        Some(dec_val(body) as u32)
    }
}

/// Whether the string holds exactly one dot.
pub open spec fn spec_one_dot(s: Seq<char>) -> bool {
    exists|i: int|
        0 <= i < s.len() && s[i] == '.' && (forall|j: int|
            0 <= j < s.len() && j != i ==> s[j] != '.')
}

pub open spec fn spec_dot_index(s: Seq<char>) -> int {
    choose|i: int| 0 <= i < s.len() && s[i] == '.'
}

/// The version override parsed from a "<major>.<minor>" string:
/// anything else, or a pair that is not a supported level, leaves the
/// negotiation untouched.
pub open spec fn spec_parse_env_version(s: Seq<char>) -> Option<CLVersion> {
    if spec_one_dot(s) {
        let i = spec_dot_index(s);
        match (spec_parse_dec(s.take(i)), spec_parse_dec(s.skip(i + 1))) {
            (Some(major), Some(minor)) => CLVersion::spec_from_code(
                spec_mk_cl_version(major, minor, 0),
            ),
            _ => None,
        }
    } else {
        None
    }
}

/// The given override value, where one was supplied.
pub open spec fn spec_env_override(env_val: Option<&str>) -> Option<CLVersion> {
    match env_val {
        None => None,
        Some(s) => spec_parse_env_version(s@),
    }
}

/// Parses a decimal number from the character range `[from, to)` of
/// the string.
fn parse_dec_range(s: &str, from: usize, to: usize) -> (r: Option<u32>)
    requires
        from <= to <= s@.len(),
    ensures
        r == spec_parse_dec(s@.subrange(from as int, to as int)),
{
    let ghost sub = s@.subrange(from as int, to as int);
    let mut start = from;
    if from < to && s.get_char(from) == '+' {
        start = from + 1;
    }
    let ghost body = s@.subrange(start as int, to as int);
    proof {
        if start > from {
            assert(sub[0] == '+');
            assert(sub.skip(1) =~= body);
        } else if sub.len() > 0 {
            assert(sub[0] != '+');
            assert(sub =~= body);
        }
    }
    if start == to {
        return None;
    }
    let mut acc: u64 = 0;
    let mut i = start;
    while i < to
        invariant
            start <= i <= to <= s@.len(),
            sub == s@.subrange(from as int, to as int),
            from <= start,
            body == s@.subrange(start as int, to as int),
            body == (if sub.len() > 0 && sub[0] == '+' {
                sub.skip(1)
            } else {
                sub
            }),
            body.len() > 0,
            all_digits(s@.subrange(start as int, i as int)),
            dec_val(s@.subrange(start as int, i as int)) <= u32::MAX ==> acc == dec_val(
                s@.subrange(start as int, i as int),
            ),
            dec_val(s@.subrange(start as int, i as int)) > u32::MAX ==> acc > u32::MAX,
            acc <= 0xFFFFFFFFu64 * 10 + 9,
        decreases to - i,
    {
        let c = s.get_char(i);
        let cv = c as u32;
        if cv < 48 || cv > 57 {
            proof {
                assert(body[i - start] == s@[i as int]);
                assert(!is_ascii_digit(body[i - start]));
                assert(!all_digits(body));
            }
            return None;
        }
        let d = cv - 48;
        proof {
            let prev = s@.subrange(start as int, i as int);
            let cur = s@.subrange(start as int, i as int + 1);
            assert(cur.drop_last() =~= prev);
            assert(cur.last() == s@[i as int]);
            assert(forall|j: int| 0 <= j < cur.len() ==> cur[j] == s@[start + j]);
        }
        if acc <= 0xFFFFFFFFu64 {
            acc = acc * 10 + (d as u64);
        }
        i = i + 1;
    }
    if acc > 0xFFFFFFFFu64 {
        None
    } else {
        Some(#[verifier::truncate] (acc as u32))
    }
}

impl Device {
    /// The "<major>.<minor>" override from the environment, where one
    /// was supplied and parses as a supported level.
    pub fn parse_env_version(val: Option<&str>) -> (r: Option<CLVersion>)
        ensures
            r == spec_env_override(val),
    {
        let s = match val {
            None => {
                return None;
            },
            Some(s) => s,
        };
        let n = s.unicode_len();
        let mut count: u32 = 0;
        let mut first: usize = 0;
        let ghost mut d1: int = 0;
        let ghost mut d2: int = 0;
        let mut i: usize = 0;
        while i < n
            invariant
                i <= n,
                n == s@.len(),
                count <= 2,
                count == 0 ==> forall|j: int| 0 <= j < i ==> s@[j] != '.',
                count == 1 ==> 0 <= first < i && s@[first as int] == '.' && (forall|j: int|
                    0 <= j < i && j != first ==> s@[j] != '.'),
                count == 2 ==> 0 <= d1 < d2 < i && s@[d1] == '.' && s@[d2] == '.',
            decreases n - i,
        {
            if s.get_char(i) == '.' {
                if count == 0 {
                    first = i;
                    count = 1;
                } else if count == 1 {
                    proof {
                        d1 = first as int;
                        d2 = i as int;
                    }
                    count = 2;
                }
            }
            i = i + 1;
        }
        if count != 1 {
            proof {
                if count == 0 {
                    assert(!spec_one_dot(s@));
                } else {
                    assert(count == 2);
                    assert forall|k: int|
                        !(0 <= k < s@.len() && s@[k] == '.' && (forall|j: int|
                            0 <= j < s@.len() && j != k ==> s@[j] != '.')) by {
                        if 0 <= k < s@.len() && s@[k] == '.' {
                            if k != d1 {
                                assert(s@[d1] == '.');
                            } else {
                                assert(s@[d2] == '.');
                            }
                        }
                    }
                    assert(!spec_one_dot(s@));
                }
            }
            return None;
        }
        proof {
            assert(spec_one_dot(s@));
            let i0 = spec_dot_index(s@);
            assert(s@[i0] == '.');
            assert(i0 == first as int);
        }
        let major = parse_dec_range(s, 0, first);
        let minor = parse_dec_range(s, first + 1, n);
        proof {
            assert(s@.subrange(0, first as int) =~= s@.take(first as int));
            assert(s@.subrange(first as int + 1, n as int) =~= s@.skip(first as int + 1));
        }
        match (major, minor) {
            (Some(major), Some(minor)) => CLVersion::from_code(mk_cl_version(major, minor, 0)),
            _ => None,
        }
    }
}

/// The names joined with one space between neighbours.
pub open spec fn spec_join_spaces(l: Seq<Seq<char>>) -> Seq<char>
    decreases l.len(),
{
    if l.len() == 0 {
        Seq::empty()
    } else if l.len() == 1 {
        l[0]
    } else {
        spec_join_spaces(l.drop_last()) + " "@ + l.last()
    }
}

/// Joins the extension names into the derived extension string.
fn join_spaces(v: &Vec<String>) -> (r: String)
    ensures
        r@ == spec_join_spaces(v.deep_view()),
{
    let mut joined = String::new();
    let mut i: usize = 0;
    while i < v.len()
        invariant
            i <= v.len(),
            joined@ == spec_join_spaces(v.deep_view().take(i as int)),
        decreases v.len() - i,
    {
        if i > 0 {
            joined.append(" ");
        }
        joined.append(v[i].as_str());
        proof {
            let dv = v.deep_view();
            assert(dv.take(i + 1).drop_last() =~= dv.take(i as int));
            assert(dv.take(i + 1).last() == dv[i as int]);
            if i == 0 {
                assert(joined@ =~= dv[0]);
            }
        }
        i = i + 1;
    }
    proof {
        assert(v.deep_view().take(v.deep_view().len() as int) =~= v.deep_view());
    }
    joined
}

/// Whether the list holds an extension of the given name.
fn contains_ext(exts: &Vec<String>, name: &str) -> (r: bool)
    ensures
        r == spec_has_ext(exts.deep_view(), name@),
{
    let needle = String::from_str(name);
    let mut i: usize = 0;
    while i < exts.len()
        invariant
            i <= exts.len(),
            needle@ == name@,
            forall|j: int| 0 <= j < i ==> exts.deep_view()[j] != name@,
        decreases exts.len() - i,
    {
        if exts[i].eq(&needle) {
            proof {
                assert(exts.deep_view()[i as int] == name@);
            }
            return true;
        }
        i = i + 1;
    }
    false
}

impl Device {
    fn check_valid(&self) -> (r: bool)
        ensures
            r == spec_check_valid(self.screen),
    {
        // below this floor not even the minimum number of kernel
        // arguments can be passed
        if self.param_max_size() < 128 {
            return false;
        }
        true
    }

    fn check_embedded_profile(&self) -> (r: bool)
        ensures
            r == spec_check_embedded(self.screen),
    {
        if self.image_supported() {
            // each image limit has a higher full-profile minimum; any
            // one below it drops the device to the embedded profile
            if self.max_samplers() < 16 || self.image_read_count() < 128
                || self.image_write_count() < 64 || self.image_2d_size() < 16384
                || self.image_array_size() < 2048 || self.image_buffer_size() < 65536 {
                return true;
            }
        }
        false
    }

    fn check_custom(&self) -> (r: bool)
        ensures
            r == spec_check_custom(self.screen, self.embedded),
    {
        // the non-custom minimum for a single allocation:
        // max(min(1 GiB, total global memory), 32 MiB)
        let gms = self.global_mem_size();
        let mut limit: u64 = if 1024 * 1024 * 1024 < gms {
            1024 * 1024 * 1024
        } else {
            gms
        };
        limit = if limit > 32 * 1024 * 1024 {
            limit
        } else {
            32 * 1024 * 1024
        };
        if self.max_mem_alloc() < limit {
            return true;
        }
        // a non-custom device can span at least three grid dimensions
        if self.max_grid_dimensions() < 3 {
            return true;
        }
        if self.embedded {
            if self.param_max_size() < 256 {
                return true;
            }
            if self.const_max_size() < 1024 {
                return true;
            }
            if self.local_mem_size() < 1024 {
                return true;
            }
        } else {
            if self.param_max_size() < 256 {
                return true;
            }
            if self.const_max_size() < 64 * 1024 {
                return true;
            }
            if self.local_mem_size() < 16 * 1024 {
                return true;
            }
        }
        false
    }

    fn is_valid(&self) -> (r: bool)
        ensures
            r == spec_is_valid(self.screen),
    {
        self.screen.param(pipe_cap::PIPE_CAP_COMPUTE) == 1 && self.shader_param(
            pipe_shader_cap::PIPE_SHADER_CAP_SUPPORTED_IRS,
        ) & (1i32 << pipe_shader_ir::PIPE_SHADER_IR_NIR_SERIALIZED.ordinal()) != 0
    }

    fn fill_extensions(&mut self) -> (exts: Vec<String>)
        requires
            old(self).extensions@.len() == 0,
        ensures
            final(self).extensions@.len() == 1,
            nv_matches(final(self).extensions@[0], 1, 0, spec_base_ext_name()),
            final(self).extension_string@ == spec_base_ext_name(),
            exts.deep_view() =~= seq![spec_base_ext_name()],
            final(self).screen == old(self).screen,
            final(self).custom == old(self).custom,
            final(self).embedded == old(self).embedded,
            final(self).cl_version == old(self).cl_version,
            final(self).clc_version == old(self).clc_version,
            final(self).clc_versions == old(self).clc_versions,
    {
        let mut exts: Vec<String> = Vec::new();
        let name = "cl_khr_byte_addressable_store";
        self.extensions.push(mk_cl_version_ext(1, 0, 0, name));
        exts.push(String::from_str(name));
        self.extension_string = join_spaces(&exts);
        proof {
            assert(exts.deep_view() =~= seq![spec_base_ext_name()]);
            assert(exts.deep_view().len() == 1);
            assert(self.extension_string@ == spec_base_ext_name());
        }
        exts
    }

    fn check_version(&mut self, exts: &Vec<String>, env_val: Option<&str>)
        requires
            old(self).clc_versions@.len() == 0,
            old(self).embedded && spec_image_supported(old(self).screen)
                ==> spec_image_3d_shiftable(old(self).screen),
        ensures
            ({
                let res = spec_check_version(
                    old(self).screen,
                    old(self).embedded,
                    exts.deep_view(),
                    spec_env_override(env_val),
                );
                &&& final(self).cl_version == res
                &&& final(self).clc_version == res
                &&& spec_clc_versions_ok(res, final(self).clc_versions@)
                &&& final(self).screen == old(self).screen
                &&& final(self).custom == old(self).custom
                &&& final(self).embedded == old(self).embedded
                &&& final(self).extension_string == old(self).extension_string
                &&& final(self).extensions == old(self).extensions
            }),
    {
        let mut res = CLVersion::Cl3_0;
        if self.embedded {
            if self.image_supported() {
                if self.image_3d_size() < 2048 || !contains_ext(
                    exts,
                    "cles_khr_2d_image_array_writes",
                ) {
                    res = CLVersion::Cl1_2;
                }
            }
        }
        if self.image_supported() {
            if self.image_array_size() < 256 || self.image_buffer_size() < 2048 {
                res = CLVersion::Cl1_1;
            }
        }
        if !contains_ext(exts, "cl_khr_fp64") {
            res = CLVersion::Cl1_1;
        }
        if !contains_ext(exts, "cl_khr_byte_addressable_store") || !contains_ext(
            exts,
            "cl_khr_global_int32_base_atomics",
        ) || !contains_ext(exts, "cl_khr_global_int32_extended_atomics") || !contains_ext(
            exts,
            "cl_khr_local_int32_base_atomics",
        ) || !contains_ext(exts, "cl_khr_local_int32_extended_atomics") || self.param_max_size()
            < 1024 || self.local_mem_size() < 32 * 1024 {
            res = CLVersion::Cl1_0;
        }
        if let Some(val) = Device::parse_env_version(env_val) {
            res = val;
        }
        if res.at_least(CLVersion::Cl3_0) {
            self.clc_versions.push(mk_cl_version_ext(3, 0, 0, "OpenCL C 3.0"));
        }
        if res.at_least(CLVersion::Cl1_2) {
            self.clc_versions.push(mk_cl_version_ext(1, 2, 0, "OpenCL C 1.2"));
        }
        if res.at_least(CLVersion::Cl1_1) {
            self.clc_versions.push(mk_cl_version_ext(1, 1, 0, "OpenCL C 1.1"));
        }
        if res.at_least(CLVersion::Cl1_0) {
            self.clc_versions.push(mk_cl_version_ext(1, 0, 0, "OpenCL C 1.0"));
        }
        self.cl_version = res;
        self.clc_version = res;
    }

    /// Builds the finished device record for a screen, or discards a
    /// screen below the validity floor.
    pub fn new(screen: PipeScreen, env_val: Option<&str>) -> (r: Option<Device>)
        requires
            spec_check_embedded(screen) && spec_image_supported(screen)
                ==> spec_image_3d_shiftable(screen),
        ensures
            match r {
                None => !spec_check_valid(screen),
                Some(d) => spec_check_valid(screen) && spec_device_built(
                    d,
                    screen,
                    spec_env_override(env_val),
                ),
            },
    {
        let mut r = Device {
            screen,
            cl_version: CLVersion::Cl3_0,
            clc_version: CLVersion::Cl3_0,
            clc_versions: Vec::new(),
            custom: false,
            embedded: false,
            extension_string: String::new(),
            extensions: Vec::new(),
        };
        if !r.check_valid() {
            return None;
        }
        // the profile decides which custom-device thresholds apply,
        // so it is settled first
        r.embedded = r.check_embedded_profile();
        r.custom = r.check_custom();
        let exts = r.fill_extensions();
        r.check_version(&exts, env_val);
        Some(r)
    }

    /// The screens that survive discovery, in order.
    pub open spec fn spec_valid_screens(screens: Seq<PipeScreen>) -> Seq<PipeScreen>
        decreases screens.len(),
    {
        if screens.len() == 0 {
            Seq::empty()
        } else {
            let rest = Self::spec_valid_screens(screens.drop_last());
            if spec_check_valid(screens.last()) && spec_is_valid(screens.last()) {
                rest.push(screens.last())
            } else {
                rest
            }
        }
    }

    /// Discovers every usable device: one finished record per screen
    /// that meets the validity floor and can run compute kernels,
    /// keeping the screens' order.
    pub fn all(screens: Vec<PipeScreen>, env_val: Option<&str>) -> (r: Vec<Device>)
        requires
            forall|k: int|
                0 <= k < screens@.len() ==> (spec_check_embedded(#[trigger] screens@[k])
                    && spec_image_supported(screens@[k]) ==> spec_image_3d_shiftable(screens@[k])),
        ensures
            r@.len() == Self::spec_valid_screens(screens@).len(),
            forall|k: int|
                0 <= k < r@.len() ==> spec_device_built(
                    #[trigger] r@[k],
                    Self::spec_valid_screens(screens@)[k],
                    spec_env_override(env_val),
                ),
    {
        let ghost orig = screens@;
        let n = screens.len();
        let mut screens = screens;
        let mut r: Vec<Device> = Vec::new();
        let mut i: usize = 0;
        while i < n
            invariant
                i <= n,
                n == orig.len(),
                i + screens.len() == orig.len(),
                screens@ == orig.skip(i as int),
                forall|k: int|
                    0 <= k < orig.len() ==> (spec_check_embedded(#[trigger] orig[k])
                        && spec_image_supported(orig[k]) ==> spec_image_3d_shiftable(orig[k])),
                r@.len() == Self::spec_valid_screens(orig.take(i as int)).len(),
                forall|k: int|
                    0 <= k < r@.len() ==> spec_device_built(
                        #[trigger] r@[k],
                        Self::spec_valid_screens(orig.take(i as int))[k],
                        spec_env_override(env_val),
                    ),
            decreases n - i,
        {
            let s = screens.remove(0);
            proof {
                assert(orig.skip(i as int)[0] == orig[i as int]);
                assert(orig.skip(i as int).subrange(1, orig.skip(i as int).len() as int)
                    =~= orig.skip(i as int + 1));
            }
            if let Some(d) = Device::new(s, env_val) {
                if d.is_valid() {
                    r.push(d);
                }
            }
            proof {
                assert(orig.take(i as int + 1).drop_last() =~= orig.take(i as int));
                assert(orig.take(i as int + 1).last() == orig[i as int]);
            }
            i = i + 1;
        }
        proof {
            assert(orig.take(orig.len() as int) =~= orig);
        }
        r
    }
}

/// Monotonic downgrade: a device whose extension list lacks the
/// 64-bit floating point extension never negotiates above level 1.1,
/// whatever its other capabilities report, as long as no explicit
/// override replaces the computed result.
pub proof fn lemma_no_fp64_caps_version(s: PipeScreen, embedded: bool, exts: Seq<Seq<char>>)
    requires
        !spec_has_ext(exts, "cl_khr_fp64"@),
    ensures
        spec_check_version(s, embedded, exts, None).spec_rank() <= CLVersion::Cl1_1.spec_rank(),
{
}

/// Whether a screen meets the discovery precondition: wherever the
/// version negotiator will expand the three-dimensional level count
/// by shifting — on an image-supporting screen of the embedded
/// profile — that count is in the shiftable range. Discovery
/// requires this of every screen; a caller holding raw descriptions
/// tests it here first.
pub fn screen_negotiable(s: &PipeScreen) -> (r: bool)
    ensures
        r == (spec_check_embedded(*s) && spec_image_supported(*s) ==> spec_image_3d_shiftable(*s)),
{
    let images = s.shader_param(
        pipe_shader_type::PIPE_SHADER_COMPUTE,
        pipe_shader_cap::PIPE_SHADER_CAP_MAX_SHADER_IMAGES,
    );
    let read_count = #[verifier::truncate] (s.shader_param(
        pipe_shader_type::PIPE_SHADER_COMPUTE,
        pipe_shader_cap::PIPE_SHADER_CAP_MAX_SAMPLER_VIEWS,
    ) as u32);
    let write_count = #[verifier::truncate] (images as u32);
    let size_2d = #[verifier::truncate] (s.param(pipe_cap::PIPE_CAP_MAX_TEXTURE_2D_SIZE) as usize);
    let img_sup = images != 0 && read_count >= 8 && write_count >= 8 && size_2d >= 2048;
    let samplers = #[verifier::truncate] (s.shader_param(
        pipe_shader_type::PIPE_SHADER_COMPUTE,
        pipe_shader_cap::PIPE_SHADER_CAP_MAX_TEXTURE_SAMPLERS,
    ) as u32);
    let array_size = #[verifier::truncate] (s.param(
        pipe_cap::PIPE_CAP_MAX_TEXTURE_ARRAY_LAYERS,
    ) as usize);
    let buffer_size = #[verifier::truncate] (s.param(
        pipe_cap::PIPE_CAP_MAX_TEXTURE_BUFFER_SIZE,
    ) as usize);
    let embedded = img_sup && (samplers < 16 || read_count < 128 || write_count < 64 || size_2d
        < 16384 || array_size < 2048 || buffer_size < 65536);
    let levels = s.param(pipe_cap::PIPE_CAP_MAX_TEXTURE_3D_LEVELS);
    !(embedded && img_sup) || (1 <= levels && levels <= 32)
}

/// A corollary for the devices this layer builds: their extension
/// list never holds the 64-bit floating point extension, so without
/// an override every discovered device negotiates at or below level
/// 1.1.
pub proof fn lemma_built_device_version_capped(d: Device, s: PipeScreen)
    requires
        spec_device_built(d, s, None),
    ensures
        d.cl_version.spec_rank() <= CLVersion::Cl1_1.spec_rank(),
{
    reveal_strlit("cl_khr_fp64");
    reveal_strlit("cl_khr_byte_addressable_store");
    assert(!spec_has_ext(seq![spec_base_ext_name()], "cl_khr_fp64"@)) by {
        assert("cl_khr_fp64"@.len() == 11);
        assert(spec_base_ext_name().len() == 29);
    }
    lemma_no_fp64_caps_version(s, spec_check_embedded(s), seq![spec_base_ext_name()]);
}

/// The externally visible device type of a screen given its custom
/// classification.
pub open spec fn spec_device_type(s: PipeScreen, custom: bool) -> cl_device_type {
    if custom {
        CL_DEVICE_TYPE_CUSTOM as cl_device_type
    } else {
        (match s.ldev.device_type {
            pipe_loader_device_type::PIPE_LOADER_DEVICE_SOFTWARE => CL_DEVICE_TYPE_CPU,
            pipe_loader_device_type::PIPE_LOADER_DEVICE_PCI => CL_DEVICE_TYPE_GPU
                | CL_DEVICE_TYPE_DEFAULT,
            pipe_loader_device_type::PIPE_LOADER_DEVICE_PLATFORM => CL_DEVICE_TYPE_GPU
                | CL_DEVICE_TYPE_DEFAULT,
            pipe_loader_device_type::NUM_PIPE_LOADER_DEVICE_TYPES => CL_DEVICE_TYPE_CUSTOM,
        }) as cl_device_type
    }
}

} // verus!
