//! A plain-value model of the underlying compute-capable device: the
//! named numeric and string limits that a native screen reports, and
//! the capability-query interface the aggregator reads. Probing the
//! native loader and creating the screen itself are outside
//! collaborators; they hand this module one description per device.
#![allow(non_camel_case_types)]

use vstd::prelude::*;

verus! {

#[derive(Clone, Copy, Debug, PartialEq, Eq, Structural)]
pub enum pipe_cap {
    PIPE_CAP_COMPUTE,
    PIPE_CAP_MAX_TEXTURE_2D_SIZE,
    PIPE_CAP_MAX_TEXTURE_3D_LEVELS,
    PIPE_CAP_MAX_TEXTURE_ARRAY_LAYERS,
    PIPE_CAP_MAX_TEXTURE_BUFFER_SIZE,
    PIPE_CAP_ENDIANNESS,
    PIPE_CAP_VENDOR_ID,
    PIPE_CAP_UMA,
}

#[derive(Clone, Copy, Debug, PartialEq, Eq, Structural)]
pub enum pipe_shader_cap {
    PIPE_SHADER_CAP_SUPPORTED_IRS,
    PIPE_SHADER_CAP_MAX_CONST_BUFFER_SIZE,
    PIPE_SHADER_CAP_MAX_SAMPLER_VIEWS,
    PIPE_SHADER_CAP_MAX_SHADER_IMAGES,
    PIPE_SHADER_CAP_MAX_TEXTURE_SAMPLERS,
}

#[derive(Clone, Copy, Debug, PartialEq, Eq, Structural)]
pub enum pipe_compute_cap {
    PIPE_COMPUTE_CAP_ADDRESS_BITS,
    PIPE_COMPUTE_CAP_MAX_CLOCK_FREQUENCY,
    PIPE_COMPUTE_CAP_MAX_COMPUTE_UNITS,
    PIPE_COMPUTE_CAP_MAX_GLOBAL_SIZE,
    PIPE_COMPUTE_CAP_MAX_LOCAL_SIZE,
    PIPE_COMPUTE_CAP_MAX_MEM_ALLOC_SIZE,
    PIPE_COMPUTE_CAP_GRID_DIMENSION,
    PIPE_COMPUTE_CAP_MAX_THREADS_PER_BLOCK,
    PIPE_COMPUTE_CAP_MAX_INPUT_SIZE,
    PIPE_COMPUTE_CAP_MAX_BLOCK_SIZE,
}

#[derive(Clone, Copy, Debug, PartialEq, Eq, Structural)]
pub enum pipe_shader_type {
    PIPE_SHADER_VERTEX,
    PIPE_SHADER_FRAGMENT,
    PIPE_SHADER_GEOMETRY,
    PIPE_SHADER_TESS_CTRL,
    PIPE_SHADER_TESS_EVAL,
    PIPE_SHADER_COMPUTE,
}

#[derive(Clone, Copy, Debug, PartialEq, Eq, Structural)]
pub enum pipe_shader_ir {
    PIPE_SHADER_IR_TGSI,
    PIPE_SHADER_IR_NATIVE,
    PIPE_SHADER_IR_NIR,
    PIPE_SHADER_IR_NIR_SERIALIZED,
}

impl pipe_shader_ir {
    /// The numeric value of this representation in the external
    /// enumeration; supported representations are reported as a
    /// bitmask of these positions.
    pub open spec fn spec_ordinal(self) -> i32 {
        match self {
            pipe_shader_ir::PIPE_SHADER_IR_TGSI => 0,
            pipe_shader_ir::PIPE_SHADER_IR_NATIVE => 1,
            pipe_shader_ir::PIPE_SHADER_IR_NIR => 2,
            pipe_shader_ir::PIPE_SHADER_IR_NIR_SERIALIZED => 3,
        }
    }

    pub fn ordinal(self) -> (r: i32)
        ensures
            r == self.spec_ordinal(),
    {
        match self {
            pipe_shader_ir::PIPE_SHADER_IR_TGSI => 0,
            pipe_shader_ir::PIPE_SHADER_IR_NATIVE => 1,
            pipe_shader_ir::PIPE_SHADER_IR_NIR => 2,
            pipe_shader_ir::PIPE_SHADER_IR_NIR_SERIALIZED => 3,
        }
    }
}

#[derive(Clone, Copy, Debug, PartialEq, Eq, Structural)]
pub enum pipe_endian {
    PIPE_ENDIAN_LITTLE,
    PIPE_ENDIAN_BIG,
}

impl pipe_endian {
    /// The numeric value of this byte order in the external
    /// enumeration.
    pub open spec fn spec_value(self) -> i32 {
        match self {
            pipe_endian::PIPE_ENDIAN_LITTLE => 0,
            pipe_endian::PIPE_ENDIAN_BIG => 1,
        }
    }

    pub fn value(self) -> (r: i32)
        ensures
            r == self.spec_value(),
    {
        match self {
            pipe_endian::PIPE_ENDIAN_LITTLE => 0,
            pipe_endian::PIPE_ENDIAN_BIG => 1,
        }
    }
}

#[derive(Clone, Copy, Debug, PartialEq, Eq, Structural)]
pub enum pipe_loader_device_type {
    PIPE_LOADER_DEVICE_SOFTWARE,
    PIPE_LOADER_DEVICE_PCI,
    PIPE_LOADER_DEVICE_PLATFORM,
    NUM_PIPE_LOADER_DEVICE_TYPES,
}

/// One probed loader device; what kind of device the native loader
/// reported it to be.
#[derive(Clone, Copy, Debug, PartialEq, Eq, Structural)]
pub struct PipeLoaderDevice {
    pub device_type: pipe_loader_device_type,
}

impl PipeLoaderDevice {
    pub fn new(device_type: pipe_loader_device_type) -> (r: Self)
        ensures
            r.device_type == device_type,
    {
        Self { device_type }
    }
}

/// What a created native screen reports: which of the required entry
/// points it implements, its identification strings, and its raw
/// numeric limits.
pub struct ScreenDesc {
    pub has_destroy: bool,
    pub has_get_compute_param: bool,
    pub has_get_name: bool,
    pub has_get_param: bool,
    pub has_get_shader_param: bool,
    pub name: String,
    pub device_vendor: String,
    pub compute: i32,
    pub max_texture_2d_size: i32,
    pub max_texture_3d_levels: i32,
    pub max_texture_array_layers: i32,
    pub max_texture_buffer_size: i32,
    pub endianness: i32,
    pub vendor_id: i32,
    pub uma: i32,
    pub supported_irs: i32,
    pub max_const_buffer_size: i32,
    pub max_sampler_views: i32,
    pub max_shader_images: i32,
    pub max_texture_samplers: i32,
    pub address_bits: u32,
    pub max_clock_frequency: u32,
    pub max_compute_units: u32,
    pub max_global_size: u64,
    pub max_local_size: u64,
    pub max_mem_alloc_size: u64,
    pub grid_dimension: u64,
    pub max_threads_per_block: u64,
    pub max_input_size: u64,
    pub max_block_size: Vec<u64>,
}

/// Whether a screen implements every entry point this layer relies
/// on; one that does not is discarded at discovery.
pub open spec fn spec_has_required_cbs(s: ScreenDesc) -> bool {
    s.has_destroy && s.has_get_compute_param && s.has_get_name && s.has_get_param
        && s.has_get_shader_param
}

pub fn has_required_cbs(s: &ScreenDesc) -> (r: bool)
    ensures
        r == spec_has_required_cbs(*s),
{
    s.has_destroy && s.has_get_compute_param && s.has_get_name && s.has_get_param
        && s.has_get_shader_param
}

/// A usable screen: a loader device together with the description its
/// created native screen reported.
pub struct PipeScreen {
    pub ldev: PipeLoaderDevice,
    pub screen: ScreenDesc,
}

/// A capability query with a typed result; the width of the reply
/// decides which instance answers it.
pub trait ComputeParam<T> {
    spec fn compute_param_req(&self, cap: pipe_compute_cap) -> bool;

    spec fn compute_param_ens(&self, cap: pipe_compute_cap, r: T) -> bool;

    fn compute_param(&self, cap: pipe_compute_cap) -> (r: T)
        requires
            self.compute_param_req(cap),
        ensures
            self.compute_param_ens(cap, r),
    ;
}

impl ComputeParam<u32> for PipeScreen {
    /// The four-byte compute limits.
    open spec fn compute_param_req(&self, cap: pipe_compute_cap) -> bool {
        match cap {
            pipe_compute_cap::PIPE_COMPUTE_CAP_ADDRESS_BITS => true,
            pipe_compute_cap::PIPE_COMPUTE_CAP_MAX_CLOCK_FREQUENCY => true,
            pipe_compute_cap::PIPE_COMPUTE_CAP_MAX_COMPUTE_UNITS => true,
            _ => false,
        }
    }

    open spec fn compute_param_ens(&self, cap: pipe_compute_cap, r: u32) -> bool {
        r == match cap {
            pipe_compute_cap::PIPE_COMPUTE_CAP_ADDRESS_BITS => self.screen.address_bits,
            pipe_compute_cap::PIPE_COMPUTE_CAP_MAX_CLOCK_FREQUENCY => self.screen.max_clock_frequency,
            pipe_compute_cap::PIPE_COMPUTE_CAP_MAX_COMPUTE_UNITS => self.screen.max_compute_units,
            _ => 0u32,
        }
    }

    fn compute_param(&self, cap: pipe_compute_cap) -> (r: u32) {
        match cap {
            pipe_compute_cap::PIPE_COMPUTE_CAP_ADDRESS_BITS => self.screen.address_bits,
            pipe_compute_cap::PIPE_COMPUTE_CAP_MAX_CLOCK_FREQUENCY => self.screen.max_clock_frequency,
            pipe_compute_cap::PIPE_COMPUTE_CAP_MAX_COMPUTE_UNITS => self.screen.max_compute_units,
            _ => 0,
        }
    }
}

impl ComputeParam<u64> for PipeScreen {
    /// The eight-byte compute limits.
    open spec fn compute_param_req(&self, cap: pipe_compute_cap) -> bool {
        match cap {
            pipe_compute_cap::PIPE_COMPUTE_CAP_MAX_GLOBAL_SIZE => true,
            pipe_compute_cap::PIPE_COMPUTE_CAP_MAX_LOCAL_SIZE => true,
            pipe_compute_cap::PIPE_COMPUTE_CAP_MAX_MEM_ALLOC_SIZE => true,
            pipe_compute_cap::PIPE_COMPUTE_CAP_GRID_DIMENSION => true,
            pipe_compute_cap::PIPE_COMPUTE_CAP_MAX_THREADS_PER_BLOCK => true,
            pipe_compute_cap::PIPE_COMPUTE_CAP_MAX_INPUT_SIZE => true,
            _ => false,
        }
    }

    open spec fn compute_param_ens(&self, cap: pipe_compute_cap, r: u64) -> bool {
        r == match cap {
            pipe_compute_cap::PIPE_COMPUTE_CAP_MAX_GLOBAL_SIZE => self.screen.max_global_size,
            pipe_compute_cap::PIPE_COMPUTE_CAP_MAX_LOCAL_SIZE => self.screen.max_local_size,
            pipe_compute_cap::PIPE_COMPUTE_CAP_MAX_MEM_ALLOC_SIZE => self.screen.max_mem_alloc_size,
            pipe_compute_cap::PIPE_COMPUTE_CAP_GRID_DIMENSION => self.screen.grid_dimension,
            pipe_compute_cap::PIPE_COMPUTE_CAP_MAX_THREADS_PER_BLOCK => self.screen.max_threads_per_block,
            pipe_compute_cap::PIPE_COMPUTE_CAP_MAX_INPUT_SIZE => self.screen.max_input_size,
            _ => 0u64,
        }
    }

    fn compute_param(&self, cap: pipe_compute_cap) -> (r: u64) {
        match cap {
            pipe_compute_cap::PIPE_COMPUTE_CAP_MAX_GLOBAL_SIZE => self.screen.max_global_size,
            pipe_compute_cap::PIPE_COMPUTE_CAP_MAX_LOCAL_SIZE => self.screen.max_local_size,
            pipe_compute_cap::PIPE_COMPUTE_CAP_MAX_MEM_ALLOC_SIZE => self.screen.max_mem_alloc_size,
            pipe_compute_cap::PIPE_COMPUTE_CAP_GRID_DIMENSION => self.screen.grid_dimension,
            pipe_compute_cap::PIPE_COMPUTE_CAP_MAX_THREADS_PER_BLOCK => self.screen.max_threads_per_block,
            pipe_compute_cap::PIPE_COMPUTE_CAP_MAX_INPUT_SIZE => self.screen.max_input_size,
            _ => 0,
        }
    }
}

impl ComputeParam<Vec<u64>> for PipeScreen {
    /// The array-valued compute limits.
    open spec fn compute_param_req(&self, cap: pipe_compute_cap) -> bool {
        cap == pipe_compute_cap::PIPE_COMPUTE_CAP_MAX_BLOCK_SIZE
    }

    open spec fn compute_param_ens(&self, cap: pipe_compute_cap, r: Vec<u64>) -> bool {
        r@ == self.screen.max_block_size@
    }

    fn compute_param(&self, cap: pipe_compute_cap) -> (r: Vec<u64>) {
        let mut r: Vec<u64> = Vec::new();
        let mut i: usize = 0;
        while i < self.screen.max_block_size.len()
            invariant
                i <= self.screen.max_block_size.len(),
                r@ == self.screen.max_block_size@.take(i as int),
            decreases self.screen.max_block_size.len() - i,
        {
            r.push(self.screen.max_block_size[i]);
            proof {
                assert(self.screen.max_block_size@.take(i + 1) =~= self.screen.max_block_size@.take(
                    i as int,
                ).push(self.screen.max_block_size@[i as int]));
            }
            i = i + 1;
        }
        proof {
            assert(r@ =~= self.screen.max_block_size@);
        }
        r
    }
}

impl PipeScreen {
    /// A screen handed over by the loader becomes usable only when it
    /// was created at all and implements the required entry points.
    pub fn new(ldev: PipeLoaderDevice, screen: Option<ScreenDesc>) -> (r: Option<Self>)
        ensures
            ({
                match screen {
                    None => r is None,
                    Some(s) => if spec_has_required_cbs(s) {
                        r matches Some(ps) && ps.ldev == ldev && ps.screen == s
                    } else {
                        r is None
                    },
                }
            }),
    {
        match screen {
            None => None,
            Some(s) => {
                if has_required_cbs(&s) {
                    Some(Self { ldev, screen: s })
                } else {
                    None
                }
            },
        }
    }

    /// The raw value of a named screen limit.
    pub fn param(&self, cap: pipe_cap) -> (r: i32)
        ensures
            r == self.spec_param(cap),
    {
        match cap {
            pipe_cap::PIPE_CAP_COMPUTE => self.screen.compute,
            pipe_cap::PIPE_CAP_MAX_TEXTURE_2D_SIZE => self.screen.max_texture_2d_size,
            pipe_cap::PIPE_CAP_MAX_TEXTURE_3D_LEVELS => self.screen.max_texture_3d_levels,
            pipe_cap::PIPE_CAP_MAX_TEXTURE_ARRAY_LAYERS => self.screen.max_texture_array_layers,
            pipe_cap::PIPE_CAP_MAX_TEXTURE_BUFFER_SIZE => self.screen.max_texture_buffer_size,
            pipe_cap::PIPE_CAP_ENDIANNESS => self.screen.endianness,
            pipe_cap::PIPE_CAP_VENDOR_ID => self.screen.vendor_id,
            pipe_cap::PIPE_CAP_UMA => self.screen.uma,
        }
    }

    pub open spec fn spec_param(&self, cap: pipe_cap) -> i32 {
        match cap {
            pipe_cap::PIPE_CAP_COMPUTE => self.screen.compute,
            pipe_cap::PIPE_CAP_MAX_TEXTURE_2D_SIZE => self.screen.max_texture_2d_size,
            pipe_cap::PIPE_CAP_MAX_TEXTURE_3D_LEVELS => self.screen.max_texture_3d_levels,
            pipe_cap::PIPE_CAP_MAX_TEXTURE_ARRAY_LAYERS => self.screen.max_texture_array_layers,
            pipe_cap::PIPE_CAP_MAX_TEXTURE_BUFFER_SIZE => self.screen.max_texture_buffer_size,
            pipe_cap::PIPE_CAP_ENDIANNESS => self.screen.endianness,
            pipe_cap::PIPE_CAP_VENDOR_ID => self.screen.vendor_id,
            pipe_cap::PIPE_CAP_UMA => self.screen.uma,
        }
    }

    /// The raw value of a named per-shader limit. Only the compute
    /// shader's limits are modelled here; they are the only ones this
    /// layer reads.
    pub fn shader_param(&self, t: pipe_shader_type, cap: pipe_shader_cap) -> (r: i32)
        requires
            t == pipe_shader_type::PIPE_SHADER_COMPUTE,
        ensures
            r == self.spec_shader_param(cap),
    {
        match cap {
            pipe_shader_cap::PIPE_SHADER_CAP_SUPPORTED_IRS => self.screen.supported_irs,
            pipe_shader_cap::PIPE_SHADER_CAP_MAX_CONST_BUFFER_SIZE => self.screen.max_const_buffer_size,
            pipe_shader_cap::PIPE_SHADER_CAP_MAX_SAMPLER_VIEWS => self.screen.max_sampler_views,
            pipe_shader_cap::PIPE_SHADER_CAP_MAX_SHADER_IMAGES => self.screen.max_shader_images,
            pipe_shader_cap::PIPE_SHADER_CAP_MAX_TEXTURE_SAMPLERS => self.screen.max_texture_samplers,
        }
    }

    pub open spec fn spec_shader_param(&self, cap: pipe_shader_cap) -> i32 {
        match cap {
            pipe_shader_cap::PIPE_SHADER_CAP_SUPPORTED_IRS => self.screen.supported_irs,
            pipe_shader_cap::PIPE_SHADER_CAP_MAX_CONST_BUFFER_SIZE => self.screen.max_const_buffer_size,
            pipe_shader_cap::PIPE_SHADER_CAP_MAX_SAMPLER_VIEWS => self.screen.max_sampler_views,
            pipe_shader_cap::PIPE_SHADER_CAP_MAX_SHADER_IMAGES => self.screen.max_shader_images,
            pipe_shader_cap::PIPE_SHADER_CAP_MAX_TEXTURE_SAMPLERS => self.screen.max_texture_samplers,
        }
    }

    /// The device name the screen reports.
    pub fn name(&self) -> (r: String)
        ensures
            r@ == self.screen.name@,
    {
        self.screen.name.clone()
    }

    /// The vendor name the screen reports.
    pub fn device_vendor(&self) -> (r: String)
        ensures
            r@ == self.screen.device_vendor@,
    {
        self.screen.device_vendor.clone()
    }

    /// What kind of device the loader reported.
    pub fn device_type(&self) -> (r: pipe_loader_device_type)
        ensures
            r == self.ldev.device_type,
    {
        self.ldev.device_type
    }
}

/// The screens of the probed devices that created a usable native
/// screen, in probing order.
pub open spec fn spec_load_screens(devs: Seq<(PipeLoaderDevice, Option<ScreenDesc>)>) -> Seq<
    PipeScreen,
>
    decreases devs.len(),
{
    if devs.len() == 0 {
        Seq::empty()
    } else {
        let rest = spec_load_screens(devs.drop_last());
        let (ldev, screen) = devs.last();
        match screen {
            None => rest,
            Some(s) => if spec_has_required_cbs(s) {
                rest.push(PipeScreen { ldev, screen: s })
            } else {
                rest
            },
        }
    }
}

/// Turns the probed devices, with what screen creation reported for
/// each, into the usable screens, keeping their order.
pub fn load_screens(devs: Vec<(PipeLoaderDevice, Option<ScreenDesc>)>) -> (r: Vec<PipeScreen>)
    ensures
        r@ == spec_load_screens(devs@),
{
    let ghost orig = devs@;
    let n = devs.len();
    let mut devs = devs;
    let mut r: Vec<PipeScreen> = Vec::new();
    let mut i: usize = 0;
    while i < n
        invariant
            i <= n,
            n == orig.len(),
            i + devs.len() == orig.len(),
            devs@ == orig.skip(i as int),
            r@ == spec_load_screens(orig.take(i as int)),
        decreases devs.len(),
    {
        let (ldev, screen) = devs.remove(0);
        proof {
            assert(orig.skip(i as int)[0] == orig[i as int]);
            assert(orig.skip(i as int).subrange(1, orig.skip(i as int).len() as int) =~= orig.skip(
                i as int + 1,
            ));
        }
        if let Some(ps) = PipeScreen::new(ldev, screen) {
            r.push(ps);
        }
        proof {
            assert(orig.take(i as int + 1).drop_last() =~= orig.take(i as int));
            assert(orig.take(i as int + 1).last() == orig[i as int]);
        }
        i = i + 1;
    }
    proof {
        assert(orig.take(orig.len() as int) =~= orig);
    }
    r
}

} // verus!
