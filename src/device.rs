use crate::error::Error;
use crate::info::InfoTable;
use vstd::prelude::*;

verus! {

pub const DEVICE_TYPE: u32 = 0x1000;
pub const DEVICE_VENDOR_ID: u32 = 0x1001;
pub const DEVICE_MAX_COMPUTE_UNITS: u32 = 0x1002;
pub const DEVICE_MAX_WORK_ITEM_DIMENSIONS: u32 = 0x1003;
pub const DEVICE_MAX_WORK_GROUP_SIZE: u32 = 0x1004;
pub const DEVICE_MAX_WORK_ITEM_SIZES: u32 = 0x1005;
pub const DEVICE_PREFERRED_VECTOR_WIDTH_CHAR: u32 = 0x1006;
pub const DEVICE_PREFERRED_VECTOR_WIDTH_SHORT: u32 = 0x1007;
pub const DEVICE_PREFERRED_VECTOR_WIDTH_INT: u32 = 0x1008;
pub const DEVICE_PREFERRED_VECTOR_WIDTH_LONG: u32 = 0x1009;
pub const DEVICE_PREFERRED_VECTOR_WIDTH_FLOAT: u32 = 0x100A;
pub const DEVICE_PREFERRED_VECTOR_WIDTH_DOUBLE: u32 = 0x100B;
pub const DEVICE_MAX_CLOCK_FREQUENCY: u32 = 0x100C;
pub const DEVICE_ADDRESS_BITS: u32 = 0x100D;
pub const DEVICE_MAX_READ_IMAGE_ARGS: u32 = 0x100E;
pub const DEVICE_MAX_WRITE_IMAGE_ARGS: u32 = 0x100F;
pub const DEVICE_MAX_MEM_ALLOC_SIZE: u32 = 0x1010;
pub const DEVICE_IMAGE2D_MAX_WIDTH: u32 = 0x1011;
pub const DEVICE_IMAGE2D_MAX_HEIGHT: u32 = 0x1012;
pub const DEVICE_IMAGE3D_MAX_WIDTH: u32 = 0x1013;
pub const DEVICE_IMAGE3D_MAX_HEIGHT: u32 = 0x1014;
pub const DEVICE_IMAGE3D_MAX_DEPTH: u32 = 0x1015;
pub const DEVICE_IMAGE_SUPPORT: u32 = 0x1016;
pub const DEVICE_MAX_PARAMETER_SIZE: u32 = 0x1017;
pub const DEVICE_MAX_SAMPLERS: u32 = 0x1018;
pub const DEVICE_MEM_BASE_ADDR_ALIGN: u32 = 0x1019;
pub const DEVICE_MIN_DATA_TYPE_ALIGN_SIZE: u32 = 0x101A;
pub const DEVICE_GLOBAL_MEM_CACHELINE_SIZE: u32 = 0x101D;
pub const DEVICE_GLOBAL_MEM_CACHE_SIZE: u32 = 0x101E;
pub const DEVICE_GLOBAL_MEM_SIZE: u32 = 0x101F;
pub const DEVICE_MAX_CONSTANT_BUFFER_SIZE: u32 = 0x1020;
pub const DEVICE_MAX_CONSTANT_ARGS: u32 = 0x1021;
pub const DEVICE_LOCAL_MEM_SIZE: u32 = 0x1023;
pub const DEVICE_ENDIAN_LITTLE: u32 = 0x1026;
pub const DEVICE_AVAILABLE: u32 = 0x1027;
pub const DEVICE_COMPILER_AVAILABLE: u32 = 0x1028;
pub const DEVICE_QUEUE_PROPERTIES: u32 = 0x102A;
pub const DEVICE_NAME: u32 = 0x102B;
pub const DEVICE_VENDOR: u32 = 0x102C;
pub const DEVICE_DRIVER_VERSION: u32 = 0x102D;
pub const DEVICE_PROFILE: u32 = 0x102E;
pub const DEVICE_VERSION: u32 = 0x102F;
pub const DEVICE_EXTENSIONS: u32 = 0x1030;
pub const DEVICE_PLATFORM: u32 = 0x1031;

/// The kinds of device the library knows.
#[derive(Debug, Clone, Copy, PartialEq, Eq, Structural)]
pub enum DeviceType {
    CPU,
    GPU,
    Accelerator,
}

/// The device type that the runtime reports as the bit field `code`.
pub open spec fn device_type_of(code: u64) -> Result<DeviceType, Error> {
    if code == 2 {
        Ok(DeviceType::CPU)
    } else if code == 4 {
        Ok(DeviceType::GPU)
    } else if code == 8 {
        Ok(DeviceType::Accelerator)
    } else {
        Err(Error::UnknownDeviceType(code))
    }
}

/// A compute device: its runtime handle and the runtime's answers to
/// capability queries about it.
pub struct Device {
    pub id: u64,
    pub info: InfoTable,
}

impl Device {
    /// The device with the handle `id` and the capability answers `info`.
    pub fn new(id: u64, info: InfoTable) -> (r: Device)
        ensures
            r.id == id,
            r.info == info,
    {
        Device { id, info }
    }

    /// The capability parameters the methods of a device read, in the order
    /// of their codes.
    pub fn queried_params() -> (r: Vec<u32>)
        ensures
            r@ == seq![DEVICE_TYPE, DEVICE_VENDOR_ID, DEVICE_MAX_COMPUTE_UNITS, DEVICE_MAX_WORK_ITEM_DIMENSIONS, DEVICE_MAX_WORK_GROUP_SIZE, DEVICE_MAX_WORK_ITEM_SIZES, DEVICE_PREFERRED_VECTOR_WIDTH_CHAR, DEVICE_PREFERRED_VECTOR_WIDTH_SHORT, DEVICE_PREFERRED_VECTOR_WIDTH_INT, DEVICE_PREFERRED_VECTOR_WIDTH_LONG, DEVICE_PREFERRED_VECTOR_WIDTH_FLOAT, DEVICE_PREFERRED_VECTOR_WIDTH_DOUBLE, DEVICE_MAX_CLOCK_FREQUENCY, DEVICE_ADDRESS_BITS, DEVICE_MAX_READ_IMAGE_ARGS, DEVICE_MAX_WRITE_IMAGE_ARGS, DEVICE_MAX_MEM_ALLOC_SIZE, DEVICE_IMAGE2D_MAX_WIDTH, DEVICE_IMAGE2D_MAX_HEIGHT, DEVICE_IMAGE3D_MAX_WIDTH, DEVICE_IMAGE3D_MAX_HEIGHT, DEVICE_IMAGE3D_MAX_DEPTH, DEVICE_IMAGE_SUPPORT, DEVICE_MAX_PARAMETER_SIZE, DEVICE_MAX_SAMPLERS, DEVICE_MEM_BASE_ADDR_ALIGN, DEVICE_MIN_DATA_TYPE_ALIGN_SIZE, DEVICE_GLOBAL_MEM_CACHELINE_SIZE, DEVICE_GLOBAL_MEM_CACHE_SIZE, DEVICE_GLOBAL_MEM_SIZE, DEVICE_MAX_CONSTANT_BUFFER_SIZE, DEVICE_MAX_CONSTANT_ARGS, DEVICE_LOCAL_MEM_SIZE, DEVICE_ENDIAN_LITTLE, DEVICE_AVAILABLE, DEVICE_COMPILER_AVAILABLE, DEVICE_QUEUE_PROPERTIES, DEVICE_NAME, DEVICE_VENDOR, DEVICE_DRIVER_VERSION, DEVICE_PROFILE, DEVICE_VERSION, DEVICE_EXTENSIONS, DEVICE_PLATFORM],
    {
        vec![DEVICE_TYPE, DEVICE_VENDOR_ID, DEVICE_MAX_COMPUTE_UNITS, DEVICE_MAX_WORK_ITEM_DIMENSIONS, DEVICE_MAX_WORK_GROUP_SIZE, DEVICE_MAX_WORK_ITEM_SIZES, DEVICE_PREFERRED_VECTOR_WIDTH_CHAR, DEVICE_PREFERRED_VECTOR_WIDTH_SHORT, DEVICE_PREFERRED_VECTOR_WIDTH_INT, DEVICE_PREFERRED_VECTOR_WIDTH_LONG, DEVICE_PREFERRED_VECTOR_WIDTH_FLOAT, DEVICE_PREFERRED_VECTOR_WIDTH_DOUBLE, DEVICE_MAX_CLOCK_FREQUENCY, DEVICE_ADDRESS_BITS, DEVICE_MAX_READ_IMAGE_ARGS, DEVICE_MAX_WRITE_IMAGE_ARGS, DEVICE_MAX_MEM_ALLOC_SIZE, DEVICE_IMAGE2D_MAX_WIDTH, DEVICE_IMAGE2D_MAX_HEIGHT, DEVICE_IMAGE3D_MAX_WIDTH, DEVICE_IMAGE3D_MAX_HEIGHT, DEVICE_IMAGE3D_MAX_DEPTH, DEVICE_IMAGE_SUPPORT, DEVICE_MAX_PARAMETER_SIZE, DEVICE_MAX_SAMPLERS, DEVICE_MEM_BASE_ADDR_ALIGN, DEVICE_MIN_DATA_TYPE_ALIGN_SIZE, DEVICE_GLOBAL_MEM_CACHELINE_SIZE, DEVICE_GLOBAL_MEM_CACHE_SIZE, DEVICE_GLOBAL_MEM_SIZE, DEVICE_MAX_CONSTANT_BUFFER_SIZE, DEVICE_MAX_CONSTANT_ARGS, DEVICE_LOCAL_MEM_SIZE, DEVICE_ENDIAN_LITTLE, DEVICE_AVAILABLE, DEVICE_COMPILER_AVAILABLE, DEVICE_QUEUE_PROPERTIES, DEVICE_NAME, DEVICE_VENDOR, DEVICE_DRIVER_VERSION, DEVICE_PROFILE, DEVICE_VERSION, DEVICE_EXTENSIONS, DEVICE_PLATFORM]
    }

    pub fn device_type(&self) -> (r: Result<DeviceType, Error>)
        ensures
            r == match self.info.u64_answer(DEVICE_TYPE) {
                Ok(code) => device_type_of(code),
                Err(e) => Err(e),
            },
    {
        let code = self.info.get_u64(DEVICE_TYPE)?;
        match code {
            2 => Ok(DeviceType::CPU),
            4 => Ok(DeviceType::GPU),
            8 => Ok(DeviceType::Accelerator),
            _ => Err(Error::UnknownDeviceType(code)),
        }
    }

    pub fn vendor_id(&self) -> (r: Result<u32, Error>)
        ensures
            r == self.info.u32_answer(DEVICE_VENDOR_ID),
    {
        self.info.get_u32(DEVICE_VENDOR_ID)
    }

    pub fn max_compute_units(&self) -> (r: Result<u32, Error>)
        ensures
            r == self.info.u32_answer(DEVICE_MAX_COMPUTE_UNITS),
    {
        self.info.get_u32(DEVICE_MAX_COMPUTE_UNITS)
    }

    pub fn max_work_item_dimensions(&self) -> (r: Result<u32, Error>)
        ensures
            r == self.info.u32_answer(DEVICE_MAX_WORK_ITEM_DIMENSIONS),
    {
        self.info.get_u32(DEVICE_MAX_WORK_ITEM_DIMENSIONS)
    }

    pub fn max_work_group_size(&self) -> (r: Result<usize, Error>)
        ensures
            r == self.info.usize_answer(DEVICE_MAX_WORK_GROUP_SIZE),
    {
        self.info.get_usize(DEVICE_MAX_WORK_GROUP_SIZE)
    }

    pub fn max_work_item_sizes(&self) -> (r: Result<Vec<usize>, Error>)
        ensures
            match self.info.sizes_answer(DEVICE_MAX_WORK_ITEM_SIZES) {
                Ok(s) => r matches Ok(v) && v@ == s,
                Err(e) => r matches Err(x) && x == e,
            },
    {
        self.info.get_sizes(DEVICE_MAX_WORK_ITEM_SIZES)
    }

    pub fn preferred_vector_width_char(&self) -> (r: Result<u32, Error>)
        ensures
            r == self.info.u32_answer(DEVICE_PREFERRED_VECTOR_WIDTH_CHAR),
    {
        self.info.get_u32(DEVICE_PREFERRED_VECTOR_WIDTH_CHAR)
    }

    pub fn preferred_vector_width_short(&self) -> (r: Result<u32, Error>)
        ensures
            r == self.info.u32_answer(DEVICE_PREFERRED_VECTOR_WIDTH_SHORT),
    {
        self.info.get_u32(DEVICE_PREFERRED_VECTOR_WIDTH_SHORT)
    }

    pub fn preferred_vector_width_int(&self) -> (r: Result<u32, Error>)
        ensures
            r == self.info.u32_answer(DEVICE_PREFERRED_VECTOR_WIDTH_INT),
    {
        self.info.get_u32(DEVICE_PREFERRED_VECTOR_WIDTH_INT)
    }

    pub fn preferred_vector_width_long(&self) -> (r: Result<u32, Error>)
        ensures
            r == self.info.u32_answer(DEVICE_PREFERRED_VECTOR_WIDTH_LONG),
    {
        self.info.get_u32(DEVICE_PREFERRED_VECTOR_WIDTH_LONG)
    }

    pub fn preferred_vector_width_float(&self) -> (r: Result<u32, Error>)
        ensures
            r == self.info.u32_answer(DEVICE_PREFERRED_VECTOR_WIDTH_FLOAT),
    {
        self.info.get_u32(DEVICE_PREFERRED_VECTOR_WIDTH_FLOAT)
    }

    pub fn preferred_vector_width_double(&self) -> (r: Result<u32, Error>)
        ensures
            r == self.info.u32_answer(DEVICE_PREFERRED_VECTOR_WIDTH_DOUBLE),
    {
        self.info.get_u32(DEVICE_PREFERRED_VECTOR_WIDTH_DOUBLE)
    }

    pub fn max_clock_frequency(&self) -> (r: Result<u32, Error>)
        ensures
            r == self.info.u32_answer(DEVICE_MAX_CLOCK_FREQUENCY),
    {
        self.info.get_u32(DEVICE_MAX_CLOCK_FREQUENCY)
    }

    pub fn address_bits(&self) -> (r: Result<u32, Error>)
        ensures
            r == self.info.u32_answer(DEVICE_ADDRESS_BITS),
    {
        self.info.get_u32(DEVICE_ADDRESS_BITS)
    }

    pub fn max_read_image_args(&self) -> (r: Result<u32, Error>)
        ensures
            r == self.info.u32_answer(DEVICE_MAX_READ_IMAGE_ARGS),
    {
        self.info.get_u32(DEVICE_MAX_READ_IMAGE_ARGS)
    }

    pub fn max_write_image_args(&self) -> (r: Result<u32, Error>)
        ensures
            r == self.info.u32_answer(DEVICE_MAX_WRITE_IMAGE_ARGS),
    {
        self.info.get_u32(DEVICE_MAX_WRITE_IMAGE_ARGS)
    }

    pub fn max_mem_alloc_size(&self) -> (r: Result<usize, Error>)
        ensures
            r == self.info.usize_answer(DEVICE_MAX_MEM_ALLOC_SIZE),
    {
        self.info.get_usize(DEVICE_MAX_MEM_ALLOC_SIZE)
    }

    pub fn image2d_max_width(&self) -> (r: Result<usize, Error>)
        ensures
            r == self.info.usize_answer(DEVICE_IMAGE2D_MAX_WIDTH),
    {
        self.info.get_usize(DEVICE_IMAGE2D_MAX_WIDTH)
    }

    pub fn image2d_max_height(&self) -> (r: Result<usize, Error>)
        ensures
            r == self.info.usize_answer(DEVICE_IMAGE2D_MAX_HEIGHT),
    {
        self.info.get_usize(DEVICE_IMAGE2D_MAX_HEIGHT)
    }

    pub fn image3d_max_width(&self) -> (r: Result<usize, Error>)
        ensures
            r == self.info.usize_answer(DEVICE_IMAGE3D_MAX_WIDTH),
    {
        self.info.get_usize(DEVICE_IMAGE3D_MAX_WIDTH)
    }

    pub fn image3d_max_height(&self) -> (r: Result<usize, Error>)
        ensures
            r == self.info.usize_answer(DEVICE_IMAGE3D_MAX_HEIGHT),
    {
        self.info.get_usize(DEVICE_IMAGE3D_MAX_HEIGHT)
    }

    pub fn image3d_max_depth(&self) -> (r: Result<usize, Error>)
        ensures
            r == self.info.usize_answer(DEVICE_IMAGE3D_MAX_DEPTH),
    {
        self.info.get_usize(DEVICE_IMAGE3D_MAX_DEPTH)
    }

    pub fn image_support(&self) -> (r: Result<bool, Error>)
        ensures
            r == self.info.bool_answer(DEVICE_IMAGE_SUPPORT),
    {
        self.info.get_bool(DEVICE_IMAGE_SUPPORT)
    }

    pub fn max_parameter_size(&self) -> (r: Result<usize, Error>)
        ensures
            r == self.info.usize_answer(DEVICE_MAX_PARAMETER_SIZE),
    {
        self.info.get_usize(DEVICE_MAX_PARAMETER_SIZE)
    }

    pub fn max_samplers(&self) -> (r: Result<u32, Error>)
        ensures
            r == self.info.u32_answer(DEVICE_MAX_SAMPLERS),
    {
        self.info.get_u32(DEVICE_MAX_SAMPLERS)
    }

    pub fn mem_base_addr_align(&self) -> (r: Result<u32, Error>)
        ensures
            r == self.info.u32_answer(DEVICE_MEM_BASE_ADDR_ALIGN),
    {
        self.info.get_u32(DEVICE_MEM_BASE_ADDR_ALIGN)
    }

    pub fn min_data_type_align_size(&self) -> (r: Result<u32, Error>)
        ensures
            r == self.info.u32_answer(DEVICE_MIN_DATA_TYPE_ALIGN_SIZE),
    {
        self.info.get_u32(DEVICE_MIN_DATA_TYPE_ALIGN_SIZE)
    }

    pub fn global_mem_cacheline_size(&self) -> (r: Result<u32, Error>)
        ensures
            r == self.info.u32_answer(DEVICE_GLOBAL_MEM_CACHELINE_SIZE),
    {
        self.info.get_u32(DEVICE_GLOBAL_MEM_CACHELINE_SIZE)
    }

    pub fn global_mem_cache_size(&self) -> (r: Result<usize, Error>)
        ensures
            r == self.info.usize_answer(DEVICE_GLOBAL_MEM_CACHE_SIZE),
    {
        self.info.get_usize(DEVICE_GLOBAL_MEM_CACHE_SIZE)
    }

    pub fn global_mem_size(&self) -> (r: Result<usize, Error>)
        ensures
            r == self.info.usize_answer(DEVICE_GLOBAL_MEM_SIZE),
    {
        self.info.get_usize(DEVICE_GLOBAL_MEM_SIZE)
    }

    pub fn max_constant_buffer_size(&self) -> (r: Result<usize, Error>)
        ensures
            r == self.info.usize_answer(DEVICE_MAX_CONSTANT_BUFFER_SIZE),
    {
        self.info.get_usize(DEVICE_MAX_CONSTANT_BUFFER_SIZE)
    }

    pub fn max_constant_args(&self) -> (r: Result<u32, Error>)
        ensures
            r == self.info.u32_answer(DEVICE_MAX_CONSTANT_ARGS),
    {
        self.info.get_u32(DEVICE_MAX_CONSTANT_ARGS)
    }

    pub fn local_mem_size(&self) -> (r: Result<usize, Error>)
        ensures
            r == self.info.usize_answer(DEVICE_LOCAL_MEM_SIZE),
    {
        self.info.get_usize(DEVICE_LOCAL_MEM_SIZE)
    }

    pub fn endian_little(&self) -> (r: Result<bool, Error>)
        ensures
            r == self.info.bool_answer(DEVICE_ENDIAN_LITTLE),
    {
        self.info.get_bool(DEVICE_ENDIAN_LITTLE)
    }

    pub fn available(&self) -> (r: Result<bool, Error>)
        ensures
            r == self.info.bool_answer(DEVICE_AVAILABLE),
    {
        self.info.get_bool(DEVICE_AVAILABLE)
    }

    pub fn compiler_available(&self) -> (r: Result<bool, Error>)
        ensures
            r == self.info.bool_answer(DEVICE_COMPILER_AVAILABLE),
    {
        self.info.get_bool(DEVICE_COMPILER_AVAILABLE)
    }

    /// Whether the device can run the commands of one queue out of order.
    pub fn out_of_order_supported(&self) -> (r: Result<bool, Error>)
        ensures
            r == match self.info.u64_answer(DEVICE_QUEUE_PROPERTIES) {
                Ok(v) => Ok::<bool, Error>(v % 2 == 1),
                Err(e) => Err(e),
            },
    {
        let v = self.info.get_u64(DEVICE_QUEUE_PROPERTIES)?;
        Ok(v % 2 == 1)
    }

    pub fn name(&self) -> (r: Result<String, Error>)
        ensures
            match self.info.text_answer(DEVICE_NAME) {
                Ok(s) => r matches Ok(t) && t@ == s,
                Err(e) => r matches Err(x) && x == e,
            },
    {
        self.info.get_text(DEVICE_NAME)
    }

    pub fn vendor(&self) -> (r: Result<String, Error>)
        ensures
            match self.info.text_answer(DEVICE_VENDOR) {
                Ok(s) => r matches Ok(t) && t@ == s,
                Err(e) => r matches Err(x) && x == e,
            },
    {
        self.info.get_text(DEVICE_VENDOR)
    }

    pub fn driver_version(&self) -> (r: Result<String, Error>)
        ensures
            match self.info.text_answer(DEVICE_DRIVER_VERSION) {
                Ok(s) => r matches Ok(t) && t@ == s,
                Err(e) => r matches Err(x) && x == e,
            },
    {
        self.info.get_text(DEVICE_DRIVER_VERSION)
    }

    pub fn profile(&self) -> (r: Result<String, Error>)
        ensures
            match self.info.text_answer(DEVICE_PROFILE) {
                Ok(s) => r matches Ok(t) && t@ == s,
                Err(e) => r matches Err(x) && x == e,
            },
    {
        self.info.get_text(DEVICE_PROFILE)
    }

    pub fn version(&self) -> (r: Result<String, Error>)
        ensures
            match self.info.text_answer(DEVICE_VERSION) {
                Ok(s) => r matches Ok(t) && t@ == s,
                Err(e) => r matches Err(x) && x == e,
            },
    {
        self.info.get_text(DEVICE_VERSION)
    }

    pub fn extensions(&self) -> (r: Result<String, Error>)
        ensures
            match self.info.text_answer(DEVICE_EXTENSIONS) {
                Ok(s) => r matches Ok(t) && t@ == s,
                Err(e) => r matches Err(x) && x == e,
            },
    {
        self.info.get_text(DEVICE_EXTENSIONS)
    }

    /// The handle of the platform the device belongs to.
    pub fn platform(&self) -> (r: Result<u64, Error>)
        ensures
            r == self.info.u64_answer(DEVICE_PLATFORM),
    {
        self.info.get_u64(DEVICE_PLATFORM)
    }
}

} // verus!
