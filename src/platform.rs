use crate::error::Error;
use crate::info::InfoTable;
use vstd::prelude::*;

verus! {

pub const PLATFORM_PROFILE: u32 = 0x0900;
pub const PLATFORM_VERSION: u32 = 0x0901;
pub const PLATFORM_NAME: u32 = 0x0902;
pub const PLATFORM_VENDOR: u32 = 0x0903;
pub const PLATFORM_EXTENSIONS: u32 = 0x0904;

/// A platform of the runtime: its handle and the runtime's answers to
/// queries about it.
pub struct Platform {
    pub id: u64,
    pub info: InfoTable,
}

impl Platform {
    /// The platform with the handle `id` and the answers `info`.
    pub fn new(id: u64, info: InfoTable) -> (r: Platform)
        ensures
            r.id == id,
            r.info == info,
    {
        Platform { id, info }
    }

    /// The parameters the methods of a platform read.
    pub fn queried_params() -> (r: Vec<u32>)
        ensures
            r@ == seq![PLATFORM_PROFILE, PLATFORM_VERSION, PLATFORM_NAME, PLATFORM_VENDOR, PLATFORM_EXTENSIONS],
    {
        vec![PLATFORM_PROFILE, PLATFORM_VERSION, PLATFORM_NAME, PLATFORM_VENDOR, PLATFORM_EXTENSIONS]
    }

    pub fn profile(&self) -> (r: Result<String, Error>)
        ensures
            match self.info.text_answer(PLATFORM_PROFILE) {
                Ok(s) => r matches Ok(t) && t@ == s,
                Err(e) => r matches Err(x) && x == e,
            },
    {
        self.info.get_text(PLATFORM_PROFILE)
    }

    pub fn version(&self) -> (r: Result<String, Error>)
        ensures
            match self.info.text_answer(PLATFORM_VERSION) {
                Ok(s) => r matches Ok(t) && t@ == s,
                Err(e) => r matches Err(x) && x == e,
            },
    {
        self.info.get_text(PLATFORM_VERSION)
    }

    pub fn name(&self) -> (r: Result<String, Error>)
        ensures
            match self.info.text_answer(PLATFORM_NAME) {
                Ok(s) => r matches Ok(t) && t@ == s,
                Err(e) => r matches Err(x) && x == e,
            },
    {
        self.info.get_text(PLATFORM_NAME)
    }

    pub fn vendor(&self) -> (r: Result<String, Error>)
        ensures
            match self.info.text_answer(PLATFORM_VENDOR) {
                Ok(s) => r matches Ok(t) && t@ == s,
                Err(e) => r matches Err(x) && x == e,
            },
    {
        self.info.get_text(PLATFORM_VENDOR)
    }

    pub fn extensions(&self) -> (r: Result<String, Error>)
        ensures
            match self.info.text_answer(PLATFORM_EXTENSIONS) {
                Ok(s) => r matches Ok(t) && t@ == s,
                Err(e) => r matches Err(x) && x == e,
            },
    {
        self.info.get_text(PLATFORM_EXTENSIONS)
    }
}

} // verus!
