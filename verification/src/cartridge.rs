use crate::util::cartridge_util::{mbc_type_of, CartridgeData, MBCType, CARTRIDGE_TYPE_AT};
use vstd::prelude::*;

verus! {

/// A cartridge image with the kind of cartridge that its header names.
pub struct Cartridge {
    pub mbc_type: MBCType,
    pub data: CartridgeData,
}

impl Cartridge {
    /// The cartridge of an image; nothing if the image is too short to hold
    /// a header or its header names no kind of cartridge.
    pub fn new(data: CartridgeData) -> (cartridge: Option<Cartridge>)
        ensures
            data.0@.len() > CARTRIDGE_TYPE_AT && mbc_type_of(data.0@[CARTRIDGE_TYPE_AT as int])
                is Some ==> cartridge.is_some() && cartridge.unwrap().data == data && Some(
                cartridge.unwrap().mbc_type,
            ) == mbc_type_of(data.0@[CARTRIDGE_TYPE_AT as int]),
            !(data.0@.len() > CARTRIDGE_TYPE_AT && mbc_type_of(data.0@[CARTRIDGE_TYPE_AT as int])
                is Some) ==> cartridge.is_none(),
    {
        match data.mbc_type() {
            Some(mbc_type) => Some(Cartridge { mbc_type, data }),
            None => None,
        }
    }
}

} // verus!
