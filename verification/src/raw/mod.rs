//! The movie as it stands in the file.

pub mod layout;
pub mod m64;
pub mod record;

pub use m64::{
    ControllerFlags, ControllerFlagsFields, ControllerState, ControllerStateFields, ExtendedData,
    ExtendedFlags, ExtendedFlagsFields, MovieStartType,
};
pub use record::{RawMovie, RawMovieView};

use crate::raw::layout::{
    le_u16, le_u32, push_u16, push_u32, push_zeros, read_reserved, read_u16, read_u32, u16_bytes,
    u32_bytes,
};
use crate::raw::record::decoding;
use crate::shared::zeros;
use crate::{BinReadExt, BinWriteExt, Fault, MovieError};
use vstd::prelude::*;

verus! {

impl BinReadExt for ExtendedFlags {
    type Error = MovieError;

    /// Reads the flags from the first byte.
    fn from_bytes(bytes: &[u8]) -> (r: Result<ExtendedFlags, MovieError>)
        ensures
            match r {
                Ok(flags) => bytes@.len() >= 1 && flags.bits == bytes@[0],
                Err(e) => bytes@.len() < 1 && e@ == Fault::TruncatedInput,
            },
    {
        if bytes.len() < 1 {
            return Err(MovieError::TruncatedInput);
        }
        Ok(ExtendedFlags::from_bits(bytes[0]))
    }
}

impl BinWriteExt for ExtendedFlags {
    type Error = MovieError;

    /// The one byte of the flags.
    fn to_bytes(&self) -> (r: Result<Vec<u8>, MovieError>)
        ensures
            r matches Ok(b) && b@ == seq![self.bits],
    {
        let mut out: Vec<u8> = Vec::new();
        out.push(self.bits);
        assert(out@ =~= seq![self.bits]);
        Ok(out)
    }
}

impl BinReadExt for ControllerFlags {
    type Error = MovieError;

    /// Reads the flags from the first four bytes.
    fn from_bytes(bytes: &[u8]) -> (r: Result<ControllerFlags, MovieError>)
        ensures
            match r {
                Ok(flags) => bytes@.len() >= 4 && flags.bits == le_u32(bytes@, 0),
                Err(e) => bytes@.len() < 4 && e@ == Fault::TruncatedInput,
            },
    {
        if bytes.len() < 4 {
            return Err(MovieError::TruncatedInput);
        }
        Ok(ControllerFlags::from_bits(read_u32(bytes, 0)))
    }
}

impl BinWriteExt for ControllerFlags {
    type Error = MovieError;

    /// The four bytes of the flags, low byte first.
    fn to_bytes(&self) -> (r: Result<Vec<u8>, MovieError>)
        ensures
            r matches Ok(b) && b@ == u32_bytes(self.bits),
    {
        let mut out: Vec<u8> = Vec::new();
        push_u32(&mut out, self.bits);
        assert(out@ =~= u32_bytes(self.bits));
        Ok(out)
    }
}

impl BinReadExt for ControllerState {
    type Error = MovieError;

    /// Reads the sample from the first four bytes.
    fn from_bytes(bytes: &[u8]) -> (r: Result<ControllerState, MovieError>)
        ensures
            match r {
                Ok(state) => bytes@.len() >= 4 && state.bits == le_u32(bytes@, 0),
                Err(e) => bytes@.len() < 4 && e@ == Fault::TruncatedInput,
            },
    {
        if bytes.len() < 4 {
            return Err(MovieError::TruncatedInput);
        }
        Ok(ControllerState::from_bits(read_u32(bytes, 0)))
    }
}

impl BinWriteExt for ControllerState {
    type Error = MovieError;

    /// The four bytes of the sample, low byte first.
    fn to_bytes(&self) -> (r: Result<Vec<u8>, MovieError>)
        ensures
            r matches Ok(b) && b@ == u32_bytes(self.bits),
    {
        let mut out: Vec<u8> = Vec::new();
        push_u32(&mut out, self.bits);
        assert(out@ =~= u32_bytes(self.bits));
        Ok(out)
    }
}

impl BinReadExt for MovieStartType {
    type Error = MovieError;

    /// Reads the start type from the first two bytes.
    fn from_bytes(bytes: &[u8]) -> (r: Result<MovieStartType, MovieError>)
        ensures
            match r {
                Ok(start_type) => bytes@.len() >= 2 && MovieStartType::spec_from_code(
                    le_u16(bytes@, 0),
                ) == Some(start_type),
                Err(e) => if bytes@.len() < 2 {
                    e@ == Fault::TruncatedInput
                } else {
                    MovieStartType::spec_from_code(le_u16(bytes@, 0)) is None && e@
                        == Fault::BadStartType(le_u16(bytes@, 0))
                },
            },
    {
        if bytes.len() < 2 {
            return Err(MovieError::TruncatedInput);
        }
        let code = read_u16(bytes, 0);
        match MovieStartType::from_code(code) {
            Some(start_type) => Ok(start_type),
            None => Err(MovieError::BadStartType(code)),
        }
    }
}

impl BinWriteExt for MovieStartType {
    type Error = MovieError;

    /// The two bytes of the start type's number, low byte first.
    fn to_bytes(&self) -> (r: Result<Vec<u8>, MovieError>)
        ensures
            r matches Ok(b) && b@ == u16_bytes(self.spec_code()),
    {
        let mut out: Vec<u8> = Vec::new();
        push_u16(&mut out, self.code());
        assert(out@ =~= u16_bytes(self.spec_code()));
        Ok(out)
    }
}

impl BinReadExt for ExtendedData {
    type Error = MovieError;

    /// Reads the data from the first 32 bytes.
    fn from_bytes(bytes: &[u8]) -> (r: Result<ExtendedData, MovieError>)
        ensures
            match r {
                Ok(data) => {
                    &&& bytes@.len() >= 32
                    &&& data.authorship_info == le_u32(bytes@, 0)
                    &&& data.bruteforce_data == le_u32(bytes@, 4)
                    &&& data.rerecord_count_high == le_u32(bytes@, 8)
                    &&& data.reserved@ == bytes@.subrange(12, 32)
                },
                Err(e) => bytes@.len() < 32 && e@ == Fault::TruncatedInput,
            },
    {
        if bytes.len() < 32 {
            return Err(MovieError::TruncatedInput);
        }
        Ok(
            ExtendedData {
                authorship_info: read_u32(bytes, 0),
                bruteforce_data: read_u32(bytes, 4),
                rerecord_count_high: read_u32(bytes, 8),
                reserved: read_reserved::<20>(bytes, 12),
            },
        )
    }
}

impl BinWriteExt for ExtendedData {
    type Error = MovieError;

    /// The 32 bytes of the data: three numbers, then twenty zeros.
    fn to_bytes(&self) -> (r: Result<Vec<u8>, MovieError>)
        ensures
            r matches Ok(b) && b@ == u32_bytes(self.authorship_info) + u32_bytes(
                self.bruteforce_data,
            ) + u32_bytes(self.rerecord_count_high) + zeros(20),
    {
        let mut out: Vec<u8> = Vec::new();
        push_u32(&mut out, self.authorship_info);
        assert(out@ =~= u32_bytes(self.authorship_info));
        push_u32(&mut out, self.bruteforce_data);
        push_u32(&mut out, self.rerecord_count_high);
        push_zeros(&mut out, 20);
        Ok(out)
    }
}

impl TryFrom<&[u8]> for ExtendedFlags {
    type Error = MovieError;

    fn try_from(bytes: &[u8]) -> (r: Result<ExtendedFlags, MovieError>)
        ensures
            match r {
                Ok(flags) => bytes@.len() >= 1 && flags.bits == bytes@[0],
                Err(e) => bytes@.len() < 1 && e@ == Fault::TruncatedInput,
            },
    {
        <ExtendedFlags as BinReadExt>::from_bytes(bytes)
    }
}

impl vstd::std_specs::convert::TryFromSpecImpl<&[u8]> for ExtendedFlags {
    open spec fn obeys_try_from_spec() -> bool {
        false
    }

    open spec fn try_from_spec(bytes: &[u8]) -> Result<ExtendedFlags, MovieError> {
        arbitrary()
    }
}

impl TryFrom<&[u8]> for ControllerFlags {
    type Error = MovieError;

    fn try_from(bytes: &[u8]) -> (r: Result<ControllerFlags, MovieError>)
        ensures
            match r {
                Ok(flags) => bytes@.len() >= 4 && flags.bits == le_u32(bytes@, 0),
                Err(e) => bytes@.len() < 4 && e@ == Fault::TruncatedInput,
            },
    {
        <ControllerFlags as BinReadExt>::from_bytes(bytes)
    }
}

impl vstd::std_specs::convert::TryFromSpecImpl<&[u8]> for ControllerFlags {
    open spec fn obeys_try_from_spec() -> bool {
        false
    }

    open spec fn try_from_spec(bytes: &[u8]) -> Result<ControllerFlags, MovieError> {
        arbitrary()
    }
}

impl TryFrom<&[u8]> for ControllerState {
    type Error = MovieError;

    fn try_from(bytes: &[u8]) -> (r: Result<ControllerState, MovieError>)
        ensures
            match r {
                Ok(state) => bytes@.len() >= 4 && state.bits == le_u32(bytes@, 0),
                Err(e) => bytes@.len() < 4 && e@ == Fault::TruncatedInput,
            },
    {
        <ControllerState as BinReadExt>::from_bytes(bytes)
    }
}

impl vstd::std_specs::convert::TryFromSpecImpl<&[u8]> for ControllerState {
    open spec fn obeys_try_from_spec() -> bool {
        false
    }

    open spec fn try_from_spec(bytes: &[u8]) -> Result<ControllerState, MovieError> {
        arbitrary()
    }
}

impl TryFrom<&[u8]> for RawMovie {
    type Error = MovieError;

    fn try_from(bytes: &[u8]) -> (r: Result<RawMovie, MovieError>)
        ensures
            match decoding(bytes@) {
                Ok(v) => r matches Ok(m) && m@ == v,
                Err(fault) => r matches Err(e) && e@ == fault,
            },
    {
        <RawMovie as BinReadExt>::from_bytes(bytes)
    }
}

impl vstd::std_specs::convert::TryFromSpecImpl<&[u8]> for RawMovie {
    open spec fn obeys_try_from_spec() -> bool {
        false
    }

    open spec fn try_from_spec(bytes: &[u8]) -> Result<RawMovie, MovieError> {
        arbitrary()
    }
}

} // verus!
