//! Movies that are known to be valid.

pub mod m64;

pub use m64::{
    ExtendedData, ExtendedFlags, GameInfo, Movie, MovieDetails, MovieView, MupenMetadata,
    PluginInfo, RecordingInfo,
};

use crate::parsed::m64::{law_typed_round_trip, law_untyped_round_trip, typed, untyped};
use crate::raw::layout::{le_u16, le_u32};
use crate::raw::m64::{law_extended_flags_unpack_pack, ExtendedFlagsFields, MovieStartType};
use crate::raw::record::{
    decoding, encoding, has_magic, law_decode_encode, law_encode_decode, tidy, RawMovie,
    RawMovieView,
};
use crate::shared::lemma_until_nul_clean;
use crate::{BinReadExt, BinWriteExt, Fault, MovieError};
use vstd::prelude::*;

verus! {

/// What reading a movie from `b` gives: the movie that the raw movie in
/// `b` stands for, or the first fault of reading the one or making the
/// other of it.
pub open spec fn movie_of_bytes(b: Seq<u8>) -> Result<MovieView, Fault> {
    match decoding(b) {
        Err(fault) => Err(fault),
        Ok(raw) => typed(raw),
    }
}

/// Whether a file of at least `HEADER_SIZE` bytes is as this library
/// writes it: every reserved span and every reserved bit of the extended
/// flags is zero, and so is every byte behind the end of a string.
pub open spec fn pristine(b: Seq<u8>) -> bool {
    tidy(b) && ExtendedFlagsFields::unpack(b[0x017]).reserved == 0
}

/// Writing a movie that was read gives the file back, byte for byte: where
/// a file reads as a movie and is [`pristine`], the bytes written for that
/// movie are the file.
pub proof fn law_bytes_round_trip(b: Seq<u8>)
    requires
        movie_of_bytes(b) is Ok,
        pristine(b),
    ensures
        encoding(untyped(movie_of_bytes(b)->Ok_0)) == b,
{
    let raw = decoding(b)->Ok_0;
    law_encode_decode(b);
    lemma_decoded_wf(b);
    law_untyped_round_trip(raw);
}

/// What was read from a tidy file is a raw movie that reads back.
proof fn lemma_decoded_wf(b: Seq<u8>)
    requires
        decoding(b) is Ok,
        tidy(b),
    ensures
        (decoding(b)->Ok_0).wf(),
{
    lemma_until_nul_clean(b.subrange(0x0C4, 0x0E4));
    lemma_until_nul_clean(b.subrange(0x122, 0x162));
    lemma_until_nul_clean(b.subrange(0x162, 0x1A2));
    lemma_until_nul_clean(b.subrange(0x1A2, 0x1E2));
    lemma_until_nul_clean(b.subrange(0x1E2, 0x222));
    lemma_until_nul_clean(b.subrange(0x222, 0x300));
    lemma_until_nul_clean(b.subrange(0x300, 0x400));
}

/// Reading a movie that was written gives the movie back: for every movie
/// that meets [`MovieView::wf`], the bytes written for it read as that
/// movie.
pub proof fn law_movie_round_trip(movie: MovieView)
    requires
        movie.wf(),
    ensures
        movie_of_bytes(encoding(untyped(movie))) == Ok::<MovieView, Fault>(movie),
{
    let raw = untyped(movie);
    law_typed_round_trip(movie);
    assert(raw.wf()) by {
        match movie.metadata.extended_flags {
            ExtendedFlags::ExtendedFlagsV0 => {
                law_extended_flags_unpack_pack(
                    ExtendedFlagsFields { wiivc_emulation_mode: false, reserved: 0 },
                );
                assert((ExtendedFlagsFields { wiivc_emulation_mode: false, reserved: 0 }).pack()
                    == 0) by (bit_vector);
            },
            ExtendedFlags::ExtendedFlagsV1 { wiivc_emulation_mode } => {},
        }
    }
    law_decode_encode(raw);
}

/// A file that does not start with the signature is rejected as such,
/// whatever else it holds.
pub proof fn law_bad_magic(b: Seq<u8>)
    requires
        !has_magic(b),
    ensures
        decoding(b) == Err::<RawMovieView, Fault>(Fault::BadMagic),
        movie_of_bytes(b) == Err::<MovieView, Fault>(Fault::BadMagic),
{
}

/// A file that is shorter than a header is rejected.
pub proof fn law_short_file_rejected(b: Seq<u8>)
    requires
        b.len() < 0x400,
    ensures
        decoding(b) is Err,
        movie_of_bytes(b) is Err,
{
}

/// A file with a whole header whose version is not 3, or whose extended
/// version is neither 0 nor 1, is rejected; where nothing in front of these
/// fields is wrong, the fault names the field and its value.
pub proof fn law_versions_rejected(b: Seq<u8>)
    requires
        b.len() >= 0x400,
        le_u32(b, 0x004) != 3 || b[0x016] > 1,
    ensures
        movie_of_bytes(b) is Err,
        has_magic(b) && MovieStartType::spec_from_code(le_u16(b, 0x01C)) is Some && le_u32(
            b,
            0x004,
        ) != 3 ==> movie_of_bytes(b) == Err::<MovieView, Fault>(
            Fault::UnsupportedVersion(le_u32(b, 0x004)),
        ),
        decoding(b) is Ok ==> movie_of_bytes(b) == Err::<MovieView, Fault>(
            Fault::UnsupportedExtendedVersion(b[0x016]),
        ),
{
}

/// A file with a whole header and extended version 0 in which one of the
/// three numbers of the extended data is not zero, or the WiiVC flag is
/// set, is rejected; where nothing in front of these fields is wrong, the
/// fault is the invalid state of the extension.
pub proof fn law_extension_state_rejected(b: Seq<u8>)
    requires
        b.len() >= 0x400,
        b[0x016] == 0,
        le_u32(b, 0x024) != 0 || le_u32(b, 0x028) != 0 || le_u32(b, 0x02C) != 0
            || ExtendedFlagsFields::unpack(b[0x017]).wiivc_emulation_mode,
    ensures
        decoding(b) is Err,
        movie_of_bytes(b) is Err,
        has_magic(b) && MovieStartType::spec_from_code(le_u16(b, 0x01C)) is Some && le_u32(
            b,
            0x004,
        ) == 3 ==> movie_of_bytes(b) == Err::<MovieView, Fault>(Fault::InvalidExtensionState),
{
}

impl BinReadExt for Movie {
    type Error = MovieError;

    /// Reads a movie from the bytes of a file.
    fn from_bytes(bytes: &[u8]) -> (r: Result<Movie, MovieError>)
        ensures
            match movie_of_bytes(bytes@) {
                Ok(movie) => r matches Ok(v) && v@ == movie,
                Err(fault) => r matches Err(e) && e@ == fault,
            },
    {
        match RawMovie::decode(bytes) {
            Ok(raw) => Movie::from_raw(raw),
            Err(e) => Err(e),
        }
    }
}

impl BinWriteExt for Movie {
    type Error = MovieError;

    /// Writes the movie as the bytes of a file. It never fails: every string
    /// of a movie fits its field.
    fn to_bytes(&self) -> (r: Result<Vec<u8>, MovieError>)
        ensures
            r matches Ok(b) && b@ == encoding(untyped(self@)),
    {
        self.to_raw().encode()
    }
}

} // verus!
