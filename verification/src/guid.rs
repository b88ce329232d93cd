//! Connection identifiers: how they are made and when they are accepted.

use vstd::prelude::*;
use crate::error::Error;

verus! {

/// The reserved variants of a UUID.
#[derive(Clone, Copy, Debug, PartialEq, Eq, Structural)]
pub enum GuidVariant {
    NCS,
    RFC4122,
    Microsoft,
    Future,
}

/// What `uuid::Uuid::parse_str` makes of a text: the 128 bits of the UUID,
/// most significant byte first, or nothing where the text is no UUID.
pub uninterp spec fn parsed_guid(text: Seq<char>) -> Option<u128>;

/// The ninth byte of a UUID, which holds the variant.
pub open spec fn variant_byte(bits: u128) -> u8 {
    ((bits >> 56) & 0xff) as u8
}

/// The variant that the leading bits of the ninth byte stand for.
pub open spec fn variant_of(bits: u128) -> GuidVariant {
    let x = variant_byte(bits);
    if x & 0x80 == 0x00 {
        GuidVariant::NCS
    } else if x & 0xc0 == 0x80 {
        GuidVariant::RFC4122
    } else if x & 0xe0 == 0xc0 {
        GuidVariant::Microsoft
    } else {
        GuidVariant::Future
    }
}

/// `uuid::Uuid::parse_str`, the result turned into its 128 bits with
/// `Uuid::as_u128`. The contract gives the result a name and says no more of
/// it.
#[verifier::external_body]
fn parse_guid(text: &str) -> (bits: Option<u128>)
    ensures
        bits == parsed_guid(text@),
{
    match uuid::Uuid::parse_str(text) {
        Ok(id) => Some(id.as_u128()),
        Err(_) => None,
    }
}

/// `uuid::Uuid::get_variant` on the UUID of these bits. The method reads the
/// ninth byte alone: a leading 0 bit is NCS, leading bits 10 are RFC 4122,
/// 110 is Microsoft, and 111 is reserved for the future.
#[verifier::external_body]
fn guid_variant(bits: u128) -> (variant: GuidVariant)
    ensures
        variant == variant_of(bits),
{
    match uuid::Uuid::from_u128(bits).get_variant() {
        uuid::Variant::NCS => GuidVariant::NCS,
        uuid::Variant::RFC4122 => GuidVariant::RFC4122,
        uuid::Variant::Microsoft => GuidVariant::Microsoft,
        _ => GuidVariant::Future,
    }
}

/// `uuid::Uuid::new_v4`, written out in hyphenated form: a new random
/// identifier. Which one is left open; every one is the text of a UUID of
/// the RFC 4122 variant, since `new_v4` sets the variant bits to 10.
#[verifier::external_body]
pub fn gen_uuid() -> (id: String)
    ensures
        parsed_guid(id@) is Some,
        parsed_guid(id@) matches Some(bits) ==> variant_of(bits) == GuidVariant::RFC4122,
{
    uuid::Uuid::new_v4().hyphenated().to_string()
}

/// `chrono::Local::now`, written out as RFC 3339: the local time of the
/// call. Nothing is claimed of it.
#[verifier::external_body]
pub fn get_cur_time() -> (now: String) {
    chrono::Local::now().to_rfc3339()
}

/// Whether the bits of a parsed identifier are accepted: every UUID is,
/// except those of the variant reserved for the future.
pub open spec fn guid_accepted(parsed: Option<u128>) -> bool {
    match parsed {
        Some(bits) => variant_of(bits) != GuidVariant::Future,
        None => false,
    }
}

/// Judges an identifier by what parsing made of it. A text that is no UUID
/// and a UUID of the variant reserved for the future are invalid.
pub fn judge_parsed_guid(parsed: Option<u128>) -> (res: Result<bool, Error>)
    ensures
        guid_accepted(parsed) ==> res == Ok::<bool, Error>(true),
        !guid_accepted(parsed) ==> res == Err::<bool, Error>(Error::InvalidGuid),
{
    match parsed {
        None => Err(Error::InvalidGuid),
        Some(bits) => {
            match guid_variant(bits) {
                GuidVariant::Future => Err(Error::InvalidGuid),
                _ => Ok(true),
            }
        },
    }
}

/// Judges an identifier: it has to be the text of a UUID that is not of the
/// variant reserved for the future.
pub fn judge_guid_valid(guid: &String) -> (res: Result<bool, Error>)
    ensures
        guid_accepted(parsed_guid(guid@)) ==> res == Ok::<bool, Error>(true),
        !guid_accepted(parsed_guid(guid@)) ==> res == Err::<bool, Error>(Error::InvalidGuid),
{
    judge_parsed_guid(parse_guid(guid.as_str()))
}

} // verus!
