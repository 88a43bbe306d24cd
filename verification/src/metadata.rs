//! Stable identities of components and the files their metadata is kept in.

use vstd::prelude::*;
use vstd::string::StringSliceAdditionalSpecFns;
use crate::cli::scanner::{ComponentPayload, LineInfo, Metadata, MetadataView, PayloadView};
use crate::text::{chars_of, decimal, decimal_chars, push_str, string_from_chars};

verus! {

pub const FNV_OFFSET_32: u32 = 0x811c_9dc5;

pub const FNV_PRIME_32: u32 = 0x0100_0193;

/// One round of FNV-1a: xor in the byte, then multiply by the prime,
/// wrapping at 32 bits.
pub open spec fn fnv1a_step(h: u32, b: u8) -> u32 {
    (((h ^ (b as u32)) as nat * (FNV_PRIME_32 as nat)) % 0x1_0000_0000) as u32
}

/// The 32-bit FNV-1a hash of the bytes.
pub open spec fn fnv1a(s: Seq<u8>) -> u32
    decreases s.len(),
{
    if s.len() == 0 {
        FNV_OFFSET_32
    } else {
        fnv1a_step(fnv1a(s.drop_last()), s.last())
    }
}

/// `simplehash::fnv1a_32`: starting from the basis 2166136261, each byte is
/// xored into the state, which is then multiplied by 16777619 (wrapping).
#[verifier::external_body]
fn fnv1a_32(data: &[u8]) -> (h: u32)
    ensures
        h == fnv1a(data@),
{
    simplehash::fnv1a_32(data)
}

/// The text a component's identity is hashed from: `crate::item`.
pub open spec fn qualified_name(crate_name: Seq<char>, item_name: Seq<char>) -> Seq<char> {
    crate_name + "::"@ + item_name
}

pub open spec fn spec_stable_uuid(crate_name: Seq<char>, item_name: Seq<char>) -> u32 {
    fnv1a(vstd::utf8::encode_utf8(qualified_name(crate_name, item_name)))
}

/// An identity that stays the same from build to build: the FNV-1a hash of
/// the UTF-8 bytes of `crate::item`.
pub fn stable_uuid(crate_name: &str, item_name: &str) -> (h: u32)
    ensures
        h == spec_stable_uuid(crate_name@, item_name@),
{
    let mut v = chars_of(crate_name);
    push_str(&mut v, "::");
    push_str(&mut v, item_name);
    let input = string_from_chars(&v);
    let bytes = input.as_str().as_bytes();
    fnv1a_32(bytes)
}

/// The name of the file a component's metadata is written to:
/// `<crate>_<name>-<uuid>.json`.
pub open spec fn spec_meta_file_name(crate_name: Seq<char>, file_name: Seq<char>) -> Seq<char> {
    crate_name + "_"@ + file_name + "-"@ + decimal(spec_stable_uuid(crate_name, file_name) as nat)
        + ".json"@
}

/// The name of the file the metadata of `file_name` is written to.
pub fn meta_file_name(crate_name: &str, file_name: &str) -> (r: String)
    ensures
        r@ == spec_meta_file_name(crate_name@, file_name@),
{
    let uuid = stable_uuid(crate_name, file_name);
    let mut v = chars_of(crate_name);
    push_str(&mut v, "_");
    push_str(&mut v, file_name);
    push_str(&mut v, "-");
    let mut digits = decimal_chars(uuid);
    v.append(&mut digits);
    push_str(&mut v, ".json");
    string_from_chars(&v)
}

impl Metadata {
    /// The metadata of a component of the crate `crate_name`, with its stable
    /// identity.
    pub fn new(crate_name: &str, name: String, source: LineInfo, payload: ComponentPayload) -> (m: Self)
        ensures
            m@ == (MetadataView {
                uuid: spec_stable_uuid(crate_name@, name@),
                name: name@,
                source: source@,
                payload: payload@,
            }),
    {
        let uuid = stable_uuid(crate_name, name.as_str());
        Metadata { uuid, name, source, payload }
    }
}

} // verus!
