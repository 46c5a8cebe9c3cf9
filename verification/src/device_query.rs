//! Decisions over adapter-reported data: first supported format of a
//! preference order, first matching memory type, and whether required
//! layer names are all available. The backend performs the queries; these
//! functions decide on the reported plain values.

use vstd::prelude::*;

use crate::capabilities::PixelFormat;
use crate::errors::PresentError;

verus! {

/// Name of a layer or extension, as the raw bytes the backend reports.
pub type RawName = Vec<u8>;

/// Information the engine requires of the validation layers.
pub struct ValidationInfo {
    pub is_enable: bool,
    pub required_validation_layers: [&'static str; 1],
}

/// The depth-format preference order, highest precision first.
pub fn depth_format_candidates() -> (r: Vec<PixelFormat>)
    ensures
        r@ == seq![
            PixelFormat::D32Sfloat,
            PixelFormat::D32SfloatS8Uint,
            PixelFormat::D24UnormS8Uint,
        ],
{
    let mut r: Vec<PixelFormat> = Vec::new();
    r.push(PixelFormat::D32Sfloat);
    r.push(PixelFormat::D32SfloatS8Uint);
    r.push(PixelFormat::D24UnormS8Uint);
    proof {
        assert(r@ =~= seq![
            PixelFormat::D32Sfloat,
            PixelFormat::D32SfloatS8Uint,
            PixelFormat::D24UnormS8Uint,
        ]);
    }
    r
}

/// Picks the first candidate format the adapter supports, where
/// `supported[i]` reports the adapter's verdict on `candidates[i]`. Fails
/// with the missing-depth-format error exactly when no candidate is
/// supported.
pub fn find_supported_format(candidates: &Vec<PixelFormat>, supported: &Vec<bool>) -> (r: Result<
    PixelFormat,
    PresentError,
>)
    requires
        candidates@.len() == supported@.len(),
    ensures
        r is Ok <==> exists|i: int| 0 <= i < supported@.len() && supported@[i],
        r is Err ==> r == Err::<PixelFormat, PresentError>(PresentError::NoSupportedDepthFormat),
        r matches Ok(f) ==> exists|i: int|
            0 <= i < supported@.len() && #[trigger] supported@[i] && candidates@[i] == f && (
            forall|j: int| 0 <= j < i ==> !supported@[j]),
{
    let n = candidates.len();
    let mut i: usize = 0;
    while i < n
        invariant
            n == candidates@.len(),
            n == supported@.len(),
            0 <= i <= n,
            forall|j: int| 0 <= j < i ==> !supported@[j],
        decreases n - i,
    {
        if supported[i] {
            return Ok(candidates[i]);
        }
        i = i + 1;
    }
    Err(PresentError::NoSupportedDepthFormat)
}

/// One memory type `i` fits when the allocation's type filter has bit `i`
/// set and the type's property flags contain every required flag.
pub open spec fn memory_type_matches(type_filter: u32, flags: u32, required: u32, i: u32) -> bool {
    type_filter & (1u32 << i) != 0 && flags & required == required
}

/// Picks the first memory type fitting an allocation, where
/// `memory_type_flags[i]` holds the property flags of the adapter's memory
/// type `i`, `type_filter` is the allocation's type bitmask and `required`
/// the properties the engine needs. `None` exactly when no type fits.
pub fn find_memory_type(type_filter: u32, memory_type_flags: &Vec<u32>, required: u32) -> (r:
    Option<u32>)
    requires
        memory_type_flags@.len() <= 32,
    ensures
        r matches Some(i) ==> 0 <= i < memory_type_flags@.len() && memory_type_matches(
            type_filter,
            memory_type_flags@[i as int],
            required,
            i,
        ) && (forall|j: u32|
            j < i ==> !memory_type_matches(
                type_filter,
                memory_type_flags@[j as int],
                required,
                j,
            )),
        r is None ==> forall|j: u32|
            j < memory_type_flags@.len() ==> !memory_type_matches(
                type_filter,
                memory_type_flags@[j as int],
                required,
                j,
            ),
{
    let n = memory_type_flags.len();
    let mut i: usize = 0;
    while i < n
        invariant
            n == memory_type_flags@.len(),
            n <= 32,
            0 <= i <= n,
            forall|j: u32|
                j < i ==> !memory_type_matches(
                    type_filter,
                    memory_type_flags@[j as int],
                    required,
                    j,
                ),
        decreases n - i,
    {
        let flags = memory_type_flags[i];
        if type_filter & (1u32 << (i as u32)) != 0 && flags & required == required {
            return Some(i as u32);
        }
        assert(!memory_type_matches(type_filter, memory_type_flags@[i as int], required, i as u32));
        i = i + 1;
    }
    None
}

/// Whether two raw names hold the same bytes.
pub fn names_eq(a: &Vec<u8>, b: &Vec<u8>) -> (r: bool)
    ensures
        r <==> a@ == b@,
{
    if a.len() != b.len() {
        return false;
    }
    let n = a.len();
    let mut i: usize = 0;
    while i < n
        invariant
            n == a@.len(),
            n == b@.len(),
            0 <= i <= n,
            forall|j: int| 0 <= j < i ==> a@[j] == b@[j],
        decreases n - i,
    {
        if a[i] != b[i] {
            return false;
        }
        i = i + 1;
    }
    proof {
        assert(a@ =~= b@);
    }
    true
}

/// Whether `available` holds a name with exactly the bytes `needle`.
pub open spec fn spec_contains_name(available: Seq<RawName>, needle: Seq<u8>) -> bool {
    exists|i: int| 0 <= i < available.len() && #[trigger] available[i]@ == needle
}

/// Whether `available` holds a name with exactly the bytes of `needle`.
pub fn contains_name(available: &Vec<RawName>, needle: &Vec<u8>) -> (r: bool)
    ensures
        r <==> spec_contains_name(available@, needle@),
{
    let n = available.len();
    let mut i: usize = 0;
    while i < n
        invariant
            n == available@.len(),
            0 <= i <= n,
            forall|j: int| 0 <= j < i ==> #[trigger] available@[j]@ != needle@,
        decreases n - i,
    {
        if names_eq(&available[i], needle) {
            return true;
        }
        i = i + 1;
    }
    false
}

/// Whether every required layer name occurs among the available ones: the
/// validation-layer support check, on the reported plain name lists.
pub fn check_validation_layer_support(required: &Vec<RawName>, available: &Vec<RawName>) -> (r:
    bool)
    ensures
        r <==> forall|i: int|
            0 <= i < required@.len() ==> spec_contains_name(available@, #[trigger] required@[i]@),
{
    let n = required.len();
    let mut i: usize = 0;
    while i < n
        invariant
            n == required@.len(),
            0 <= i <= n,
            forall|k: int|
                0 <= k < i ==> spec_contains_name(available@, #[trigger] required@[k]@),
        decreases n - i,
    {
        if !contains_name(available, &required[i]) {
            return false;
        }
        i = i + 1;
    }
    true
}

} // verus!
