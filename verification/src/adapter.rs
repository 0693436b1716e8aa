use vstd::prelude::*;

use crate::text::{seq_contains, str_contains};

verus! {

/// The numeric identity of a graphics device. The backend's resources live
/// on the adapter with id 0.
pub type AdapterId = u32;

/// The vendor family of a graphics device, derived from its name. Hardware
/// encoders are only offered on the vendor they belong to.
#[derive(Debug, Copy, Clone, PartialEq, Eq, Structural)]
pub enum AdapterType {
    Intel,
    Amd,
    Nvidia,
    Unknown,
}

/// What `str::to_lowercase` returns for a given character sequence; Unicode
/// lowercasing is a function of the characters alone.
pub uninterp spec fn lower_of(s: Seq<char>) -> Seq<char>;

/// Relies on `str::to_lowercase`: returns the lowercase equivalent of `s`,
/// which depends on the characters of `s` alone.
#[verifier::external_body]
fn lowercase(s: &str) -> (r: String)
    ensures
        r@ == lower_of(s@),
{
    s.to_lowercase()
}

/// Vendor classification of an adapter name: case-insensitive substring
/// matching, testing for "intel", then "amd", then "nvidia".
pub open spec fn spec_adapter_type(name: Seq<char>) -> AdapterType {
    if seq_contains(lower_of(name), "intel"@) {
        AdapterType::Intel
    } else if seq_contains(lower_of(name), "amd"@) {
        AdapterType::Amd
    } else if seq_contains(lower_of(name), "nvidia"@) {
        AdapterType::Nvidia
    } else {
        AdapterType::Unknown
    }
}

impl From<&str> for AdapterType {
    fn from(value: &str) -> (r: AdapterType)
        ensures
            r == spec_adapter_type(value@),
    {
        let lowered = lowercase(value);
        if str_contains(lowered.as_str(), "intel") {
            AdapterType::Intel
        } else if str_contains(lowered.as_str(), "amd") {
            AdapterType::Amd
        } else if str_contains(lowered.as_str(), "nvidia") {
            AdapterType::Nvidia
        } else {
            AdapterType::Unknown
        }
    }
}

impl vstd::std_specs::convert::FromSpecImpl<&str> for AdapterType {
    open spec fn obeys_from_spec() -> bool {
        true
    }

    open spec fn from_spec(value: &str) -> AdapterType {
        spec_adapter_type(value@)
    }
}

/// The identity of a graphics device: numeric id, name, and the vendor
/// classification derived from the name.
#[derive(Debug)]
pub struct Adapter {
    pub id: AdapterId,
    pub name: String,
    pub adapter_type: AdapterType,
}

/// The mathematical value of an `Adapter`.
pub ghost struct AdapterV {
    pub id: AdapterId,
    pub name: Seq<char>,
    pub adapter_type: AdapterType,
}

impl View for Adapter {
    type V = AdapterV;

    open spec fn view(&self) -> AdapterV {
        AdapterV { id: self.id, name: self.name@, adapter_type: self.adapter_type }
    }
}

impl Adapter {
    pub fn new(id: AdapterId, name: String) -> (r: Adapter)
        ensures
            r@.id == id,
            r@.name == name@,
            r@.adapter_type == spec_adapter_type(name@),
    {
        let adapter_type = AdapterType::from(name.as_str());
        Adapter { id, name, adapter_type }
    }

    pub fn id(&self) -> (r: AdapterId)
        ensures
            r == self@.id,
    {
        self.id
    }

    pub fn name(&self) -> (r: &str)
        ensures
            r@ == self@.name,
    {
        self.name.as_str()
    }

    pub fn adapter_type(&self) -> (r: AdapterType)
        ensures
            r == self@.adapter_type,
    {
        self.adapter_type
    }

    /// A field-for-field copy of this adapter.
    pub fn duplicate(&self) -> (r: Adapter)
        ensures
            r@ == self@,
    {
        Adapter { id: self.id, name: self.name.clone(), adapter_type: self.adapter_type }
    }
}

/// Two adapters are the same device exactly when their ids agree.
impl PartialEq for Adapter {
    fn eq(&self, other: &Self) -> (r: bool) {
        self.id == other.id
    }
}

impl vstd::std_specs::cmp::PartialEqSpecImpl for Adapter {
    open spec fn obeys_eq_spec() -> bool {
        true
    }

    open spec fn eq_spec(&self, other: &Adapter) -> bool {
        self.id == other.id
    }
}

impl Eq for Adapter {

}

} // verus!
