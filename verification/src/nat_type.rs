use vstd::prelude::*;

verus! {

/// The NAT behaviours the detector can report. The numbering follows the
/// protocol's `NatType` enumeration (see [`NatType::code`]).
#[derive(Debug, Clone, Copy, PartialEq, Eq, Structural)]
pub enum NatType {
    Unknown,
    OpenInternet,
    NoPat,
    FullCone,
    Restricted,
    PortRestricted,
    Symmetric,
    SymUdpFirewall,
    SymmetricEasyInc,
    SymmetricEasyDec,
}

impl NatType {
    /// The numeric code of each NAT type.
    pub open spec fn spec_code(self) -> u8 {
        match self {
            NatType::Unknown => 0,
            NatType::OpenInternet => 1,
            NatType::NoPat => 2,
            NatType::FullCone => 3,
            NatType::Restricted => 4,
            NatType::PortRestricted => 5,
            NatType::Symmetric => 6,
            NatType::SymUdpFirewall => 7,
            NatType::SymmetricEasyInc => 8,
            NatType::SymmetricEasyDec => 9,
        }
    }

    /// The numeric code of this NAT type.
    pub fn code(&self) -> (c: u8)
        ensures
            c == self.spec_code(),
    {
        match self {
            NatType::Unknown => 0,
            NatType::OpenInternet => 1,
            NatType::NoPat => 2,
            NatType::FullCone => 3,
            NatType::Restricted => 4,
            NatType::PortRestricted => 5,
            NatType::Symmetric => 6,
            NatType::SymUdpFirewall => 7,
            NatType::SymmetricEasyInc => 8,
            NatType::SymmetricEasyDec => 9,
        }
    }

    /// The display name of each NAT type.
    pub open spec fn spec_name(self) -> Seq<char> {
        match self {
            NatType::Unknown => "Unknown"@,
            NatType::OpenInternet => "OpenInternet"@,
            NatType::NoPat => "NoPat"@,
            NatType::FullCone => "FullCone"@,
            NatType::Restricted => "Restricted"@,
            NatType::PortRestricted => "PortRestricted"@,
            NatType::Symmetric => "Symmetric"@,
            NatType::SymUdpFirewall => "SymUdpFirewall"@,
            NatType::SymmetricEasyInc => "SymmetricEasyInc"@,
            NatType::SymmetricEasyDec => "SymmetricEasyDec"@,
        }
    }

    /// The display name of this NAT type, as printed in reports.
    pub fn name(&self) -> (s: &'static str)
        ensures
            s@ == self.spec_name(),
    {
        match self {
            NatType::Unknown => "Unknown",
            NatType::OpenInternet => "OpenInternet",
            NatType::NoPat => "NoPat",
            NatType::FullCone => "FullCone",
            NatType::Restricted => "Restricted",
            NatType::PortRestricted => "PortRestricted",
            NatType::Symmetric => "Symmetric",
            NatType::SymUdpFirewall => "SymUdpFirewall",
            NatType::SymmetricEasyInc => "SymmetricEasyInc",
            NatType::SymmetricEasyDec => "SymmetricEasyDec",
        }
    }
}

/// Distinct NAT types have distinct codes, and every code is below ten.
pub proof fn lemma_code_injective(a: NatType, b: NatType)
    ensures
        a.spec_code() < 10,
        a.spec_code() == b.spec_code() ==> a == b,
{
}

} // verus!
