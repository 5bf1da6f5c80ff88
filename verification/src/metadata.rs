use crate::error::ContractError;
use vstd::prelude::*;

verus! {

/// The version string that contract-level metadata must carry to satisfy the
/// standard's validity check.
pub open spec fn metadata_spec_version() -> Seq<char> {
    "nft-1.0.0"@
}

/// The name of the example contract, used by the default-metadata initializer.
pub open spec fn default_name() -> Seq<char> {
    "Example NEAR non-fungible token by MLabs"@
}

/// The short symbol of the example contract, used by the default-metadata
/// initializer.
pub open spec fn default_symbol() -> Seq<char> {
    "MLABS"@
}

/// The fixed inline SVG icon, URL-encoded as a data URI, used by the
/// default-metadata initializer.
pub open spec fn default_icon() -> Seq<char> {
    "data:image/svg+xml,%3C%3Fxml version='1.0' standalone='no'%3F%3E%3C!DOCTYPE svg PUBLIC '-//W3C//DTD SVG 20010904//EN' 'http://www.w3.org/TR/2001/REC-SVG-20010904/DTD/svg10.dtd'%3E%3Csvg version='1.0' xmlns='http://www.w3.org/2000/svg' width='300.000000pt' height='300.000000pt' viewBox='0 0 300.000000 300.000000' preserveAspectRatio='xMidYMid meet'%3E%3Cg transform='translate(0.000000,300.000000) scale(0.100000,-0.100000)'%0Afill='%23000000' stroke='none'%3E%3Cpath d='M1523 2111 c-73 -40 -140 -91 -193 -146 l-45 -47 60 38 c63 40 276%0A144 294 144 18 0 12 19 -8 30 -30 16 -52 12 -108 -19z'/%3E%3Cpath d='M1880 2115 c-162 -30 -410 -135 -590 -252 -87 -56 -310 -214 -310%0A-219 0 -1 66 29 146 67 236 114 462 182 652 196 l87 6 80 89 c119 133 117 128%0A59 127 -27 0 -83 -7 -124 -14z'/%3E%3Cpath d='M2470 1569 c-58 -23 -100 -85 -100 -146 0 -77 49 -118 183 -157 95%0A-28 123 -74 70 -116 -23 -19 -37 -21 -81 -17 -29 3 -73 17 -100 32 l-47 26%0A-22 -28 c-13 -15 -23 -30 -23 -33 0 -10 69 -49 114 -64 143 -49 266 14 266%0A136 0 72 -38 108 -154 143 -86 26 -126 51 -126 79 0 28 13 47 41 61 39 21 83%0A19 131 -6 l41 -21 23 29 c20 25 21 30 7 45 -35 39 -164 60 -223 37z'/%3E%3Cpath d='M270 1521 c0 -40 0 -40 42 -43 l42 -3 85 -197 c47 -109 89 -198 92%0A-198 3 0 43 87 90 194 l84 194 3 -204 2 -204 40 0 40 0 0 250 0 251 -67 -3%0A-67 -3 -60 -137 c-33 -76 -62 -138 -65 -138 -4 0 -33 63 -66 140 l-60 140 -67%0A0 -68 0 0 -39z'/%3E%3Cpath d='M880 1310 l0 -250 185 0 185 0 0 40 0 40 -145 0 -145 0 0 210 0 210%0A-40 0 -40 0 0 -250z'/%3E%3Cpath d='M1534 1483 c18 -43 47 -111 64 -150 l31 -73 -85 0 -84 0 15 36 c8 20%0A15 38 15 40 0 2 -20 4 -43 4 l-44 0 -51 -122 c-28 -68 -54 -131 -58 -140 -5%0A-15 0 -18 38 -18 l43 0 24 60 24 60 121 0 121 0 24 -60 24 -60 44 0 c23 0 43%0A2 43 4 0 2 -47 113 -103 247 l-104 244 -46 3 -46 3 33 -78z'/%3E%3Cpath d='M1880 1520 l0 -40 139 0 c114 0 143 -3 155 -16 27 -26 24 -71 -6 -96%0A-17 -15 -41 -18 -154 -18 l-134 0 0 -40 0 -40 138 0 c125 0 141 -2 157 -20 24%0A-27 22 -70 -5 -92 -19 -15 -42 -18 -156 -18 l-134 0 0 -40 0 -40 140 0 c155 0%0A178 6 224 60 33 40 36 119 7 164 -19 29 -19 30 0 54 26 34 26 116 -1 159 -33%0A55 -62 63 -225 63 l-145 0 0 -40z'/%3E%3Cpath d='M270 1205 l0 -145 40 0 40 0 0 145 0 145 -40 0 -40 0 0 -145z'/%3E%3C/g%3E%3C/svg%3E%0A"@
}

/// Contract-level metadata: one record describing the whole collection,
/// stored at initialization and served unchanged afterwards.
#[derive(Debug, PartialEq, Eq)]
pub struct NftContractMetadata {
    /// The standard's version string; must equal [`metadata_spec_version`].
    pub spec_version: String,
    /// Display name of the collection.
    pub name: String,
    /// Short symbol of the collection.
    pub symbol: String,
    /// Optional icon, expected to be a data URI.
    pub icon: Option<String>,
    /// Optional gateway known to serve the referenced assets.
    pub base_uri: Option<String>,
    /// Optional URL of an off-chain JSON file with more information.
    pub reference: Option<String>,
    /// Hash of the referenced JSON file; present exactly when `reference` is.
    pub reference_hash: Option<Vec<u8>>,
}

/// The mathematical shape of a contract-level metadata record.
pub struct NftContractMetadataV {
    pub spec_version: Seq<char>,
    pub name: Seq<char>,
    pub symbol: Seq<char>,
    pub icon: Option<Seq<char>>,
    pub base_uri: Option<Seq<char>>,
    pub reference: Option<Seq<char>>,
    pub reference_hash: Option<Seq<u8>>,
}

impl View for NftContractMetadata {
    type V = NftContractMetadataV;

    open spec fn view(&self) -> NftContractMetadataV {
        NftContractMetadataV {
            spec_version: self.spec_version@,
            name: self.name@,
            symbol: self.symbol@,
            icon: match self.icon {
                Some(s) => Some(s@),
                None => None,
            },
            base_uri: match self.base_uri {
                Some(s) => Some(s@),
                None => None,
            },
            reference: match self.reference {
                Some(s) => Some(s@),
                None => None,
            },
            reference_hash: match self.reference_hash {
                Some(h) => Some(h@),
                None => None,
            },
        }
    }
}

/// The standard's validity check as it reports failures: the first condition
/// that does not hold, in the order the standard checks them — the version
/// string, then the reference/hash pairing, then the hash length.
pub open spec fn metadata_check(m: NftContractMetadata) -> Result<(), ContractError> {
    if m.spec_version@ != metadata_spec_version() {
        Err(ContractError::MetadataSpecMismatch)
    } else if !((m.reference is Some) <==> (m.reference_hash is Some)) {
        Err(ContractError::MetadataReferenceUnpaired)
    } else if m.reference_hash matches Some(h) && h@.len() != 32 {
        Err(ContractError::MetadataHashWrongLength)
    } else {
        Ok(())
    }
}

impl NftContractMetadata {
    /// The standard's validity check for contract-level metadata: the version
    /// string matches, a reference and its hash come together, and the hash
    /// has exactly 32 bytes.
    pub open spec fn valid(&self) -> bool {
        &&& self.spec_version@ == metadata_spec_version()
        &&& self.reference is Some <==> self.reference_hash is Some
        &&& match self.reference_hash {
            Some(h) => h@.len() == 32,
            None => true,
        }
    }

    /// Evaluates the validity check, reporting the first failing condition in
    /// the order the standard checks them.
    pub fn check_valid(&self) -> (r: Result<(), ContractError>)
        ensures
            r == metadata_check(*self),
            r is Ok <==> self.valid(),
    {
        let expected: String = "nft-1.0.0".to_owned();
        if self.spec_version != expected {
            return Err(ContractError::MetadataSpecMismatch);
        }
        if self.reference.is_some() != self.reference_hash.is_some() {
            return Err(ContractError::MetadataReferenceUnpaired);
        }
        match &self.reference_hash {
            Some(h) => {
                if h.len() != 32 {
                    return Err(ContractError::MetadataHashWrongLength);
                }
            },
            None => {},
        }
        Ok(())
    }

    /// Returns an owned copy of this record.
    pub fn duplicate(&self) -> (r: NftContractMetadata)
        ensures
            r@ == self@,
    {
        NftContractMetadata {
            spec_version: self.spec_version.clone(),
            name: self.name.clone(),
            symbol: self.symbol.clone(),
            icon: clone_opt_string(&self.icon),
            base_uri: clone_opt_string(&self.base_uri),
            reference: clone_opt_string(&self.reference),
            reference_hash: clone_opt_bytes(&self.reference_hash),
        }
    }
}

/// Copies an optional string, keeping its characters.
fn clone_opt_string(o: &Option<String>) -> (r: Option<String>)
    ensures
        r is Some <==> o is Some,
        r matches Some(s) ==> o matches Some(t) && s@ == t@,
{
    match o {
        Some(s) => Some(s.clone()),
        None => None,
    }
}

/// Copies an optional byte vector, keeping its bytes.
fn clone_opt_bytes(o: &Option<Vec<u8>>) -> (r: Option<Vec<u8>>)
    ensures
        r is Some <==> o is Some,
        r matches Some(s) ==> o matches Some(t) && s@ == t@,
{
    match o {
        Some(s) => {
            let c = s.clone();
            proof {
                assert(c@ =~= s@);
            }
            Some(c)
        },
        None => None,
    }
}

/// The contract-level metadata that the default-metadata initializer
/// synthesizes: the standard's version string, a fixed example name and
/// symbol, a fixed inline SVG icon, and nothing else.
pub open spec fn is_default_contract_metadata(m: NftContractMetadataV) -> bool {
    &&& m.spec_version == metadata_spec_version()
    &&& m.name == default_name()
    &&& m.symbol == default_symbol()
    &&& m.icon matches Some(i) && i == default_icon()
    &&& m.base_uri is None
    &&& m.reference is None
    &&& m.reference_hash is None
}

/// Builds the default contract-level metadata record. It passes the
/// standard's validity check.
pub fn default_contract_metadata() -> (r: NftContractMetadata)
    ensures
        is_default_contract_metadata(r@),
        r.valid(),
{
    NftContractMetadata {
        spec_version: "nft-1.0.0".to_owned(),
        name: "Example NEAR non-fungible token by MLabs".to_owned(),
        symbol: "MLABS".to_owned(),
        icon: Some(
            "data:image/svg+xml,%3C%3Fxml version='1.0' standalone='no'%3F%3E%3C!DOCTYPE svg PUBLIC '-//W3C//DTD SVG 20010904//EN' 'http://www.w3.org/TR/2001/REC-SVG-20010904/DTD/svg10.dtd'%3E%3Csvg version='1.0' xmlns='http://www.w3.org/2000/svg' width='300.000000pt' height='300.000000pt' viewBox='0 0 300.000000 300.000000' preserveAspectRatio='xMidYMid meet'%3E%3Cg transform='translate(0.000000,300.000000) scale(0.100000,-0.100000)'%0Afill='%23000000' stroke='none'%3E%3Cpath d='M1523 2111 c-73 -40 -140 -91 -193 -146 l-45 -47 60 38 c63 40 276%0A144 294 144 18 0 12 19 -8 30 -30 16 -52 12 -108 -19z'/%3E%3Cpath d='M1880 2115 c-162 -30 -410 -135 -590 -252 -87 -56 -310 -214 -310%0A-219 0 -1 66 29 146 67 236 114 462 182 652 196 l87 6 80 89 c119 133 117 128%0A59 127 -27 0 -83 -7 -124 -14z'/%3E%3Cpath d='M2470 1569 c-58 -23 -100 -85 -100 -146 0 -77 49 -118 183 -157 95%0A-28 123 -74 70 -116 -23 -19 -37 -21 -81 -17 -29 3 -73 17 -100 32 l-47 26%0A-22 -28 c-13 -15 -23 -30 -23 -33 0 -10 69 -49 114 -64 143 -49 266 14 266%0A136 0 72 -38 108 -154 143 -86 26 -126 51 -126 79 0 28 13 47 41 61 39 21 83%0A19 131 -6 l41 -21 23 29 c20 25 21 30 7 45 -35 39 -164 60 -223 37z'/%3E%3Cpath d='M270 1521 c0 -40 0 -40 42 -43 l42 -3 85 -197 c47 -109 89 -198 92%0A-198 3 0 43 87 90 194 l84 194 3 -204 2 -204 40 0 40 0 0 250 0 251 -67 -3%0A-67 -3 -60 -137 c-33 -76 -62 -138 -65 -138 -4 0 -33 63 -66 140 l-60 140 -67%0A0 -68 0 0 -39z'/%3E%3Cpath d='M880 1310 l0 -250 185 0 185 0 0 40 0 40 -145 0 -145 0 0 210 0 210%0A-40 0 -40 0 0 -250z'/%3E%3Cpath d='M1534 1483 c18 -43 47 -111 64 -150 l31 -73 -85 0 -84 0 15 36 c8 20%0A15 38 15 40 0 2 -20 4 -43 4 l-44 0 -51 -122 c-28 -68 -54 -131 -58 -140 -5%0A-15 0 -18 38 -18 l43 0 24 60 24 60 121 0 121 0 24 -60 24 -60 44 0 c23 0 43%0A2 43 4 0 2 -47 113 -103 247 l-104 244 -46 3 -46 3 33 -78z'/%3E%3Cpath d='M1880 1520 l0 -40 139 0 c114 0 143 -3 155 -16 27 -26 24 -71 -6 -96%0A-17 -15 -41 -18 -154 -18 l-134 0 0 -40 0 -40 138 0 c125 0 141 -2 157 -20 24%0A-27 22 -70 -5 -92 -19 -15 -42 -18 -156 -18 l-134 0 0 -40 0 -40 140 0 c155 0%0A178 6 224 60 33 40 36 119 7 164 -19 29 -19 30 0 54 26 34 26 116 -1 159 -33%0A55 -62 63 -225 63 l-145 0 0 -40z'/%3E%3Cpath d='M270 1205 l0 -145 40 0 40 0 0 145 0 145 -40 0 -40 0 0 -145z'/%3E%3C/g%3E%3C/svg%3E%0A".to_owned(),
        ),
        base_uri: None,
        reference: None,
        reference_hash: None,
    }
}

} // verus!
