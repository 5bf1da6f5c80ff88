use nft_contract::account::AccountId;
use nft_contract::contract::Contract;
use nft_contract::error::ContractError;
use nft_contract::host::HostContext;
use nft_contract::metadata::{default_contract_metadata, NftContractMetadata};

fn acct(s: &str) -> AccountId {
    AccountId::new(s.to_string()).unwrap()
}

fn ctx(predecessor: &str, current: &str, state_exists: bool) -> HostContext {
    HostContext {
        predecessor_account_id: acct(predecessor),
        current_account_id: acct(current),
        state_exists,
    }
}

fn init(owner: &str) -> Contract {
    Contract::new_default_meta(&ctx(owner, owner, false), acct(owner)).unwrap()
}

#[test]
fn defaults_after_init() {
    let c = init("alice");
    assert_eq!(c.get_title(), "This is the default title".to_string());
    assert_eq!(c.get_description(), "This is the default descripton".to_string());
    assert_eq!(
        c.get_media(),
        "https://i.ibb.co/R6P5Ppz/MLabs-logo-1200x1200-1.png".to_string()
    );
    assert_eq!(c.get_copies(), 1);
}

#[test]
fn reinit_fails() {
    let _existing = init("alice");
    let again = Contract::new_default_meta(&ctx("alice", "alice", true), acct("alice"));
    assert!(matches!(again, Err(ContractError::AlreadyInitialized)));
    let general = Contract::new(
        &ctx("alice", "alice", true),
        acct("alice"),
        default_contract_metadata(),
    );
    assert!(matches!(general, Err(ContractError::AlreadyInitialized)));
}

#[test]
fn invalid_metadata_rejected() {
    let mut m = default_contract_metadata();
    m.spec_version = "bogus".to_string();
    let r = Contract::new(&ctx("alice", "alice", false), acct("alice"), m);
    assert!(matches!(r, Err(ContractError::MetadataSpecMismatch)));

    let mut unpaired = default_contract_metadata();
    unpaired.reference = Some("https://example.com/info.json".to_string());
    let r2 = Contract::new(&ctx("alice", "alice", false), acct("alice"), unpaired);
    assert!(matches!(r2, Err(ContractError::MetadataReferenceUnpaired)));

    let mut short_hash = default_contract_metadata();
    short_hash.reference = Some("https://example.com/info.json".to_string());
    short_hash.reference_hash = Some(vec![7u8; 31]);
    let r3 = Contract::new(&ctx("alice", "alice", false), acct("alice"), short_hash);
    assert!(matches!(r3, Err(ContractError::MetadataHashWrongLength)));
}

#[test]
fn nft_metadata_returns_initializer_record() {
    let supplied = NftContractMetadata {
        spec_version: "nft-1.0.0".to_string(),
        name: "My collection".to_string(),
        symbol: "MINE".to_string(),
        icon: None,
        base_uri: Some("https://gateway.example".to_string()),
        reference: Some("https://example.com/info.json".to_string()),
        reference_hash: Some(vec![7u8; 32]),
    };
    let expected = NftContractMetadata {
        spec_version: "nft-1.0.0".to_string(),
        name: "My collection".to_string(),
        symbol: "MINE".to_string(),
        icon: None,
        base_uri: Some("https://gateway.example".to_string()),
        reference: Some("https://example.com/info.json".to_string()),
        reference_hash: Some(vec![7u8; 32]),
    };
    let c = Contract::new(&ctx("alice", "alice", false), acct("alice"), supplied).unwrap();
    assert_eq!(c.nft_metadata(), expected);
}

#[test]
fn default_metadata_symbol_and_icon() {
    let c = init("alice");
    let m = c.nft_metadata();
    assert_eq!(m.symbol, "MLABS".to_string());
    let icon = m.icon.unwrap();
    assert!(icon.starts_with("data:image/svg+xml,"));
    assert_eq!(
        icon,
        "data:image/svg+xml,%3C%3Fxml version='1.0' standalone='no'%3F%3E%3C!DOCTYPE svg PUBLIC '-//W3C//DTD SVG 20010904//EN' 'http://www.w3.org/TR/2001/REC-SVG-20010904/DTD/svg10.dtd'%3E%3Csvg version='1.0' xmlns='http://www.w3.org/2000/svg' width='300.000000pt' height='300.000000pt' viewBox='0 0 300.000000 300.000000' preserveAspectRatio='xMidYMid meet'%3E%3Cg transform='translate(0.000000,300.000000) scale(0.100000,-0.100000)'%0Afill='%23000000' stroke='none'%3E%3Cpath d='M1523 2111 c-73 -40 -140 -91 -193 -146 l-45 -47 60 38 c63 40 276%0A144 294 144 18 0 12 19 -8 30 -30 16 -52 12 -108 -19z'/%3E%3Cpath d='M1880 2115 c-162 -30 -410 -135 -590 -252 -87 -56 -310 -214 -310%0A-219 0 -1 66 29 146 67 236 114 462 182 652 196 l87 6 80 89 c119 133 117 128%0A59 127 -27 0 -83 -7 -124 -14z'/%3E%3Cpath d='M2470 1569 c-58 -23 -100 -85 -100 -146 0 -77 49 -118 183 -157 95%0A-28 123 -74 70 -116 -23 -19 -37 -21 -81 -17 -29 3 -73 17 -100 32 l-47 26%0A-22 -28 c-13 -15 -23 -30 -23 -33 0 -10 69 -49 114 -64 143 -49 266 14 266%0A136 0 72 -38 108 -154 143 -86 26 -126 51 -126 79 0 28 13 47 41 61 39 21 83%0A19 131 -6 l41 -21 23 29 c20 25 21 30 7 45 -35 39 -164 60 -223 37z'/%3E%3Cpath d='M270 1521 c0 -40 0 -40 42 -43 l42 -3 85 -197 c47 -109 89 -198 92%0A-198 3 0 43 87 90 194 l84 194 3 -204 2 -204 40 0 40 0 0 250 0 251 -67 -3%0A-67 -3 -60 -137 c-33 -76 -62 -138 -65 -138 -4 0 -33 63 -66 140 l-60 140 -67%0A0 -68 0 0 -39z'/%3E%3Cpath d='M880 1310 l0 -250 185 0 185 0 0 40 0 40 -145 0 -145 0 0 210 0 210%0A-40 0 -40 0 0 -250z'/%3E%3Cpath d='M1534 1483 c18 -43 47 -111 64 -150 l31 -73 -85 0 -84 0 15 36 c8 20%0A15 38 15 40 0 2 -20 4 -43 4 l-44 0 -51 -122 c-28 -68 -54 -131 -58 -140 -5%0A-15 0 -18 38 -18 l43 0 24 60 24 60 121 0 121 0 24 -60 24 -60 44 0 c23 0 43%0A2 43 4 0 2 -47 113 -103 247 l-104 244 -46 3 -46 3 33 -78z'/%3E%3Cpath d='M1880 1520 l0 -40 139 0 c114 0 143 -3 155 -16 27 -26 24 -71 -6 -96%0A-17 -15 -41 -18 -154 -18 l-134 0 0 -40 0 -40 138 0 c125 0 141 -2 157 -20 24%0A-27 22 -70 -5 -92 -19 -15 -42 -18 -156 -18 l-134 0 0 -40 0 -40 140 0 c155 0%0A178 6 224 60 33 40 36 119 7 164 -19 29 -19 30 0 54 26 34 26 116 -1 159 -33%0A55 -62 63 -225 63 l-145 0 0 -40z'/%3E%3Cpath d='M270 1205 l0 -145 40 0 40 0 0 145 0 145 -40 0 -40 0 0 -145z'/%3E%3C/g%3E%3C/svg%3E%0A".to_string()
    );
}

#[test]
fn set_then_get_each_field() {
    let mut c = init("alice");
    let cx = ctx("alice", "alice", true);

    assert!(c.set_title(&cx, "x".to_string()).is_ok());
    assert_eq!(c.get_title(), "x".to_string());
    assert!(c.set_title(&cx, "x".to_string()).is_ok());
    assert_eq!(c.get_title(), "x".to_string());

    assert!(c.set_description(&cx, "about".to_string()).is_ok());
    assert_eq!(c.get_description(), "about".to_string());
    assert!(c.set_description(&cx, "about".to_string()).is_ok());
    assert_eq!(c.get_description(), "about".to_string());

    assert!(c.set_media(&cx, "ipfs://m".to_string()).is_ok());
    assert_eq!(c.get_media(), "ipfs://m".to_string());
    assert!(c.set_media(&cx, "ipfs://m".to_string()).is_ok());
    assert_eq!(c.get_media(), "ipfs://m".to_string());

    assert!(c.set_copies(&cx, 7).is_ok());
    assert_eq!(c.get_copies(), 7);
    assert!(c.set_copies(&cx, 7).is_ok());
    assert_eq!(c.get_copies(), 7);
}

#[test]
fn unauthorized_caller_cannot_set() {
    let mut c = init("alice");
    let bob = ctx("bob", "alice", true);

    assert_eq!(
        c.set_title(&bob, "x".to_string()),
        Err(ContractError::UnauthorizedCaller)
    );
    assert_eq!(c.get_title(), "This is the default title".to_string());

    assert_eq!(
        c.set_description(&bob, "x".to_string()),
        Err(ContractError::UnauthorizedCaller)
    );
    assert_eq!(
        c.get_description(),
        "This is the default descripton".to_string()
    );

    assert_eq!(
        c.set_media(&bob, "x".to_string()),
        Err(ContractError::UnauthorizedCaller)
    );
    assert_eq!(
        c.get_media(),
        "https://i.ibb.co/R6P5Ppz/MLabs-logo-1200x1200-1.png".to_string()
    );

    assert_eq!(c.set_copies(&bob, 9), Err(ContractError::UnauthorizedCaller));
    assert_eq!(c.get_copies(), 1);
}

#[test]
fn composer_reflects_current_state() {
    let mut c = init("alice");
    let cx = ctx("alice", "alice", true);
    c.set_title(&cx, "Hello".to_string()).unwrap();
    c.set_copies(&cx, 7).unwrap();

    let m = c.mk_metadata();
    assert_eq!(m.title, Some("Hello".to_string()));
    assert_eq!(
        m.description,
        Some("This is the default descripton".to_string())
    );
    assert_eq!(
        m.media,
        Some("https://i.ibb.co/R6P5Ppz/MLabs-logo-1200x1200-1.png".to_string())
    );
    assert_eq!(m.copies, Some(7));
    assert_eq!(m.media_hash, None);
    assert_eq!(m.issued_at, None);
    assert_eq!(m.expires_at, None);
    assert_eq!(m.starts_at, None);
    assert_eq!(m.updated_at, None);
    assert_eq!(m.extra, None);
    assert_eq!(m.reference, None);
    assert_eq!(m.reference_hash, None);
}

#[test]
fn account_id_grammar() {
    assert!(AccountId::new("alice".to_string()).is_some());
    assert!(AccountId::new("bob.near".to_string()).is_some());
    assert!(AccountId::new("a-b_c.d0".to_string()).is_some());
    assert!(AccountId::new("ab".to_string()).is_some());

    assert!(AccountId::new("a".to_string()).is_none());
    assert!(AccountId::new("".to_string()).is_none());
    assert!(AccountId::new("Alice".to_string()).is_none());
    assert!(AccountId::new("a..b".to_string()).is_none());
    assert!(AccountId::new("a-_b".to_string()).is_none());
    assert!(AccountId::new("-ab".to_string()).is_none());
    assert!(AccountId::new("ab-".to_string()).is_none());
    assert!(AccountId::new("ali ce".to_string()).is_none());
    assert!(AccountId::new("ålice".to_string()).is_none());
    let long = "a".repeat(64);
    assert!(AccountId::new(long).is_some());
    let too_long = "a".repeat(65);
    assert!(AccountId::new(too_long).is_none());
}
