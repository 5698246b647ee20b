use monsterra::converter::{BoxConverter, NftInfo};
use monsterra::error::{ContractError, Effect};
use monsterra::nft::{MintMsg, NftMinter};

const SEC: u64 = 1_000_000_000;

fn s(x: &str) -> String {
    x.to_string()
}

fn nft(c: &str, id: &str) -> NftInfo {
    NftInfo { contract_addr: s(c), token_id: s(id) }
}

#[test]
fn convert_boxes() {
    let mut c = BoxConverter::instantiate(&s("owner"));
    c.set_box_contract(&s("owner"), s("BOX"), true).unwrap();
    let boxes = vec![nft("BOX", "1")];
    let nfts = vec![nft("HERO", "9"), nft("HERO", "10")];
    let ok = c.convert(&s("u"), &boxes, &nfts, 10 * SEC, 20 * SEC, true, &vec![Some(s("u"))], &vec![Some(true), Some(true)]).unwrap();
    assert_eq!(
        ok,
        vec![
            Effect::BurnNft { contract: s("BOX"), token_id: s("1") },
            Effect::MintNft { contract: s("HERO"), token_id: s("9"), owner: s("u") },
            Effect::MintNft { contract: s("HERO"), token_id: s("10"), owner: s("u") },
        ]
    );
    assert_eq!(c.convert(&s("u"), &boxes, &nfts, 10 * SEC, 200 * SEC, true, &vec![Some(s("u"))], &vec![Some(true), Some(true)]), Err(ContractError::TimeExpired));
    assert_eq!(c.convert(&s("u"), &boxes, &nfts, 10 * SEC, 20 * SEC, false, &vec![Some(s("u"))], &vec![Some(true), Some(true)]), Err(ContractError::InvalidSignature));
    assert_eq!(c.convert(&s("u"), &vec![], &nfts, 10 * SEC, 20 * SEC, true, &vec![], &vec![Some(true), Some(true)]), Err(ContractError::InvalidNftInfo));
    assert_eq!(c.convert(&s("u"), &vec![nft("X", "1")], &nfts, 10 * SEC, 20 * SEC, true, &vec![Some(s("u"))], &vec![Some(true), Some(true)]), Err(ContractError::InvalidBoxContract));
    assert_eq!(c.convert(&s("u"), &boxes, &nfts, 10 * SEC, 20 * SEC, true, &vec![None], &vec![Some(true), Some(true)]), Err(ContractError::NotExistedNFT));
    assert_eq!(c.convert(&s("u"), &boxes, &nfts, 10 * SEC, 20 * SEC, true, &vec![Some(s("v"))], &vec![Some(true), Some(true)]), Err(ContractError::NotOwnedNFT));
    assert_eq!(c.convert(&s("u"), &boxes, &vec![], 10 * SEC, 20 * SEC, true, &vec![Some(s("u"))], &vec![]), Err(ContractError::InvalidNftInfo));
    assert_eq!(c.convert(&s("u"), &boxes, &nfts, 10 * SEC, 20 * SEC, true, &vec![Some(s("u"))], &vec![Some(true), Some(false)]), Err(ContractError::NotAdmin));
    assert_eq!(c.convert(&s("u"), &boxes, &nfts, 10 * SEC, 20 * SEC, true, &vec![Some(s("u"))], &vec![None, Some(false)]), Err(ContractError::QueryFailed));
}

#[test]
fn minting_batches() {
    let mut m = NftMinter::instantiate(&s("owner"), s("ipfs://x/"));
    let msgs = vec![MintMsg { token_id: s("1"), owner: s("a") }];
    assert_eq!(m.mint_batch(&s("x"), &s("col"), &msgs), Err(ContractError::Unauthorized));
    assert_eq!(m.mint_batch(&s("owner"), &s("col"), &msgs).unwrap(), vec![Effect::MintNft { contract: s("col"), token_id: s("1"), owner: s("a") }]);
    let ids = vec![s("5"), s("6")];
    let e = m.mint_batch_with_signature(&s("u"), &s("col"), &ids, &s("n"), 10 * SEC, 11 * SEC, true).unwrap();
    assert_eq!(e.len(), 2);
    assert_eq!(e[1], Effect::MintNft { contract: s("col"), token_id: s("6"), owner: s("u") });
    assert_eq!(m.mint_batch_with_signature(&s("u"), &s("col"), &ids, &s("n"), 10 * SEC, 11 * SEC, true), Err(ContractError::NonceUsed));
    assert_eq!(m.set_base_uri(&s("x"), s("y")), Err(ContractError::Unauthorized));
    assert_eq!(m.set_base_uri(&s("owner"), s("y")), Ok(()));
    assert_eq!(m.get_base_uri(), &s("y"));
}

#[test]
fn token_uri_falls_back_to_base() {
    let m = NftMinter::instantiate(&s("owner"), s("ipfs://x/"));
    assert_eq!(m.nft_info(&s("42"), None), s("ipfs://x/42"));
    assert_eq!(m.nft_info(&s("42"), Some(s("ar://y"))), s("ar://y"));
}

#[test]
fn staked_tokens_come_back_instead_of_minting() {
    let mut m = NftMinter::instantiate(&s("owner"), s("ipfs://x/"));
    let ids = vec![s("1"), s("2")];
    assert_eq!(m.stake_batch(&s("u"), &s("col"), &ids, &vec![true, false]), Err(ContractError::Unauthorized));
    assert_eq!(m.internal_mint(&s("1")), None);
    let e = m.stake_batch(&s("u"), &s("col"), &ids, &vec![true, true]).unwrap();
    assert_eq!(e[0], Effect::InternalTransfer { contract: s("col"), sender: s("u"), recipient: s("col"), token_id: s("1") });
    assert_eq!(m.internal_mint(&s("2")), Some(s("u")));
    assert_eq!(m.internal_mint(&s("2")), None);
    assert_eq!(m.internal_mint(&s("1")), Some(s("u")));
}
