use vstd::prelude::*;

verus! {

/// The identifier of the one NFT that stands for the shares.
pub const SHARE_TOKEN_ID: &'static str = "0";

/// What the single NFT that stands for the shares shows to their owners.
#[derive(Clone, Debug)]
pub struct NftInstanceData {
    pub title: String,
    pub description: String,
    pub media: String,
    pub reference: String,
}

/// The character of a decimal digit.
pub open spec fn digit_char(d: nat) -> char {
    if d == 0 {
        '0'
    } else if d == 1 {
        '1'
    } else if d == 2 {
        '2'
    } else if d == 3 {
        '3'
    } else if d == 4 {
        '4'
    } else if d == 5 {
        '5'
    } else if d == 6 {
        '6'
    } else if d == 7 {
        '7'
    } else if d == 8 {
        '8'
    } else {
        '9'
    }
}

/// A number written in decimal, without sign or leading zeros.
pub open spec fn decimal(n: nat) -> Seq<char>
    decreases n,
{
    if n < 10 {
        seq![digit_char(n)]
    } else {
        decimal(n / 10).push(digit_char(n % 10))
    }
}

/// `text`, then ". ", then `held` and `total` in decimal separated by "/".
pub open spec fn caption(text: Seq<char>, held: nat, total: nat) -> Seq<char> {
    text + ". "@ + decimal(held) + "/"@ + decimal(total)
}

/// Relies on `format!` with std's `Display` for `u128`, which writes an
/// unsigned integer in decimal without sign or leading zeros.
#[verifier::external_body]
fn share_caption(text: &String, held: u128, total: u128) -> (r: String)
    ensures
        r@ == caption(text@, held as nat, total as nat),
{
    format!("{}. {}/{}", text, held, total)
}

impl NftInstanceData {
    /// The NFT as the collection shows it: the description carries the total
    /// supply of shares, with none attributed to the viewer.
    pub fn collection_view(&self, total_supply: u128) -> (r: NftInstanceData)
        ensures
            r.title@ == self.title@,
            r.description@ == caption(self.description@, 0, total_supply as nat),
            r.media@ == self.media@,
            r.reference@ == self.reference@,
    {
        NftInstanceData {
            title: self.title.clone(),
            description: share_caption(&self.description, 0, total_supply),
            media: self.media.clone(),
            reference: self.reference.clone(),
        }
    }

    /// The NFT as an owner of `held` out of `total_supply` shares sees it:
    /// title and description both carry the owner's part.
    pub fn owner_view(&self, held: u128, total_supply: u128) -> (r: NftInstanceData)
        ensures
            r.title@ == caption(self.title@, held as nat, total_supply as nat),
            r.description@ == caption(self.description@, held as nat, total_supply as nat),
            r.media@ == self.media@,
            r.reference@ == self.reference@,
    {
        NftInstanceData {
            title: share_caption(&self.title, held, total_supply),
            description: share_caption(&self.description, held, total_supply),
            media: self.media.clone(),
            reference: self.reference.clone(),
        }
    }
}

/// Whether `token_id` names the share NFT; every other identifier names
/// nothing.
pub fn is_share_token(token_id: &String) -> (r: bool)
    ensures
        r == (token_id@ == SHARE_TOKEN_ID@),
{
    let id = SHARE_TOKEN_ID.to_owned();
    *token_id == id
}

/// Whether a page of the enumeration that starts at `from_index` (from the
/// start when absent) and holds at most `limit` tokens (one when absent)
/// contains the single share NFT.
pub fn page_holds_token(from_index: Option<u128>, limit: Option<u64>) -> (r: bool)
    ensures
        r == page_holds_token_spec(from_index, limit),
{
    let limit = match limit {
        Some(l) => l,
        None => 1,
    };
    match from_index {
        Some(index) => index == 0 && limit > 0,
        None => limit > 0,
    }
}

/// Number of share NFTs an account holding `share_balance` shares owns.
pub fn nft_supply_for_owner(share_balance: u128) -> (r: u128)
    ensures
        r == (if share_balance > 0 {
            1u128
        } else {
            0u128
        }),
{
    if share_balance > 0 {
        1
    } else {
        0
    }
}

/// Whether an owner's page of the enumeration shows the share NFT: only
/// when the owner holds shares and the page reaches the token.
pub fn owner_page_holds_token(share_balance: u128, from_index: Option<u128>, limit: Option<u64>) -> (r: bool)
    ensures
        r == (share_balance > 0 && page_holds_token_spec(from_index, limit)),
{
    share_balance > 0 && page_holds_token(from_index, limit)
}

/// The condition `page_holds_token` decides.
pub open spec fn page_holds_token_spec(from_index: Option<u128>, limit: Option<u64>) -> bool {
    let starts_at_token = match from_index {
        Some(i) => i == 0,
        None => true,
    };
    let has_room = match limit {
        Some(l) => l > 0,
        None => true,
    };
    starts_at_token && has_room
}

} // verus!
