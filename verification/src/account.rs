//! Account identifiers and the directory of known accounts.
//!
//! The directory stands for the ledger's account query service: a submission
//! harness fills it with the accounts (and balances) that the network would
//! report, and the resolution steps consult it where the pipeline is online.

use vstd::prelude::*;

verus! {

/// An account identifier on the ledger, kept as entered by the operator.
#[derive(Debug)]
pub struct AccountId(pub String);

impl Clone for AccountId {
    fn clone(&self) -> (r: Self)
        ensures
            r == *self,
    {
        AccountId(self.0.clone())
    }
}

impl View for AccountId {
    type V = Seq<char>;

    /// The characters of the identifier.
    open spec fn view(&self) -> Seq<char> {
        self.0@
    }
}

impl AccountId {
    pub fn as_string(&self) -> (r: &String)
        ensures
            r@ == self@,
    {
        &self.0
    }

    pub fn to_account_string(&self) -> (r: String)
        ensures
            r@ == self@,
    {
        self.0.clone()
    }
}

/// Whether a byte is an ASCII hexadecimal digit in lower case.
pub open spec fn spec_is_hex_byte(b: u8) -> bool {
    (48 <= b && b <= 57) || (97 <= b && b <= 102)
}

/// Whether the text is exactly 64 lower-case hexadecimal digits, the shape of
/// an implicit account identifier derived from a key.
pub open spec fn spec_is_64_len_hex(s: Seq<u8>) -> bool {
    s.len() == 64 && forall|i: int| 0 <= i < s.len() ==> spec_is_hex_byte(#[trigger] s[i])
}

/// Reports whether the account identifier is 64 lower-case hexadecimal
/// digits; such identifiers are accepted even when no account record exists.
pub fn is_64_len_hex(account_id: &String) -> (r: bool)
    ensures
        r == spec_is_64_len_hex(vstd::utf8::encode_utf8(account_id@)),
{
    let s: &str = account_id.as_str();
    let bytes: &[u8] = s.as_bytes();
    if bytes.len() != 64 {
        return false;
    }
    let mut i: usize = 0;
    while i < bytes.len()
        invariant
            0 <= i <= bytes@.len(),
            bytes@.len() == 64,
            bytes@ == vstd::utf8::encode_utf8(account_id@),
            forall|j: int| 0 <= j < i ==> spec_is_hex_byte(#[trigger] bytes@[j]),
        decreases bytes@.len() - i,
    {
        let b = bytes[i];
        if !((48 <= b && b <= 57) || (97 <= b && b <= 102)) {
            return false;
        }
        i = i + 1;
    }
    true
}

/// One account as the query service reports it: its identifier and balance.
#[derive(Debug, Clone)]
pub struct AccountRecord {
    pub account_id: String,
    pub balance_yocto: u128,
}

/// The accounts the query service would report, with their balances: the
/// stand-in for the network's account state lookup.
#[derive(Debug, Clone)]
pub struct AccountDirectory {
    pub records: Vec<AccountRecord>,
}

/// The balance of the first record with the given identifier, if any.
pub open spec fn spec_lookup(records: Seq<AccountRecord>, id: Seq<char>) -> Option<u128>
    decreases records.len(),
{
    if records.len() == 0 {
        None
    } else if records[0].account_id@ == id {
        Some(records[0].balance_yocto)
    } else {
        spec_lookup(records.drop_first(), id)
    }
}

impl AccountDirectory {
    pub fn new() -> (r: AccountDirectory)
        ensures
            r.records@.len() == 0,
    {
        AccountDirectory { records: Vec::new() }
    }

    pub fn add(&mut self, account_id: String, balance_yocto: u128)
        ensures
            final(self).records@ == old(self).records@.push(
                AccountRecord { account_id, balance_yocto },
            ),
    {
        self.records.push(AccountRecord { account_id, balance_yocto });
    }

    /// The balance of the account, or `None` where the query service would
    /// report that no such account exists.
    pub fn lookup(&self, id: &String) -> (r: Option<u128>)
        ensures
            r == spec_lookup(self.records@, id@),
    {
        let n = self.records.len();
        let mut i: usize = 0;
        proof {
            assert(self.records@.skip(0) =~= self.records@);
        }
        while i < n
            invariant
                0 <= i <= n,
                n == self.records@.len(),
                spec_lookup(self.records@, id@) == spec_lookup(self.records@.skip(i as int), id@),
            decreases n - i,
        {
            proof {
                assert(self.records@.skip(i as int).drop_first() =~= self.records@.skip(
                    i as int + 1,
                ));
            }
            if self.records[i].account_id == *id {
                return Some(self.records[i].balance_yocto);
            }
            i = i + 1;
        }
        None
    }

    /// Whether the query service reports an account with this identifier.
    pub fn has_account(&self, id: &String) -> (r: bool)
        ensures
            r == spec_lookup(self.records@, id@) is Some,
    {
        self.lookup(id).is_some()
    }
}

} // verus!
