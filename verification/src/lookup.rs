//! The lookup-table resolver: joins what was fetched for each table address
//! into the tables that a message is compiled against.

use vstd::prelude::*;
use crate::sdk::{decode_lookup_table, lookup_table_addresses, parse_address, pubkey_from_str};
use crate::types::BotError;

verus! {

/// What reading a table's account from the chain returned.
#[derive(Clone, Debug, PartialEq, Eq)]
pub struct FetchedAccount {
    pub lamports: u64,
    pub data: Vec<u8>,
}

/// A resolved lookup table: its address, the balance and raw bytes of its
/// account, and the addresses that the bytes hold.
#[derive(Clone, Debug, PartialEq, Eq)]
pub struct LookupTable {
    pub key: [u8; 32],
    pub lamports: u64,
    pub data: Vec<u8>,
    pub addresses: Vec<[u8; 32]>,
}

/// What a resolved table is, as mathematics.
pub struct LookupTableView {
    pub key: [u8; 32],
    pub lamports: u64,
    pub data: Seq<u8>,
    pub addresses: Seq<[u8; 32]>,
}

impl View for LookupTable {
    type V = LookupTableView;

    open spec fn view(&self) -> LookupTableView {
        LookupTableView {
            key: self.key,
            lamports: self.lamports,
            data: self.data@,
            addresses: self.addresses@,
        }
    }
}

/// The views of a list of tables, in order.
pub open spec fn table_views(tables: Seq<LookupTable>) -> Seq<LookupTableView> {
    Seq::new(tables.len(), |i: int| tables[i]@)
}

/// The view of an optional list of addresses.
pub open spec fn addresses_view(addresses: Option<Vec<[u8; 32]>>) -> Option<Seq<[u8; 32]>> {
    match addresses {
        Some(a) => Some(a@),
        None => None,
    }
}

/// The view of an optional table.
pub open spec fn table_view(table: Option<LookupTable>) -> Option<LookupTableView> {
    match table {
        Some(t) => Some(t@),
        None => None,
    }
}

/// The first position below `upto` that holds nothing, or `upto` where
/// every position holds something.
pub open spec fn first_missing<T>(entries: Seq<Option<T>>, upto: int) -> int
    decreases upto,
{
    if upto <= 0 {
        0
    } else {
        let before = first_missing(entries, upto - 1);
        if before < upto - 1 || entries[upto - 1] is None {
            before
        } else {
            upto
        }
    }
}

/// `first_missing` is the least position that holds nothing.
pub proof fn first_missing_is_least<T>(entries: Seq<Option<T>>, upto: int)
    requires
        0 <= upto <= entries.len(),
    ensures
        0 <= first_missing(entries, upto) <= upto,
        forall|j: int| 0 <= j < first_missing(entries, upto) ==> (#[trigger] entries[j]) is Some,
        first_missing(entries, upto) < upto ==> entries[first_missing(entries, upto)] is None,
    decreases upto,
{
    if upto > 0 {
        first_missing_is_least(entries, upto - 1);
    }
}

/// Parses the table addresses of a response, all or none.
pub open spec fn spec_keys(addresses: Seq<String>) -> Seq<Option<[u8; 32]>> {
    Seq::new(addresses.len(), |i: int| pubkey_from_str(addresses[i]@))
}

/// Keeps the parsed addresses where every one parsed, and fails with
/// `InvalidAddress` otherwise.
pub fn collect_keys(parsed: &Vec<Option<[u8; 32]>>) -> (outcome: Result<Vec<[u8; 32]>, BotError>)
    ensures
        match outcome {
            Ok(keys) => {
                &&& keys@.len() == parsed@.len()
                &&& forall|i: int| 0 <= i < parsed@.len() ==> parsed@[i] == Some(#[trigger] keys@[i])
            },
            Err(error) => {
                &&& error == BotError::InvalidAddress
                &&& exists|i: int| 0 <= i < parsed@.len() && (#[trigger] parsed@[i]) is None
            },
        },
{
    let mut keys: Vec<[u8; 32]> = Vec::new();
    let mut i: usize = 0;
    while i < parsed.len()
        invariant
            i <= parsed.len(),
            keys@.len() == i,
            forall|j: int| 0 <= j < i ==> parsed@[j] == Some(#[trigger] keys@[j]),
        decreases parsed.len() - i,
    {
        match parsed[i] {
            Some(key) => {
                keys.push(key);
            },
            None => {
                return Err(BotError::InvalidAddress);
            },
        }
        i += 1;
    }
    Ok(keys)
}

/// The addresses of the lookup tables that a response names: every text
/// must parse, else the whole list is refused with `InvalidAddress`.
pub fn lookup_table_keys(addresses: &Vec<String>) -> (outcome: Result<Vec<[u8; 32]>, BotError>)
    ensures
        match outcome {
            Ok(keys) => {
                &&& keys@.len() == addresses@.len()
                &&& forall|i: int|
                    0 <= i < addresses@.len() ==> pubkey_from_str(addresses@[i]@) == Some(
                        #[trigger] keys@[i],
                    )
            },
            Err(error) => {
                &&& error == BotError::InvalidAddress
                &&& exists|i: int|
                    0 <= i < addresses@.len() && pubkey_from_str(
                        (#[trigger] addresses@[i])@,
                    ) is None
            },
        },
{
    let mut parsed: Vec<Option<[u8; 32]>> = Vec::new();
    let mut i: usize = 0;
    while i < addresses.len()
        invariant
            i <= addresses.len(),
            parsed@.len() == i,
            forall|j: int| 0 <= j < i ==> #[trigger] parsed@[j] == pubkey_from_str(addresses@[j]@),
        decreases addresses.len() - i,
    {
        parsed.push(parse_address(addresses[i].as_str()));
        i += 1;
    }
    let outcome = collect_keys(&parsed);
    proof {
        if let Err(_) = outcome {
            let i = choose|i: int| 0 <= i < parsed@.len() && (#[trigger] parsed@[i]) is None;
            assert(pubkey_from_str(addresses@[i]@) is None);
        }
    }
    outcome
}

fn copy_bytes(bytes: &Vec<u8>) -> (copy: Vec<u8>)
    ensures
        copy@ == bytes@,
{
    let mut copy: Vec<u8> = Vec::new();
    let mut i: usize = 0;
    while i < bytes.len()
        invariant
            i <= bytes.len(),
            copy@ == bytes@.subrange(0, i as int),
        decreases bytes.len() - i,
    {
        copy.push(bytes[i]);
        assert(copy@ =~= bytes@.subrange(0, i + 1));
        i += 1;
    }
    assert(bytes@.subrange(0, i as int) =~= bytes@);
    copy
}

fn copy_addresses(addresses: &Vec<[u8; 32]>) -> (copy: Vec<[u8; 32]>)
    ensures
        copy@ == addresses@,
{
    let mut copy: Vec<[u8; 32]> = Vec::new();
    let mut i: usize = 0;
    while i < addresses.len()
        invariant
            i <= addresses.len(),
            copy@ == addresses@.subrange(0, i as int),
        decreases addresses.len() - i,
    {
        copy.push(addresses[i]);
        assert(copy@ =~= addresses@.subrange(0, i + 1));
        i += 1;
    }
    assert(addresses@.subrange(0, i as int) =~= addresses@);
    copy
}

/// The table that one fetch resolves to: none where nothing was fetched or
/// where the account's data is no table.
pub open spec fn spec_resolved(key: [u8; 32], fetched: Option<FetchedAccount>) -> Option<
    LookupTableView,
> {
    match fetched {
        None => None,
        Some(account) => match lookup_table_addresses(account.data@) {
            None => None,
            Some(addresses) => Some(
                LookupTableView {
                    key,
                    lamports: account.lamports,
                    data: account.data@,
                    addresses,
                },
            ),
        },
    }
}

/// What the fetches resolve to, position by position; a position for which
/// nothing was handed in counts as not fetched.
pub open spec fn spec_resolved_all(keys: Seq<[u8; 32]>, fetched: Seq<Option<FetchedAccount>>) -> Seq<
    Option<LookupTableView>,
> {
    Seq::new(
        keys.len(),
        |i: int|
            if i < fetched.len() {
                spec_resolved(keys[i], fetched[i])
            } else {
                None
            },
    )
}

/// One table address with what it resolved to.
#[derive(Clone, Debug, PartialEq, Eq)]
pub struct Resolution {
    pub key: [u8; 32],
    pub table: Option<LookupTable>,
}

/// The addresses of a list of resolutions, in order.
pub open spec fn resolution_keys(resolutions: Seq<Resolution>) -> Seq<[u8; 32]> {
    Seq::new(resolutions.len(), |i: int| resolutions[i].key)
}

/// What a list of resolutions resolved to, in order.
pub open spec fn resolution_views(resolutions: Seq<Resolution>) -> Seq<Option<LookupTableView>> {
    Seq::new(resolutions.len(), |i: int| table_view(resolutions[i].table))
}

/// Whether `outcome` is the join of what the addresses `keys` resolved to:
/// every table in order where all are there, else `LookupTableMissing` with
/// the first address that resolved to none.
pub open spec fn is_join_of(
    outcome: Result<Vec<LookupTable>, BotError>,
    keys: Seq<[u8; 32]>,
    resolved: Seq<Option<LookupTableView>>,
) -> bool {
    match outcome {
        Ok(tables) => {
            &&& first_missing(resolved, resolved.len() as int) == resolved.len()
            &&& tables@.len() == resolved.len()
            &&& forall|i: int|
                0 <= i < resolved.len() ==> resolved[i] == Some((#[trigger] tables@[i])@)
        },
        Err(error) => {
            &&& first_missing(resolved, resolved.len() as int) < resolved.len()
            &&& error == (BotError::LookupTableMissing {
                address: keys[first_missing(resolved, resolved.len() as int)],
            })
        },
    }
}

/// Resolves one fetch.
pub fn resolve_table(key: &[u8; 32], fetched: &Option<FetchedAccount>) -> (table: Option<LookupTable>)
    ensures
        table_view(table) == spec_resolved(*key, *fetched),
{
    match fetched {
        None => None,
        Some(account) => match decode_lookup_table(&account.data) {
            None => None,
            Some(addresses) => Some(
                LookupTable {
                    key: *key,
                    lamports: account.lamports,
                    data: copy_bytes(&account.data),
                    addresses,
                },
            ),
        },
    }
}

/// Joins the resolved tables: all of them or none.
pub fn join_tables(resolutions: &Vec<Resolution>) -> (outcome: Result<Vec<LookupTable>, BotError>)
    ensures
        is_join_of(outcome, resolution_keys(resolutions@), resolution_views(resolutions@)),
{
    let ghost views = resolution_views(resolutions@);
    let mut tables: Vec<LookupTable> = Vec::new();
    let mut i: usize = 0;
    while i < resolutions.len()
        invariant
            i <= resolutions.len(),
            views == resolution_views(resolutions@),
            tables@.len() == i,
            first_missing(views, i as int) == i,
            forall|j: int| 0 <= j < i ==> views[j] == Some((#[trigger] tables@[j])@),
        decreases resolutions.len() - i,
    {
        match &resolutions[i].table {
            Some(table) => {
                tables.push(
                    LookupTable {
                        key: table.key,
                        lamports: table.lamports,
                        data: copy_bytes(&table.data),
                        addresses: copy_addresses(&table.addresses),
                    },
                );
            },
            None => {
                proof {
                    first_missing_stops(views, i as int, views.len() as int);
                }
                return Err(BotError::LookupTableMissing { address: resolutions[i].key });
            },
        }
        i += 1;
    }
    Ok(tables)
}

/// Once a position holds nothing, looking further finds nothing earlier or
/// later.
pub proof fn first_missing_stops<T>(entries: Seq<Option<T>>, at: int, upto: int)
    requires
        0 <= at < upto <= entries.len(),
        first_missing(entries, at) == at,
        entries[at] is None,
    ensures
        first_missing(entries, upto) == at,
    decreases upto,
{
    if upto > at + 1 {
        first_missing_stops(entries, at, upto - 1);
    }
}

/// Resolves every table of a round trip from what was fetched for each
/// address. One fetch that failed, or one account that holds no table,
/// fails the whole resolution with the first such address.
pub fn resolve_all(keys: &Vec<[u8; 32]>, fetched: &Vec<Option<FetchedAccount>>) -> (outcome: Result<
    Vec<LookupTable>,
    BotError,
>)
    ensures
        is_join_of(outcome, keys@, spec_resolved_all(keys@, fetched@)),
{
    let mut resolutions: Vec<Resolution> = Vec::new();
    let mut i: usize = 0;
    while i < keys.len()
        invariant
            i <= keys.len(),
            resolutions@.len() == i,
            forall|j: int| 0 <= j < i ==> (#[trigger] resolutions@[j]).key == keys@[j],
            forall|j: int|
                0 <= j < i ==> table_view((#[trigger] resolutions@[j]).table) == spec_resolved_all(
                    keys@,
                    fetched@,
                )[j],
        decreases keys.len() - i,
    {
        let table = if i < fetched.len() {
            resolve_table(&keys[i], &fetched[i])
        } else {
            None
        };
        resolutions.push(Resolution { key: keys[i], table });
        i += 1;
    }
    assert(resolution_views(resolutions@) =~= spec_resolved_all(keys@, fetched@));
    assert(resolution_keys(resolutions@) =~= keys@);
    join_tables(&resolutions)
}

} // verus!
