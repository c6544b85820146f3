//! The report of the accounts: one line of text for each client, in ascending order
//! of the clients' ids, under a header line.

use vstd::prelude::*;
use crate::cents::{amount_text, cents_to_string, decimal_text, push_decimal};
use crate::client::{accounts_of, Account, ClientData, ClientId, ClientsMap};

verus! {

/// The header line of the report.
pub open spec fn spec_header() -> Seq<char> {
    "client,available,held,total,locked"@
}

/// The text of a truth value.
pub open spec fn bool_text(b: bool) -> Seq<char> {
    if b {
        "true"@
    } else {
        "false"@
    }
}

/// The report line of one account: the client's id, the available, held and total
/// funds as amount texts, and whether the account is locked, separated by commas.
pub open spec fn account_row(id: ClientId, account: Account) -> Seq<char> {
    decimal_text(id as nat) + seq![','] + amount_text(account.available) + seq![',']
        + amount_text(account.held) + seq![','] + amount_text(account.total()) + seq![',']
        + bool_text(account.locked)
}

/// The clients with an id below `bound` that have an account, in ascending order.
pub open spec fn clients_below(accounts: Map<ClientId, Account>, bound: int) -> Seq<ClientId>
    decreases bound,
{
    if bound <= 0 {
        Seq::empty()
    } else {
        let id = (bound - 1) as ClientId;
        if accounts.contains_key(id) {
            clients_below(accounts, bound - 1).push(id)
        } else {
            clients_below(accounts, bound - 1)
        }
    }
}

/// All clients that have an account, in ascending order.
pub open spec fn sorted_clients(accounts: Map<ClientId, Account>) -> Seq<ClientId> {
    clients_below(accounts, 0x1_0000)
}

/// The report lines of the accounts, in ascending order of the clients' ids.
pub open spec fn account_rows(accounts: Map<ClientId, Account>) -> Seq<Seq<char>> {
    sorted_clients(accounts).map_values(|id: ClientId| account_row(id, accounts[id]))
}

/// The whole report: the header line, then the lines of the accounts.
pub open spec fn report(accounts: Map<ClientId, Account>) -> Seq<Seq<char>> {
    seq![spec_header()] + account_rows(accounts)
}

/// The clients below a bound are exactly those with an account and an id below it,
/// each once, in strictly ascending order.
pub proof fn lemma_clients_below(accounts: Map<ClientId, Account>, bound: int)
    requires
        0 <= bound <= 0x1_0000,
    ensures
        forall|i: int, j: int|
            0 <= i < j < clients_below(accounts, bound).len() ==> clients_below(accounts, bound)[i]
                < clients_below(accounts, bound)[j],
        forall|i: int|
            0 <= i < clients_below(accounts, bound).len() ==> accounts.contains_key(
                #[trigger] clients_below(accounts, bound)[i],
            ) && clients_below(accounts, bound)[i] < bound,
        forall|id: ClientId|
            accounts.contains_key(id) && id < bound ==> clients_below(accounts, bound).contains(id),
    decreases bound,
{
    if bound > 0 {
        lemma_clients_below(accounts, bound - 1);
        let before = clients_below(accounts, bound - 1);
        let all = clients_below(accounts, bound);
        let last = (bound - 1) as ClientId;
        assert forall|id: ClientId| accounts.contains_key(id) && id < bound implies all.contains(
            id,
        ) by {
            if id == last {
                assert(all[all.len() - 1] == id);
            } else {
                let i = choose|i: int| 0 <= i < before.len() && before[i] == id;
                assert(all[i] == id);
            }
        }
    }
}

/// The sorted clients are exactly the clients that have an account, each once, in
/// strictly ascending order.
pub proof fn lemma_sorted_clients(accounts: Map<ClientId, Account>)
    ensures
        forall|i: int, j: int|
            0 <= i < j < sorted_clients(accounts).len() ==> sorted_clients(accounts)[i]
                < sorted_clients(accounts)[j],
        forall|id: ClientId|
            accounts.contains_key(id) <==> sorted_clients(accounts).contains(id),
{
    lemma_clients_below(accounts, 0x1_0000);
}

/// The text of a truth value: `true` or `false`.
fn bool_str(b: bool) -> (text: &'static str)
    ensures
        text@ == bool_text(b),
{
    if b {
        "true"
    } else {
        "false"
    }
}

/// Writes the report line of one account.
pub fn format_client(id: ClientId, client: &ClientData) -> (row: String)
    ensures
        row@ == account_row(id, client@),
{
    proof {
        reveal_strlit(",");
    }
    let mut row = String::new();
    push_decimal(&mut row, id as u64);
    row.append(",");
    row.append(cents_to_string(client.get_available()).as_str());
    row.append(",");
    row.append(cents_to_string(client.get_held()).as_str());
    row.append(",");
    row.append(cents_to_string(client.get_total()).as_str());
    row.append(",");
    row.append(bool_str(client.is_locked()));
    row
}

/// The header line of the report.
pub fn report_header() -> (header: &'static str)
    ensures
        header@ == spec_header(),
{
    "client,available,held,total,locked"
}

/// Writes the report: the header line, then one line for each client that has an
/// account, in ascending order of the clients' ids.
pub fn format_accounts(clients: &ClientsMap) -> (lines: Vec<String>)
    ensures
        lines@.map_values(|line: String| line@) == report(accounts_of(clients@)),
{
    let ghost accounts = accounts_of(clients@);
    let ghost row = |id: ClientId| account_row(id, accounts[id]);
    let ghost text = |line: String| line@;
    let mut lines: Vec<String> = Vec::new();
    lines.push(String::from_str(report_header()));
    assert(lines@.map_values(text) =~= seq![spec_header()] + clients_below(
        accounts,
        0,
    ).map_values(row));
    let mut next: u32 = 0;
    while next < 0x1_0000
        invariant
            next <= 0x1_0000,
            accounts == accounts_of(clients@),
            row == |id: ClientId| account_row(id, accounts[id]),
            text == |line: String| line@,
            lines@.map_values(text) == seq![spec_header()] + clients_below(
                accounts,
                next as int,
            ).map_values(row),
        decreases 0x1_0000 - next,
    {
        let id = next as ClientId;
        if let Some(client) = clients.get(&id) {
            let ghost before = lines@;
            lines.push(format_client(id, client));
            assert(lines@.map_values(text) =~= before.map_values(text).push(row(id)));
            assert(clients_below(accounts, next + 1).map_values(row) =~= clients_below(
                accounts,
                next as int,
            ).map_values(row).push(row(id)));
            assert(lines@.map_values(text) =~= seq![spec_header()] + clients_below(
                accounts,
                next + 1,
            ).map_values(row));
        }
        next += 1;
    }
    lines
}

} // verus!
