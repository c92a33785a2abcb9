//! Cumulative token usage, in total and per client.
//!
//! The ledger is a value: whoever keeps it on disk loads it, records into it
//! and stores it again. Its mathematical model is a `LedgerView`, and
//! `recorded` says what one record does to it.

use vstd::hash_map::StringHashMap;
use vstd::prelude::*;
use crate::text::optional_text;

verus! {

/// The tokens that one client has used so far.
#[derive(Debug, Clone, PartialEq, Eq)]
pub struct ClientUsage {
    pub client: String,
    pub input_tokens: usize,
    pub output_tokens: usize,
}

/// The mathematical model of a ledger: the two totals, and for each client
/// that usage was attributed to, its input and output tokens.
pub struct LedgerView {
    pub total_input_tokens: nat,
    pub total_output_tokens: nat,
    pub per_client: Map<Seq<char>, (nat, nat)>,
}

/// The input and output tokens attributed to `client` so far: none for a
/// client that the ledger does not know.
pub open spec fn usage_of(ledger: LedgerView, client: Seq<char>) -> (nat, nat) {
    if ledger.per_client.contains_key(client) {
        ledger.per_client[client]
    } else {
        (0, 0)
    }
}

/// The ledger after `input` and `output` tokens were recorded: both totals
/// grow by them, and so does the usage of `client` if one is given, with an
/// entry made for a client that had none.
pub open spec fn recorded(
    ledger: LedgerView,
    client: Option<Seq<char>>,
    input: nat,
    output: nat,
) -> LedgerView {
    LedgerView {
        total_input_tokens: ledger.total_input_tokens + input,
        total_output_tokens: ledger.total_output_tokens + output,
        per_client: match client {
            Some(c) => ledger.per_client.insert(
                c,
                (usage_of(ledger, c).0 + input, usage_of(ledger, c).1 + output),
            ),
            None => ledger.per_client,
        },
    }
}

/// Every number of the ledger after the record still fits the machine word.
pub open spec fn record_fits(
    ledger: LedgerView,
    client: Option<Seq<char>>,
    input: nat,
    output: nat,
) -> bool {
    &&& ledger.total_input_tokens + input <= usize::MAX
    &&& ledger.total_output_tokens + output <= usize::MAX
    &&& client matches Some(c) ==> {
        &&& usage_of(ledger, c).0 + input <= usize::MAX
        &&& usage_of(ledger, c).1 + output <= usize::MAX
    }
}

/// No client occurs twice among the entries.
pub open spec fn distinct_clients(entries: Seq<ClientUsage>) -> bool {
    forall|i: int, j: int|
        0 <= i < j < entries.len() ==> (#[trigger] entries[i]).client@ != (#[trigger] entries[j]).client@
}

/// The usage that an entry states.
pub open spec fn entry_usage(entry: ClientUsage) -> (nat, nat) {
    (entry.input_tokens as nat, entry.output_tokens as nat)
}

/// The entries as a map from client to usage. Where a client occurs twice,
/// the later entry counts.
pub open spec fn usage_map(entries: Seq<ClientUsage>) -> Map<Seq<char>, (nat, nat)>
    decreases entries.len(),
{
    if entries.len() == 0 {
        Map::empty()
    } else {
        usage_map(entries.drop_last()).insert(entries.last().client@, entry_usage(entries.last()))
    }
}

/// The clients of the map are those of the entries.
pub proof fn lemma_usage_map_clients(entries: Seq<ClientUsage>, client: Seq<char>)
    ensures
        usage_map(entries).contains_key(client) <==> exists|i: int|
            0 <= i < entries.len() && (#[trigger] entries[i]).client@ == client,
    decreases entries.len(),
{
    if entries.len() > 0 {
        let before = entries.drop_last();
        lemma_usage_map_clients(before, client);
        if usage_map(entries).contains_key(client) {
            if entries.last().client@ == client {
                assert(entries[entries.len() - 1].client@ == client);
            } else {
                let i = choose|i: int| 0 <= i < before.len() && (#[trigger] before[i]).client@ == client;
                assert(entries[i].client@ == client);
            }
        }
        if exists|i: int| 0 <= i < entries.len() && (#[trigger] entries[i]).client@ == client {
            let i = choose|i: int| 0 <= i < entries.len() && (#[trigger] entries[i]).client@ == client;
            if i < entries.len() - 1 {
                assert(before[i].client@ == client);
            }
        }
    }
}

/// Among distinct clients, the map gives each client the usage of its entry.
pub proof fn lemma_usage_map_entry(entries: Seq<ClientUsage>, i: int)
    requires
        distinct_clients(entries),
        0 <= i < entries.len(),
    ensures
        usage_map(entries).contains_key(entries[i].client@),
        usage_map(entries)[entries[i].client@] == entry_usage(entries[i]),
    decreases entries.len(),
{
    let before = entries.drop_last();
    if i < entries.len() - 1 {
        assert(distinct_clients(before)) by {
            assert forall|a: int, b: int| 0 <= a < b < before.len() implies (#[trigger] before[a]).client@
                != (#[trigger] before[b]).client@ by {
                assert(entries[a].client@ != entries[b].client@);
            }
        }
        lemma_usage_map_entry(before, i);
        assert(entries[i].client@ != entries[entries.len() - 1].client@);
        assert(before[i] == entries[i]);
    }
}

/// Replacing the entry of a client by another for the same client replaces
/// its usage in the map.
proof fn lemma_usage_map_update(entries: Seq<ClientUsage>, i: int, entry: ClientUsage)
    requires
        distinct_clients(entries),
        0 <= i < entries.len(),
        entry.client@ == entries[i].client@,
    ensures
        distinct_clients(entries.update(i, entry)),
        usage_map(entries.update(i, entry)) == usage_map(entries).insert(
            entry.client@,
            entry_usage(entry),
        ),
{
    let after = entries.update(i, entry);
    assert(distinct_clients(after)) by {
        assert forall|a: int, b: int| 0 <= a < b < after.len() implies (#[trigger] after[a]).client@
            != (#[trigger] after[b]).client@ by {
            assert(entries[a].client@ != entries[b].client@);
        }
    }
    let want = usage_map(entries).insert(entry.client@, entry_usage(entry));
    assert forall|k: Seq<char>| usage_map(after).contains_key(k) <==> want.contains_key(k) by {
        lemma_usage_map_clients(after, k);
        lemma_usage_map_clients(entries, k);
        if usage_map(after).contains_key(k) {
            let j = choose|j: int| 0 <= j < after.len() && (#[trigger] after[j]).client@ == k;
            assert(entries[j].client@ == k);
        }
        if want.contains_key(k) && k != entry.client@ {
            let j = choose|j: int| 0 <= j < entries.len() && (#[trigger] entries[j]).client@ == k;
            assert(after[j].client@ == k);
        }
        if k == entry.client@ {
            assert(after[i].client@ == k);
        }
    }
    assert forall|k: Seq<char>| usage_map(after).contains_key(k) implies usage_map(after)[k]
        == want[k] by {
        lemma_usage_map_clients(after, k);
        let j = choose|j: int| 0 <= j < after.len() && (#[trigger] after[j]).client@ == k;
        lemma_usage_map_entry(after, j);
        if j != i {
            assert(after[j] == entries[j]);
            assert(entries[j].client@ != entries[i].client@);
            lemma_usage_map_entry(entries, j);
        }
    }
    assert(usage_map(after) =~= want);
}

/// Adding an entry for a client that has none keeps the clients distinct.
proof fn lemma_distinct_after_push(entries: Seq<ClientUsage>, entry: ClientUsage)
    requires
        distinct_clients(entries),
        !usage_map(entries).contains_key(entry.client@),
    ensures
        distinct_clients(entries.push(entry)),
        usage_map(entries.push(entry)) == usage_map(entries).insert(
            entry.client@,
            entry_usage(entry),
        ),
{
    let after = entries.push(entry);
    assert(after.drop_last() =~= entries);
    assert forall|a: int, b: int| 0 <= a < b < after.len() implies (#[trigger] after[a]).client@
        != (#[trigger] after[b]).client@ by {
        if b == entries.len() {
            lemma_usage_map_clients(entries, entry.client@);
            assert(entries[a].client@ != entry.client@);
        } else {
            assert(entries[a].client@ != entries[b].client@);
        }
    }
}

/// The cumulative usage: the total input and output tokens, and the usage of
/// each client. No client has more than one entry, and an index says where
/// the entry of each client stands.
pub struct UsageLedger {
    total_input_tokens: usize,
    total_output_tokens: usize,
    clients: Vec<ClientUsage>,
    index: StringHashMap<usize>,
}

/// The index holds the clients of the entries and no others, each with the
/// place of its entry.
spec fn indexed(entries: Seq<ClientUsage>, index: Map<Seq<char>, usize>) -> bool {
    &&& forall|i: int|
        0 <= i < entries.len() ==> index.contains_key((#[trigger] entries[i]).client@)
            && index[entries[i].client@] == i
    &&& forall|client: Seq<char>| #[trigger]
        index.contains_key(client) ==> index[client] < entries.len()
            && entries[index[client] as int].client@ == client
}

/// Entries that are indexed are for distinct clients.
proof fn lemma_indexed_is_distinct(entries: Seq<ClientUsage>, index: Map<Seq<char>, usize>)
    requires
        indexed(entries, index),
    ensures
        distinct_clients(entries),
{
    assert forall|i: int, j: int| 0 <= i < j < entries.len() implies (#[trigger] entries[i]).client@
        != (#[trigger] entries[j]).client@ by {
        assert(index[entries[i].client@] == i);
        assert(index[entries[j].client@] == j);
    }
}

impl View for UsageLedger {
    type V = LedgerView;

    closed spec fn view(&self) -> LedgerView {
        LedgerView {
            total_input_tokens: self.total_input_tokens as nat,
            total_output_tokens: self.total_output_tokens as nat,
            per_client: usage_map(self.clients@),
        }
    }
}

impl UsageLedger {
    #[verifier::type_invariant]
    spec fn well_formed(&self) -> bool {
        indexed(self.clients@, self.index@)
    }

    /// The entries of the clients, in the order in which they were made.
    pub closed spec fn entries(&self) -> Seq<ClientUsage> {
        self.clients@
    }

    /// The ledger in which nothing has been recorded.
    pub fn new() -> (ledger: UsageLedger)
        ensures
            ledger@.total_input_tokens == 0,
            ledger@.total_output_tokens == 0,
            ledger@.per_client == Map::<Seq<char>, (nat, nat)>::empty(),
    {
        UsageLedger {
            total_input_tokens: 0,
            total_output_tokens: 0,
            clients: Vec::new(),
            index: StringHashMap::new(),
        }
    }

    /// A ledger with the given totals and no client yet.
    pub fn with_totals(total_input_tokens: usize, total_output_tokens: usize) -> (ledger: UsageLedger)
        ensures
            ledger@.total_input_tokens == total_input_tokens,
            ledger@.total_output_tokens == total_output_tokens,
            ledger@.per_client == Map::<Seq<char>, (nat, nat)>::empty(),
    {
        UsageLedger {
            total_input_tokens,
            total_output_tokens,
            clients: Vec::new(),
            index: StringHashMap::new(),
        }
    }

    /// The total of the input tokens.
    pub fn total_input_tokens(&self) -> (total: usize)
        ensures
            total == self@.total_input_tokens,
    {
        self.total_input_tokens
    }

    /// The total of the output tokens.
    pub fn total_output_tokens(&self) -> (total: usize)
        ensures
            total == self@.total_output_tokens,
    {
        self.total_output_tokens
    }

    /// Where the entry of `client` stands, if it has one.
    fn position(&self, client: &str) -> (found: Option<usize>)
        ensures
            match found {
                Some(i) => i < self.clients@.len() && self.clients@[i as int].client@ == client@,
                None => !usage_map(self.clients@).contains_key(client@),
            },
    {
        proof {
            use_type_invariant(self);
            lemma_usage_map_clients(self.clients@, client@);
        }
        match self.index.get(client) {
            Some(i) => Some(*i),
            None => None,
        }
    }

    /// Puts `entry` in the place of the entry at `i`, which is for the same
    /// client.
    fn replace_entry(&mut self, i: usize, entry: ClientUsage)
        requires
            i < old(self).clients@.len(),
            old(self).clients@[i as int].client@ == entry.client@,
        ensures
            final(self).clients@ == old(self).clients@.update(i as int, entry),
            final(self).total_input_tokens == old(self).total_input_tokens,
            final(self).total_output_tokens == old(self).total_output_tokens,
            usage_map(final(self).clients@) == usage_map(old(self).clients@).insert(
                entry.client@,
                entry_usage(entry),
            ),
    {
        proof {
            use_type_invariant(&*self);
            lemma_indexed_is_distinct(self.clients@, self.index@);
            lemma_usage_map_update(self.clients@, i as int, entry);
        }
        let mut taken = UsageLedger::new();
        std::mem::swap(self, &mut taken);
        let UsageLedger { total_input_tokens, total_output_tokens, mut clients, index } = taken;
        clients.set(i, entry);
        *self = UsageLedger { total_input_tokens, total_output_tokens, clients, index };
    }

    /// Adds `entry`, which is for a client that has none.
    fn add_entry(&mut self, entry: ClientUsage)
        requires
            !usage_map(old(self).clients@).contains_key(entry.client@),
        ensures
            final(self).clients@ == old(self).clients@.push(entry),
            final(self).total_input_tokens == old(self).total_input_tokens,
            final(self).total_output_tokens == old(self).total_output_tokens,
            usage_map(final(self).clients@) == usage_map(old(self).clients@).insert(
                entry.client@,
                entry_usage(entry),
            ),
    {
        proof {
            use_type_invariant(&*self);
            lemma_indexed_is_distinct(self.clients@, self.index@);
            lemma_distinct_after_push(self.clients@, entry);
            lemma_usage_map_clients(self.clients@, entry.client@);
        }
        let mut taken = UsageLedger::new();
        std::mem::swap(self, &mut taken);
        let UsageLedger { total_input_tokens, total_output_tokens, mut clients, mut index } = taken;
        index.insert(entry.client.clone(), clients.len());
        clients.push(entry);
        *self = UsageLedger { total_input_tokens, total_output_tokens, clients, index };
    }

    /// The input and output tokens of `client`, if the ledger knows it.
    pub fn client_usage(&self, client: &str) -> (usage: Option<(usize, usize)>)
        ensures
            match usage {
                Some((input, output)) => self@.per_client.contains_key(client@)
                    && self@.per_client[client@] == (input as nat, output as nat),
                None => !self@.per_client.contains_key(client@),
            },
    {
        proof {
            use_type_invariant(self);
            lemma_indexed_is_distinct(self.clients@, self.index@);
        }
        match self.position(client) {
            Some(i) => {
                proof {
                    lemma_usage_map_entry(self.clients@, i as int);
                }
                Some((self.clients[i].input_tokens, self.clients[i].output_tokens))
            },
            None => None,
        }
    }

    /// The entries of all clients, one for each.
    pub fn clients(&self) -> (entries: &Vec<ClientUsage>)
        ensures
            entries@ == self.entries(),
            distinct_clients(entries@),
            usage_map(entries@) == self@.per_client,
    {
        proof {
            use_type_invariant(self);
            lemma_indexed_is_distinct(self.clients@, self.index@);
        }
        &self.clients
    }

    /// Sets the usage of `client`, whether the ledger knows it or not. The
    /// totals stay as they are.
    pub fn set_client(&mut self, client: String, input_tokens: usize, output_tokens: usize)
        ensures
            final(self)@.total_input_tokens == old(self)@.total_input_tokens,
            final(self)@.total_output_tokens == old(self)@.total_output_tokens,
            final(self)@.per_client == old(self)@.per_client.insert(
                client@,
                (input_tokens as nat, output_tokens as nat),
            ),
    {
        let found = self.position(client.as_str());
        let entry = ClientUsage { client, input_tokens, output_tokens };
        match found {
            Some(i) => {
                self.replace_entry(i, entry);
            },
            None => {
                self.add_entry(entry);
            },
        }
    }

    /// Whether a record of `input_tokens` and `output_tokens` for `client`
    /// keeps every number of the ledger within the machine word.
    pub fn can_record(&self, client: Option<&str>, input_tokens: usize, output_tokens: usize) -> (fits: bool)
        ensures
            fits == record_fits(
                self@,
                optional_text(client),
                input_tokens as nat,
                output_tokens as nat,
            ),
    {
        if input_tokens > usize::MAX - self.total_input_tokens {
            return false;
        }
        if output_tokens > usize::MAX - self.total_output_tokens {
            return false;
        }
        match client {
            Some(c) => {
                match self.client_usage(c) {
                    Some((input, output)) => input_tokens <= usize::MAX - input && output_tokens
                        <= usize::MAX - output,
                    None => true,
                }
            },
            None => true,
        }
    }

    /// Records `input_tokens` and `output_tokens`: adds them to the totals
    /// and, if a client is given, to the usage of that client.
    pub fn record(&mut self, client: Option<&str>, input_tokens: usize, output_tokens: usize)
        requires
            record_fits(
                old(self)@,
                optional_text(client),
                input_tokens as nat,
                output_tokens as nat,
            ),
        ensures
            final(self)@ == recorded(
                old(self)@,
                optional_text(client),
                input_tokens as nat,
                output_tokens as nat,
            ),
    {
        proof {
            use_type_invariant(&*self);
        }
        match client {
            Some(c) => {
                let name = c.to_owned();
                proof {
                    lemma_indexed_is_distinct(self.clients@, self.index@);
                }
                match self.position(c) {
                    Some(i) => {
                        proof {
                            lemma_usage_map_entry(self.clients@, i as int);
                        }
                        let entry = ClientUsage {
                            client: name,
                            input_tokens: self.clients[i].input_tokens + input_tokens,
                            output_tokens: self.clients[i].output_tokens + output_tokens,
                        };
                        self.replace_entry(i, entry);
                    },
                    None => {
                        let entry = ClientUsage { client: name, input_tokens, output_tokens };
                        self.add_entry(entry);
                    },
                }
            },
            None => {},
        }
        proof {
            use_type_invariant(&*self);
        }
        self.total_input_tokens = self.total_input_tokens + input_tokens;
        self.total_output_tokens = self.total_output_tokens + output_tokens;
    }
}

/// One thing to record: the tokens of a completed call and, where it is
/// known, the client that they are attributed to.
pub struct UsageRecord {
    pub client: Option<Seq<char>>,
    pub input_tokens: nat,
    pub output_tokens: nat,
}

/// The ledger after each of `records` was recorded, in their order.
pub open spec fn recorded_all(ledger: LedgerView, records: Seq<UsageRecord>) -> LedgerView
    decreases records.len(),
{
    if records.len() == 0 {
        ledger
    } else {
        let last = records.last();
        recorded(
            recorded_all(ledger, records.drop_last()),
            last.client,
            last.input_tokens,
            last.output_tokens,
        )
    }
}

/// The input and output tokens of all `records` together.
pub open spec fn sum_of(records: Seq<UsageRecord>) -> (nat, nat)
    decreases records.len(),
{
    if records.len() == 0 {
        (0, 0)
    } else {
        let before = sum_of(records.drop_last());
        (before.0 + records.last().input_tokens, before.1 + records.last().output_tokens)
    }
}

/// The input and output tokens of those of `records` that are attributed to
/// `client`.
pub open spec fn sum_for(records: Seq<UsageRecord>, client: Seq<char>) -> (nat, nat)
    decreases records.len(),
{
    if records.len() == 0 {
        (0, 0)
    } else {
        let before = sum_for(records.drop_last(), client);
        if records.last().client == Some(client) {
            (before.0 + records.last().input_tokens, before.1 + records.last().output_tokens)
        } else {
            before
        }
    }
}

/// Two records leave the same ledger in either order, whoever they are
/// attributed to.
pub proof fn lemma_records_commute(
    ledger: LedgerView,
    first: UsageRecord,
    second: UsageRecord,
)
    ensures
        recorded(
            recorded(ledger, first.client, first.input_tokens, first.output_tokens),
            second.client,
            second.input_tokens,
            second.output_tokens,
        ) == recorded(
            recorded(ledger, second.client, second.input_tokens, second.output_tokens),
            first.client,
            first.input_tokens,
            first.output_tokens,
        ),
{
    let one = recorded(
        recorded(ledger, first.client, first.input_tokens, first.output_tokens),
        second.client,
        second.input_tokens,
        second.output_tokens,
    );
    let other = recorded(
        recorded(ledger, second.client, second.input_tokens, second.output_tokens),
        first.client,
        first.input_tokens,
        first.output_tokens,
    );
    assert(one.per_client =~= other.per_client);
}

/// Two records for the same client, or for none, amount to one record of
/// their sums.
pub proof fn lemma_records_add_up(
    ledger: LedgerView,
    client: Option<Seq<char>>,
    input: nat,
    output: nat,
    more_input: nat,
    more_output: nat,
)
    ensures
        recorded(recorded(ledger, client, input, output), client, more_input, more_output)
            == recorded(ledger, client, input + more_input, output + more_output),
{
    let twice = recorded(recorded(ledger, client, input, output), client, more_input, more_output);
    let once = recorded(ledger, client, input + more_input, output + more_output);
    assert(twice.per_client =~= once.per_client);
}

/// After any records the totals have grown by the sum of all of them, and the
/// usage of each client by the sum of those attributed to it.
pub proof fn lemma_records_sum_up(ledger: LedgerView, records: Seq<UsageRecord>, client: Seq<char>)
    ensures
        recorded_all(ledger, records).total_input_tokens == ledger.total_input_tokens + sum_of(
            records,
        ).0,
        recorded_all(ledger, records).total_output_tokens == ledger.total_output_tokens + sum_of(
            records,
        ).1,
        usage_of(recorded_all(ledger, records), client).0 == usage_of(ledger, client).0 + sum_for(
            records,
            client,
        ).0,
        usage_of(recorded_all(ledger, records), client).1 == usage_of(ledger, client).1 + sum_for(
            records,
            client,
        ).1,
    decreases records.len(),
{
    if records.len() > 0 {
        lemma_records_sum_up(ledger, records.drop_last(), client);
    }
}

/// A record takes nothing away: the totals do not shrink, every client that
/// the ledger knew is still known, and its usage has not shrunk.
pub proof fn lemma_record_never_decreases(
    ledger: LedgerView,
    client: Option<Seq<char>>,
    input: nat,
    output: nat,
)
    ensures
        recorded(ledger, client, input, output).total_input_tokens >= ledger.total_input_tokens,
        recorded(ledger, client, input, output).total_output_tokens >= ledger.total_output_tokens,
        forall|c: Seq<char>| #[trigger]
            ledger.per_client.contains_key(c) ==> {
                &&& recorded(ledger, client, input, output).per_client.contains_key(c)
                &&& recorded(ledger, client, input, output).per_client[c].0 >= ledger.per_client[c].0
                &&& recorded(ledger, client, input, output).per_client[c].1 >= ledger.per_client[c].1
            },
{
}

} // verus!
