//! The entry point that the host calls once per event: it selects, hands the
//! selected events to the replication client, and turns the outcome of each
//! write into the result the host sees.
use vstd::prelude::*;
use std::time::Duration;
use crate::accounts_selector::{wildcard_token, AccountsSelector};
use crate::text::contains_text;
use crate::client::{
    AccountEvent, BlockEvent, ClientPhase, ClientSettings, ReplicationClient, RetryStep, SlotEvent,
    SlotStatus, TransactionEvent, Write, WriteFailure, DEFAULT_BATCH_SIZE, DEFAULT_MAX_RETRIES,
    DEFAULT_RETRY_DELAY_MS, DEFAULT_THREADS,
};
use crate::json::{is_json, parse_json, section_of, string_list, Json, MAX_DEPTH};
use crate::transaction_selector::TransactionSelector;

verus! {

/// The configuration of the plugin.
#[derive(Clone, Debug, PartialEq)]
pub struct AccountsDbPluginBigtableConfig {
    /// The path of the Bigtable credential file.
    pub credential_path: Option<String>,
    /// Timeout of each backend call.
    pub timeout: Option<Duration>,
    /// Number of workers, each with its own connection. The default is 10.
    pub threads: Option<usize>,
    /// Capacity of a worker's startup batch. The default is 10.
    pub batch_size: Option<usize>,
    /// Whether a failed write ends the process. The default is false.
    pub panic_on_db_errors: Option<bool>,
    /// Whether to store the history of accounts.
    pub store_account_historical_data: Option<bool>,
    /// Whether to index token owners. The default is false.
    pub index_token_owner: Option<bool>,
    /// Whether to index token mints. The default is false.
    pub index_token_mint: Option<bool>,
    /// Local retries of a transient failure. The default is 3.
    pub max_retries: Option<u32>,
    /// Pause before the first retry, in milliseconds. The default is 100.
    pub retry_delay_ms: Option<u32>,
}

/// The value of `o`, or `d` when absent.
pub open spec fn or_default<T>(o: Option<T>, d: T) -> T {
    match o {
        Some(v) => v,
        None => d,
    }
}

impl AccountsDbPluginBigtableConfig {
    /// The worker pool settings, with the defaults filled in.
    pub open spec fn settings(&self) -> ClientSettings {
        ClientSettings {
            threads: or_default(self.threads, DEFAULT_THREADS),
            batch_size: or_default(self.batch_size, DEFAULT_BATCH_SIZE),
            max_retries: or_default(self.max_retries, DEFAULT_MAX_RETRIES),
            retry_delay_ms: or_default(self.retry_delay_ms, DEFAULT_RETRY_DELAY_MS),
        }
    }

    /// The configuration can drive a pool: at least one worker, and batches
    /// of at least one update.
    pub open spec fn valid(&self) -> bool {
        self.settings().threads > 0 && self.settings().batch_size > 0
    }

    /// The worker pool settings, with the defaults filled in; an error when
    /// there would be no worker or batches could hold nothing.
    pub fn client_settings(&self) -> (r: Result<ClientSettings, AccountsDbPluginBigtableError>)
        ensures
            self.valid() <==> r is Ok,
            r is Ok ==> r->Ok_0 == self.settings(),
            r is Err ==> r->Err_0 is ConfigurationError,
    {
        let threads = match self.threads {
            Some(t) => t,
            None => DEFAULT_THREADS,
        };
        let batch_size = match self.batch_size {
            Some(b) => b,
            None => DEFAULT_BATCH_SIZE,
        };
        let max_retries = match self.max_retries {
            Some(m) => m,
            None => DEFAULT_MAX_RETRIES,
        };
        let retry_delay_ms = match self.retry_delay_ms {
            Some(d) => d,
            None => DEFAULT_RETRY_DELAY_MS,
        };
        if threads == 0 {
            return Err(
                AccountsDbPluginBigtableError::ConfigurationError {
                    msg: "threads must be at least 1".to_owned(),
                },
            );
        }
        if batch_size == 0 {
            return Err(
                AccountsDbPluginBigtableError::ConfigurationError {
                    msg: "batch_size must be at least 1".to_owned(),
                },
            );
        }
        Ok(ClientSettings { threads, batch_size, max_retries, retry_delay_ms })
    }

    /// Whether a failed write ends the process; false when absent.
    pub fn fatal_on_error(&self) -> (r: bool)
        ensures
            r == or_default(self.panic_on_db_errors, false),
    {
        match self.panic_on_db_errors {
            Some(p) => p,
            None => false,
        }
    }
}

/// Errors of this plugin's own.
#[derive(Debug)]
pub enum AccountsDbPluginBigtableError {
    /// There is no live connection to the store.
    DataStoreConnectionError { msg: String },
    /// The store's schema could not be prepared.
    DataSchemaError { msg: String },
    /// The configuration cannot be used.
    ConfigurationError { msg: String },
}

/// What the host sees of a failure.
#[derive(Debug)]
pub enum AccountsDbPluginError {
    /// The configuration could not be read.
    ConfigFileReadError { msg: String },
    /// An account update could not be written.
    AccountsUpdateError { failure: WriteFailure },
    /// A slot status could not be written.
    SlotStatusUpdateError { failure: WriteFailure },
    /// A transaction could not be written.
    TransactionUpdateError { failure: WriteFailure },
    /// Block metadata could not be written.
    BlockMetadataUpdateError { failure: WriteFailure },
    /// A failed write under the fatal policy: the caller must end the process.
    FatalBackendCondition { failure: WriteFailure },
    /// An error of this plugin's own.
    Custom(AccountsDbPluginBigtableError),
}

/// The kind of event that a write carried.
#[derive(Clone, Copy, Debug, PartialEq, Eq, Structural)]
pub enum EventKind {
    Account,
    SlotStatus,
    Transaction,
    BlockMetadata,
}

/// The error that reports a failed write of an event of kind `kind`, when the
/// failure is not fatal.
pub open spec fn reported(kind: EventKind, failure: WriteFailure) -> AccountsDbPluginError {
    match kind {
        EventKind::Account => AccountsDbPluginError::AccountsUpdateError { failure },
        EventKind::SlotStatus => AccountsDbPluginError::SlotStatusUpdateError { failure },
        EventKind::Transaction => AccountsDbPluginError::TransactionUpdateError { failure },
        EventKind::BlockMetadata => AccountsDbPluginError::BlockMetadataUpdateError { failure },
    }
}

/// The error that says there is no connection to the store.
pub open spec fn is_connection_absent(r: AccountsDbPluginError) -> bool {
    r matches AccountsDbPluginError::Custom(
        AccountsDbPluginBigtableError::DataStoreConnectionError { .. },
    )
}

fn connection_absent() -> (r: AccountsDbPluginError)
    ensures
        is_connection_absent(r),
{
    AccountsDbPluginError::Custom(
        AccountsDbPluginBigtableError::DataStoreConnectionError {
            msg: "There is no connection to the Bigtable database.".to_owned(),
        },
    )
}

/// The accounts listed in the `accounts_selector` section of `doc`.
pub open spec fn accounts_of(doc: Json) -> Seq<String> {
    match section_of(doc, "accounts_selector"@) {
        Some(s) => string_list(s, "accounts"@),
        None => Seq::empty(),
    }
}

/// The owners listed in the `accounts_selector` section of `doc`.
pub open spec fn owners_of(doc: Json) -> Seq<String> {
    match section_of(doc, "accounts_selector"@) {
        Some(s) => string_list(s, "owners"@),
        None => Seq::empty(),
    }
}

/// The mentions listed in the `transaction_selector` section of `doc`.
pub open spec fn mentions_of(doc: Json) -> Seq<String> {
    match section_of(doc, "transaction_selector"@) {
        Some(s) => string_list(s, "mentions"@),
        None => Seq::empty(),
    }
}

/// The plugin: the two selectors and the replication client, created at load
/// time and kept across calls.
pub struct AccountsDbPluginBigtable {
    client: Option<ReplicationClient>,
    accounts_selector: Option<AccountsSelector>,
    transaction_selector: Option<TransactionSelector>,
}

impl AccountsDbPluginBigtable {
    pub closed spec fn client(&self) -> Option<ReplicationClient> {
        self.client
    }

    pub closed spec fn accounts_selector(&self) -> Option<AccountsSelector> {
        self.accounts_selector
    }

    pub closed spec fn transaction_selector(&self) -> Option<TransactionSelector> {
        self.transaction_selector
    }

    /// The client, where there is one, is consistent.
    pub open spec fn wf(&self) -> bool {
        self.client() is Some ==> self.client()->Some_0.wf()
    }

    /// There is a client and it takes submissions.
    pub open spec fn connected(&self) -> bool {
        self.client() is Some && self.client()->Some_0.phase() == ClientPhase::Connected
    }

    /// The account update `event` passes the accounts selector.
    pub open spec fn account_selected(&self, event: AccountEvent) -> bool {
        self.accounts_selector() is Some && self.accounts_selector()->Some_0.selects(
            event.pubkey@,
            event.owner@,
        )
    }

    /// The transaction `event` passes the transaction selector.
    pub open spec fn transaction_selected(&self, event: TransactionEvent) -> bool {
        self.transaction_selector() is Some && self.transaction_selector()->Some_0.selects(
            event.is_vote,
            event.mentions@,
        )
    }

    /// `next` differs from this plugin in its client alone.
    pub open spec fn same_selectors(&self, next: &AccountsDbPluginBigtable) -> bool {
        &&& next.accounts_selector() == self.accounts_selector()
        &&& next.transaction_selector() == self.transaction_selector()
    }

    /// A plugin that is not loaded: no selector, no client.
    pub fn new() -> (r: AccountsDbPluginBigtable)
        ensures
            r.wf(),
            r.client() is None,
            r.accounts_selector() is None,
            r.transaction_selector() is None,
    {
        AccountsDbPluginBigtable { client: None, accounts_selector: None, transaction_selector: None }
    }

    /// The plugin's name.
    pub fn name(&self) -> (r: &'static str)
        ensures
            r@ == "AccountsDbPluginBigtable"@,
    {
        "AccountsDbPluginBigtable"
    }

    /// The accounts selector that the section `section` of a configuration
    /// describes; with no section, one that is disabled and selects nothing.
    pub fn accounts_selector_from_section(section: Option<&Json>) -> (r: AccountsSelector)
        ensures
            section is None ==> r.built_from(Seq::empty(), Seq::empty()) && !r.enabled(),
            section is Some ==> r.built_from(
                string_list(*section->Some_0, "accounts"@),
                string_list(*section->Some_0, "owners"@),
            ),
    {
        match section {
            None => {
                let r = AccountsSelector::default();
                assert(r.accounts@ =~= Seq::<String>::empty());
                assert(r.owners@ =~= Seq::<String>::empty());
                assert(r.built_from(Seq::empty(), Seq::empty()));
                r
            },
            Some(s) => {
                let accounts = s.string_entries(&"accounts".to_owned());
                let owners = s.string_entries(&"owners".to_owned());
                AccountsSelector::new(accounts.as_slice(), owners.as_slice())
            },
        }
    }

    /// The accounts selector that the configuration document `config`
    /// describes in its `accounts_selector` section.
    pub fn create_accounts_selector_from_config(config: &Json) -> (r: AccountsSelector)
        ensures
            r.built_from(accounts_of(*config), owners_of(*config)),
    {
        Self::accounts_selector_from_section(config.section(&"accounts_selector".to_owned()))
    }

    /// The transaction selector that the section `section` of a
    /// configuration describes; with no section, one that is disabled and
    /// selects nothing.
    pub fn transaction_selector_from_section(section: Option<&Json>) -> (r: TransactionSelector)
        ensures
            section is None ==> r.built_from(Seq::empty()) && !r.enabled(),
            section is Some ==> r.built_from(string_list(*section->Some_0, "mentions"@)),
    {
        match section {
            None => {
                let r = TransactionSelector::default();
                assert(r.mentions@ =~= Seq::<String>::empty());
                assert(r.built_from(Seq::empty()));
                r
            },
            Some(s) => {
                let mentions = s.string_entries(&"mentions".to_owned());
                TransactionSelector::new(mentions.as_slice())
            },
        }
    }

    /// The transaction selector that the configuration document `config`
    /// describes in its `transaction_selector` section.
    pub fn create_transaction_selector_from_config(config: &Json) -> (r: TransactionSelector)
        ensures
            r.built_from(mentions_of(*config)),
    {
        Self::transaction_selector_from_section(config.section(&"transaction_selector".to_owned()))
    }

    /// The selectors of this plugin are those that the document `doc`
    /// describes.
    pub open spec fn selectors_from(&self, doc: Json) -> bool {
        &&& self.accounts_selector() is Some
        &&& self.accounts_selector()->Some_0.built_from(accounts_of(doc), owners_of(doc))
        &&& self.transaction_selector() is Some
        &&& self.transaction_selector()->Some_0.built_from(mentions_of(doc))
    }

    /// Loads the plugin from the configuration document `settings`, already
    /// parsed, and its typed reading `config`. The selectors are built from
    /// `settings` in any case; the client only from a usable `config`.
    pub fn load_with(
        &mut self,
        settings: &Json,
        config: Result<AccountsDbPluginBigtableConfig, String>,
    ) -> (r: Result<(), AccountsDbPluginError>)
        requires
            old(self).wf(),
        ensures
            final(self).wf(),
            final(self).selectors_from(*settings),
            r is Ok <==> (config is Ok && config->Ok_0.valid()),
            config is Err ==> r == Err::<(), AccountsDbPluginError>(
                AccountsDbPluginError::ConfigFileReadError { msg: config->Err_0 },
            ),
            config is Ok && !config->Ok_0.valid() ==> r matches Err(
                AccountsDbPluginError::Custom(
                    AccountsDbPluginBigtableError::ConfigurationError { .. },
                ),
            ),
            r is Err ==> final(self).client() == old(self).client(),
            r is Ok ==> {
                let c = final(self).client()->Some_0;
                let cfg = config->Ok_0;
                &&& final(self).client() is Some
                &&& c.phase() == ClientPhase::Connected
                &&& c.threads() == cfg.settings().threads
                &&& c.batch_size() == cfg.settings().batch_size
                &&& c.max_retries() == cfg.settings().max_retries
                &&& c.retry_delay_ms() == cfg.settings().retry_delay_ms
                &&& c.fatal() == or_default(cfg.panic_on_db_errors, false)
                &&& c.drained()
            },
    {
        self.accounts_selector = Some(Self::create_accounts_selector_from_config(settings));
        self.transaction_selector = Some(Self::create_transaction_selector_from_config(settings));
        match config {
            Err(msg) => Err(AccountsDbPluginError::ConfigFileReadError { msg }),
            Ok(cfg) => match cfg.client_settings() {
                Err(e) => Err(AccountsDbPluginError::Custom(e)),
                Ok(client_settings) => {
                    let fatal = cfg.fatal_on_error();
                    self.client = Some(ReplicationClient::new(client_settings, fatal));
                    Ok(())
                },
            },
        }
    }

    /// Loads the plugin from the text `contents` of its configuration file
    /// and the typed reading `config` of it. Text that is no JSON is a
    /// configuration read error, and nothing changes; otherwise the selectors
    /// come from the document, and the client from a usable `config`.
    pub fn on_load(&mut self, contents: &str, config: Result<AccountsDbPluginBigtableConfig, String>) -> (r:
        Result<(), AccountsDbPluginError>)
        requires
            old(self).wf(),
        ensures
            final(self).wf(),
            !is_json(contents@) ==> (r matches Err(AccountsDbPluginError::ConfigFileReadError { .. })),
            !is_json(contents@) ==> *final(self) == *old(self),
            is_json(contents@) ==> {
                &&& r is Ok <==> (config is Ok && config->Ok_0.valid())
                &&& exists|doc: Json| final(self).selectors_from(doc)
                &&& config is Err ==> r == Err::<(), AccountsDbPluginError>(
                    AccountsDbPluginError::ConfigFileReadError { msg: config->Err_0 },
                )
                &&& config is Ok && !config->Ok_0.valid() ==> r matches Err(
                    AccountsDbPluginError::Custom(
                        AccountsDbPluginBigtableError::ConfigurationError { .. },
                    ),
                )
            },
            r is Ok ==> final(self).connected(),
            r is Err ==> final(self).client() == old(self).client(),
    {
        match parse_json(contents) {
            Err(_) => Err(
                AccountsDbPluginError::ConfigFileReadError {
                    msg: "The config file is not in the JSON format expected".to_owned(),
                },
            ),
            Ok(value) => {
                let settings = Json::from_value(&value, MAX_DEPTH);
                self.load_with(&settings, config)
            },
        }
    }

    /// Unloads the plugin: the client stops taking events and hands out what
    /// it still buffers.
    pub fn on_unload(&mut self) -> (r: Vec<Write>)
        requires
            old(self).wf(),
        ensures
            final(self).wf(),
            old(self).same_selectors(final(self)),
            old(self).client() is None ==> final(self).client() is None && r@.len() == 0,
            old(self).client() is Some ==> {
                let c0 = old(self).client()->Some_0;
                let c1 = final(self).client()->Some_0;
                &&& final(self).client() is Some
                &&& c1.phase() == ClientPhase::Closed
                &&& c0.phase() == ClientPhase::Closed ==> c1 == c0 && r@.len() == 0
                &&& c0.phase() == ClientPhase::Connected ==> c1.drained() && c0.flushes(r@)
            },
    {
        let taken = self.client.take();
        match taken {
            None => Vec::new(),
            Some(mut c) => {
                let writes = c.drain_and_close();
                self.client = Some(c);
                writes
            },
        }
    }

    /// Takes an account update: an update that the accounts selector passes
    /// goes to the client; any other is dropped without contacting the store.
    pub fn update_account(&mut self, event: AccountEvent) -> (r: Result<Vec<Write>, AccountsDbPluginError>)
        requires
            old(self).wf(),
        ensures
            final(self).wf(),
            old(self).same_selectors(final(self)),
            !old(self).account_selected(event) ==> r is Ok && r->Ok_0@.len() == 0
                && final(self).client() == old(self).client(),
            old(self).account_selected(event) && !old(self).connected() ==> r is Err
                && is_connection_absent(r->Err_0) && final(self).client() == old(self).client(),
            old(self).account_selected(event) && old(self).connected() ==> r is Ok && final(self).client() is Some && old(self).client()->Some_0.account_submitted(
                &final(self).client()->Some_0,
                event,
                r->Ok_0@,
            ),
    {
        let selected = match self.accounts_selector.as_ref() {
            None => false,
            Some(s) => s.is_account_selected(&event.pubkey, &event.owner),
        };
        if !selected {
            return Ok(Vec::new());
        }
        let taken = self.client.take();
        match taken {
            None => Err(connection_absent()),
            Some(mut c) => {
                let res = c.submit_account(event);
                self.client = Some(c);
                match res {
                    Ok(writes) => Ok(writes),
                    Err(_) => Err(connection_absent()),
                }
            },
        }
    }

    /// Takes the status `status` of slot `slot`, whose parent is `parent`,
    /// onto the slot-status lane.
    pub fn update_slot_status(&mut self, slot: u64, parent: Option<u64>, status: SlotStatus) -> (r:
        Result<Vec<Write>, AccountsDbPluginError>)
        requires
            old(self).wf(),
        ensures
            final(self).wf(),
            old(self).same_selectors(final(self)),
            !old(self).connected() ==> r is Err && is_connection_absent(r->Err_0) && final(self).client() == old(self).client(),
            old(self).connected() ==> r is Ok && final(self).client() is Some && old(self).client()->Some_0.slot_submitted(
                &final(self).client()->Some_0,
                SlotEvent { slot, parent, status },
                r->Ok_0@,
            ),
    {
        let taken = self.client.take();
        match taken {
            None => Err(connection_absent()),
            Some(mut c) => {
                let res = c.submit_slot_status(SlotEvent { slot, parent, status });
                self.client = Some(c);
                match res {
                    Ok(writes) => Ok(writes),
                    Err(_) => Err(connection_absent()),
                }
            },
        }
    }

    /// The end of startup: every buffered account update is handed out, and
    /// no worker keeps any afterwards.
    pub fn notify_end_of_startup(&mut self) -> (r: Result<Vec<Write>, AccountsDbPluginError>)
        requires
            old(self).wf(),
        ensures
            final(self).wf(),
            old(self).same_selectors(final(self)),
            !old(self).connected() ==> r is Err && is_connection_absent(r->Err_0) && final(self).client() == old(self).client(),
            old(self).connected() ==> r is Ok && final(self).client() is Some && old(self).client()->Some_0.startup_ended(&final(self).client()->Some_0, r->Ok_0@),
    {
        let taken = self.client.take();
        match taken {
            None => Err(connection_absent()),
            Some(mut c) => {
                let res = c.notify_end_of_startup();
                self.client = Some(c);
                match res {
                    Ok(writes) => Ok(writes),
                    Err(_) => Err(connection_absent()),
                }
            },
        }
    }

    /// Takes a transaction: one that the transaction selector passes is
    /// written; any other is dropped without contacting the store.
    pub fn notify_transaction(&self, event: TransactionEvent) -> (r: Result<
        Vec<Write>,
        AccountsDbPluginError,
    >)
        ensures
            !self.transaction_selected(event) ==> r is Ok && r->Ok_0@.len() == 0,
            self.transaction_selected(event) && !self.connected() ==> r is Err
                && is_connection_absent(r->Err_0),
            self.transaction_selected(event) && self.connected() ==> r is Ok && r->Ok_0@ == seq![
                Write::Transaction(event),
            ],
    {
        let selected = match self.transaction_selector.as_ref() {
            None => false,
            Some(s) => s.is_transaction_selected(event.is_vote, event.mentions.as_slice()),
        };
        if !selected {
            return Ok(Vec::new());
        }
        match self.client.as_ref() {
            None => Err(connection_absent()),
            Some(c) => match c.submit_transaction(event) {
                Ok(writes) => Ok(writes),
                Err(_) => Err(connection_absent()),
            },
        }
    }

    /// Takes block metadata; it is written.
    pub fn notify_block_metadata(&self, event: BlockEvent) -> (r: Result<
        Vec<Write>,
        AccountsDbPluginError,
    >)
        ensures
            !self.connected() ==> r is Err && is_connection_absent(r->Err_0),
            self.connected() ==> r is Ok && r->Ok_0@ == seq![Write::Block(event)],
    {
        match self.client.as_ref() {
            None => Err(connection_absent()),
            Some(c) => match c.submit_block_metadata(event) {
                Ok(writes) => Ok(writes),
                Err(_) => Err(connection_absent()),
            },
        }
    }

    /// Whether the plugin takes any account data.
    pub fn account_data_notifications_enabled(&self) -> (r: bool)
        ensures
            r == (self.accounts_selector() is Some && self.accounts_selector()->Some_0.enabled()),
    {
        match self.accounts_selector.as_ref() {
            None => false,
            Some(s) => s.is_enabled(),
        }
    }

    /// Whether the plugin takes any transaction.
    pub fn transaction_notifications_enabled(&self) -> (r: bool)
        ensures
            r == (self.transaction_selector() is Some
                && self.transaction_selector()->Some_0.enabled()),
    {
        match self.transaction_selector.as_ref() {
            None => false,
            Some(s) => s.is_enabled(),
        }
    }

    /// Whether a failed write ends the process.
    pub open spec fn fatal(&self) -> bool {
        self.client() is Some && self.client()->Some_0.fatal()
    }

    /// What to do after attempt number `attempt` of a write failed with
    /// `failure`: the client's retry rule; without a client, give up.
    pub fn after_failure(&self, attempt: u32, failure: WriteFailure) -> (r: RetryStep)
        ensures
            self.client() is None ==> r == RetryStep::Surface(failure),
            self.client() is Some ==> {
                let c = self.client()->Some_0;
                &&& (failure is Transient && attempt < c.max_retries()) ==> r == (RetryStep::Retry {
                    delay_ms: crate::client::backoff(c.retry_delay_ms(), attempt) as u64,
                })
                &&& !(failure is Transient && attempt < c.max_retries()) ==> r
                    == RetryStep::Surface(failure)
            },
    {
        match self.client.as_ref() {
            None => RetryStep::Surface(failure),
            Some(c) => c.after_failure(attempt, failure),
        }
    }

    /// The error for a write of an event of kind `kind` that failed for good
    /// with `failure`: under the fatal policy a fatal condition, which the
    /// caller must turn into the end of the process; otherwise the error of
    /// that kind of event, after which the plugin takes further events as
    /// before.
    pub fn write_failed(&self, kind: EventKind, failure: WriteFailure) -> (r: AccountsDbPluginError)
        ensures
            self.fatal() ==> r == (AccountsDbPluginError::FatalBackendCondition { failure }),
            !self.fatal() ==> r == reported(kind, failure),
    {
        let fatal = match self.client.as_ref() {
            None => false,
            Some(c) => c.is_fatal(),
        };
        if fatal {
            return AccountsDbPluginError::FatalBackendCondition { failure };
        }
        match kind {
            EventKind::Account => AccountsDbPluginError::AccountsUpdateError { failure },
            EventKind::SlotStatus => AccountsDbPluginError::SlotStatusUpdateError { failure },
            EventKind::Transaction => AccountsDbPluginError::TransactionUpdateError { failure },
            EventKind::BlockMetadata => AccountsDbPluginError::BlockMetadataUpdateError { failure },
        }
    }
}

impl Default for AccountsDbPluginBigtable {
    /// A plugin that is not loaded.
    fn default() -> (r: AccountsDbPluginBigtable)
        ensures
            r.wf(),
            r.client() is None,
            r.accounts_selector() is None,
            r.transaction_selector() is None,
    {
        AccountsDbPluginBigtable::new()
    }
}

/// A plugin whose accounts selector was built from no accounts section has
/// account notifications disabled and selects no account update, so none
/// reaches the client.
pub proof fn lemma_absent_accounts_section_forwards_nothing(
    p: AccountsDbPluginBigtable,
    event: AccountEvent,
)
    requires
        p.accounts_selector() is Some,
        p.accounts_selector()->Some_0.built_from(Seq::empty(), Seq::empty()),
    ensures
        !p.accounts_selector()->Some_0.enabled(),
        !p.account_selected(event),
{
    let r = p.accounts_selector()->Some_0;
    if contains_text(Seq::<String>::empty(), wildcard_token()) {
        let i = choose|i: int| 0 <= i < 0 && #[trigger] Seq::<String>::empty()[i]@ == wildcard_token();
    }
    assert(!contains_text(r.accounts@, event.pubkey@));
    assert(!contains_text(r.owners@, event.owner@));
}

} // verus!
