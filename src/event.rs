//! The bridge's events, and their rendering as versioned JSON log lines.

use vstd::prelude::*;
use vstd::string::*;
use crate::address::EthAddress;
use crate::json::{
    array_text, bytes_json, bytes_text, decimal, decimal_string, json_array, json_object,
    json_quoted, object_text, quote, single_line, texts, all_single_line,
    lemma_joined_single_line,
};

verus! {

/// The name of the event standard written into every envelope.
pub const STANDARD: &'static str = "nep297";

/// The version of the event standard written into every envelope.
pub const VERSION: &'static str = "1.0.0";

/// The identifier of an account on the native chain.
pub type AccountId = String;

/// An inclusion proof, carried as raw bytes.
#[derive(Clone, Debug, Default)]
pub struct Proof {
    pub log_index: u64,
    pub log_entry_data: Vec<u8>,
    pub receipt_index: u64,
    pub receipt_data: Vec<u8>,
    pub header_data: Vec<u8>,
    pub proof: Vec<Vec<u8>>,
}

/// An amount of a token given by its Ethereum address.
#[derive(Clone, Debug)]
pub struct TransferDataEthereum {
    pub token: EthAddress,
    pub amount: u128,
}

/// An amount of a token given by its native account.
#[derive(Clone, Debug)]
pub struct TransferDataNear {
    pub token: AccountId,
    pub amount: u128,
}

/// An amount as JSON: its decimal notation, as a string.
pub open spec fn amount_json(n: u128) -> Seq<char> {
    json_quoted(decimal(n as nat))
}

/// An address as JSON: an array of its 20 byte values.
pub open spec fn address_json(a: EthAddress) -> Seq<char> {
    bytes_json(a@)
}

/// A proof as JSON.
pub open spec fn proof_json(p: Proof) -> Seq<char> {
    json_object(
        seq![
            ("log_index"@, decimal(p.log_index as nat)),
            ("log_entry_data"@, bytes_json(p.log_entry_data@)),
            ("receipt_index"@, decimal(p.receipt_index as nat)),
            ("receipt_data"@, bytes_json(p.receipt_data@)),
            ("header_data"@, bytes_json(p.header_data@)),
            ("proof"@, json_array(p.proof@.map_values(|b: Vec<u8>| bytes_json(b@)))),
        ],
    )
}

/// A transfer keyed by an Ethereum token address, as JSON.
pub open spec fn transfer_ethereum_json(t: TransferDataEthereum) -> Seq<char> {
    json_object(seq![("token"@, address_json(t.token)), ("amount"@, amount_json(t.amount))])
}

/// A transfer keyed by a native token account, as JSON.
pub open spec fn transfer_near_json(t: TransferDataNear) -> Seq<char> {
    json_object(seq![("token"@, json_quoted(t.token@)), ("amount"@, amount_json(t.amount))])
}

fn amount_text(n: u128) -> (r: String)
    ensures
        r@ == amount_json(n),
        single_line(r@),
{
    let digits = decimal_string(n);
    quote(digits.as_str())
}

fn address_text(a: &EthAddress) -> (r: String)
    ensures
        r@ == address_json(*a),
        single_line(r@),
{
    bytes_text(a.as_slice())
}

impl Proof {
    /// Renders the proof as JSON.
    pub fn to_json(&self) -> (r: String)
        ensures
            r@ == proof_json(*self),
            single_line(r@),
    {
        let mut path: Vec<String> = Vec::new();
        let mut i: usize = 0;
        while i < self.proof.len()
            invariant
                i <= self.proof.len(),
                texts(path@) =~= self.proof@.take(i as int).map_values(|b: Vec<u8>| bytes_json(b@)),
                all_single_line(texts(path@)),
            decreases self.proof.len() - i,
        {
            let item = bytes_text(self.proof[i].as_slice());
            let ghost before = path@;
            path.push(item);
            proof {
                assert(path@ =~= before.push(item));
                assert(self.proof@.take(i + 1) =~= self.proof@.take(i as int).push(
                    self.proof@[i as int],
                ));
                assert(texts(path@) =~= texts(before).push(item@));
            }
            i = i + 1;
        }
        assert(self.proof@.take(i as int) =~= self.proof@);
        let fields = vec![
            (String::from_str("log_index"), decimal_string(self.log_index as u128)),
            (String::from_str("log_entry_data"), bytes_text(self.log_entry_data.as_slice())),
            (String::from_str("receipt_index"), decimal_string(self.receipt_index as u128)),
            (String::from_str("receipt_data"), bytes_text(self.receipt_data.as_slice())),
            (String::from_str("header_data"), bytes_text(self.header_data.as_slice())),
            (String::from_str("proof"), array_text(&path)),
        ];
        let r = object_text(&fields);
        assert(fields@.map_values(|f: (String, String)| (f.0@, f.1@)) =~= seq![
            ("log_index"@, decimal(self.log_index as nat)),
            ("log_entry_data"@, bytes_json(self.log_entry_data@)),
            ("receipt_index"@, decimal(self.receipt_index as nat)),
            ("receipt_data"@, bytes_json(self.receipt_data@)),
            ("header_data"@, bytes_json(self.header_data@)),
            ("proof"@, json_array(self.proof@.map_values(|b: Vec<u8>| bytes_json(b@)))),
        ]);
        r
    }
}

impl TransferDataEthereum {
    /// Renders the transfer as JSON.
    pub fn to_json(&self) -> (r: String)
        ensures
            r@ == transfer_ethereum_json(*self),
            single_line(r@),
    {
        let fields = vec![
            (String::from_str("token"), address_text(&self.token)),
            (String::from_str("amount"), amount_text(self.amount)),
        ];
        let r = object_text(&fields);
        assert(fields@.map_values(|f: (String, String)| (f.0@, f.1@)) =~= seq![
            ("token"@, address_json(self.token)),
            ("amount"@, amount_json(self.amount)),
        ]);
        r
    }
}

impl TransferDataNear {
    /// Renders the transfer as JSON.
    pub fn to_json(&self) -> (r: String)
        ensures
            r@ == transfer_near_json(*self),
            single_line(r@),
    {
        let fields = vec![
            (String::from_str("token"), quote(self.token.as_str())),
            (String::from_str("amount"), amount_text(self.amount)),
        ];
        let r = object_text(&fields);
        assert(fields@.map_values(|f: (String, String)| (f.0@, f.1@)) =~= seq![
            ("token"@, json_quoted(self.token@)),
            ("amount"@, amount_json(self.amount)),
        ]);
        r
    }
}

/// One occurrence in the life of a bridge transfer. The event borrows what
/// it reports: it is made to be written to the log at once.
pub enum Event<'a> {
    /// A transfer request was given a nonce.
    SpectreBridgeNonceEvent {
        nonce: &'a u128,
        account: &'a AccountId,
        transfer: &'a TransferDataEthereum,
        recipient: &'a EthAddress,
    },
    /// A transfer was accepted, to be done before `valid_till`, for a fee.
    SpectreBridgeTransferEvent {
        nonce: &'a u128,
        valid_till: u64,
        transfer: &'a TransferDataNear,
        fee: &'a TransferDataNear,
        recipient: &'a EthAddress,
    },
    /// An accepted transfer failed.
    SpectreBridgeTransferFailedEvent { nonce: &'a u128, account: &'a AccountId },
    /// The funds locked for a nonce were released.
    SpectreBridgeUnlockEvent { nonce: &'a u128, account: &'a AccountId },
    /// An account deposited an amount of a token.
    SpectreBridgeDepositEvent { account: &'a AccountId, token: &'a AccountId, amount: &'a u128 },
    /// A submitted proof was rejected.
    SpectreBridgeEthProoverNotProofedEvent { sender: &'a String, nonce: &'a u128, proof: &'a Proof },
}

impl<'a> Event<'a> {
    /// The event's name: its variant's name in snake case.
    pub open spec fn spec_tag(self) -> Seq<char> {
        match self {
            Event::SpectreBridgeNonceEvent { .. } => "spectre_bridge_nonce_event"@,
            Event::SpectreBridgeTransferEvent { .. } => "spectre_bridge_transfer_event"@,
            Event::SpectreBridgeTransferFailedEvent { .. } => "spectre_bridge_transfer_failed_event"@,
            Event::SpectreBridgeUnlockEvent { .. } => "spectre_bridge_unlock_event"@,
            Event::SpectreBridgeDepositEvent { .. } => "spectre_bridge_deposit_event"@,
            Event::SpectreBridgeEthProoverNotProofedEvent {
                ..
            } => "spectre_bridge_eth_proover_not_proofed_event"@,
        }
    }

    /// The names of the variant's fields, in their declared order.
    pub open spec fn field_names(self) -> Seq<Seq<char>> {
        match self {
            Event::SpectreBridgeNonceEvent { .. } => seq![
                "nonce"@,
                "account"@,
                "transfer"@,
                "recipient"@,
            ],
            Event::SpectreBridgeTransferEvent { .. } => seq![
                "nonce"@,
                "valid_till"@,
                "transfer"@,
                "fee"@,
                "recipient"@,
            ],
            Event::SpectreBridgeTransferFailedEvent { .. } => seq!["nonce"@, "account"@],
            Event::SpectreBridgeUnlockEvent { .. } => seq!["nonce"@, "account"@],
            Event::SpectreBridgeDepositEvent { .. } => seq!["account"@, "token"@, "amount"@],
            Event::SpectreBridgeEthProoverNotProofedEvent { .. } => seq![
                "sender"@,
                "nonce"@,
                "proof"@,
            ],
        }
    }

    /// The event's payload: each field's name with its JSON value.
    pub open spec fn data_fields(self) -> Seq<(Seq<char>, Seq<char>)> {
        match self {
            Event::SpectreBridgeNonceEvent { nonce, account, transfer, recipient } => seq![
                ("nonce"@, amount_json(*nonce)),
                ("account"@, json_quoted(account@)),
                ("transfer"@, transfer_ethereum_json(*transfer)),
                ("recipient"@, address_json(*recipient)),
            ],
            Event::SpectreBridgeTransferEvent { nonce, valid_till, transfer, fee, recipient } => seq![
                ("nonce"@, amount_json(*nonce)),
                ("valid_till"@, decimal(valid_till as nat)),
                ("transfer"@, transfer_near_json(*transfer)),
                ("fee"@, transfer_near_json(*fee)),
                ("recipient"@, address_json(*recipient)),
            ],
            Event::SpectreBridgeTransferFailedEvent { nonce, account } => seq![
                ("nonce"@, amount_json(*nonce)),
                ("account"@, json_quoted(account@)),
            ],
            Event::SpectreBridgeUnlockEvent { nonce, account } => seq![
                ("nonce"@, amount_json(*nonce)),
                ("account"@, json_quoted(account@)),
            ],
            Event::SpectreBridgeDepositEvent { account, token, amount } => seq![
                ("account"@, json_quoted(account@)),
                ("token"@, json_quoted(token@)),
                ("amount"@, amount_json(*amount)),
            ],
            Event::SpectreBridgeEthProoverNotProofedEvent { sender, nonce, proof } => seq![
                ("sender"@, json_quoted(sender@)),
                ("nonce"@, amount_json(*nonce)),
                ("proof"@, proof_json(*proof)),
            ],
        }
    }

    /// The event's payload as a JSON object.
    pub open spec fn data_json(self) -> Seq<char> {
        json_object(self.data_fields())
    }
}

impl<'a> Event<'a> {
    /// The event's name, in snake case.
    pub fn tag(&self) -> (r: &'static str)
        ensures
            r@ == self.spec_tag(),
    {
        match self {
            Event::SpectreBridgeNonceEvent { .. } => "spectre_bridge_nonce_event",
            Event::SpectreBridgeTransferEvent { .. } => "spectre_bridge_transfer_event",
            Event::SpectreBridgeTransferFailedEvent { .. } => "spectre_bridge_transfer_failed_event",
            Event::SpectreBridgeUnlockEvent { .. } => "spectre_bridge_unlock_event",
            Event::SpectreBridgeDepositEvent { .. } => "spectre_bridge_deposit_event",
            Event::SpectreBridgeEthProoverNotProofedEvent {
                ..
            } => "spectre_bridge_eth_proover_not_proofed_event",
        }
    }

    /// Renders the event's payload as a JSON object whose keys are the
    /// variant's field names.
    pub fn data(&self) -> (r: String)
        ensures
            r@ == self.data_json(),
            single_line(r@),
    {
        let fields = match self {
            Event::SpectreBridgeNonceEvent { nonce, account, transfer, recipient } => vec![
                (String::from_str("nonce"), amount_text(**nonce)),
                (String::from_str("account"), quote(account.as_str())),
                (String::from_str("transfer"), transfer.to_json()),
                (String::from_str("recipient"), address_text(recipient)),
            ],
            Event::SpectreBridgeTransferEvent { nonce, valid_till, transfer, fee, recipient } => vec![
                (String::from_str("nonce"), amount_text(**nonce)),
                (String::from_str("valid_till"), decimal_string(*valid_till as u128)),
                (String::from_str("transfer"), transfer.to_json()),
                (String::from_str("fee"), fee.to_json()),
                (String::from_str("recipient"), address_text(recipient)),
            ],
            Event::SpectreBridgeTransferFailedEvent { nonce, account } => vec![
                (String::from_str("nonce"), amount_text(**nonce)),
                (String::from_str("account"), quote(account.as_str())),
            ],
            Event::SpectreBridgeUnlockEvent { nonce, account } => vec![
                (String::from_str("nonce"), amount_text(**nonce)),
                (String::from_str("account"), quote(account.as_str())),
            ],
            Event::SpectreBridgeDepositEvent { account, token, amount } => vec![
                (String::from_str("account"), quote(account.as_str())),
                (String::from_str("token"), quote(token.as_str())),
                (String::from_str("amount"), amount_text(**amount)),
            ],
            Event::SpectreBridgeEthProoverNotProofedEvent { sender, nonce, proof } => vec![
                (String::from_str("sender"), quote(sender.as_str())),
                (String::from_str("nonce"), amount_text(**nonce)),
                (String::from_str("proof"), proof.to_json()),
            ],
        };
        assert(fields@.map_values(|f: (String, String)| (f.0@, f.1@)) =~= self.data_fields());
        object_text(&fields)
    }
}

/// The envelope around an event: the standard and its version, the event's
/// name and its payload, already rendered as JSON.
pub struct EventMessage {
    pub standard: String,
    pub version: String,
    pub event: String,
    pub data: String,
}

/// The envelope as a JSON object with the keys `standard`, `version`,
/// `event` and `data`, in that order.
pub open spec fn envelope_json(
    standard: Seq<char>,
    version: Seq<char>,
    event: Seq<char>,
    data: Seq<char>,
) -> Seq<char> {
    json_object(
        seq![
            ("standard"@, json_quoted(standard)),
            ("version"@, json_quoted(version)),
            ("event"@, json_quoted(event)),
            ("data"@, data),
        ],
    )
}

/// The prefix of every event log line.
pub open spec fn log_prefix() -> Seq<char> {
    "EVENT_JSON:"@
}

/// The log line that reports an event.
pub open spec fn event_line(e: Event) -> Seq<char> {
    log_prefix() + envelope_json("nep297"@, "1.0.0"@, e.spec_tag(), e.data_json())
}

impl EventMessage {
    /// Renders the envelope as a JSON object.
    pub fn to_json(&self) -> (r: String)
        ensures
            r@ == envelope_json(self.standard@, self.version@, self.event@, self.data@),
            single_line(self.data@) ==> single_line(r@),
    {
        let fields = vec![
            (String::from_str("standard"), quote(self.standard.as_str())),
            (String::from_str("version"), quote(self.version.as_str())),
            (String::from_str("event"), quote(self.event.as_str())),
            (String::from_str("data"), self.data.clone()),
        ];
        let r = object_text(&fields);
        assert(fields@.map_values(|f: (String, String)| (f.0@, f.1@)) =~= seq![
            ("standard"@, json_quoted(self.standard@)),
            ("version"@, json_quoted(self.version@)),
            ("event"@, json_quoted(self.event@)),
            ("data"@, self.data@),
        ]);
        r
    }

    /// The log line for the envelope: `EVENT_JSON:` and then, with nothing
    /// between them, the envelope's JSON.
    pub fn log_line(&self) -> (r: String)
        ensures
            r@ == log_prefix() + envelope_json(
                self.standard@,
                self.version@,
                self.event@,
                self.data@,
            ),
            single_line(self.data@) ==> single_line(r@),
    {
        let mut r = String::from_str("EVENT_JSON:");
        let body = self.to_json();
        r.append(body.as_str());
        proof {
            if single_line(self.data@) {
                reveal_strlit("EVENT_JSON:");
                lemma_joined_single_line("EVENT_JSON:"@, body@);
            }
        }
        r
    }
}

impl<'a> Event<'a> {
    /// Wraps the event in the envelope of the standard's current version.
    pub fn message(&self) -> (r: EventMessage)
        ensures
            r.standard@ == "nep297"@,
            r.version@ == "1.0.0"@,
            r.event@ == self.spec_tag(),
            r.data@ == self.data_json(),
            single_line(r.data@),
    {
        EventMessage {
            standard: String::from_str(STANDARD),
            version: String::from_str(VERSION),
            event: String::from_str(self.tag()),
            data: self.data(),
        }
    }

    /// The log line that reports the event.
    pub fn log_line(&self) -> (r: String)
        ensures
            r@ == event_line(*self),
            single_line(r@),
    {
        self.message().log_line()
    }
}

/// Every event's log line is `EVENT_JSON:` followed, with nothing between,
/// by a JSON object with exactly the keys `standard`, `version`, `event` and
/// `data`: the standard `nep297`, version `1.0.0`, the variant's name in
/// snake case, and an object whose keys are exactly the variant's field names.
pub proof fn lemma_event_line_shape(e: Event)
    ensures
        event_line(e).subrange(0, 11) == "EVENT_JSON:"@,
        event_line(e) == "EVENT_JSON:"@ + json_object(
            seq![
                ("standard"@, json_quoted("nep297"@)),
                ("version"@, json_quoted("1.0.0"@)),
                ("event"@, json_quoted(e.spec_tag())),
                ("data"@, json_object(e.data_fields())),
            ],
        ),
        e.data_fields().map_values(|f: (Seq<char>, Seq<char>)| f.0) == e.field_names(),
{
    reveal_strlit("EVENT_JSON:");
    let line = event_line(e);
    assert(line.subrange(0, 11) =~= "EVENT_JSON:"@);
    assert(e.data_fields().map_values(|f: (Seq<char>, Seq<char>)| f.0) =~= e.field_names());
}

/// Writing an event is deterministic: two events with the same content give
/// byte-identical log lines.
pub proof fn lemma_event_line_deterministic(a: Event, b: Event)
    requires
        a == b,
    ensures
        event_line(a) == event_line(b),
{
}

} // verus!
