//! The enrollment record: the secret, the counter and the PIN, as they are
//! kept between runs.

use crate::failure::{DecodeError, DecodeFault, Field};
use crate::json::{
    json_document, json_text, json_tree, lookup, object_value, parse, text_at, text_member,
    text_value, unsigned_at, unsigned_member, unsigned_value, write_value, JsonTree,
};
use vstd::prelude::*;
use vstd::string::StringExecFns;

verus! {

/// The one record that is persisted.
#[derive(Clone, Debug, PartialEq, Eq)]
pub struct HOTPData {
    /// The key that codes are derived from. Set by activation, never changed.
    pub secret: String,
    /// How many codes have been issued for `secret`.
    pub counter: u64,
    /// What the user puts in front of every code. Set once, never changed.
    pub pin: String,
}

/// A record as a mathematical value.
pub struct RecordModel {
    pub secret: Seq<char>,
    pub counter: u64,
    pub pin: Seq<char>,
}

impl View for HOTPData {
    type V = RecordModel;

    open spec fn view(&self) -> RecordModel {
        RecordModel { secret: self.secret@, counter: self.counter, pin: self.pin@ }
    }
}

/// The document a record is written as: an object with the members
/// `secret`, `counter` and `pin`, in this order.
pub open spec fn record_document(r: RecordModel) -> JsonTree {
    JsonTree::Object(
        seq![
            (Field::Secret.key(), JsonTree::Text(r.secret)),
            (Field::Counter.key(), JsonTree::Unsigned(r.counter)),
            (Field::Pin.key(), JsonTree::Text(r.pin)),
        ],
    )
}

/// The record that a document holds. The members are looked at in the
/// order `secret`, `counter`, `pin`, and the first that is missing or of
/// another type decides the failure. Other members are not looked at.
pub open spec fn decode_record(doc: JsonTree) -> Result<RecordModel, DecodeFault> {
    match text_at(doc, Field::Secret) {
        Err(fault) => Err(fault),
        Ok(secret) => match unsigned_at(doc, Field::Counter) {
            Err(fault) => Err(fault),
            Ok(counter) => match text_at(doc, Field::Pin) {
                Err(fault) => Err(fault),
                Ok(pin) => Ok(RecordModel { secret, counter, pin }),
            },
        },
    }
}

/// The record that a persisted text holds.
pub open spec fn load_outcome(text: Seq<char>) -> Result<RecordModel, DecodeFault> {
    match json_document(text) {
        Err(message) => Err(DecodeFault::Syntax(message)),
        Ok(doc) => decode_record(doc),
    }
}

/// The text a record is persisted as.
pub open spec fn persisted_text(r: RecordModel) -> Seq<char> {
    json_text(record_document(r))
}

/// The record after one more code has been issued; `None` where the
/// counter has no next value.
pub open spec fn advanced(r: RecordModel) -> Option<RecordModel> {
    if r.counter < u64::MAX {
        Some(RecordModel { secret: r.secret, counter: (r.counter + 1) as u64, pin: r.pin })
    } else {
        None
    }
}

impl HOTPData {
    /// The record of a fresh enrollment: no code issued yet.
    pub fn new(secret: String, pin: String) -> (r: HOTPData)
        ensures
            r@ == (RecordModel { secret: secret@, counter: 0, pin: pin@ }),
    {
        HOTPData { secret, counter: 0, pin }
    }

    /// Reads a record out of a parsed document.
    pub fn from_document(doc: &serde_json::Value) -> (r: Result<HOTPData, DecodeError>)
        ensures
            match r {
                Ok(record) => decode_record(json_tree(*doc)) == Ok::<RecordModel, DecodeFault>(
                    record@,
                ),
                Err(e) => decode_record(json_tree(*doc)) == Err::<RecordModel, DecodeFault>(
                    e@,
                ),
            },
    {
        let secret = text_member(doc, Field::Secret)?;
        let counter = unsigned_member(doc, Field::Counter)?;
        let pin = text_member(doc, Field::Pin)?;
        Ok(HOTPData { secret, counter, pin })
    }

    /// Reads a record out of the text it was persisted as.
    pub fn load(text: &str) -> (r: Result<HOTPData, DecodeError>)
        ensures
            match r {
                Ok(record) => load_outcome(text@) == Ok::<RecordModel, DecodeFault>(record@),
                Err(e) => load_outcome(text@) == Err::<RecordModel, DecodeFault>(e@),
            },
    {
        let doc = parse(text)?;
        HOTPData::from_document(&doc)
    }

    /// The record as a document.
    pub fn to_document(&self) -> (doc: serde_json::Value)
        ensures
            json_tree(doc) == record_document(self@),
    {
        let mut members: Vec<(String, serde_json::Value)> = Vec::new();
        members.push((String::from_str(Field::Secret.name()), text_value(self.secret.as_str())));
        members.push((String::from_str(Field::Counter.name()), unsigned_value(self.counter)));
        members.push((String::from_str(Field::Pin.name()), text_value(self.pin.as_str())));
        proof {
            lemma_record_keys_differ();
            assert(crate::json::members_model(members@) =~= seq![
                (Field::Secret.key(), JsonTree::Text(self.secret@)),
                (Field::Counter.key(), JsonTree::Unsigned(self.counter)),
                (Field::Pin.key(), JsonTree::Text(self.pin@)),
            ]);
        }
        object_value(members)
    }

    /// The text to persist for this record.
    pub fn persist(&self) -> (text: String)
        ensures
            text@ == persisted_text(self@),
    {
        let doc = self.to_document();
        write_value(&doc).unwrap()
    }

    /// The record to persist once a code has been issued for this one: the
    /// same secret and PIN, the counter one higher. `None` where the
    /// counter has no next value.
    pub fn advance(self) -> (r: Option<HOTPData>)
        ensures
            match r {
                Some(next) => advanced(self@) == Some(next@),
                None => advanced(self@) is None,
            },
    {
        if self.counter < u64::MAX {
            Some(HOTPData { secret: self.secret, counter: self.counter + 1, pin: self.pin })
        } else {
            None
        }
    }
}

/// The three keys of a record are pairwise different.
pub proof fn lemma_record_keys_differ()
    ensures
        Field::Secret.key() != Field::Counter.key(),
        Field::Secret.key() != Field::Pin.key(),
        Field::Counter.key() != Field::Pin.key(),
{
    reveal_strlit("secret");
    reveal_strlit("counter");
    reveal_strlit("pin");
    assert("secret"@.len() == 6);
    assert("counter"@.len() == 7);
    assert("pin"@.len() == 3);
}

/// Writing a record as a document and reading the document gives the
/// record back: secret, counter and PIN unchanged.
pub proof fn lemma_document_round_trip(r: RecordModel)
    ensures
        decode_record(record_document(r)) == Ok::<RecordModel, DecodeFault>(r),
{
    lemma_record_keys_differ();
    let members = seq![
        (Field::Secret.key(), JsonTree::Text(r.secret)),
        (Field::Counter.key(), JsonTree::Unsigned(r.counter)),
        (Field::Pin.key(), JsonTree::Text(r.pin)),
    ];
    let rest = members.drop_first();
    let last = rest.drop_first();
    assert(rest[0] == members[1]);
    assert(last[0] == members[2]);
    reveal_with_fuel(lookup, 4);
    assert(lookup(members, Field::Secret.key()) == Some(JsonTree::Text(r.secret)));
    assert(lookup(members, Field::Counter.key()) == Some(JsonTree::Unsigned(r.counter)));
    assert(lookup(members, Field::Pin.key()) == Some(JsonTree::Text(r.pin)));
}

/// The record that is persisted after a number of completed runs that
/// began with `r`; `None` where the counter ran out on the way.
pub open spec fn after_runs(r: RecordModel, runs: nat) -> Option<RecordModel>
    decreases runs,
{
    if runs == 0 {
        Some(r)
    } else {
        match after_runs(r, (runs - 1) as nat) {
            Some(previous) => advanced(previous),
            None => None,
        }
    }
}

/// Each completed run raises the counter by exactly one and leaves the
/// secret and the PIN as they were.
pub proof fn lemma_runs_count(r: RecordModel, runs: nat)
    requires
        after_runs(r, runs) is Some,
    ensures
        after_runs(r, runs)->0.counter == r.counter + runs,
        after_runs(r, runs)->0.secret == r.secret,
        after_runs(r, runs)->0.pin == r.pin,
    decreases runs,
{
    if runs > 0 {
        lemma_runs_count(r, (runs - 1) as nat);
    }
}

/// No counter is persisted twice for one secret: of two completed runs,
/// the later one persists the higher counter.
pub proof fn lemma_counter_never_repeats(r: RecordModel, earlier: nat, later: nat)
    requires
        earlier < later,
        after_runs(r, later) is Some,
    ensures
        after_runs(r, earlier) is Some,
        after_runs(r, earlier)->0.counter < after_runs(r, later)->0.counter,
        after_runs(r, earlier)->0.secret == after_runs(r, later)->0.secret,
    decreases later,
{
    if earlier + 1 < later {
        lemma_counter_never_repeats(r, earlier, (later - 1) as nat);
    }
    lemma_runs_count(r, later);
    lemma_runs_count(r, earlier);
}

} // verus!
