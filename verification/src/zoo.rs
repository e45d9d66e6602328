//! The reference dataset and the lookup handler.
//!
//! The dataset is a fixed table of three animals, keyed by the lower-case
//! animal name. A lookup normalizes the incoming name by case folding alone
//! (no trimming) and either finds the stored record or reports a miss that
//! carries the original, un-normalized input.

use vstd::prelude::*;

use crate::text::lower_of;
use crate::text::to_lower;

verus! {

/// What is known of one animal: its habitat and its diet.
#[derive(Debug, Clone, PartialEq, Eq)]
pub struct AnimalRecord {
    pub habitat: String,
    pub diet: String,
}

/// The mathematical value of an [`AnimalRecord`]: both fields as character
/// sequences.
pub struct RecordModel {
    pub habitat: Seq<char>,
    pub diet: Seq<char>,
}

impl View for AnimalRecord {
    type V = RecordModel;

    open spec fn view(&self) -> RecordModel {
        RecordModel { habitat: self.habitat@, diet: self.diet@ }
    }
}

/// The outcome of a lookup. A miss is a normal, representable outcome, not a
/// failure: it carries the queried name exactly as it was received.
#[derive(Debug, Clone, PartialEq, Eq)]
pub enum LookupResult {
    Found(AnimalRecord),
    NotFound { queried_name: String },
}

/// The mathematical value of a [`LookupResult`].
pub enum ResultModel {
    Found(RecordModel),
    NotFound { queried_name: Seq<char> },
}

impl View for LookupResult {
    type V = ResultModel;

    open spec fn view(&self) -> ResultModel {
        match self {
            LookupResult::Found(record) => ResultModel::Found(record@),
            LookupResult::NotFound { queried_name } => ResultModel::NotFound {
                queried_name: queried_name@,
            },
        }
    }
}

/// The reference dataset: an order-irrelevant map from lower-case animal name
/// to its record. It is fixed for the life of the process; nothing inserts,
/// updates or deletes.
pub open spec fn dataset() -> Map<Seq<char>, RecordModel> {
    map![
        "lion"@ => RecordModel { habitat: "savanna"@, diet: "carnivore"@ },
        "penguin"@ => RecordModel { habitat: "antarctica"@, diet: "piscivore"@ },
        "giraffe"@ => RecordModel { habitat: "savanna"@, diet: "herbivore"@ },
    ]
}

/// What a lookup returns for a raw input `name`: the stored record when the
/// case folding of `name` is a dataset key, and otherwise a miss carrying
/// `name` itself.
pub open spec fn lookup_outcome(name: Seq<char>) -> ResultModel {
    let key = lower_of(name);
    if dataset().contains_key(key) {
        ResultModel::Found(dataset()[key])
    } else {
        ResultModel::NotFound { queried_name: name }
    }
}

/// The three dataset keys are pairwise distinct.
proof fn lemma_keys_distinct()
    ensures
        "lion"@ != "penguin"@,
        "lion"@ != "giraffe"@,
        "penguin"@ != "giraffe"@,
{
    reveal_strlit("lion");
    reveal_strlit("penguin");
    reveal_strlit("giraffe");
    assert("lion"@.len() != "penguin"@.len());
    assert("lion"@.len() != "giraffe"@.len());
    assert("penguin"@[0] != "giraffe"@[0]);
}

/// Law: every seeded animal is present, with exactly the habitat and diet the
/// dataset tabulates for it, and nothing else is.
pub proof fn lemma_dataset_complete()
    ensures
        dataset().contains_key("lion"@),
        dataset()["lion"@] == (RecordModel { habitat: "savanna"@, diet: "carnivore"@ }),
        dataset().contains_key("penguin"@),
        dataset()["penguin"@] == (RecordModel { habitat: "antarctica"@, diet: "piscivore"@ }),
        dataset().contains_key("giraffe"@),
        dataset()["giraffe"@] == (RecordModel { habitat: "savanna"@, diet: "herbivore"@ }),
        dataset().dom() =~= set!["lion"@, "penguin"@, "giraffe"@],
{
    lemma_keys_distinct();
}

/// Law: any input whose case folding is a dataset key is found, and the
/// record handed back is the one stored under that key.
pub proof fn lemma_seeded_found(name: Seq<char>)
    requires
        dataset().contains_key(lower_of(name)),
    ensures
        lookup_outcome(name) == ResultModel::Found(dataset()[lower_of(name)]),
{
}

/// Law: any input whose case folding matches no dataset key is reported as
/// not found, and the miss carries the original input unchanged.
pub proof fn lemma_unseeded_not_found(name: Seq<char>)
    requires
        !dataset().contains_key(lower_of(name)),
    ensures
        lookup_outcome(name) == (ResultModel::NotFound { queried_name: name }),
{
}

/// Law: the outcome is a function of the input alone, so two lookups of the
/// same input in the same process yield identical results; nothing is
/// mutated between calls, and simultaneous lookups cannot contaminate one
/// another.
pub proof fn lemma_lookup_idempotent(name: Seq<char>, first: ResultModel, second: ResultModel)
    requires
        first == lookup_outcome(name),
        second == lookup_outcome(name),
    ensures
        first == second,
{
}

/// The handler: a stateless, synchronous lookup against the fixed dataset.
#[derive(Debug, Clone)]
pub struct ZooServer {}

impl ZooServer {
    /// Makes a handler. It holds no state of its own.
    pub fn new() -> (server: Self) {
        ZooServer {  }
    }

    /// Case-insensitive lookup of an animal. The whole input is case folded —
    /// no trimming, no other rewriting — and matched exactly against the
    /// dataset keys; a miss returns the input as it was received.
    pub fn get_animal_details(&self, animal_name: String) -> (result: LookupResult)
        ensures
            result@ == lookup_outcome(animal_name@),
    {
        let key = to_lower(animal_name.as_str());
        proof {
            lemma_keys_distinct();
        }
        if key == String::from_str("lion") {
            LookupResult::Found(
                AnimalRecord {
                    habitat: String::from_str("savanna"),
                    diet: String::from_str("carnivore"),
                },
            )
        } else if key == String::from_str("penguin") {
            LookupResult::Found(
                AnimalRecord {
                    habitat: String::from_str("antarctica"),
                    diet: String::from_str("piscivore"),
                },
            )
        } else if key == String::from_str("giraffe") {
            LookupResult::Found(
                AnimalRecord {
                    habitat: String::from_str("savanna"),
                    diet: String::from_str("herbivore"),
                },
            )
        } else {
            LookupResult::NotFound { queried_name: animal_name }
        }
    }
}

} // verus!
